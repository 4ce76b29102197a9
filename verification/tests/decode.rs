use puz::document::parse_puz;
use puz::error::PuzError;
use puz::header::parse_header;

/// The fixed region: two checksum bytes, the marker, and the remaining
/// header fields (version "1.3", zeroed checksums and reserved bytes).
fn fixed_region(file_checksum: [u8; 2], width: u8, height: u8, num_clues: u16) -> Vec<u8> {
    let mut v: Vec<u8> = Vec::new();
    v.extend_from_slice(&file_checksum);
    v.extend_from_slice(b"ACROSS&DOWN\0");
    v.extend_from_slice(&[0, 0]); // base_checksum
    v.extend_from_slice(&[0, 0, 0, 0]); // masked_low_checksums
    v.extend_from_slice(&[0, 0, 0, 0]); // masked_high_checksums
    v.extend_from_slice(b"1.3\0"); // version
    v.extend_from_slice(&[0, 0]); // reserved_1c
    v.extend_from_slice(&[0, 0]); // scrambled_checksum
    v.extend_from_slice(&[0; 12]); // reserved_20
    v.push(width);
    v.push(height);
    v.push((num_clues & 0xff) as u8);
    v.push((num_clues >> 8) as u8);
    v.extend_from_slice(&[0, 0]); // unknown_bitmask
    v.extend_from_slice(&[0, 0]); // scrambled_tag
    v
}

#[test]
fn concrete_scenario_round() {
    let mut buf = fixed_region([0xab, 0xcd], 2, 1, 0);
    buf.extend_from_slice(b"AB"); // solution
    buf.extend_from_slice(b"CD"); // grid
    buf.extend_from_slice(b"\0\0\0\0"); // title, author, copyright, notes
    let doc = parse_puz(&buf).unwrap();
    assert_eq!(doc.leading_bytes, Vec::<u8>::new());
    assert_eq!(doc.file_checksum, 0xcdab);
    assert_eq!(doc.base_checksum, 0);
    assert_eq!(doc.version, "1.3");
    assert_eq!(doc.scrambled_checksum, 0);
    assert_eq!(doc.width, 2);
    assert_eq!(doc.height, 1);
    assert_eq!(doc.num_clues, 0);
    assert_eq!(doc.unknown_bitmask, 0);
    assert_eq!(doc.scrambled_tag, 0);
    assert_eq!(doc.solution, vec!['A', 'B']);
    assert_eq!(doc.grid, vec!['C', 'D']);
    assert_eq!(doc.title, "");
    assert_eq!(doc.author, "");
    assert_eq!(doc.copyright, "");
    assert_eq!(doc.clues, Vec::<String>::new());
    assert_eq!(doc.notes, "");
    assert_eq!(doc.trailing_bytes, Vec::<u8>::new());
}

#[test]
fn leading_bytes_and_checksum_reproduce_the_buffer() {
    let mut buf: Vec<u8> = vec![0x01, 0x02, 0x03];
    buf.extend(fixed_region([0x34, 0x12], 1, 1, 0));
    buf.extend_from_slice(b"X");
    buf.extend_from_slice(b"Y");
    buf.extend_from_slice(b"\0\0\0\0");
    let doc = parse_puz(&buf).unwrap();
    assert_eq!(doc.leading_bytes, vec![0x01, 0x02, 0x03]);
    // re-slicing the input buffer reproduces the leading bytes and the
    // two checksum bytes that follow them
    let l = doc.leading_bytes.len();
    assert_eq!(&buf[0..l], &doc.leading_bytes[..]);
    assert_eq!(&buf[l..l + 2], &[0x34, 0x12]);
    assert_eq!(doc.file_checksum, 0x1234);
}

#[test]
fn parse_is_idempotent() {
    let mut buf = fixed_region([0xab, 0xcd], 2, 2, 1);
    buf.extend_from_slice(b"ABCD");
    buf.extend_from_slice(b"EFGH");
    buf.extend_from_slice(b"title\0author\0copyright\0");
    buf.extend_from_slice(b"a clue\0");
    buf.extend_from_slice(b"notes\0");
    buf.extend_from_slice(&[1, 2, 3]);
    let first = parse_puz(&buf).unwrap();
    let second = parse_puz(&buf).unwrap();
    assert_eq!(first, second);
}

#[test]
fn marker_at_offset_zero_fails() {
    let mut buf: Vec<u8> = Vec::new();
    buf.extend_from_slice(b"ACROSS&DOWN\0");
    buf.extend_from_slice(&[0; 60]);
    assert_eq!(parse_puz(&buf), Err(PuzError::InsufficientPrefix));
}

#[test]
fn marker_at_offset_one_fails() {
    let mut buf: Vec<u8> = vec![0xaa];
    buf.extend_from_slice(b"ACROSS&DOWN\0");
    buf.extend_from_slice(&[0; 60]);
    assert_eq!(parse_puz(&buf), Err(PuzError::InsufficientPrefix));
}

#[test]
fn missing_marker_fails() {
    let buf: Vec<u8> = vec![0x55; 200];
    assert_eq!(parse_puz(&buf), Err(PuzError::MarkerNotFound));
}

#[test]
fn zero_width_gives_empty_grids() {
    let mut buf = fixed_region([0, 0], 0, 5, 0);
    buf.extend_from_slice(b"\0\0\0\0");
    let doc = parse_puz(&buf).unwrap();
    assert_eq!(doc.width, 0);
    assert_eq!(doc.height, 5);
    assert_eq!(doc.solution, Vec::<char>::new());
    assert_eq!(doc.grid, Vec::<char>::new());
}

#[test]
fn zero_height_gives_empty_grids() {
    let mut buf = fixed_region([0, 0], 7, 0, 0);
    buf.extend_from_slice(b"\0\0\0\0");
    let doc = parse_puz(&buf).unwrap();
    assert_eq!(doc.solution, Vec::<char>::new());
    assert_eq!(doc.grid, Vec::<char>::new());
}

#[test]
fn unterminated_title_fails() {
    let mut buf = fixed_region([0, 0], 1, 1, 0);
    buf.extend_from_slice(b"A");
    buf.extend_from_slice(b"B");
    buf.extend_from_slice(b"title runs to the end");
    assert_eq!(parse_puz(&buf), Err(PuzError::UnterminatedString));
}

#[test]
fn truncated_header_fails() {
    let mut buf: Vec<u8> = vec![0, 0];
    buf.extend_from_slice(b"ACROSS&DOWN\0");
    buf.extend_from_slice(&[0, 0, 0]);
    assert_eq!(parse_puz(&buf), Err(PuzError::UnexpectedEof));
}

#[test]
fn truncated_header_after_marker_fails() {
    let mut buf: Vec<u8> = vec![0, 0];
    buf.extend_from_slice(b"ACROSS&DOWN\0");
    buf.extend_from_slice(&[0; 20]); // marker is whole, but the header is not
    assert_eq!(parse_puz(&buf), Err(PuzError::UnexpectedEof));
}

#[test]
fn truncated_grid_fails() {
    let mut buf = fixed_region([0, 0], 2, 2, 0);
    buf.extend_from_slice(b"AB");
    assert_eq!(parse_puz(&buf), Err(PuzError::UnexpectedEof));
}

#[test]
fn header_recheck_reports_magic_mismatch() {
    // parse_header re-checks the marker defensively even though the
    // scanner normally guarantees it
    let buf: Vec<u8> = vec![0; 60];
    assert_eq!(parse_header(&buf, 0), Err(PuzError::MagicMismatch));
}

#[test]
fn clues_keep_count_and_order() {
    let mut buf = fixed_region([0, 0], 1, 2, 3);
    buf.extend_from_slice(b"AB");
    buf.extend_from_slice(b"CD");
    buf.extend_from_slice(b"t\0a\0c\0");
    buf.extend_from_slice(b"first\0second\0third\0");
    buf.extend_from_slice(b"n\0");
    let doc = parse_puz(&buf).unwrap();
    assert_eq!(doc.num_clues, 3);
    assert_eq!(
        doc.clues,
        vec![
            String::from("first"),
            String::from("second"),
            String::from("third")
        ]
    );
    assert_eq!(doc.solution.len(), 2);
    assert_eq!(doc.grid.len(), 2);
}

#[test]
fn trailing_bytes_are_collected_verbatim() {
    let mut buf = fixed_region([0, 0], 1, 1, 0);
    buf.extend_from_slice(b"A");
    buf.extend_from_slice(b"B");
    buf.extend_from_slice(b"\0\0\0\0");
    buf.extend_from_slice(&[0xde, 0xad, 0xbe, 0xef]);
    let doc = parse_puz(&buf).unwrap();
    assert_eq!(doc.trailing_bytes, vec![0xde, 0xad, 0xbe, 0xef]);
}

#[test]
fn non_ascii_cells_pass_through() {
    let mut buf = fixed_region([0, 0], 1, 1, 0);
    buf.push(0xff);
    buf.push(0x80);
    buf.extend_from_slice(b"\0\0\0\0");
    let doc = parse_puz(&buf).unwrap();
    assert_eq!(doc.solution, vec!['\u{ff}']);
    assert_eq!(doc.grid, vec!['\u{80}']);
}
