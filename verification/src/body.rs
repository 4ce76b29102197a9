//! Body decoder: the two grid arrays sized from the header, the three
//! leading text fields, the clue list whose length is a header field,
//! and the notes field.

use vstd::prelude::*;

use crate::error::PuzError;
use crate::model::{spec_body, spec_texts, texts_view, BodyView};
use crate::prim::{read_cells, read_nul_text};

verus! {

/// The decoded body.  `solution` and `grid` hold `width * height`
/// single-byte characters each; `clues` holds exactly `num_clues` text
/// fields in file order.
#[derive(Debug, PartialEq)]
pub struct Body {
    pub solution: Vec<char>,
    pub grid: Vec<char>,
    pub title: String,
    pub author: String,
    pub copyright: String,
    pub clues: Vec<String>,
    pub notes: String,
}

impl View for Body {
    type V = BodyView;

    open spec fn view(&self) -> BodyView {
        BodyView {
            solution: self.solution@,
            grid: self.grid@,
            title: self.title@,
            author: self.author@,
            copyright: self.copyright@,
            clues: texts_view(self.clues@),
            notes: self.notes@,
        }
    }
}

/// Decode the body at `pos`, returning it and the offset of the first
/// unconsumed byte.  Exactly `spec_body` on the buffer's bytes: the first
/// sub-step failure is returned unchanged and no later field is read.
#[verifier::loop_isolation(false)]
pub fn parse_body(bytes: &Vec<u8>, pos: usize, width: u8, height: u8, num_clues: u16) -> (r:
    Result<(Body, usize), PuzError>)
    requires
        pos <= bytes@.len(),
    ensures
        (match r {
            Ok(t) => spec_body(bytes@, pos as int, width, height, num_clues) == Ok::<
                (BodyView, int),
                PuzError,
            >((t.0@, t.1 as int)) && pos <= t.1 <= bytes@.len(),
            Err(e) => spec_body(bytes@, pos as int, width, height, num_clues) == Err::<
                (BodyView, int),
                PuzError,
            >(e),
        }),
        (r matches Ok(t) ==> t.0@.solution.len() == width * height && t.0@.grid.len() == width
            * height && t.0@.clues.len() == num_clues),
{
    proof {
        assert((width as int) * (height as int) <= 255 * 255) by (nonlinear_arith)
            requires
                width <= 255,
                height <= 255,
        ;
    }
    let n = (width as usize) * (height as usize);
    let (solution, p1) = match read_cells(bytes, pos, n) {
        Ok(t) => t,
        Err(e) => return Err(e),
    };
    let (grid, p2) = match read_cells(bytes, p1, n) {
        Ok(t) => t,
        Err(e) => return Err(e),
    };
    let (title, p3) = match read_nul_text(bytes, p2) {
        Ok(t) => t,
        Err(e) => return Err(e),
    };
    let (author, p4) = match read_nul_text(bytes, p3) {
        Ok(t) => t,
        Err(e) => return Err(e),
    };
    let (copyright, p5) = match read_nul_text(bytes, p4) {
        Ok(t) => t,
        Err(e) => return Err(e),
    };
    let nc = num_clues as usize;
    let mut clues: Vec<String> = Vec::new();
    let mut p: usize = p5;
    let mut i: usize = 0;
    proof {
        assert(texts_view(clues@) =~= Seq::<Seq<char>>::empty());
        match spec_texts(bytes@, p5 as int, nc as nat) {
            Ok(t) => {
                assert(texts_view(clues@) + t.0 =~= t.0);
            },
            Err(_) => {},
        }
    }
    while i < nc
        invariant
            i <= nc,
            p5 <= p <= bytes@.len(),
            clues@.len() == i,
            (match spec_texts(bytes@, p as int, (nc - i) as nat) {
                Ok(t) => spec_texts(bytes@, p5 as int, nc as nat) == Ok::<
                    (Seq<Seq<char>>, int),
                    PuzError,
                >((texts_view(clues@) + t.0, t.1)),
                Err(e) => spec_texts(bytes@, p5 as int, nc as nat) == Err::<
                    (Seq<Seq<char>>, int),
                    PuzError,
                >(e),
            }),
        decreases nc - i,
    {
        let (clue, pnew) = match read_nul_text(bytes, p) {
            Ok(t) => t,
            Err(e) => return Err(e),
        };
        proof {
            let prev = texts_view(clues@);
            assert(texts_view(clues@.push(clue)) =~= prev.push(clue@));
            match spec_texts(bytes@, pnew as int, (nc - i - 1) as nat) {
                Ok(t) => {
                    assert(prev + (seq![clue@] + t.0) =~= prev.push(clue@) + t.0);
                },
                Err(_) => {},
            }
        }
        clues.push(clue);
        p = pnew;
        i = i + 1;
    }
    let p6 = p;
    let (notes, p7) = match read_nul_text(bytes, p6) {
        Ok(t) => t,
        Err(e) => return Err(e),
    };
    let body = Body { solution, grid, title, author, copyright, clues, notes };
    proof {
        assert(texts_view(body.clues@) + Seq::<Seq<char>>::empty() =~= texts_view(body.clues@));
    }
    Ok((body, p7))
}

} // verus!
