use crate::text::byte_len;
use crate::text::byte_slice;
use crate::text::byte_suffix;
use crate::text::on_boundary;
use crate::text::slice_at;
use crate::text::valid_span;
use vstd::prelude::*;
use vstd::string::*;
use vstd::utf8::*;

verus! {

/// A piece of a text, given by its byte offsets, and what is to stand in its
/// place: `None` leaves the piece as it is.
pub struct Replacement {
    pub start: usize,
    pub end: usize,
    pub text: Option<String>,
}

/// A `Replacement` as a plain value.
pub struct Splice {
    pub start: int,
    pub end: int,
    pub text: Option<Seq<char>>,
}

impl View for Replacement {
    type V = Splice;

    open spec fn view(&self) -> Splice {
        Splice {
            start: self.start as int,
            end: self.end as int,
            text: match self.text {
                Some(s) => Some(s@),
                None => None,
            },
        }
    }
}

/// The plain values of a list of replacements.
pub open spec fn splices(reps: Seq<Replacement>) -> Seq<Splice> {
    reps.map_values(|r: Replacement| r@)
}

/// Whether a replacement can be made once the text is used up to `cursor`:
/// it cuts a piece out of the text and does not reach back before the cursor.
pub open spec fn applies(text: Seq<char>, cursor: int, rep: Splice) -> bool {
    cursor <= rep.start && valid_span(text, rep.start, rep.end)
}

/// How far the text is used up after the replacements were gone through in
/// order, each that does not apply being passed over.
pub open spec fn splice_cursor(text: Seq<char>, reps: Seq<Splice>) -> int
    decreases reps.len(),
{
    if reps.len() == 0 {
        0
    } else {
        let cursor = splice_cursor(text, reps.drop_last());
        if applies(text, cursor, reps.last()) {
            reps.last().end
        } else {
            cursor
        }
    }
}

/// The output up to the cursor: the text between the replaced pieces, and in
/// place of each piece what replaces it.
pub open spec fn splice_head(text: Seq<char>, reps: Seq<Splice>) -> Seq<char>
    decreases reps.len(),
{
    if reps.len() == 0 {
        Seq::empty()
    } else {
        let cursor = splice_cursor(text, reps.drop_last());
        let head = splice_head(text, reps.drop_last());
        let rep = reps.last();
        if applies(text, cursor, rep) {
            head + byte_slice(text, cursor, rep.start) + match rep.text {
                Some(t) => t,
                None => byte_slice(text, rep.start, rep.end),
            }
        } else {
            head
        }
    }
}

/// The text with the replacements made.
pub open spec fn spliced(text: Seq<char>, reps: Seq<Splice>) -> Seq<char> {
    splice_head(text, reps) + byte_suffix(text, splice_cursor(text, reps))
}

/// Makes the replacements in `text`, in the order of the list. One that is
/// out of order, overlaps an earlier one or does not cut between characters is
/// passed over.
pub fn splice_replacements(text: &str, reps: &Vec<Replacement>) -> (r: String)
    ensures
        r@ == spliced(text@, splices(reps@)),
{
    let mut out = String::new();
    let mut cursor: usize = 0;
    let len = text.as_bytes().len();
    let ghost all = splices(reps@);
    proof {
        broadcast use encode_utf8_valid_utf8;

        is_char_boundary_start_end_of_seq(encode_utf8(text@));
    }
    let mut i: usize = 0;
    while i < reps.len()
        invariant
            i <= reps.len(),
            all == splices(reps@),
            len == byte_len(text@),
            out@ == splice_head(text@, all.take(i as int)),
            cursor == splice_cursor(text@, all.take(i as int)),
            cursor <= len,
            on_boundary(text@, cursor as int),
            on_boundary(text@, len as int),
        decreases reps.len() - i,
    {
        let rep = &reps[i];
        proof {
            assert(all.take(i + 1).drop_last() == all.take(i as int));
            assert(all.take(i + 1).last() == rep@);
        }
        if cursor <= rep.start {
            if let Some(piece) = slice_at(text, rep.start, rep.end) {
                let between = slice_at(text, cursor, rep.start);
                assert(between is Some);
                out.append(between.unwrap());
                match &rep.text {
                    Some(t) => out.append(t.as_str()),
                    None => out.append(piece),
                }
                cursor = rep.end;
            }
        }
        i += 1;
    }
    proof {
        assert(all.take(reps.len() as int) == all);
    }
    let tail = slice_at(text, cursor, len);
    assert(tail is Some);
    out.append(tail.unwrap());
    out
}

} // verus!
