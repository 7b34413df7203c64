use vstd::prelude::*;
use vstd::string::*;
use vstd::utf8::*;

verus! {

/// Whether `c` is white space: a character with the Unicode property
/// `White_Space`.
pub open spec fn is_whitespace(c: char) -> bool {
    let u = c as u32;
    (0x09 <= u <= 0x0D) || u == 0x20 || u == 0x85 || u == 0xA0 || u == 0x1680 || (0x2000 <= u
        <= 0x200A) || u == 0x2028 || u == 0x2029 || u == 0x202F || u == 0x205F || u == 0x3000
}

/// `text` with every maximal run of white space replaced by one space.
pub open spec fn collapse_whitespace(text: Seq<char>) -> Seq<char>
    decreases text.len(),
{
    if text.len() == 0 {
        text
    } else {
        let head = collapse_whitespace(text.drop_last());
        let c = text.last();
        if !is_whitespace(c) {
            head.push(c)
        } else if text.len() >= 2 && is_whitespace(text[text.len() - 2]) {
            head
        } else {
            head.push(' ')
        }
    }
}

/// What `String::from_utf8_lossy` reads from bytes: their text, with U+FFFD
/// in place of each part that is no UTF-8.
pub uninterp spec fn utf8_lossy(bytes: Seq<u8>) -> Seq<char>;

/// Reads bytes as UTF-8 with `String::from_utf8_lossy`, which never fails.
/// The result is a function of the bytes alone, and bytes that are UTF-8 are
/// read as the text that they encode.
#[verifier::external_body]
pub(crate) fn from_utf8_lossy(bytes: &[u8]) -> (r: String)
    ensures
        r@ == utf8_lossy(bytes@),
        valid_utf8(bytes@) ==> r@ == decode_utf8(bytes@),
{
    String::from_utf8_lossy(bytes).into_owned()
}

/// The text of a chunk of bytes as the extractor sees it: read as UTF-8,
/// with each run of white space collapsed to one space.
pub open spec fn normalized(chunk: Seq<u8>) -> Seq<char> {
    collapse_whitespace(utf8_lossy(chunk))
}

/// Appends one character to a string (`String::push`).
#[verifier::external_body]
pub(crate) fn push_char(s: &mut String, c: char)
    ensures
        final(s)@ == old(s)@.push(c),
{
    s.push(c)
}

/// Whether `c` is white space.
pub fn char_is_whitespace(c: char) -> (r: bool)
    ensures
        r == is_whitespace(c),
{
    let u: u32 = c as u32;
    (0x09 <= u && u <= 0x0D) || u == 0x20 || u == 0x85 || u == 0xA0 || u == 0x1680 || (0x2000 <= u
        && u <= 0x200A) || u == 0x2028 || u == 0x2029 || u == 0x202F || u == 0x205F || u == 0x3000
}

/// `text` with each run of white space collapsed to one space.
pub fn collapse(text: &str) -> (r: String)
    ensures
        r@ == collapse_whitespace(text@),
{
    let mut out = String::new();
    let mut in_run = false;
    proof {
        broadcast use vstd::string::group_string_axioms;

    }
    for c in it: text.chars()
        invariant
            it.seq() == text@,
            out@ == collapse_whitespace(text@.take(it.index())),
            in_run == (it.index() > 0 && is_whitespace(text@[it.index() - 1])),
    {
        proof {
            let i = it.index();
            assert(text@.take(i + 1).drop_last() == text@.take(i));
        }
        if char_is_whitespace(c) {
            if !in_run {
                push_char(&mut out, ' ');
            }
            in_run = true;
        } else {
            push_char(&mut out, c);
            in_run = false;
        }
    }
    proof {
        assert(text@.take(text@.len() as int) == text@);
    }
    out
}

/// Reads a chunk of bytes as text and collapses its white space. Bytes that
/// are no UTF-8 do not fail: they are read as U+FFFD.
pub fn normalize_chunk(chunk: &[u8]) -> (r: String)
    ensures
        r@ == normalized(chunk@),
        valid_utf8(chunk@) ==> r@ == collapse_whitespace(decode_utf8(chunk@)),
{
    let raw = from_utf8_lossy(chunk);
    collapse(raw.as_str())
}

/// Whether the bytes of `sequence` stand in `text` at the byte offset
/// `index`.
pub open spec fn occurs_at(text: Seq<char>, sequence: Seq<char>, index: int) -> bool {
    let bytes = encode_utf8(text);
    let wanted = encode_utf8(sequence);
    0 <= index && index + wanted.len() <= bytes.len() && bytes.subrange(
        index,
        index + wanted.len(),
    ) == wanted
}

/// The first byte offset in `text`, from `index_start` on and before the end
/// of the text, at which `sequence` stands: `None` where there is none.
pub fn find_next_sequence(text: &str, sequence: &str, index_start: &usize) -> (r: Option<usize>)
    ensures
        r matches Some(found) ==> *index_start <= found < byte_len(text@) && occurs_at(
            text@,
            sequence@,
            found as int,
        ),
        forall|j: int|
            *index_start <= j < (match r {
                Some(found) => found as int,
                None => byte_len(text@),
            }) ==> !occurs_at(text@, sequence@, j),
{
    let bytes = text.as_bytes();
    let wanted = sequence.as_bytes();
    let mut index: usize = *index_start;
    while index < bytes.len()
        invariant
            *index_start <= index,
            bytes@ == encode_utf8(text@),
            wanted@ == encode_utf8(sequence@),
            forall|j: int| *index_start <= j < index ==> !occurs_at(text@, sequence@, j),
        decreases bytes.len() - index,
    {
        if wanted.len() <= bytes.len() - index {
            let mut k: usize = 0;
            while k < wanted.len() && bytes[index + k] == wanted[k]
                invariant
                    k <= wanted.len(),
                    index + wanted.len() <= bytes.len(),
                    forall|m: int| 0 <= m < k ==> bytes@[index + m] == wanted@[m],
                decreases wanted.len() - k,
            {
                k += 1;
            }
            if k == wanted.len() {
                assert(bytes@.subrange(index as int, index + wanted.len()) =~= wanted@);
                return Some(index);
            }
            assert(bytes@.subrange(index as int, index + wanted.len())[k as int] != wanted@[k as int]);
        }
        index += 1;
    }
    None
}

/// Whether two texts hold the same characters.
pub fn text_eq(a: &str, b: &str) -> (r: bool)
    ensures
        r == (a@ == b@),
{
    let x = a.as_bytes();
    let y = b.as_bytes();
    proof {
        broadcast use encode_utf8_decode_utf8;

    }
    if x.len() != y.len() {
        return false;
    }
    let mut i: usize = 0;
    while i < x.len()
        invariant
            i <= x.len(),
            x.len() == y.len(),
            forall|j: int| 0 <= j < i ==> x@[j] == y@[j],
            x@ == encode_utf8(a@),
            y@ == encode_utf8(b@),
            decode_utf8(encode_utf8(a@)) == a@,
            decode_utf8(encode_utf8(b@)) == b@,
        decreases x.len() - i,
    {
        if x[i] != y[i] {
            return false;
        }
        i += 1;
    }
    assert(x@ =~= y@);
    true
}

/// The length of `text` in bytes of UTF-8.
pub open spec fn byte_len(text: Seq<char>) -> int {
    encode_utf8(text).len() as int
}

/// Whether the byte offset `index` lies between two characters of `text`, or
/// at one of its ends.
pub open spec fn on_boundary(text: Seq<char>, index: int) -> bool {
    is_char_boundary(encode_utf8(text), index)
}

/// Whether the byte offsets `start` and `end` cut a piece out of `text`.
pub open spec fn valid_span(text: Seq<char>, start: int, end: int) -> bool {
    &&& 0 <= start <= end <= byte_len(text)
    &&& on_boundary(text, start)
    &&& on_boundary(text, end)
}

/// The characters of `text` between two byte offsets.
pub open spec fn byte_slice(text: Seq<char>, start: int, end: int) -> Seq<char> {
    decode_utf8(encode_utf8(text).subrange(start, end))
}

/// The characters of `text` from a byte offset on.
pub open spec fn byte_suffix(text: Seq<char>, start: int) -> Seq<char> {
    byte_slice(text, start, byte_len(text))
}

/// A boundary of a text is a boundary of each prefix that reaches it.
pub proof fn lemma_boundary_in_prefix(bytes: Seq<u8>, start: int, end: int)
    requires
        valid_utf8(bytes),
        0 <= start <= end <= bytes.len(),
        is_char_boundary(bytes, start),
        is_char_boundary(bytes, end),
    ensures
        valid_utf8(bytes.subrange(0, end)),
        is_char_boundary(bytes.subrange(0, end), start),
{
    valid_utf8_split(bytes, end);
    let prefix = bytes.subrange(0, end);
    if start == end {
        is_char_boundary_start_end_of_seq(prefix);
    } else {
        is_char_boundary_iff_not_is_continuation_byte(bytes, start);
        is_char_boundary_iff_not_is_continuation_byte(prefix, start);
    }
}

/// The bytes of two texts joined are the bytes of the one followed by the
/// bytes of the other.
pub proof fn lemma_encode_joined(a: Seq<char>, b: Seq<char>)
    ensures
        encode_utf8(a + b) == encode_utf8(a) + encode_utf8(b),
    decreases a.len(),
{
    if a.len() == 0 {
        assert(a + b == b);
        assert(encode_utf8(a) + encode_utf8(b) == encode_utf8(b));
    } else {
        lemma_encode_joined(a.drop_first(), b);
        assert((a + b).drop_first() == a.drop_first() + b);
        assert(encode_utf8(a + b) == encode_scalar(a[0] as u32) + encode_utf8(a.drop_first() + b));
        assert(encode_scalar(a[0] as u32) + (encode_utf8(a.drop_first()) + encode_utf8(b)) == (
        encode_scalar(a[0] as u32) + encode_utf8(a.drop_first())) + encode_utf8(b));
    }
}

/// Two pieces of UTF-8, joined, read as the text of the one followed by the
/// text of the other.
pub proof fn lemma_decode_joined(x: Seq<u8>, y: Seq<u8>)
    requires
        valid_utf8(x),
        valid_utf8(y),
    ensures
        valid_utf8(x + y),
        decode_utf8(x + y) == decode_utf8(x) + decode_utf8(y),
{
    let all = x + y;
    valid_utf8_concat(x, y);
    if y.len() == 0 {
        is_char_boundary_start_end_of_seq(all);
    } else {
        is_char_boundary_start_end_of_seq(y);
        is_char_boundary_iff_not_is_continuation_byte(y, 0);
        is_char_boundary_iff_not_is_continuation_byte(all, x.len() as int);
    }
    decode_utf8_split(all, x.len() as int);
    assert(all.subrange(0, x.len() as int) == x);
    assert(all.subrange(x.len() as int, all.len() as int) == y);
}

/// What is left of a text from a byte offset on grows by what is appended to
/// the text.
pub proof fn lemma_suffix_of_joined(a: Seq<char>, b: Seq<char>, start: int)
    requires
        0 <= start <= byte_len(a),
        on_boundary(a, start),
    ensures
        byte_suffix(a + b, start) == byte_suffix(a, start) + b,
        byte_len(a + b) == byte_len(a) + byte_len(b),
{
    broadcast use encode_utf8_valid_utf8, encode_utf8_decode_utf8;

    lemma_encode_joined(a, b);
    let ea = encode_utf8(a);
    let eb = encode_utf8(b);
    valid_utf8_split(ea, start);
    assert((ea + eb).subrange(start, (ea + eb).len() as int) == ea.subrange(start, ea.len() as int)
        + eb);
    lemma_decode_joined(ea.subrange(start, ea.len() as int), eb);
}

/// What is left of two joined texts from an offset in the second on is what
/// is left of the second.
pub proof fn lemma_suffix_in_second(a: Seq<char>, b: Seq<char>, start: int)
    requires
        0 <= start <= byte_len(b),
    ensures
        byte_suffix(a + b, byte_len(a) + start) == byte_suffix(b, start),
{
    lemma_encode_joined(a, b);
    let ea = encode_utf8(a);
    let eb = encode_utf8(b);
    assert((ea + eb).subrange(ea.len() + start, (ea + eb).len() as int) == eb.subrange(
        start,
        eb.len() as int,
    ));
}

/// Collapsing white space goes through a join at which white space does not
/// meet white space.
pub proof fn lemma_collapse_joined(a: Seq<char>, b: Seq<char>)
    requires
        a.len() == 0 || b.len() == 0 || !is_whitespace(a.last()) || !is_whitespace(b.first()),
    ensures
        collapse_whitespace(a + b) == collapse_whitespace(a) + collapse_whitespace(b),
    decreases b.len(),
{
    if b.len() == 0 {
        assert(a + b == a);
    } else if a.len() == 0 {
        assert(a + b == b);
    } else {
        let shorter = b.drop_last();
        assert((a + b).drop_last() == a + shorter);
        lemma_collapse_joined(a, shorter);
        if shorter.len() == 0 {
            assert(a + shorter == a);
        }
    }
}

/// The piece of `text` between two byte offsets, where they cut one out.
pub fn slice_at(text: &str, start: usize, end: usize) -> (r: Option<&str>)
    ensures
        r is Some <==> valid_span(text@, start as int, end as int),
        r matches Some(piece) ==> piece@ == byte_slice(text@, start as int, end as int),
{
    let len = text.as_bytes().len();
    if start <= end && end <= len && text.is_char_boundary(start) && text.is_char_boundary(end) {
        proof {
            broadcast use encode_utf8_valid_utf8, encode_utf8_decode_utf8;

            lemma_boundary_in_prefix(text.spec_bytes(), start as int, end as int);
        }
        let (head, _) = text.split_at(end);
        let (_, piece) = head.split_at(start);
        proof {
            broadcast use encode_utf8_decode_utf8;

            assert(piece.spec_bytes() =~= text.spec_bytes().subrange(start as int, end as int));
            assert(decode_utf8(encode_utf8(piece@)) == piece@);
        }
        Some(piece)
    } else {
        None
    }
}

} // verus!
