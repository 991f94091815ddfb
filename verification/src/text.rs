//! Character-level helpers: fixed-width lines and UTF-8 byte lengths.

use vstd::prelude::*;
use vstd::std_specs::iter::IteratorSpec;
use vstd::utf8::encode_utf8;

verus! {

broadcast use vstd::string::group_string_axioms;

/// `s` cut or padded with spaces to exactly `w` characters.
pub open spec fn padded(s: Seq<char>, w: nat) -> Seq<char> {
    Seq::new(w, |i: int| if i < s.len() { s[i] } else { ' ' })
}

/// The first `w` characters of `s`, followed by as many spaces as it takes to
/// make the line exactly `w` characters long.
pub fn pad_line(s: &str, w: usize) -> (line: Vec<char>)
    ensures
        line@ == padded(s@, w as nat),
{
    let mut line: Vec<char> = Vec::new();
    let mut chars = s.chars();
    while line.len() < w
        invariant
            line.len() <= w,
            line@ == padded(s@, w as nat).take(line.len() as int),
            chars.remaining() == (if line.len() <= s@.len() {
                s@.skip(line.len() as int)
            } else {
                Seq::<char>::empty()
            }),
        decreases w - line.len(),
    {
        let ghost before = line@;
        let c = match chars.next() {
            Some(c) => c,
            None => ' ',
        };
        line.push(c);
        assert(line@ =~= padded(s@, w as nat).take(line.len() as int));
    }
    assert(line@ =~= padded(s@, w as nat));
    line
}

/// UTF-8 encoding distributes over concatenation.
pub proof fn lemma_encode_utf8_concat(a: Seq<char>, b: Seq<char>)
    ensures
        encode_utf8(a + b) == encode_utf8(a) + encode_utf8(b),
    decreases a.len(),
{
    if a.len() == 0 {
        assert(a + b =~= b);
        assert(encode_utf8(a) =~= Seq::<u8>::empty());
        assert(encode_utf8(a) + encode_utf8(b) =~= encode_utf8(b));
    } else {
        lemma_encode_utf8_concat(a.drop_first(), b);
        assert((a + b).drop_first() =~= a.drop_first() + b);
        assert((a + b)[0] == a[0]);
        assert(encode_utf8(a + b) =~= encode_utf8(a) + encode_utf8(b));
    }
}

} // verus!
