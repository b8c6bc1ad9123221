//! Byte offsets into text: how many bytes the UTF-8 encoding of a string
//! takes, and which offsets fall between two characters.

use vstd::prelude::*;

verus! {

broadcast use vstd::string::group_string_axioms;

/// The number of bytes that the UTF-8 encoding of `c` takes.
pub open spec fn utf8_width(c: char) -> nat {
    if (c as u32) < 0x80 {
        1
    } else if (c as u32) < 0x800 {
        2
    } else if (c as u32) < 0x10000 {
        3
    } else {
        4
    }
}

/// The number of bytes that the UTF-8 encoding of `s` takes.
pub open spec fn utf8_len(s: Seq<char>) -> nat
    decreases s.len(),
{
    if s.len() == 0 {
        0
    } else {
        utf8_len(s.drop_last()) + utf8_width(s.last())
    }
}

/// Whether byte offset `b` falls between two characters of `s` (or at
/// either end): it is the length of the encoding of some prefix.
pub open spec fn is_boundary(s: Seq<char>, b: int) -> bool {
    exists|k: int| 0 <= k <= s.len() && #[trigger] utf8_len(s.take(k)) == b
}

/// UTF-8 encodes a character in one byte below U+0080, two below U+0800,
/// three below U+10000 and four above; text of such characters takes the
/// sum of their widths, so ASCII text takes one byte per character.
pub proof fn lemma_utf8_widths(c: char, s: Seq<char>)
    ensures
        (c as u32) < 0x80 ==> utf8_width(c) == 1,
        0x80 <= (c as u32) < 0x800 ==> utf8_width(c) == 2,
        0x800 <= (c as u32) < 0x10000 ==> utf8_width(c) == 3,
        0x10000 <= (c as u32) ==> utf8_width(c) == 4,
        utf8_len(Seq::<char>::empty()) == 0,
        utf8_len(seq![c]) == utf8_width(c),
        (forall|i: int| 0 <= i < s.len() ==> (s[i] as u32) < 0x80) ==> utf8_len(s) == s.len(),
    decreases s.len(),
{
    assert(seq![c].drop_last() =~= Seq::<char>::empty());
    if s.len() > 0 {
        lemma_utf8_widths(c, s.drop_last());
    }
}

/// The encoding of the first `k + 1` characters is that of the first `k`
/// followed by that of character `k`.
pub proof fn lemma_utf8_len_take_step(s: Seq<char>, k: int)
    requires
        0 <= k < s.len(),
    ensures
        utf8_len(s.take(k + 1)) == utf8_len(s.take(k)) + utf8_width(s[k]),
{
    assert(s.take(k + 1).drop_last() =~= s.take(k));
}

/// A longer prefix has a strictly longer encoding.
pub proof fn lemma_utf8_len_take_increasing(s: Seq<char>, i: int, j: int)
    requires
        0 <= i < j <= s.len(),
    ensures
        utf8_len(s.take(i)) < utf8_len(s.take(j)),
    decreases j - i,
{
    lemma_utf8_len_take_step(s, j - 1);
    if i < j - 1 {
        lemma_utf8_len_take_increasing(s, i, j - 1);
    }
}

/// The encoding of a concatenation is the concatenation of the encodings.
pub proof fn lemma_utf8_len_concat(a: Seq<char>, b: Seq<char>)
    ensures
        utf8_len(a + b) == utf8_len(a) + utf8_len(b),
    decreases b.len(),
{
    if b.len() == 0 {
        assert(a + b =~= a);
    } else {
        assert((a + b).drop_last() =~= a + b.drop_last());
        lemma_utf8_len_concat(a, b.drop_last());
    }
}

/// A byte offset falls between two characters in at most one place: the
/// prefix whose encoding ends there is unique.
pub proof fn lemma_boundary_unique(s: Seq<char>, i: int, j: int)
    requires
        0 <= i <= s.len(),
        0 <= j <= s.len(),
        utf8_len(s.take(i)) == utf8_len(s.take(j)),
    ensures
        i == j,
{
    if i < j {
        lemma_utf8_len_take_increasing(s, i, j);
    } else if j < i {
        lemma_utf8_len_take_increasing(s, j, i);
    }
}

/// The number of bytes that the UTF-8 encoding of `c` takes.
pub fn char_utf8_width(c: char) -> (r: usize)
    ensures
        r == utf8_width(c),
        1 <= r <= 4,
{
    let v = c as u32;
    if v < 0x80 {
        1
    } else if v < 0x800 {
        2
    } else if v < 0x10000 {
        3
    } else {
        4
    }
}

/// The number of characters before byte offset `b`, which falls between
/// two characters of `s`.
pub fn char_index_at(s: &str, b: usize) -> (k: usize)
    requires
        is_boundary(s@, b as int),
    ensures
        k <= s@.len(),
        utf8_len(s@.take(k as int)) == b,
{
    let n = s.unicode_len();
    let mut k: usize = 0;
    let mut at: usize = 0;
    while at < b
        invariant
            n == s@.len(),
            k <= n,
            at == utf8_len(s@.take(k as int)),
            at <= b,
            is_boundary(s@, b as int),
        decreases n - k,
    {
        let ghost j = choose|j: int| 0 <= j <= s@.len() && #[trigger] utf8_len(s@.take(j)) == b;
        proof {
            if j <= k {
                if j < k {
                    lemma_utf8_len_take_increasing(s@, j, k as int);
                }
                assert(false);
            }
            lemma_utf8_len_take_step(s@, k as int);
            if k + 1 < j {
                lemma_utf8_len_take_increasing(s@, k + 1, j);
            }
        }
        let c = s.get_char(k);
        at = at + char_utf8_width(c);
        k = k + 1;
    }
    k
}

/// Appends the characters `from..to` of `s` to `out`.
pub fn push_chars(out: &mut String, s: &str, from: usize, to: usize)
    requires
        from <= to <= s@.len(),
    ensures
        final(out)@ == old(out)@ + s@.subrange(from as int, to as int),
{
    let mut i = from;
    while i < to
        invariant
            from <= i <= to,
            to <= s@.len(),
            out@ == old(out)@ + s@.subrange(from as int, i as int),
        decreases to - i,
    {
        let c = s.get_char(i);
        out.push(c);
        proof {
            assert(s@.subrange(from as int, i + 1) =~= s@.subrange(from as int, i as int).push(c));
        }
        i = i + 1;
    }
}

/// `str::len`: the length of the string in bytes, that is, of its UTF-8
/// encoding, in which each character takes one to four bytes by its code
/// point (below 0x80, 0x800, 0x10000, or above).
#[verifier::external_body]
pub(crate) fn byte_len(s: &str) -> (r: usize)
    ensures
        r == utf8_len(s@),
{
    s.len()
}

} // verus!
