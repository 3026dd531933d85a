use vstd::prelude::*;
use vstd::string::*;

verus! {

/// Appends one character to a `String` (`String::push`).
#[verifier::external_body]
pub(crate) fn push_char(s: &mut String, c: char)
    ensures
        final(s)@ == old(s)@.push(c),
{
    s.push(c);
}

/// Whether two string slices hold the same characters.
pub fn str_eq(a: &str, b: &str) -> (r: bool)
    ensures
        r == (a@ == b@),
{
    let n = a.unicode_len();
    if n != b.unicode_len() {
        return false;
    }
    let mut i: usize = 0;
    while i < n
        invariant
            n == a@.len(),
            n == b@.len(),
            i <= n,
            forall|j: int| 0 <= j < i ==> a@[j] == b@[j],
        decreases n - i,
    {
        if a.get_char(i) != b.get_char(i) {
            return false;
        }
        i = i + 1;
    }
    assert(a@ =~= b@);
    true
}

/// Whether `s` ends with `suffix`.
pub fn ends_with(s: &str, suffix: &str) -> (r: bool)
    ensures
        r == (suffix@.len() <= s@.len() && s@.subrange(s@.len() - suffix@.len(), s@.len() as int)
            == suffix@),
{
    let n = s.unicode_len();
    let m = suffix.unicode_len();
    if m > n {
        return false;
    }
    let start = n - m;
    let mut i: usize = 0;
    while i < m
        invariant
            n == s@.len(),
            m == suffix@.len(),
            start == n - m,
            i <= m,
            forall|j: int| 0 <= j < i ==> s@[start + j] == suffix@[j],
        decreases m - i,
    {
        if s.get_char(start + i) != suffix.get_char(i) {
            assert(s@.subrange(start as int, n as int)[i as int] == s@[start + i]);
            return false;
        }
        i = i + 1;
    }
    assert(s@.subrange(start as int, n as int) =~= suffix@);
    true
}


/// The characters `String::from_utf8_lossy` decodes from `bytes`, with each
/// invalid sequence replaced by U+FFFD.
pub uninterp spec fn lossy_utf8(bytes: Seq<u8>) -> Seq<char>;

/// Decodes bytes as UTF-8, replacing invalid sequences
/// (`String::from_utf8_lossy`). Its documentation promises that valid UTF-8
/// comes back unchanged and that each invalid sequence becomes U+FFFD; since
/// UTF-8 encodes U+0000 only as a zero byte, bytes without a zero give text
/// without a NUL. What invalid input becomes is otherwise only named.
#[verifier::external_body]
pub(crate) fn from_utf8_lossy(bytes: &[u8]) -> (s: String)
    ensures
        s@ == lossy_utf8(bytes@),
        vstd::utf8::valid_utf8(bytes@) ==> s@ == vstd::utf8::decode_utf8(bytes@),
        !bytes@.contains(0u8) ==> !s@.contains('\0'),
{
    String::from_utf8_lossy(bytes).into_owned()
}

/// Index of the first NUL byte at or after `i`, or the length if none.
pub open spec fn nul_index_from(bytes: Seq<u8>, i: int) -> int
    decreases bytes.len() - i,
{
    if i < 0 || i >= bytes.len() {
        bytes.len() as int
    } else if bytes[i] == 0 {
        i
    } else {
        nul_index_from(bytes, i + 1)
    }
}

/// The bytes before the first NUL byte (all of them if there is none).
pub open spec fn until_nul(bytes: Seq<u8>) -> Seq<u8> {
    bytes.take(nul_index_from(bytes, 0))
}

proof fn lemma_nul_index_skips(bytes: Seq<u8>, from: int, to: int)
    requires
        0 <= from <= to <= bytes.len(),
        forall|j: int| from <= j < to ==> bytes[j] != 0,
    ensures
        nul_index_from(bytes, from) == nul_index_from(bytes, to),
    decreases to - from,
{
    if from < to {
        lemma_nul_index_skips(bytes, from + 1, to);
    }
}

/// The text of a NUL-terminated byte buffer: the bytes before the first NUL
/// (or all of them), decoded as UTF-8 with invalid sequences replaced.
pub fn buffer_to_string(buffer: &[u8]) -> (s: String)
    ensures
        s@ == lossy_utf8(until_nul(buffer@)),
        vstd::utf8::valid_utf8(until_nul(buffer@)) ==> s@ == vstd::utf8::decode_utf8(
            until_nul(buffer@),
        ),
        !s@.contains('\0'),
{
    let mut len: usize = 0;
    while len < buffer.len() && buffer[len] != 0
        invariant
            len <= buffer@.len(),
            forall|j: int| 0 <= j < len ==> buffer@[j] != 0,
        decreases buffer@.len() - len,
    {
        len = len + 1;
    }
    proof {
        lemma_nul_index_skips(buffer@, 0, len as int);
    }
    let cleaned = vstd::slice::slice_subrange(buffer, 0, len);
    assert(cleaned@ == buffer@.take(len as int));
    assert(!cleaned@.contains(0u8)) by {
        if cleaned@.contains(0u8) {
            let k = choose|k: int| 0 <= k < cleaned@.len() && cleaned@[k] == 0u8;
            assert(buffer@[k] == 0u8);
        }
    }
    from_utf8_lossy(cleaned)
}

} // verus!
