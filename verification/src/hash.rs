use vstd::prelude::*;
use crate::text::push_char;

verus! {

/// The MD5 digest of a byte string, as computed by `md5::compute`.
pub uninterp spec fn md5_digest(data: Seq<u8>) -> Seq<u8>;

/// `md5::compute`: the 16-byte MD5 digest of `data`. The digest is named,
/// not stated: the contract says only that it is a function of the bytes.
#[verifier::external_body]
fn md5_compute(data: &[u8]) -> (r: [u8; 16])
    ensures
        r@ == md5_digest(data@),
{
    md5::compute(data).0
}

/// The lowercase hexadecimal digit for `d` (0 to 15).
pub open spec fn hex_char(d: int) -> char {
    if d < 10 {
        (('0' as int) + d) as char
    } else {
        (('a' as int) + d - 10) as char
    }
}

/// Bytes written as lowercase hexadecimal, two digits per byte, high digit
/// first.
pub open spec fn hex_text(bytes: Seq<u8>) -> Seq<char> {
    Seq::new(
        2 * bytes.len(),
        |i: int|
            if i % 2 == 0 {
                hex_char((bytes[i / 2] / 16) as int)
            } else {
                hex_char((bytes[i / 2] % 16) as int)
            },
    )
}

fn hex_digit(d: u8) -> (c: char)
    requires
        d < 16,
    ensures
        c == hex_char(d as int),
{
    let table: [char; 16] = [
        '0', '1', '2', '3', '4', '5', '6', '7', '8', '9', 'a', 'b', 'c', 'd', 'e', 'f',
    ];
    let c = table[d as usize];
    assert(c == hex_char(d as int));
    c
}

/// Bytes as lowercase hexadecimal text (the `{:x}` form of a digest).
pub fn lower_hex(bytes: &[u8]) -> (r: String)
    requires
        2 * bytes@.len() <= usize::MAX,
    ensures
        r@ == hex_text(bytes@),
{
    let mut s = String::new();
    let mut i: usize = 0;
    while i < bytes.len()
        invariant
            i <= bytes@.len(),
            s@.len() == 2 * i,
            forall|j: int| 0 <= j < 2 * i ==> s@[j] == hex_text(bytes@)[j],
        decreases bytes@.len() - i,
    {
        let b = bytes[i];
        let ghost before = s@;
        push_char(&mut s, hex_digit(b / 16));
        push_char(&mut s, hex_digit(b % 16));
        assert forall|j: int| 0 <= j < 2 * (i + 1) implies s@[j] == hex_text(bytes@)[j] by {
            if j >= 2 * i {
                assert((j / 2) == i as int);
            } else {
                assert(s@[j] == before[j]);
            }
        }
        i = i + 1;
    }
    assert(s@ =~= hex_text(bytes@));
    s
}

/// The MD5 digest of `data` as 32 lowercase hexadecimal digits.
pub fn md5_hex(data: &[u8]) -> (r: String)
    ensures
        r@ == hex_text(md5_digest(data@)),
        r@.len() == 32,
{
    let digest = md5_compute(data);
    lower_hex(&digest)
}

} // verus!
