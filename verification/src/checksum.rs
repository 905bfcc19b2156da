//! Payload integrity: a content-derived digest over the payload bytes, and
//! the check that a PDU's `checksum` field matches its `data`.

use vstd::prelude::*;

use crate::pdu::{PDU, PduView};

verus! {

/// The hex-encoded MD5 digest of a byte sequence, as computed by the `md5`
/// crate and printed in lowercase hex. The digest is a function of the bytes
/// alone; its value is not axiomatized here, so nothing is provable about it
/// beyond what [`md5_hex`] states.
pub uninterp spec fn md5_hex_of(data: Seq<u8>) -> Seq<char>;

/// Relies on `md5::compute` and `md5::Digest`'s `LowerHex` impl: the digest
/// is determined by the input bytes alone, and formats as exactly 32
/// lowercase hex characters, two per digest byte.
#[verifier::external_body]
fn md5_hex(data: &Vec<u8>) -> (r: String)
    ensures
        r@ == md5_hex_of(data@),
        r@.len() == 32,
{
    format!("{:x}", md5::compute(data.as_slice()))
}

/// The hex-encoded digest of `data`: the value a valid `Data` PDU carries in
/// its `checksum` field.
pub fn checksum(data: &Vec<u8>) -> (r: String)
    ensures
        r@ == md5_hex_of(data@),
{
    md5_hex(data)
}

/// A PDU passes the integrity check exactly when its `checksum` field equals
/// the digest of its payload.
pub open spec fn spec_checksum_ok(p: PduView) -> bool {
    p.checksum == md5_hex_of(p.data)
}

/// Recomputes the digest of `pdu.data` and compares it, by exact string
/// equality, to `pdu.checksum`.
pub fn verify(pdu: &PDU) -> (r: bool)
    ensures
        r == spec_checksum_ok(pdu@),
{
    let computed = md5_hex(&pdu.data);
    pdu.checksum == computed
}

/// Law: a PDU whose `checksum` field is the digest of its payload passes the
/// integrity check.
pub proof fn lemma_verify_accepts_valid(d: Seq<u8>, p: PduView)
    requires
        p.data == d,
        p.checksum == md5_hex_of(d),
    ensures
        spec_checksum_ok(p),
{
}

/// Law: changing any one character of a passing PDU's `checksum` field makes
/// the integrity check fail.
pub proof fn lemma_verify_detects_flip(p: PduView, i: int, c: char)
    requires
        spec_checksum_ok(p),
        0 <= i < p.checksum.len(),
        c != p.checksum[i],
    ensures
        !spec_checksum_ok(PduView { checksum: p.checksum.update(i, c), ..p }),
{
    let flipped = p.checksum.update(i, c);
    assert(flipped[i] == c);
    assert(md5_hex_of(p.data)[i] != c);
}

} // verus!
