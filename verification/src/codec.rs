//! The PDU codec: a fixed, deterministic, self-describing binary encoding.
//!
//! Each message type maps to a stable one-byte discriminant; the string
//! carried by `DownloadRequest`, the `checksum` and `filename` text, and the
//! raw `data` payload are all length-prefixed (eight-byte little-endian byte
//! count, text as UTF-8). Decoding fails, with a [`CodecError`] rather than a
//! crash, on truncated input, trailing bytes, an unrecognized discriminant,
//! or a text field that is not valid UTF-8.

use vstd::prelude::*;

use vstd::bytes::{
    lemma_auto_spec_u32_to_from_le_bytes, lemma_auto_spec_u64_to_from_le_bytes,
    spec_u32_from_le_bytes, spec_u32_to_le_bytes, spec_u64_from_le_bytes, spec_u64_to_le_bytes,
    u32_from_le_bytes, u32_to_le_bytes, u64_from_le_bytes, u64_to_le_bytes,
};
use vstd::slice::{slice_index_get, slice_subrange, slice_to_vec};
use vstd::string::StrSliceExecFns;
use vstd::utf8::{
    decode_utf8, encode_utf8, encode_utf8_decode_utf8, encode_utf8_valid_utf8, valid_utf8,
};

use crate::pdu::{MessageType, MessageTypeView, PDU, PduView};

verus! {

/// Decoding failed: the input is truncated, carries trailing bytes after one
/// complete PDU, starts with an unrecognized discriminant, or holds a text
/// field that is not valid UTF-8.
#[derive(Clone, Copy, Debug, PartialEq, Eq, Structural)]
pub struct CodecError;

/// A byte count that fits the eight-byte length prefix of the wire format.
pub open spec fn fits_u64(n: nat) -> bool {
    n < 0x10000000000000000
}

/// The one-byte discriminant of each message type.
pub open spec fn spec_tag(m: MessageTypeView) -> u8 {
    match m {
        MessageTypeView::HandshakeInitiation => 1,
        MessageTypeView::HandshakeResponse => 2,
        MessageTypeView::Request => 3,
        MessageTypeView::Response => 4,
        MessageTypeView::Data => 5,
        MessageTypeView::DownloadRequest(_) => 6,
    }
}

/// The message type carried by a plain (payload-free) discriminant.
pub open spec fn spec_plain_variant(tag: u8) -> MessageTypeView {
    if tag == 1 {
        MessageTypeView::HandshakeInitiation
    } else if tag == 2 {
        MessageTypeView::HandshakeResponse
    } else if tag == 3 {
        MessageTypeView::Request
    } else if tag == 4 {
        MessageTypeView::Response
    } else {
        MessageTypeView::Data
    }
}

/// A length-prefixed chunk of raw bytes.
pub open spec fn spec_enc_bytes(d: Seq<u8>) -> Seq<u8> {
    spec_u64_to_le_bytes(d.len() as u64) + d
}

/// A length-prefixed text field: the byte count of the UTF-8 encoding,
/// followed by that encoding.
pub open spec fn spec_enc_str(s: Seq<char>) -> Seq<u8> {
    spec_enc_bytes(encode_utf8(s))
}

/// The bytes a message type contributes beyond its discriminant: the embedded
/// filename of a `DownloadRequest`, nothing for the other variants.
pub open spec fn spec_enc_name(m: MessageTypeView) -> Seq<u8> {
    match m {
        MessageTypeView::DownloadRequest(name) => spec_enc_str(name),
        _ => Seq::empty(),
    }
}

/// The full wire image of a PDU: discriminant, embedded filename (if any),
/// `length`, `sequence_number`, then the three length-prefixed fields.
pub open spec fn spec_encode(p: PduView) -> Seq<u8> {
    seq![spec_tag(p.msg_type)] + spec_enc_name(p.msg_type) + spec_u32_to_le_bytes(p.length)
        + spec_u32_to_le_bytes(p.sequence_number) + spec_enc_str(p.checksum)
        + spec_enc_bytes(p.data) + spec_enc_str(p.filename)
}

/// Every field of the PDU fits the wire format's length prefixes. Every PDU
/// held in memory satisfies this: a `Vec` or `String` is never longer than
/// the address space, which the eight-byte prefix always covers.
pub open spec fn encodable(p: PduView) -> bool {
    &&& fits_u64(p.data.len())
    &&& fits_u64(encode_utf8(p.checksum).len())
    &&& fits_u64(encode_utf8(p.filename).len())
    &&& match p.msg_type {
        MessageTypeView::DownloadRequest(name) => fits_u64(encode_utf8(name).len()),
        _ => true,
    }
}

/// Reads a length-prefixed chunk of raw bytes at position `i`.
pub open spec fn spec_dec_bytes(b: Seq<u8>, i: int) -> Option<(Seq<u8>, int)> {
    if i + 8 <= b.len() {
        let n: int = spec_u64_from_le_bytes(b.subrange(i, i + 8)) as int;
        if i + 8 + n <= b.len() {
            Some((b.subrange(i + 8, i + 8 + n), i + 8 + n))
        } else {
            None
        }
    } else {
        None
    }
}

/// Reads a length-prefixed text field at position `i`.
pub open spec fn spec_dec_str(b: Seq<u8>, i: int) -> Option<(Seq<char>, int)> {
    match spec_dec_bytes(b, i) {
        Some((d, j)) => if valid_utf8(d) {
            Some((decode_utf8(d), j))
        } else {
            None
        },
        None => None,
    }
}

/// Reads a four-byte little-endian integer at position `i`.
pub open spec fn spec_dec_u32(b: Seq<u8>, i: int) -> Option<(u32, int)> {
    if i + 4 <= b.len() {
        Some((spec_u32_from_le_bytes(b.subrange(i, i + 4)), i + 4))
    } else {
        None
    }
}

/// The PDU a byte sequence encodes, or `None` where the bytes are not the
/// wire image of exactly one PDU.
pub open spec fn spec_decode(b: Seq<u8>) -> Option<PduView> {
    if b.len() < 1 {
        None
    } else {
        let tag = b[0];
        let mt: Option<(MessageTypeView, int)> = if tag == 6 {
            match spec_dec_str(b, 1) {
                Some((name, i)) => Some((MessageTypeView::DownloadRequest(name), i)),
                None => None,
            }
        } else if 1 <= tag && tag <= 5 {
            Some((spec_plain_variant(tag), 1))
        } else {
            None
        };
        match mt {
            None => None,
            Some((msg_type, i1)) => match spec_dec_u32(b, i1) {
                None => None,
                Some((length, i2)) => match spec_dec_u32(b, i2) {
                    None => None,
                    Some((sequence_number, i3)) => match spec_dec_str(b, i3) {
                        None => None,
                        Some((checksum, i4)) => match spec_dec_bytes(b, i4) {
                            None => None,
                            Some((data, i5)) => match spec_dec_str(b, i5) {
                                None => None,
                                Some((filename, i6)) => if i6 == b.len() {
                                    Some(
                                        PduView {
                                            msg_type,
                                            length,
                                            sequence_number,
                                            checksum,
                                            data,
                                            filename,
                                        },
                                    )
                                } else {
                                    None
                                },
                            },
                        },
                    },
                },
            },
        }
    }
}

proof fn lemma_dec_bytes_at(b: Seq<u8>, i: int, d: Seq<u8>)
    requires
        0 <= i,
        i + 8 + d.len() <= b.len(),
        fits_u64(d.len()),
        b.subrange(i, i + 8 + d.len() as int) == spec_enc_bytes(d),
    ensures
        spec_dec_bytes(b, i) == Some((d, i + 8 + d.len() as int)),
{
    lemma_auto_spec_u64_to_from_le_bytes();
    let lenb = spec_u64_to_le_bytes(d.len() as u64);
    assert(lenb.len() == 8);
    let chunk = b.subrange(i, i + 8 + d.len() as int);
    assert(b.subrange(i, i + 8) =~= chunk.subrange(0, 8));
    assert(chunk.subrange(0, 8) =~= lenb);
    assert(spec_u64_from_le_bytes(b.subrange(i, i + 8)) == d.len() as u64);
    assert(b.subrange(i + 8, i + 8 + d.len() as int) =~= chunk.subrange(8, chunk.len() as int));
    assert(chunk.subrange(8, chunk.len() as int) =~= d);
}

proof fn lemma_dec_str_at(b: Seq<u8>, i: int, s: Seq<char>)
    requires
        0 <= i,
        i + 8 + encode_utf8(s).len() <= b.len(),
        fits_u64(encode_utf8(s).len()),
        b.subrange(i, i + 8 + encode_utf8(s).len() as int) == spec_enc_str(s),
    ensures
        spec_dec_str(b, i) == Some((s, i + 8 + encode_utf8(s).len() as int)),
{
    lemma_dec_bytes_at(b, i, encode_utf8(s));
    encode_utf8_valid_utf8(s);
    encode_utf8_decode_utf8(s);
}

proof fn lemma_dec_u32_at(b: Seq<u8>, i: int, x: u32)
    requires
        0 <= i,
        i + 4 <= b.len(),
        b.subrange(i, i + 4) == spec_u32_to_le_bytes(x),
    ensures
        spec_dec_u32(b, i) == Some((x, i + 4)),
{
    lemma_auto_spec_u32_to_from_le_bytes();
    assert(spec_u32_to_le_bytes(x).len() == 4);
    assert(spec_u32_from_le_bytes(spec_u32_to_le_bytes(x)) == x);
    assert(spec_u32_from_le_bytes(b.subrange(i, i + 4)) == x);
}

/// Round-trip law: decoding the wire image of any encodable PDU yields that
/// PDU back, exactly.
pub proof fn lemma_decode_encode(p: PduView)
    requires
        encodable(p),
    ensures
        spec_decode(spec_encode(p)) == Some(p),
{
    lemma_auto_spec_u32_to_from_le_bytes();
    lemma_auto_spec_u64_to_from_le_bytes();
    let e = spec_encode(p);
    let t = seq![spec_tag(p.msg_type)];
    let nm = spec_enc_name(p.msg_type);
    let l = spec_u32_to_le_bytes(p.length);
    let s = spec_u32_to_le_bytes(p.sequence_number);
    let c = spec_enc_str(p.checksum);
    let d = spec_enc_bytes(p.data);
    let f = spec_enc_str(p.filename);
    assert(l.len() == 4 && s.len() == 4);
    let o1: int = 1;
    let o2: int = o1 + nm.len();
    let o3: int = o2 + 4;
    let o4: int = o3 + 4;
    let o5: int = o4 + c.len();
    let o6: int = o5 + d.len();
    let o7: int = o6 + f.len();
    assert(e.len() == o7);
    assert(e[0] == spec_tag(p.msg_type));
    assert(e.subrange(o1, o2) =~= nm);
    assert(e.subrange(o2, o3) =~= l);
    assert(e.subrange(o3, o4) =~= s);
    assert(e.subrange(o4, o5) =~= c);
    assert(e.subrange(o5, o6) =~= d);
    assert(e.subrange(o6, o7) =~= f);
    match p.msg_type {
        MessageTypeView::DownloadRequest(name) => {
            assert(nm == spec_enc_str(name));
            lemma_dec_str_at(e, o1, name);
        },
        _ => {
            assert(nm.len() == 0);
        },
    }
    lemma_dec_u32_at(e, o2, p.length);
    lemma_dec_u32_at(e, o3, p.sequence_number);
    lemma_dec_str_at(e, o4, p.checksum);
    lemma_dec_bytes_at(e, o5, p.data);
    lemma_dec_str_at(e, o6, p.filename);
    assert(spec_decode(e) == Some(p));
}

fn push_u32(out: &mut Vec<u8>, x: u32)
    ensures
        final(out)@ == old(out)@ + spec_u32_to_le_bytes(x),
{
    let mut b = u32_to_le_bytes(x);
    out.append(&mut b);
}

fn push_bytes(out: &mut Vec<u8>, d: &[u8])
    ensures
        final(out)@ == old(out)@ + spec_enc_bytes(d@),
        fits_u64(d@.len()),
{
    let mut lenb = u64_to_le_bytes(d.len() as u64);
    out.append(&mut lenb);
    out.extend_from_slice(d);
    assert(out@ =~= old(out)@ + spec_enc_bytes(d@));
}

fn push_str(out: &mut Vec<u8>, s: &String)
    ensures
        final(out)@ == old(out)@ + spec_enc_str(s@),
        fits_u64(encode_utf8(s@).len()),
{
    let b = s.as_str().as_bytes_vec();
    push_bytes(out, b.as_slice());
}

/// Encodes a PDU to its wire image. Every PDU held in memory is encodable,
/// which the second clause hands to the round-trip law [`lemma_decode_encode`].
pub fn encode(pdu: &PDU) -> (r: Vec<u8>)
    ensures
        r@ == spec_encode(pdu@),
        encodable(pdu@),
{
    let mut out: Vec<u8> = Vec::new();
    match &pdu.msg_type {
        MessageType::HandshakeInitiation => out.push(1),
        MessageType::HandshakeResponse => out.push(2),
        MessageType::Request => out.push(3),
        MessageType::Response => out.push(4),
        MessageType::Data => out.push(5),
        MessageType::DownloadRequest(name) => {
            out.push(6);
            push_str(&mut out, name);
        },
    }
    assert(out@ =~= seq![spec_tag(pdu.msg_type@)] + spec_enc_name(pdu.msg_type@));
    push_u32(&mut out, pdu.length);
    push_u32(&mut out, pdu.sequence_number);
    push_str(&mut out, &pdu.checksum);
    push_bytes(&mut out, pdu.data.as_slice());
    push_str(&mut out, &pdu.filename);
    assert(out@ =~= spec_encode(pdu@));
    out
}

/// Relies on `String::from_utf8`: it returns the string whose UTF-8 encoding
/// is the given bytes, and fails exactly when the bytes are not valid UTF-8.
#[verifier::external_body]
fn string_from_utf8(v: Vec<u8>) -> (r: Option<String>)
    ensures
        r is Some <==> valid_utf8(v@),
        r is Some ==> encode_utf8(r->0@) == v@,
{
    String::from_utf8(v).ok()
}

fn dec_u32(b: &[u8], i: usize) -> (r: Result<(u32, usize), CodecError>)
    requires
        i <= b@.len(),
    ensures
        match r {
            Ok((x, j)) => spec_dec_u32(b@, i as int) == Some((x, j as int)) && i < j <= b@.len(),
            Err(_) => spec_dec_u32(b@, i as int) is None,
        },
{
    if b.len() - i < 4 {
        return Err(CodecError);
    }
    let sub = slice_subrange(b, i, i + 4);
    Ok((u32_from_le_bytes(sub), i + 4))
}

fn dec_bytes(b: &[u8], i: usize) -> (r: Result<(Vec<u8>, usize), CodecError>)
    requires
        i <= b@.len(),
    ensures
        match r {
            Ok((d, j)) => spec_dec_bytes(b@, i as int) == Some((d@, j as int)) && i < j
                <= b@.len(),
            Err(_) => spec_dec_bytes(b@, i as int) is None,
        },
{
    if b.len() - i < 8 {
        return Err(CodecError);
    }
    let n = u64_from_le_bytes(slice_subrange(b, i, i + 8));
    let rem: u64 = (b.len() - (i + 8)) as u64;
    if n > rem {
        return Err(CodecError);
    }
    let n_us: usize = n as usize;
    let j: usize = i + 8 + n_us;
    let d = slice_to_vec(slice_subrange(b, i + 8, j));
    Ok((d, j))
}

fn dec_str(b: &[u8], i: usize) -> (r: Result<(String, usize), CodecError>)
    requires
        i <= b@.len(),
    ensures
        match r {
            Ok((s, j)) => spec_dec_str(b@, i as int) == Some((s@, j as int)) && i < j <= b@.len(),
            Err(_) => spec_dec_str(b@, i as int) is None,
        },
{
    let (d, j) = match dec_bytes(b, i) {
        Ok(dj) => dj,
        Err(e) => {
            return Err(e);
        },
    };
    let ghost dv = d@;
    match string_from_utf8(d) {
        Some(s) => {
            proof {
                encode_utf8_decode_utf8(s@);
                assert(decode_utf8(dv) == s@);
            }
            Ok((s, j))
        },
        None => Err(CodecError),
    }
}

fn plain_variant(tag: u8) -> (m: MessageType)
    requires
        1 <= tag <= 5,
    ensures
        m@ == spec_plain_variant(tag),
{
    if tag == 1 {
        MessageType::HandshakeInitiation
    } else if tag == 2 {
        MessageType::HandshakeResponse
    } else if tag == 3 {
        MessageType::Request
    } else if tag == 4 {
        MessageType::Response
    } else {
        MessageType::Data
    }
}

/// Decodes the wire image of exactly one PDU, failing with a [`CodecError`]
/// on any input that is not such an image.
pub fn decode(bytes: &[u8]) -> (r: Result<PDU, CodecError>)
    ensures
        match r {
            Ok(p) => spec_decode(bytes@) == Some(p@),
            Err(_) => spec_decode(bytes@) is None,
        },
{
    if bytes.len() < 1 {
        return Err(CodecError);
    }
    let tag: u8 = *slice_index_get(bytes, 0);
    let (msg_type, i1): (MessageType, usize) = if tag == 6 {
        match dec_str(bytes, 1) {
            Ok((name, i)) => (MessageType::DownloadRequest(name), i),
            Err(e) => {
                return Err(e);
            },
        }
    } else if 1 <= tag && tag <= 5 {
        (plain_variant(tag), 1)
    } else {
        return Err(CodecError);
    };
    let (length, i2): (u32, usize) = match dec_u32(bytes, i1) {
        Ok(v) => v,
        Err(e) => {
            return Err(e);
        },
    };
    let (sequence_number, i3): (u32, usize) = match dec_u32(bytes, i2) {
        Ok(v) => v,
        Err(e) => {
            return Err(e);
        },
    };
    let (checksum, i4): (String, usize) = match dec_str(bytes, i3) {
        Ok(v) => v,
        Err(e) => {
            return Err(e);
        },
    };
    let (data, i5): (Vec<u8>, usize) = match dec_bytes(bytes, i4) {
        Ok(v) => v,
        Err(e) => {
            return Err(e);
        },
    };
    let (filename, i6): (String, usize) = match dec_str(bytes, i5) {
        Ok(v) => v,
        Err(e) => {
            return Err(e);
        },
    };
    if i6 != bytes.len() {
        return Err(CodecError);
    }
    let pdu = PDU { msg_type, length, sequence_number, checksum, data, filename };
    Ok(pdu)
}

} // verus!
