//! Canonical byte encoding primitives: big-endian 64-bit words and
//! length-prefixed variable-length sections.

use vstd::prelude::*;

verus! {

/// The eight big-endian bytes of a 64-bit word.
pub open spec fn u64_be(x: u64) -> Seq<u8> {
    seq![
        ((x >> 56u64) & 0xff) as u8,
        ((x >> 48u64) & 0xff) as u8,
        ((x >> 40u64) & 0xff) as u8,
        ((x >> 32u64) & 0xff) as u8,
        ((x >> 24u64) & 0xff) as u8,
        ((x >> 16u64) & 0xff) as u8,
        ((x >> 8u64) & 0xff) as u8,
        (x & 0xff) as u8,
    ]
}

/// A variable-length section: an eight-byte big-endian byte count, then the
/// content. The explicit count keeps distinct field splits from colliding.
pub open spec fn len_prefixed(s: Seq<u8>) -> Seq<u8> {
    u64_be(s.len() as u64) + s
}

/// The single flag byte of a boolean field.
pub open spec fn bool_byte(b: bool) -> u8 {
    if b {
        1
    } else {
        0
    }
}

/// The eight-byte word of an optional 64-bit field: the value where
/// present, eight zero bytes as the absence sentinel. The sentinel makes an
/// absent field and a present value of zero encode alike; that ambiguity is
/// kept as the format has it.
pub open spec fn opt_u64_word(o: Option<u64>) -> Seq<u8> {
    match o {
        Option::Some(v) => u64_be(v),
        Option::None => u64_be(0),
    }
}

/// The attachment section's content: each blob length-prefixed, in
/// sequence order.
pub open spec fn blobs_bytes(blobs: Seq<Seq<u8>>) -> Seq<u8>
    decreases blobs.len(),
{
    if blobs.len() == 0 {
        Seq::empty()
    } else {
        blobs_bytes(blobs.drop_last()) + len_prefixed(blobs.last())
    }
}

/// The canonical encoding of a message's fields: the fixed-width fields in
/// a fixed order, every variable-length field length-prefixed, and the
/// attachment section preceded by its blob count.
pub open spec fn canonical_bytes(
    message_id: u64,
    channel_id: u64,
    is_response: bool,
    is_response_to: Option<u64>,
    is_broadcast: bool,
    body: Seq<u8>,
    attachments: Seq<Seq<u8>>,
    timestamp: u64,
    author: Seq<u8>,
) -> Seq<u8> {
    u64_be(message_id) + u64_be(channel_id) + seq![bool_byte(is_response)] + opt_u64_word(
        is_response_to,
    ) + seq![bool_byte(is_broadcast)] + len_prefixed(body) + u64_be(attachments.len() as u64)
        + blobs_bytes(attachments) + u64_be(timestamp) + len_prefixed(author)
}

/// The canonical encoding of a wire record's transmitted fields, ciphertexts
/// included: what the packaging-time signature is computed over. It differs
/// from the construction-time encoding in that body and timestamp stand as
/// their variable-length ciphertexts.
pub open spec fn wire_bytes(
    message_id: u64,
    channel_id: u64,
    is_response: bool,
    is_response_to: Option<u64>,
    is_broadcast: bool,
    body_ct: Seq<u8>,
    attachment_cts: Seq<Seq<u8>>,
    timestamp_ct: Seq<u8>,
    author: Seq<u8>,
) -> Seq<u8> {
    u64_be(message_id) + u64_be(channel_id) + seq![bool_byte(is_response)] + opt_u64_word(
        is_response_to,
    ) + seq![bool_byte(is_broadcast)] + len_prefixed(body_ct) + u64_be(
        attachment_cts.len() as u64,
    ) + blobs_bytes(attachment_cts) + len_prefixed(timestamp_ct) + len_prefixed(author)
}

/// Appends the eight big-endian bytes of `x`.
pub fn push_u64_be(out: &mut Vec<u8>, x: u64)
    ensures
        final(out)@ == old(out)@ + u64_be(x),
{
    out.push(((x >> 56u64) & 0xff) as u8);
    out.push(((x >> 48u64) & 0xff) as u8);
    out.push(((x >> 40u64) & 0xff) as u8);
    out.push(((x >> 32u64) & 0xff) as u8);
    out.push(((x >> 24u64) & 0xff) as u8);
    out.push(((x >> 16u64) & 0xff) as u8);
    out.push(((x >> 8u64) & 0xff) as u8);
    out.push((x & 0xff) as u8);
    proof {
        assert(out@ =~= old(out)@ + u64_be(x));
    }
}

/// Appends `content` under an eight-byte big-endian length prefix.
pub fn push_len_prefixed(out: &mut Vec<u8>, content: &[u8])
    ensures
        final(out)@ == old(out)@ + len_prefixed(content@),
{
    push_u64_be(out, content.len() as u64);
    out.extend_from_slice(content);
    proof {
        assert(out@ =~= old(out)@ + len_prefixed(content@));
    }
}

/// Appends a blob section: the count, then each blob length-prefixed.
pub fn push_blobs(out: &mut Vec<u8>, blobs: &[Vec<u8>])
    ensures
        final(out)@ == old(out)@ + u64_be(blobs@.len() as u64) + blobs_bytes(blobs.deep_view()),
{
    let n = blobs.len();
    push_u64_be(out, n as u64);
    let ghost pre = out@;
    for i in 0..n
        invariant
            n == blobs@.len(),
            out@ == pre + blobs_bytes(blobs.deep_view().take(i as int)),
    {
        let blob: &Vec<u8> = vstd::slice::slice_index_get(blobs, i);
        push_len_prefixed(out, blob.as_slice());
        proof {
            let dv = blobs.deep_view();
            assert(dv.take(i + 1).drop_last() =~= dv.take(i as int));
            assert(dv.take(i + 1).last() == blob@);
            assert(out@ =~= pre + blobs_bytes(dv.take(i + 1)));
        }
    }
    proof {
        assert(blobs.deep_view().take(n as int) =~= blobs.deep_view());
        assert(out@ =~= old(out)@ + u64_be(blobs@.len() as u64) + blobs_bytes(blobs.deep_view()));
    }
}

} // verus!
