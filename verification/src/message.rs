//! The message envelope: construction (timestamp, canonical encoding,
//! signature), verification by re-deriving the encoding from the current
//! field values, and transmission packaging (per-field encryption, a second
//! signature over the transmitted representation, and the wire record).

use crate::clock::now_seconds;
use crate::codec::{canonical_bytes, push_blobs, push_len_prefixed, push_u64_be, wire_bytes};
use crate::text::{bool_text, dec_of, hex_of, push_bool, push_dec, push_hex};
use crate::crypto::{
    encrypt_field, rsa_encrypt_ok, rsa_public_of, rsa_sign_of, rsa_sign_ok, rsa_verify_ok,
    sha256_digest, sha256_of, sign_digest, verify_digest,
};
use vstd::prelude::*;
use vstd::string::StringExecFns;
use vstd::string::StringSliceAdditionalSpecFns;
use vstd::utf8::encode_utf8;

verus! {

/// Why an envelope operation failed.
#[derive(Clone, Copy, Debug, PartialEq, Eq, Structural)]
pub enum EnvelopeError {
    /// The signing key is incompatible with the hash-and-padding scheme.
    Signing,
    /// Some field could not be encrypted for the recipient; no partial wire
    /// record is emitted.
    Encryption,
}

/// A chat message. `signature` is the signing engine's output over the
/// canonical encoding of every other field; the record is treated as
/// append-only, so the signature stays valid until a field is tampered
/// with, which verification detects by re-deriving the encoding.
#[derive(Clone, Debug)]
pub struct Message {
    /// Zero until assigned by the receiving authority.
    pub message_id: u64,
    pub channel_id: u64,
    pub is_response: bool,
    /// Present iff `is_response` — a caller-enforced correlation.
    pub is_response_to: Option<u64>,
    pub is_broadcast: bool,
    pub body: String,
    pub attachments: Vec<Vec<u8>>,
    /// Unix seconds, fixed at construction time.
    pub timestamp: u64,
    pub author: String,
    pub signature: Vec<u8>,
}

/// The canonical encoding of a message's current field values.
pub open spec fn msg_canonical(m: Message) -> Seq<u8> {
    canonical_bytes(
        m.message_id,
        m.channel_id,
        m.is_response,
        m.is_response_to,
        m.is_broadcast,
        encode_utf8(m.body@),
        m.attachments.deep_view(),
        m.timestamp,
        encode_utf8(m.author@),
    )
}

/// The message carries a signature that `key` accepts over the canonical
/// encoding of its current field values.
pub open spec fn signed_under(m: Message, key: rsa::RsaPublicKey) -> bool {
    rsa_verify_ok(key, sha256_of(msg_canonical(m)), m.signature@)
}

impl Message {
    /// The canonical byte encoding of the given field values (the
    /// construction-time form, with the plaintext body and timestamp).
    pub fn create_message_data(
        message_id: u64,
        channel_id: u64,
        is_response: bool,
        is_response_to: Option<u64>,
        is_broadcast: bool,
        body: &str,
        attachments: &[Vec<u8>],
        timestamp: u64,
        author: &str,
    ) -> (r: Vec<u8>)
        ensures
            r@ == canonical_bytes(
                message_id,
                channel_id,
                is_response,
                is_response_to,
                is_broadcast,
                body.spec_bytes(),
                attachments.deep_view(),
                timestamp,
                author.spec_bytes(),
            ),
    {
        let mut out: Vec<u8> = Vec::new();
        push_u64_be(&mut out, message_id);
        push_u64_be(&mut out, channel_id);
        out.push(if is_response { 1 } else { 0 });
        match is_response_to {
            Some(response_to) => push_u64_be(&mut out, response_to),
            None => push_u64_be(&mut out, 0),
        }
        out.push(if is_broadcast { 1 } else { 0 });
        push_len_prefixed(&mut out, body.as_bytes());
        push_blobs(&mut out, attachments);
        push_u64_be(&mut out, timestamp);
        push_len_prefixed(&mut out, author.as_bytes());
        proof {
            assert(out@ =~= canonical_bytes(
                message_id,
                channel_id,
                is_response,
                is_response_to,
                is_broadcast,
                body.spec_bytes(),
                attachments.deep_view(),
                timestamp,
                author.spec_bytes(),
            ));
        }
        out
    }

    /// The canonical byte encoding of a wire record's transmitted fields,
    /// ciphertexts included: what the packaging-time signature covers.
    pub fn create_wire_data(
        message_id: u64,
        channel_id: u64,
        is_response: bool,
        is_response_to: Option<u64>,
        is_broadcast: bool,
        body_ct: &[u8],
        attachment_cts: &[Vec<u8>],
        timestamp_ct: &[u8],
        author: &str,
    ) -> (r: Vec<u8>)
        ensures
            r@ == wire_bytes(
                message_id,
                channel_id,
                is_response,
                is_response_to,
                is_broadcast,
                body_ct@,
                attachment_cts.deep_view(),
                timestamp_ct@,
                author.spec_bytes(),
            ),
    {
        let mut out: Vec<u8> = Vec::new();
        push_u64_be(&mut out, message_id);
        push_u64_be(&mut out, channel_id);
        out.push(if is_response { 1 } else { 0 });
        match is_response_to {
            Some(response_to) => push_u64_be(&mut out, response_to),
            None => push_u64_be(&mut out, 0),
        }
        out.push(if is_broadcast { 1 } else { 0 });
        push_len_prefixed(&mut out, body_ct);
        push_blobs(&mut out, attachment_cts);
        push_len_prefixed(&mut out, timestamp_ct);
        push_len_prefixed(&mut out, author.as_bytes());
        proof {
            assert(out@ =~= wire_bytes(
                message_id,
                channel_id,
                is_response,
                is_response_to,
                is_broadcast,
                body_ct@,
                attachment_cts.deep_view(),
                timestamp_ct@,
                author.spec_bytes(),
            ));
        }
        out
    }

    /// Assigns the current timestamp and a zero placeholder identifier,
    /// canonically encodes all fields, and signs the encoding. Fails only
    /// if signing fails; the returned message then verifies under the
    /// public key matching the signing key.
    pub fn new(
        channel_id: u64,
        is_response: bool,
        is_response_to: Option<u64>,
        is_broadcast: bool,
        body: String,
        attachments: Vec<Vec<u8>>,
        author: String,
        private_key: &rsa::RsaPrivateKey,
    ) -> (r: Result<Message, EnvelopeError>)
        ensures
            r is Ok <==> rsa_sign_ok(*private_key),
            r matches Err(e) ==> e == EnvelopeError::Signing,
            r matches Ok(m) ==> {
                &&& m.message_id == 0
                &&& m.channel_id == channel_id
                &&& m.is_response == is_response
                &&& m.is_response_to == is_response_to
                &&& m.is_broadcast == is_broadcast
                &&& m.body == body
                &&& m.attachments == attachments
                &&& m.author == author
                &&& m.signature@ == rsa_sign_of(*private_key, sha256_of(msg_canonical(m)))
                &&& signed_under(m, rsa_public_of(*private_key))
            },
    {
        let timestamp = now_seconds();
        let message_data = Self::create_message_data(
            0,
            channel_id,
            is_response,
            is_response_to,
            is_broadcast,
            body.as_str(),
            attachments.as_slice(),
            timestamp,
            author.as_str(),
        );
        let digest = sha256_digest(message_data.as_slice());
        match sign_digest(private_key, &digest) {
            Some(signature) => {
                let m = Message {
                    message_id: 0,
                    channel_id,
                    is_response,
                    is_response_to,
                    is_broadcast,
                    body,
                    attachments,
                    timestamp,
                    author,
                    signature,
                };
                proof {
                    assert(msg_canonical(m) =~= message_data@);
                }
                Ok(m)
            },
            None => Err(EnvelopeError::Signing),
        }
    }

    /// Recomputes the canonical encoding from the message's current field
    /// values and checks the signature against it; re-deriving rather than
    /// trusting a cached buffer is what detects post-construction
    /// tampering. Total: returns `false` on any mismatch, never fails.
    pub fn verify(&self, public_key: &rsa::RsaPublicKey) -> (r: bool)
        ensures
            r == signed_under(*self, *public_key),
    {
        let message_data = Self::create_message_data(
            self.message_id,
            self.channel_id,
            self.is_response,
            self.is_response_to,
            self.is_broadcast,
            self.body.as_str(),
            self.attachments.as_slice(),
            self.timestamp,
            self.author.as_str(),
        );
        let digest = sha256_digest(message_data.as_slice());
        proof {
            assert(msg_canonical(*self) =~= message_data@);
        }
        verify_digest(public_key, &digest, self.signature.as_slice())
    }
}

/// The JSON text of an optional 64-bit field.
pub open spec fn opt_text(o: Option<u64>) -> Seq<char> {
    match o {
        Option::Some(v) => dec_of(v as nat),
        Option::None => "null"@,
    }
}

/// The JSON array content for the attachment ciphertexts: each as a
/// quoted lowercase hex string, comma-separated, in sequence order.
pub open spec fn hex_list(cts: Seq<Seq<u8>>) -> Seq<char>
    decreases cts.len(),
{
    if cts.len() == 0 {
        Seq::empty()
    } else if cts.len() == 1 {
        "\""@ + hex_of(cts[0]) + "\""@
    } else {
        hex_list(cts.drop_last()) + ",\""@ + hex_of(cts.last()) + "\""@
    }
}

/// The wire record: a JSON object with a fixed key order; ciphertext
/// fields as lowercase hex strings, the author in plaintext so a recipient
/// can look up the matching public key before decrypting.
pub open spec fn wire_json(
    message_id: u64,
    channel_id: u64,
    is_response: bool,
    is_response_to: Option<u64>,
    is_broadcast: bool,
    body_ct: Seq<u8>,
    attachment_cts: Seq<Seq<u8>>,
    timestamp_ct: Seq<u8>,
    author: Seq<char>,
    signature: Seq<u8>,
) -> Seq<char> {
    "{\"message_id\":"@ + dec_of(message_id as nat) + ",\"channel_id\":"@ + dec_of(
        channel_id as nat,
    ) + ",\"is_response\":"@ + bool_text(is_response) + ",\"is_response_to\":"@ + opt_text(
        is_response_to,
    ) + ",\"is_broadcast\":"@ + bool_text(is_broadcast) + ",\"body\":\""@ + hex_of(body_ct)
        + "\",\"attachments\":["@ + hex_list(attachment_cts) + "],\"timestamp\":\""@ + hex_of(
        timestamp_ct,
    ) + "\",\"author\":\""@ + author + "\",\"signature\":\""@ + hex_of(signature) + "\"}"@
}

/// Appends the attachment array content.
fn push_hex_list(out: &mut String, cts: &[Vec<u8>])
    ensures
        final(out)@ == old(out)@ + hex_list(cts.deep_view()),
{
    let n = cts.len();
    let ghost pre = out@;
    for i in 0..n
        invariant
            n == cts@.len(),
            out@ == pre + hex_list(cts.deep_view().take(i as int)),
    {
        let ct: &Vec<u8> = vstd::slice::slice_index_get(cts, i);
        if i == 0 {
            out.append("\"");
        } else {
            out.append(",\"");
        }
        push_hex(out, ct.as_slice());
        out.append("\"");
        proof {
            let dv = cts.deep_view();
            assert(dv.take(i + 1).drop_last() =~= dv.take(i as int));
            assert(dv.take(i + 1).last() == ct@);
            assert(out@ =~= pre + hex_list(dv.take(i + 1)));
        }
    }
    proof {
        assert(cts.deep_view().take(n as int) =~= cts.deep_view());
    }
}

/// Every field the packaging step encrypts fits under the recipient's key:
/// the body, each attachment, and the eight-byte timestamp.
pub open spec fn fields_encryptable(m: Message, key: rsa::RsaPublicKey) -> bool {
    &&& rsa_encrypt_ok(key, encode_utf8(m.body@).len())
    &&& forall|i: int|
        0 <= i < m.attachments@.len() ==> rsa_encrypt_ok(key, m.attachments@[i]@.len())
    &&& rsa_encrypt_ok(key, 8)
}

/// The digest the packaging-time signature is computed over: the hash of
/// the canonical encoding of the transmitted fields, ciphertexts included.
pub open spec fn wire_digest(
    m: Message,
    body_ct: Seq<u8>,
    attachment_cts: Seq<Seq<u8>>,
    timestamp_ct: Seq<u8>,
) -> Seq<u8> {
    sha256_of(
        wire_bytes(
            m.message_id,
            m.channel_id,
            m.is_response,
            m.is_response_to,
            m.is_broadcast,
            body_ct,
            attachment_cts,
            timestamp_ct,
            encode_utf8(m.author@),
        ),
    )
}

/// The wire text `s` carries the given ciphertexts and a packaging-time
/// signature over the transmitted representation, ciphertexts included —
/// one the public key matching the packaging key accepts, so the transport
/// envelope is independently re-authenticated end-to-end.
pub open spec fn packaged_with(
    s: Seq<char>,
    m: Message,
    key: rsa::RsaPrivateKey,
    body_ct: Seq<u8>,
    attachment_cts: Seq<Seq<u8>>,
    timestamp_ct: Seq<u8>,
) -> bool {
    &&& s == wire_json(
        m.message_id,
        m.channel_id,
        m.is_response,
        m.is_response_to,
        m.is_broadcast,
        body_ct,
        attachment_cts,
        timestamp_ct,
        m.author@,
        rsa_sign_of(key, wire_digest(m, body_ct, attachment_cts, timestamp_ct)),
    )
    &&& rsa_verify_ok(
        rsa_public_of(key),
        wire_digest(m, body_ct, attachment_cts, timestamp_ct),
        rsa_sign_of(key, wire_digest(m, body_ct, attachment_cts, timestamp_ct)),
    )
}

/// The wire text `s` is a packaging of `m` signed with `key`: for some
/// per-field ciphertexts, one per attachment, `s` is the JSON wire record
/// carrying them and a signature over the transmitted representation.
pub open spec fn is_packaged(s: Seq<char>, m: Message, key: rsa::RsaPrivateKey) -> bool {
    exists|body_ct: Seq<u8>, attachment_cts: Seq<Seq<u8>>, timestamp_ct: Seq<u8>|
        {
            &&& #[trigger] packaged_with(s, m, key, body_ct, attachment_cts, timestamp_ct)
            &&& attachment_cts.len() == m.attachments@.len()
        }
}

impl Message {
    /// Builds and signs the wire record for already-encrypted fields:
    /// signs the canonical encoding of the transmitted representation,
    /// then emits the fixed-shape JSON record. Verified exactly for every
    /// value of the ciphertexts, however the randomized encryption came
    /// out. Fails only if signing fails.
    pub fn package_signed(
        &self,
        body_ct: &Vec<u8>,
        attachment_cts: &Vec<Vec<u8>>,
        timestamp_ct: &Vec<u8>,
        private_key: &rsa::RsaPrivateKey,
    ) -> (r: Result<String, EnvelopeError>)
        ensures
            r is Ok <==> rsa_sign_ok(*private_key),
            r matches Err(e) ==> e == EnvelopeError::Signing,
            r matches Ok(s) ==> packaged_with(
                s@,
                *self,
                *private_key,
                body_ct@,
                attachment_cts.deep_view(),
                timestamp_ct@,
            ),
    {
        let wire_data = Self::create_wire_data(
            self.message_id,
            self.channel_id,
            self.is_response,
            self.is_response_to,
            self.is_broadcast,
            body_ct.as_slice(),
            attachment_cts.as_slice(),
            timestamp_ct.as_slice(),
            self.author.as_str(),
        );
        let digest = sha256_digest(wire_data.as_slice());
        let signature = match sign_digest(private_key, &digest) {
            Some(signature) => signature,
            None => {
                return Err(EnvelopeError::Signing);
            },
        };
        let mut out = String::new();
        out.append("{\"message_id\":");
        push_dec(&mut out, self.message_id);
        out.append(",\"channel_id\":");
        push_dec(&mut out, self.channel_id);
        out.append(",\"is_response\":");
        push_bool(&mut out, self.is_response);
        out.append(",\"is_response_to\":");
        match self.is_response_to {
            Some(response_to) => push_dec(&mut out, response_to),
            None => out.append("null"),
        }
        out.append(",\"is_broadcast\":");
        push_bool(&mut out, self.is_broadcast);
        out.append(",\"body\":\"");
        push_hex(&mut out, body_ct.as_slice());
        out.append("\",\"attachments\":[");
        push_hex_list(&mut out, attachment_cts.as_slice());
        out.append("],\"timestamp\":\"");
        push_hex(&mut out, timestamp_ct.as_slice());
        out.append("\",\"author\":\"");
        out.append(self.author.as_str());
        out.append("\",\"signature\":\"");
        push_hex(&mut out, signature.as_slice());
        out.append("\"}");
        proof {
            assert(out@ =~= wire_json(
                self.message_id,
                self.channel_id,
                self.is_response,
                self.is_response_to,
                self.is_broadcast,
                body_ct@,
                attachment_cts.deep_view(),
                timestamp_ct@,
                self.author@,
                signature@,
            ));
        }
        Ok(out)
    }

    /// Encrypts the body, each attachment in order, and the eight-byte
    /// big-endian timestamp under the recipient's key, signs the
    /// transmitted representation with the author's key, and emits the
    /// wire record. Fails atomically: any per-field encryption failure
    /// aborts the whole packaging with an encryption error, and a signing
    /// failure with a signing error.
    pub fn encrypt_for_sending(
        &self,
        public_key: &rsa::RsaPublicKey,
        author_private_key: &rsa::RsaPrivateKey,
    ) -> (r: Result<String, EnvelopeError>)
        ensures
            r is Ok <==> (fields_encryptable(*self, *public_key) && rsa_sign_ok(
                *author_private_key,
            )),
            r matches Err(e) ==> (e == EnvelopeError::Encryption <==> !fields_encryptable(
                *self,
                *public_key,
            )),
            r matches Ok(s) ==> is_packaged(s@, *self, *author_private_key),
    {
        let body_ct = match encrypt_field(public_key, self.body.as_str().as_bytes()) {
            Some(ct) => ct,
            None => {
                return Err(EnvelopeError::Encryption);
            },
        };
        let mut attachment_cts: Vec<Vec<u8>> = Vec::new();
        let n = self.attachments.len();
        for i in 0..n
            invariant
                n == self.attachments@.len(),
                attachment_cts@.len() == i,
                forall|j: int|
                    0 <= j < i ==> rsa_encrypt_ok(*public_key, self.attachments@[j]@.len()),
        {
            let ct = match encrypt_field(public_key, self.attachments[i].as_slice()) {
                Some(ct) => ct,
                None => {
                    return Err(EnvelopeError::Encryption);
                },
            };
            attachment_cts.push(ct);
        }
        let mut timestamp_bytes: Vec<u8> = Vec::new();
        push_u64_be(&mut timestamp_bytes, self.timestamp);
        let timestamp_ct = match encrypt_field(public_key, timestamp_bytes.as_slice()) {
            Some(ct) => ct,
            None => {
                return Err(EnvelopeError::Encryption);
            },
        };
        let r = self.package_signed(&body_ct, &attachment_cts, &timestamp_ct, author_private_key);
        proof {
            if r is Ok {
                assert(packaged_with(
                    r->Ok_0@,
                    *self,
                    *author_private_key,
                    body_ct@,
                    attachment_cts.deep_view(),
                    timestamp_ct@,
                ));
            }
        }
        r
    }
}

/// Construction then verification under the matching key succeeds: a
/// message whose signature field is the signing engine's output over the
/// canonical encoding of its current fields — as `Message::new` ensures of
/// every message it returns, the accepted signature included — satisfies
/// `signed_under` with the matching public key, which is exactly the
/// condition under which `Message::verify` returns `true`.
pub proof fn lemma_construct_then_verify(m: Message, private_key: rsa::RsaPrivateKey)
    requires
        m.signature@ == rsa_sign_of(private_key, sha256_of(msg_canonical(m))),
        rsa_verify_ok(
            rsa_public_of(private_key),
            sha256_of(msg_canonical(m)),
            rsa_sign_of(private_key, sha256_of(msg_canonical(m))),
        ),
    ensures
        signed_under(m, rsa_public_of(private_key)),
{
}

/// The canonical encoding is deterministic: two messages whose field
/// values agree encode to byte-identical output, whatever else (such as
/// their signatures) differs.
pub proof fn lemma_encode_deterministic(a: Message, b: Message)
    requires
        a.message_id == b.message_id,
        a.channel_id == b.channel_id,
        a.is_response == b.is_response,
        a.is_response_to == b.is_response_to,
        a.is_broadcast == b.is_broadcast,
        a.body@ == b.body@,
        a.attachments.deep_view() == b.attachments.deep_view(),
        a.timestamp == b.timestamp,
        a.author@ == b.author@,
    ensures
        msg_canonical(a) == msg_canonical(b),
{
}

/// The known boundary ambiguity of the optional-field sentinel: an absent
/// `is_response_to` and a present value of zero encode to identical
/// canonical bytes when every other field agrees, because absence is
/// encoded as eight zero bytes. This is documented, not silently repaired.
/// (The `is_response` flag itself does carry its own byte: two messages
/// differing in that flag encode differently.)
pub proof fn lemma_response_sentinel_collision(a: Message, b: Message)
    requires
        a.message_id == b.message_id,
        a.channel_id == b.channel_id,
        a.is_response == b.is_response,
        a.is_response_to == Option::<u64>::None,
        b.is_response_to == Option::Some(0u64),
        a.is_broadcast == b.is_broadcast,
        a.body@ == b.body@,
        a.attachments.deep_view() == b.attachments.deep_view(),
        a.timestamp == b.timestamp,
        a.author@ == b.author@,
    ensures
        msg_canonical(a) == msg_canonical(b),
{
    assert(crate::codec::opt_u64_word(a.is_response_to) =~= crate::codec::opt_u64_word(
        b.is_response_to,
    ));
}

} // verus!
