//! From a presentation, as the credential engine hands it out (URL-safe base64
//! of a JSON object whose members `proof` and `device_binding` are URL-safe
//! base64 again), to the compact binary form whose size the benchmark reports.
use vstd::prelude::*;
use vstd::utf8::encode_utf8;

use crate::codec::{decode_spec, decode_url_safe_no_pad};
use crate::frame::{be_value, frame_presentation, frame_spec, lemma_frame_recoverable};

verus! {

/// The string value of the member `key` of the JSON object that `json` holds,
/// as `serde_json` reads it; `None` when `json` is not a JSON object, has no
/// such member, or the member is not a string.
pub uninterp spec fn json_string_member(json: Seq<u8>, key: Seq<char>) -> Option<Seq<char>>;

/// Reads `json` with `serde_json::from_slice` into a `serde_json::Value` and
/// looks up the member `key` of the object, keeping it when it is a string.
/// Claims only that the outcome is the value of `json_string_member` on the
/// same bytes and key: what that is takes `serde_json`'s grammar to say, and it
/// is left unstated.
#[verifier::external_body]
fn string_member(json: &[u8], key: &str) -> (r: Option<String>)
    ensures
        match r {
            Some(s) => json_string_member(json@, key@) == Some(s@),
            None => json_string_member(json@, key@) is None,
        },
{
    match serde_json::from_slice::<serde_json::Value>(json) {
        Ok(serde_json::Value::Object(members)) => match members.get(key) {
            Some(serde_json::Value::String(s)) => Some(s.clone()),
            _ => None,
        },
        _ => None,
    }
}

/// Why a presentation has no compact form.
#[derive(Debug, Clone, Copy, PartialEq, Eq, Structural)]
pub enum CompactError {
    /// The presentation is not unpadded URL-safe base64.
    PresentationNotBase64,
    /// The decoded presentation is not a JSON object with a string `proof`.
    MissingProof,
    /// The `proof` member is not unpadded URL-safe base64.
    ProofNotBase64,
    /// The decoded presentation has no string `device_binding` member.
    MissingDeviceBinding,
    /// The `device_binding` member is not unpadded URL-safe base64.
    DeviceBindingNotBase64,
}

/// The compact form of `presentation`, or the first step at which it fails.
pub open spec fn compact_spec(presentation: Seq<char>) -> Result<Seq<u8>, CompactError> {
    match decode_spec(true, false, encode_utf8(presentation)) {
        None => Err(CompactError::PresentationNotBase64),
        Some(json) => match json_string_member(json, "proof"@) {
            None => Err(CompactError::MissingProof),
            Some(proof_text) => match decode_spec(true, false, encode_utf8(proof_text)) {
                None => Err(CompactError::ProofNotBase64),
                Some(proof) => match json_string_member(json, "device_binding"@) {
                    None => Err(CompactError::MissingDeviceBinding),
                    Some(binding_text) => match decode_spec(
                        true,
                        false,
                        encode_utf8(binding_text),
                    ) {
                        None => Err(CompactError::DeviceBindingNotBase64),
                        Some(binding) => Ok(frame_spec(proof, binding)),
                    },
                },
            },
        },
    }
}

/// Turns a presentation into its compact form: decodes it, takes the `proof`
/// and `device_binding` members, decodes each, and frames them with their
/// big-endian lengths.
pub fn compact_presentation(presentation: &str) -> (r: Result<Vec<u8>, CompactError>)
    ensures
        match r {
            Ok(v) => compact_spec(presentation@) == Ok::<Seq<u8>, CompactError>(v@),
            Err(e) => compact_spec(presentation@) == Err::<Seq<u8>, CompactError>(e),
        },
{
    let json = match decode_url_safe_no_pad(presentation.as_bytes()) {
        Some(json) => json,
        None => return Err(CompactError::PresentationNotBase64),
    };
    let proof_text = match string_member(json.as_slice(), "proof") {
        Some(text) => text,
        None => return Err(CompactError::MissingProof),
    };
    let proof = match decode_url_safe_no_pad(proof_text.as_str().as_bytes()) {
        Some(proof) => proof,
        None => return Err(CompactError::ProofNotBase64),
    };
    let binding_text = match string_member(json.as_slice(), "device_binding") {
        Some(text) => text,
        None => return Err(CompactError::MissingDeviceBinding),
    };
    let binding = match decode_url_safe_no_pad(binding_text.as_str().as_bytes()) {
        Some(binding) => binding,
        None => return Err(CompactError::DeviceBindingNotBase64),
    };
    Ok(frame_presentation(proof.as_slice(), binding.as_slice()))
}

/// Reading an accepted presentation's compact form back through its framing
/// gives, whole and whatever their lengths, the decoded `proof` member and the
/// decoded `device_binding` member of the decoded presentation: first the
/// proof's length as eight big-endian bytes, then the proof, then the device
/// binding's length, then the device binding.
pub proof fn lemma_compact_reads_back(presentation: Seq<char>)
    ensures
        compact_spec(presentation) matches Ok(v) ==> {
            let json = decode_spec(true, false, encode_utf8(presentation));
            &&& json is Some
            &&& json_string_member(json->0, "proof"@) is Some
            &&& json_string_member(json->0, "device_binding"@) is Some
            &&& {
                let proof = decode_spec(
                    true,
                    false,
                    encode_utf8(json_string_member(json->0, "proof"@)->0),
                );
                let binding = decode_spec(
                    true,
                    false,
                    encode_utf8(json_string_member(json->0, "device_binding"@)->0),
                );
                &&& proof is Some
                &&& binding is Some
                &&& {
                    let p = proof->0;
                    let d = binding->0;
                    let n = p.len() as int;
                    &&& v.len() == 16 + p.len() + d.len()
                    &&& v.subrange(8, 8 + n) == p
                    &&& v.subrange(16 + n, v.len() as int) == d
                    &&& (p.len() <= u64::MAX && d.len() <= u64::MAX) ==> {
                        &&& be_value(v.subrange(0, 8)) == p.len()
                        &&& be_value(v.subrange(8 + n, 16 + n)) == d.len()
                    }
                }
            }
        },
{
    if compact_spec(presentation) is Ok {
        let v = compact_spec(presentation)->Ok_0;
        let json = decode_spec(true, false, encode_utf8(presentation))->0;
        let p = decode_spec(true, false, encode_utf8(json_string_member(json, "proof"@)->0))->0;
        let d = decode_spec(
            true,
            false,
            encode_utf8(json_string_member(json, "device_binding"@)->0),
        )->0;
        let n = p.len() as int;
        assert(v == frame_spec(p, d));
        assert(v.subrange(8, 8 + n) =~= p);
        assert(v.subrange(16 + n, v.len() as int) =~= d);
        if p.len() <= u64::MAX && d.len() <= u64::MAX {
            lemma_frame_recoverable(p, d);
        }
    }
}

/// Which step a presentation fails at, said through the decodings alone: it is
/// not base64; or its JSON has no string `proof`; or that is not base64; or
/// there is no string `device_binding`; or that is not base64; and it is
/// accepted exactly when every step succeeds.
pub proof fn lemma_compact_errors(presentation: Seq<char>)
    ensures
        ({
            let json = decode_spec(true, false, encode_utf8(presentation));
            let proof_text = json_string_member(json->0, "proof"@);
            let binding_text = json_string_member(json->0, "device_binding"@);
            let proof = decode_spec(true, false, encode_utf8(proof_text->0));
            let binding = decode_spec(true, false, encode_utf8(binding_text->0));
            &&& (compact_spec(presentation) == Err::<Seq<u8>, CompactError>(
                CompactError::PresentationNotBase64,
            )) <==> json is None
            &&& (compact_spec(presentation) == Err::<Seq<u8>, CompactError>(
                CompactError::MissingProof,
            )) <==> (json is Some && proof_text is None)
            &&& (compact_spec(presentation) == Err::<Seq<u8>, CompactError>(
                CompactError::ProofNotBase64,
            )) <==> (json is Some && proof_text is Some && proof is None)
            &&& (compact_spec(presentation) == Err::<Seq<u8>, CompactError>(
                CompactError::MissingDeviceBinding,
            )) <==> (json is Some && proof_text is Some && proof is Some && binding_text is None)
            &&& (compact_spec(presentation) == Err::<Seq<u8>, CompactError>(
                CompactError::DeviceBindingNotBase64,
            )) <==> (json is Some && proof_text is Some && proof is Some && binding_text is Some
                && binding is None)
            &&& (compact_spec(presentation) is Ok) <==> (json is Some && proof_text is Some
                && proof is Some && binding_text is Some && binding is Some)
        }),
{
}

} // verus!
