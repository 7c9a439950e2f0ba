//! The request pipeline: method gate, Ed25519 authentication, envelope
//! decoding, dispatch, and response encoding, with the protocol's exact
//! status codes — 200 for a produced response, 401 for failed
//! authentication, 400 for a malformed payload or an unknown command, 405
//! for any method but POST.

use vstd::prelude::*;

use ed25519_dalek::Verifier;

use crate::decode::spec_decode_interaction;
use crate::discord::{Interaction, InteractionModel, InteractionResponse, ResponseModel};
use crate::encode::spec_encode_response;
use crate::hexstr::{hex_bytes, hex_decode, hex_well_formed};
use crate::json::parsed_json;
use crate::registry::{handler_response, spec_handler_response, spec_lookup, CommandModel,
    CommandRegistry};
use crate::strutil::str_eq;

verus! {

/// Whether Ed25519 verification accepts `sig` as a signature over `msg`'s
/// UTF-8 bytes under the 32-byte public key encoding `pk`; false when the
/// scheme rejects the key encoding itself. A function of its arguments
/// alone.
pub uninterp spec fn ed25519_valid(pk: Seq<u8>, msg: Seq<char>, sig: Seq<u8>) -> bool;

/// Relies on ed25519_dalek's `VerifyingKey::from_bytes`,
/// `Signature::from_bytes` and `Verifier::verify`: constant-time Ed25519
/// verification of `sig` over `msg` under `pk`; false whenever the lengths
/// are not a 32-byte key and a 64-byte signature.
#[verifier::external_body]
fn ed25519_verify(pk: &[u8], msg: &str, sig: &[u8]) -> (r: bool)
    ensures
        pk@.len() == 32 && sig@.len() == 64 ==> r == ed25519_valid(pk@, msg@, sig@),
        !(pk@.len() == 32 && sig@.len() == 64) ==> r == false,
{
    let pk_arr: [u8; 32] = match pk.try_into() {
        Ok(a) => a,
        Err(_) => return false,
    };
    let sig_arr: [u8; 64] = match sig.try_into() {
        Ok(a) => a,
        Err(_) => return false,
    };
    let key = match ed25519_dalek::VerifyingKey::from_bytes(&pk_arr) {
        Ok(k) => k,
        Err(_) => return false,
    };
    let signature = ed25519_dalek::Signature::from_bytes(&sig_arr);
    key.verify(msg.as_bytes(), &signature).is_ok()
}

/// Why authentication failed. Externally every cause collapses to the same
/// reject outcome; internally the sub-causes stay distinguishable for
/// logging.
#[derive(Clone, Copy, Debug, PartialEq, Eq, Structural)]
pub enum AuthError {
    /// The configured public key is not hex text.
    MalformedKey,
    /// The configured public key does not decode to 32 bytes.
    WrongKeyLength,
    /// The signature header is absent.
    MissingSignatureHeader,
    /// The signature header is not hex text.
    MalformedSignature,
    /// The signature header does not decode to 64 bytes.
    WrongSignatureLength,
    /// The timestamp header is absent.
    MissingTimestampHeader,
    /// The signature does not verify over timestamp ++ body.
    VerificationFailed,
}

/// Authentication succeeds exactly when the hex-encoded public key decodes
/// to 32 bytes, both headers are present, the signature header decodes to
/// 64 bytes, and the signature verifies over timestamp ++ body; each way
/// it can fail earns its own sub-cause, checked in that order.
pub open spec fn spec_auth(
    pk_hex: Seq<char>,
    sig_hex: Option<Seq<char>>,
    ts: Option<Seq<char>>,
    body: Seq<char>,
) -> Result<(), AuthError> {
    if !hex_well_formed(pk_hex) {
        Err(AuthError::MalformedKey)
    } else if hex_bytes(pk_hex).len() != 32 {
        Err(AuthError::WrongKeyLength)
    } else {
        match sig_hex {
            None => Err(AuthError::MissingSignatureHeader),
            Some(sh) => if !hex_well_formed(sh) {
                Err(AuthError::MalformedSignature)
            } else if hex_bytes(sh).len() != 64 {
                Err(AuthError::WrongSignatureLength)
            } else {
                match ts {
                    None => Err(AuthError::MissingTimestampHeader),
                    Some(t) => if ed25519_valid(hex_bytes(pk_hex), t + body, hex_bytes(sh)) {
                        Ok(())
                    } else {
                        Err(AuthError::VerificationFailed)
                    },
                }
            },
        }
    }
}

/// Whether authentication succeeds.
pub open spec fn spec_auth_ok(
    pk_hex: Seq<char>,
    sig_hex: Option<Seq<char>>,
    ts: Option<Seq<char>>,
    body: Seq<char>,
) -> bool {
    spec_auth(pk_hex, sig_hex, ts, body) is Ok
}

/// Authenticate a request: purely functional in its inputs, with the exact
/// sub-cause on failure.
pub fn check_auth(
    public_key_hex: &str,
    signature_hex: Option<&str>,
    timestamp: Option<&str>,
    body: &str,
) -> (r: Result<(), AuthError>)
    ensures
        r == spec_auth(public_key_hex@, signature_hex.deep_view(), timestamp.deep_view(), body@),
{
    let pk = match hex_decode(public_key_hex) {
        None => {
            return Err(AuthError::MalformedKey);
        },
        Some(b) => b,
    };
    if pk.len() != 32 {
        return Err(AuthError::WrongKeyLength);
    }
    let sig_str = match signature_hex {
        None => {
            return Err(AuthError::MissingSignatureHeader);
        },
        Some(s) => s,
    };
    let sig = match hex_decode(sig_str) {
        None => {
            return Err(AuthError::MalformedSignature);
        },
        Some(b) => b,
    };
    if sig.len() != 64 {
        return Err(AuthError::WrongSignatureLength);
    }
    let ts = match timestamp {
        None => {
            return Err(AuthError::MissingTimestampHeader);
        },
        Some(t) => t,
    };
    let mut message = String::from_str(ts);
    message.append(body);
    if !ed25519_verify(pk.as_slice(), message.as_str(), sig.as_slice()) {
        return Err(AuthError::VerificationFailed);
    }
    Ok(())
}

/// An HTTP-level reply: a status code and a body text.
pub struct HttpReply {
    pub status: u16,
    pub body: String,
}

/// The reply a request earns: 405 before anything else for a non-POST
/// method; 401 on failed authentication, with no decode attempted; 400 for
/// a body that is not valid JSON or not a well-formed envelope, or for an
/// unknown command; otherwise 200 with the encoded response the matched
/// variant or handler produces.
pub open spec fn spec_handle(
    method: Seq<char>,
    pk_hex: Seq<char>,
    sig_hex: Option<Seq<char>>,
    ts: Option<Seq<char>>,
    body: Seq<char>,
    reg: Seq<CommandModel>,
) -> (u16, Seq<char>) {
    if method != "POST"@ {
        (405, "Method not allowed"@)
    } else if !spec_auth_ok(pk_hex, sig_hex, ts, body) {
        (401, Seq::<char>::empty())
    } else {
        match parsed_json(body) {
            None => (400, "Bad request"@),
            Some(m) => match spec_decode_interaction(m) {
                Err(_) => (400, "Bad request"@),
                Ok(im) => match im {
                    InteractionModel::Ping => (200, spec_encode_response(ResponseModel::Pong)),
                    InteractionModel::ApplicationCommand { data, .. } => match spec_lookup(
                        reg,
                        data.name,
                    ) {
                        None => (400, "Unknown command"@),
                        Some(h) => (200, spec_encode_response(spec_handler_response(h))),
                    },
                },
            },
        }
    }
}

/// Process one request end to end; the reply is exactly what `spec_handle`
/// gives for the inputs and the registry.
pub fn handle_request(
    method: &str,
    public_key_hex: &str,
    signature_hex: Option<&str>,
    timestamp: Option<&str>,
    body: &str,
    registry: &CommandRegistry,
) -> (r: HttpReply)
    ensures
        r.status == spec_handle(
            method@,
            public_key_hex@,
            signature_hex.deep_view(),
            timestamp.deep_view(),
            body@,
            registry@,
        ).0,
        r.body@ == spec_handle(
            method@,
            public_key_hex@,
            signature_hex.deep_view(),
            timestamp.deep_view(),
            body@,
            registry@,
        ).1,
{
    if !str_eq(method, "POST") {
        return HttpReply { status: 405, body: String::from_str("Method not allowed") };
    }
    if check_auth(public_key_hex, signature_hex, timestamp, body).is_err() {
        return HttpReply { status: 401, body: String::new() };
    }
    match Interaction::decode(body) {
        Err(_) => HttpReply { status: 400, body: String::from_str("Bad request") },
        Ok(Interaction::Ping) => {
            let resp = InteractionResponse::Pong;
            HttpReply { status: 200, body: resp.encode() }
        },
        Ok(Interaction::ApplicationCommand { data, interaction: _ }) => {
            match registry.lookup(data.name.as_str()) {
                None => HttpReply { status: 400, body: String::from_str("Unknown command") },
                Some(h) => {
                    let resp = handler_response(&h);
                    HttpReply { status: 200, body: resp.encode() }
                },
            }
        },
    }
}

} // verus!
