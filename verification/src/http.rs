//! Authentication of an inbound webhook request and the errors it can end in.

use hmac::crypto_mac::InvalidKeyLength;
use vstd::prelude::*;
use vstd::std_specs::convert::FromSpecImpl;
use vstd::string::*;
use vstd::utf8::encode_utf8;

use crate::hex::{encode_lower, lemma_decode_encode_lower};
use crate::mac::{compute_tag, hmac_sha256, tags_match};
use crate::signature::{self, header_view, parse_header, prefix, Signature};

verus! {

/// A payload that arrived in an authenticated request.
#[derive(Debug, Clone)]
pub struct Webhook<T>(pub T);

/// Why a request was not turned into a payload.
#[derive(Debug)]
pub enum WebhookError {
    /// The signature header is absent or malformed.
    SignatureParseError(signature::Error),
    /// The signature is well formed but is not that of the body.
    InvalidSignature,
    /// No secret is configured.
    NoHmacKey,
    /// The secret cannot key the hash.
    HmacInvalidLength,
    /// The body could not be read; the transport names the status to answer
    /// with.
    ActixError { status: u16, message: String },
    /// The body is authentic but is not a payload of the expected shape.
    JsonError(String),
}

/// A `WebhookError` with its texts as sequences of characters.
pub ghost enum WebhookErrorView {
    SignatureParseError(signature::Error),
    InvalidSignature,
    NoHmacKey,
    HmacInvalidLength,
    ActixError { status: u16, message: Seq<char> },
    JsonError(Seq<char>),
}

impl View for WebhookError {
    type V = WebhookErrorView;

    open spec fn view(&self) -> WebhookErrorView {
        match *self {
            WebhookError::SignatureParseError(error) => WebhookErrorView::SignatureParseError(
                error,
            ),
            WebhookError::InvalidSignature => WebhookErrorView::InvalidSignature,
            WebhookError::NoHmacKey => WebhookErrorView::NoHmacKey,
            WebhookError::HmacInvalidLength => WebhookErrorView::HmacInvalidLength,
            WebhookError::ActixError { status, message } => WebhookErrorView::ActixError {
                status,
                message: message@,
            },
            WebhookError::JsonError(message) => WebhookErrorView::JsonError(message@),
        }
    }
}

impl From<InvalidKeyLength> for WebhookError {
    /// A key that the hash refuses is reported as `HmacInvalidLength`.
    fn from(error: InvalidKeyLength) -> (converted: WebhookError) {
        WebhookError::HmacInvalidLength
    }
}

impl FromSpecImpl<InvalidKeyLength> for WebhookError {
    open spec fn obeys_from_spec() -> bool {
        true
    }

    open spec fn from_spec(error: InvalidKeyLength) -> WebhookError {
        WebhookError::HmacInvalidLength
    }
}

/// The HTTP status that answers a request ending in `error`.
pub open spec fn status_of(error: WebhookErrorView) -> u16 {
    match error {
        WebhookErrorView::SignatureParseError(_) | WebhookErrorView::JsonError(_) => 400,
        WebhookErrorView::InvalidSignature => 403,
        WebhookErrorView::NoHmacKey | WebhookErrorView::HmacInvalidLength => 500,
        WebhookErrorView::ActixError { status, .. } => status,
    }
}

/// The text shown for `error`.
pub open spec fn text_of(error: WebhookErrorView) -> Seq<char> {
    match error {
        WebhookErrorView::SignatureParseError(cause) => "failed parsing signature: "@
            + cause.text(),
        WebhookErrorView::InvalidSignature => "signature doesn't match"@,
        WebhookErrorView::NoHmacKey => "HMAC key is not specified"@,
        WebhookErrorView::HmacInvalidLength => "HMAC key has invalid length"@,
        WebhookErrorView::ActixError { message, .. } => "failed reading request data: "@ + message,
        WebhookErrorView::JsonError(message) => "invalid JSON: "@ + message,
    }
}

impl WebhookError {
    /// The text shown for this error.
    pub fn message(&self) -> (text: String)
        ensures
            text@ == text_of(self@),
    {
        match self {
            WebhookError::SignatureParseError(cause) => {
                let mut text = String::from_str("failed parsing signature: ");
                text.append(cause.message().as_str());
                text
            },
            WebhookError::InvalidSignature => String::from_str("signature doesn't match"),
            WebhookError::NoHmacKey => String::from_str("HMAC key is not specified"),
            WebhookError::HmacInvalidLength => String::from_str("HMAC key has invalid length"),
            WebhookError::ActixError { message, .. } => {
                let mut text = String::from_str("failed reading request data: ");
                text.append(message.as_str());
                text
            },
            WebhookError::JsonError(message) => {
                let mut text = String::from_str("invalid JSON: ");
                text.append(message.as_str());
                text
            },
        }
    }

    /// The HTTP status that answers a request ending in this error.
    pub fn status_code(&self) -> (status: u16)
        ensures
            status == status_of(self@),
    {
        match self {
            WebhookError::SignatureParseError(_) | WebhookError::JsonError(_) => 400,
            WebhookError::InvalidSignature => 403,
            WebhookError::NoHmacKey | WebhookError::HmacInvalidLength => 500,
            WebhookError::ActixError { status, .. } => *status,
        }
    }
}

/// The secret that request signatures are checked against.
pub struct WebhookConfig {
    pub key: Option<String>,
}

impl WebhookConfig {
    /// A configuration that checks signatures against `key`.
    pub fn new(key: String) -> (config: WebhookConfig)
        ensures
            config.key == Some(key),
    {
        WebhookConfig { key: Some(key) }
    }

    /// The bytes that key the hash, if a secret is configured.
    pub open spec fn key_bytes(&self) -> Option<Seq<u8>> {
        match self.key {
            None => None,
            Some(key) => Some(encode_utf8(key@)),
        }
    }
}

impl Default for WebhookConfig {
    /// A configuration without a secret, under which no request is accepted.
    fn default() -> (config: WebhookConfig)
        ensures
            config.key is None,
    {
        WebhookConfig { key: None }
    }
}

/// The key bytes of an optional configuration; an absent configuration
/// configures no secret.
pub open spec fn configured_key(config: Option<&WebhookConfig>) -> Option<Seq<u8>> {
    match config {
        None => None,
        Some(config) => config.key_bytes(),
    }
}

/// Whether a request is authentic: with no key nothing is; otherwise the
/// header must carry a tag, and that tag must be the HMAC-SHA256 of the body
/// under the key.
pub open spec fn verify(key: Option<Seq<u8>>, header: Option<Seq<u8>>, body: Seq<u8>) -> Result<
    (),
    WebhookErrorView,
> {
    match key {
        None => Err(WebhookErrorView::NoHmacKey),
        Some(key) => match parse_header(header) {
            Err(error) => Err(WebhookErrorView::SignatureParseError(error)),
            Ok(tag) => if tag == hmac_sha256(key, body)@ {
                Ok(())
            } else {
                Err(WebhookErrorView::InvalidSignature)
            },
        },
    }
}

/// Checks that `body` was signed with the configured secret. `header` is the
/// value of the signature header, `None` if the request has none.
pub fn authenticate(config: Option<&WebhookConfig>, header: Option<&[u8]>, body: &[u8]) -> (checked:
    Result<(), WebhookError>)
    ensures
        match checked {
            Ok(()) => verify(configured_key(config), header_view(header), body@) is Ok,
            Err(error) => verify(configured_key(config), header_view(header), body@) == Err::<
                (),
                WebhookErrorView,
            >(error@),
        },
{
    let key = match config {
        None => {
            return Err(WebhookError::NoHmacKey);
        },
        Some(config) => match &config.key {
            None => {
                return Err(WebhookError::NoHmacKey);
            },
            Some(key) => key,
        },
    };
    let computed = match compute_tag(key.as_str().as_bytes(), body) {
        Ok(tag) => tag,
        Err(error) => {
            return Err(WebhookError::from(error));
        },
    };
    let claimed = match Signature::from_headers(header) {
        Ok(signature) => signature,
        Err(error) => {
            return Err(WebhookError::SignatureParseError(error));
        },
    };
    if tags_match(&claimed.0, &computed) {
        Ok(())
    } else {
        Err(WebhookError::InvalidSignature)
    }
}

/// A body that could not be read, with the status the transport answers with.
#[derive(Debug)]
pub struct ReadError {
    pub status: u16,
    pub message: String,
}

impl<T> Webhook<T> {
    /// Extracts the payload of a request: the body must have been read, must
    /// be authentic, and must decode, in that order. `decode` is applied to
    /// the body only after it was found authentic.
    pub fn from_request<F>(
        config: Option<&WebhookConfig>,
        header: Option<&[u8]>,
        body: Result<Vec<u8>, ReadError>,
        decode: F,
    ) -> (extracted: Result<Webhook<T>, WebhookError>) where F: FnOnce(&Vec<u8>) -> Result<T, String>
        requires
            forall|bytes: &Vec<u8>| decode.requires((bytes,)),
        ensures
            match body {
                Err(failure) => extracted matches Err(error) && error@
                    == (WebhookErrorView::ActixError {
                    status: failure.status,
                    message: failure.message@,
                }),
                Ok(bytes) => match verify(configured_key(config), header_view(header), bytes@) {
                    Err(refusal) => extracted matches Err(error) && error@ == refusal,
                    Ok(()) => match extracted {
                        Ok(hook) => decode.ensures((&bytes,), Ok(hook.0)),
                        Err(WebhookError::JsonError(message)) => decode.ensures(
                            (&bytes,),
                            Err(message),
                        ),
                        Err(_) => false,
                    },
                },
            },
    {
        let bytes = match body {
            Err(failure) => {
                return Err(
                    WebhookError::ActixError { status: failure.status, message: failure.message },
                );
            },
            Ok(bytes) => bytes,
        };
        match authenticate(config, header, bytes.as_slice()) {
            Err(error) => Err(error),
            Ok(()) => match decode(&bytes) {
                Ok(payload) => Ok(Webhook(payload)),
                Err(message) => Err(WebhookError::JsonError(message)),
            },
        }
    }
}

/// The header value that signs `body` under `key`: the prefix, then the tag
/// in lower-case hexadecimal digits.
pub open spec fn signature_header(key: Seq<u8>, body: Seq<u8>) -> Seq<u8> {
    prefix() + encode_lower(hmac_sha256(key, body)@)
}

/// A body verifies under the header computed for it with the same key, and
/// any body whose tag under that key differs is refused as not matching.
pub proof fn lemma_signature_round_trip(key: Seq<u8>, body: Seq<u8>, other: Seq<u8>)
    ensures
        verify(Some(key), Some(signature_header(key, body)), body) is Ok,
        hmac_sha256(key, other)@ != hmac_sha256(key, body)@ ==> verify(
            Some(key),
            Some(signature_header(key, body)),
            other,
        ) == Err::<(), WebhookErrorView>(WebhookErrorView::InvalidSignature),
{
    let tag = hmac_sha256(key, body)@;
    let header = signature_header(key, body);
    lemma_decode_encode_lower(tag);
    assert(header.subrange(0, 7) =~= prefix());
    assert(header.subrange(7, 71) =~= encode_lower(tag));
    assert(parse_header(Some(header)) == Ok::<Seq<u8>, signature::Error>(tag));
}

} // verus!
