//! The SAML response captured from the identity provider's callback.
use vstd::prelude::*;
use crate::codec::DecodeError;
use crate::codec::EncodedSAML;
use crate::codec::transport_decoding_of;

verus! {

/// A decoded SAML response: the raw assertion XML the identity
/// provider posted back.
#[derive(Debug)]
pub struct SamlResponse {
    /// The raw XML document, after transport decoding.
    pub raw_xml: String,
}

impl SamlResponse {
    /// Decodes a captured transport-encoded response.  Succeeds with
    /// the raw XML exactly where transport decoding does, and reports
    /// the failing stage otherwise.
    pub fn from_encoded(encoded: EncodedSAML) -> (r: Result<SamlResponse, DecodeError>)
        ensures
            r matches Ok(resp) ==> transport_decoding_of(encoded@) == Ok::<
                Seq<char>,
                DecodeError,
            >(resp.raw_xml@),
            r matches Err(e) ==> transport_decoding_of(encoded@) == Err::<
                Seq<char>,
                DecodeError,
            >(e),
    {
        match encoded.to_raw_string() {
            Ok(raw_xml) => Ok(SamlResponse { raw_xml }),
            Err(e) => Err(e),
        }
    }
}

} // verus!
