//! Construction of SAML 2.0 `AuthnRequest` documents.
//!
//! A request carries a fresh correlation identifier, the UTC instant
//! of its creation, the service provider's issuer URI and the callback
//! URL that the identity provider must POST its response to.
//! Serialization is deterministic: the same four fields always yield
//! the same document, character for character.
use vstd::prelude::*;
use vstd::string::StringExecFns;
use crate::codec::EncodedSAML;
use crate::codec::DecodeError;
use crate::codec::transport_encoding_of;
use crate::codec::transport_decoding_of;

verus! {

/// Document text up to the `AssertionConsumerServiceURL` value.
pub open spec fn xml_before_callback() -> Seq<char> {
    "\n            <samlp:AuthnRequest\n                AssertionConsumerServiceURL=\""@
}

/// Document text between the callback URL and the correlation
/// identifier, including the `id_` prefix of the `ID` attribute.
pub open spec fn xml_before_id() -> Seq<char> {
    "\"\n                ID=\"id_"@
}

/// Document text between the correlation identifier and the instant.
pub open spec fn xml_before_instant() -> Seq<char> {
    "\"\n                IssueInstant=\""@
}

/// Document text between the instant and the issuer: the fixed
/// HTTP-POST protocol binding, version 2.0, the protocol namespace,
/// and the opening `Issuer` element.
pub open spec fn xml_before_issuer() -> Seq<char> {
    "\"\n                ProtocolBinding=\"urn:oasis:names:tc:SAML:2.0:bindings:HTTP-POST\"\n                Version=\"2.0\"\n                xmlns:samlp=\"urn:oasis:names:tc:SAML:2.0:protocol\"\n            >\n                <saml:Issuer xmlns:saml=\"urn:oasis:names:tc:SAML:2.0:assertion\">"@
}

/// Document text after the issuer: the closing `Issuer` tag, the
/// fixed email-address `NameIDPolicy`, and the closing root tag.
pub open spec fn xml_after_issuer() -> Seq<char> {
    "</saml:Issuer>\n                <samlp:NameIDPolicy Format=\"urn:oasis:names:tc:SAML:1.1:nameid-format:emailAddress\" />\n            </samlp:AuthnRequest>"@
}

/// A SAML `AuthnRequest`, immutable once constructed.
pub struct SamlAuthRequest {
    /// Correlation identifier; the XML `ID` attribute is `id_` + this.
    pub id: String,
    /// UTC instant of construction, in RFC 3339 form.
    pub instant: String,
    /// The service provider's application identifier, a URI, written
    /// verbatim into the `Issuer` element.
    pub app_id_uri: String,
    /// Where the provider must POST its response, written verbatim
    /// into the `AssertionConsumerServiceURL` attribute.
    pub callback_to: String,
}

impl SamlAuthRequest {
    /// The serialized document: a pure function of the four fields.
    pub open spec fn xml_chars(&self) -> Seq<char> {
        xml_before_callback() + self.callback_to@ + xml_before_id() + self.id@
            + xml_before_instant() + self.instant@ + xml_before_issuer() + self.app_id_uri@
            + xml_after_issuer()
    }

    /// Character position of the issuer text within the document.
    pub open spec fn issuer_start(&self) -> int {
        xml_before_callback().len() + self.callback_to@.len() + xml_before_id().len()
            + self.id@.len() + xml_before_instant().len() + self.instant@.len()
            + xml_before_issuer().len() as int
    }

    /// Builds a request for `app_id_uri`, asking for the response to
    /// be posted to `callback_to`, with a fresh random correlation
    /// identifier and the current UTC instant.
    pub fn new(app_id_uri: String, callback_to: String) -> (r: Self)
        ensures
            r.app_id_uri == app_id_uri,
            r.callback_to == callback_to,
            r.id@.len() == 36,
    {
        SamlAuthRequest {
            id: fresh_correlation_id(),
            instant: current_instant_rfc3339(),
            app_id_uri,
            callback_to,
        }
    }

    /// Builds a request from all four fields.  Serialization is
    /// deterministic, so fixing the identifier and the instant fixes
    /// the document.
    pub fn from_parts(id: String, instant: String, app_id_uri: String, callback_to: String) -> (r:
        Self)
        ensures
            r.id == id,
            r.instant == instant,
            r.app_id_uri == app_id_uri,
            r.callback_to == callback_to,
    {
        SamlAuthRequest { id, instant, app_id_uri, callback_to }
    }

    /// Serializes the request to its XML document.
    pub fn to_xml(&self) -> (r: String)
        ensures
            r@ == self.xml_chars(),
    {
        let mut out = String::new();
        out.append("\n            <samlp:AuthnRequest\n                AssertionConsumerServiceURL=\"");
        out.append(self.callback_to.as_str());
        out.append("\"\n                ID=\"id_");
        out.append(self.id.as_str());
        out.append("\"\n                IssueInstant=\"");
        out.append(self.instant.as_str());
        out.append("\"\n                ProtocolBinding=\"urn:oasis:names:tc:SAML:2.0:bindings:HTTP-POST\"\n                Version=\"2.0\"\n                xmlns:samlp=\"urn:oasis:names:tc:SAML:2.0:protocol\"\n            >\n                <saml:Issuer xmlns:saml=\"urn:oasis:names:tc:SAML:2.0:assertion\">");
        out.append(self.app_id_uri.as_str());
        out.append("</saml:Issuer>\n                <samlp:NameIDPolicy Format=\"urn:oasis:names:tc:SAML:1.1:nameid-format:emailAddress\" />\n            </samlp:AuthnRequest>");
        out
    }

    /// Serializes and applies the transport encoding.
    pub fn to_encoded_saml(&self) -> (r: EncodedSAML)
        ensures
            r@ == transport_encoding_of(self.xml_chars()),
            transport_decoding_of(r@) == Ok::<Seq<char>, DecodeError>(self.xml_chars()),
    {
        EncodedSAML::from_raw_string(self.to_xml())
    }

    /// The serialized document, as `to_xml`.
    pub fn to_string(&self) -> (r: String)
        ensures
            r@ == self.xml_chars(),
    {
        self.to_xml()
    }
}

/// The serialization writes the issuer and the callback URL verbatim:
/// the document carries the issuer, unchanged, between the `Issuer`
/// tags, and the callback URL, unchanged, as the
/// `AssertionConsumerServiceURL` attribute value.
pub proof fn lemma_serialization_verbatim(req: SamlAuthRequest)
    ensures
        req.xml_chars().subrange(
            req.issuer_start(),
            req.issuer_start() + req.app_id_uri@.len(),
        ) == req.app_id_uri@,
        req.xml_chars().subrange(
            xml_before_callback().len() as int,
            xml_before_callback().len() + req.callback_to@.len() as int,
        ) == req.callback_to@,
{
    assert(req.xml_chars().subrange(
        req.issuer_start(),
        req.issuer_start() + req.app_id_uri@.len(),
    ) =~= req.app_id_uri@);
    assert(req.xml_chars().subrange(
        xml_before_callback().len() as int,
        xml_before_callback().len() + req.callback_to@.len() as int,
    ) =~= req.callback_to@);
}

/// Relies on `uuid::Uuid::new_v4` and its hyphenated rendering: a
/// fresh random 128-bit identifier, printed as 36 characters.  Nothing
/// else is assumed of the value.
#[verifier::external_body]
fn fresh_correlation_id() -> (r: String)
    ensures
        r@.len() == 36,
{
    uuid::Uuid::new_v4().to_string()
}

/// Relies on `chrono::Utc::now` and `DateTime::to_rfc3339`: the
/// current UTC instant in RFC 3339 form.  The value depends on the
/// clock, so nothing is assumed of it.
#[verifier::external_body]
fn current_instant_rfc3339() -> (r: String) {
    chrono::Utc::now().to_rfc3339()
}

} // verus!
