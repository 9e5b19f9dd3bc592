//! Identity providers and their sign-in URLs.
//!
//! A provider is anything that can turn an `AuthnRequest` into the URL
//! a browser must visit: the provider's base URL with the transport
//! encoding of the request appended as the `SAMLRequest` query
//! parameter.  Adding a provider means implementing `SamlIdProvider`
//! for a new type; the one concrete provider here is the
//! tenant-qualified Entra ID sign-in endpoint.
use vstd::prelude::*;
use vstd::string::StringExecFns;
use crate::codec::transport_encoding_of;
use crate::request::SamlAuthRequest;

verus! {

/// Why no sign-in URL could be computed.
#[derive(Debug, Clone, Copy, PartialEq, Eq, Structural)]
pub enum ProviderUrlError {
    /// The configured tenant identifier cannot be embedded into a
    /// syntactically valid URL.
    MalformedTenant,
}

/// Whether `url::Url::parse` accepts `s` as a valid absolute URL: a
/// pure function of the text, so that contracts can tie success to
/// it.
pub uninterp spec fn url_ok_of(s: Seq<char>) -> bool;

/// Relies on `url::Url::parse`: whether the text parses as a valid
/// absolute URL, a pure function of the text.
#[verifier::external_body]
fn url_parses(s: &str) -> (r: bool)
    ensures
        r == url_ok_of(s@),
{
    url::Url::parse(s).is_ok()
}

/// A SAML identity provider, able to compute the sign-in URL for an
/// authentication request.
pub trait SamlIdProvider {
    /// The provider's base sign-in URL, as characters.
    spec fn base_url_chars(&self) -> Seq<char>;

    /// Whether the provider's configuration forms a valid base URL,
    /// so that computing the sign-in URL succeeds.
    spec fn base_url_ok(&self) -> bool;

    /// Computes the base sign-in URL.  Succeeds exactly when the
    /// provider's configuration forms a valid URL, and reports a
    /// malformed tenant otherwise.
    fn request_base(&self) -> (r: Result<String, ProviderUrlError>)
        ensures
            r is Ok <==> self.base_url_ok(),
            r matches Ok(u) ==> u@ == self.base_url_chars(),
            r matches Err(e) ==> e == ProviderUrlError::MalformedTenant,
    ;

    /// The full sign-in URL for `saml_request`: the base URL with the
    /// transport-encoded request as the `SAMLRequest` query parameter.
    /// Succeeds exactly when the base URL does.
    fn request_url(&self, saml_request: SamlAuthRequest) -> (r: Result<String, ProviderUrlError>)
        ensures
            r is Ok <==> self.base_url_ok(),
            r matches Ok(u) ==> u@ == self.base_url_chars() + "?SAMLRequest="@
                + transport_encoding_of(saml_request.xml_chars()),
            r matches Err(e) ==> e == ProviderUrlError::MalformedTenant,
    {
        match self.request_base() {
            Ok(base) => {
                let encoded = saml_request.to_encoded_saml();
                let encoded_text = encoded.to_string();
                let mut url = base;
                url.append("?SAMLRequest=");
                url.append(encoded_text.as_str());
                Ok(url)
            },
            Err(e) => Err(e),
        }
    }
}

/// The tenant-qualified Entra ID sign-in endpoint:
/// `https://login.microsoftonline.com/<tenant>/saml2`.
pub struct EntraIdSamlIdProvider {
    /// The tenant this provider signs in against.
    pub tenant_id: String,
}

impl EntraIdSamlIdProvider {
    /// A provider for the given tenant.
    pub fn new(tenant_id: String) -> (r: Self)
        ensures
            r.tenant_id == tenant_id,
    {
        EntraIdSamlIdProvider { tenant_id }
    }
}

impl SamlIdProvider for EntraIdSamlIdProvider {
    open spec fn base_url_chars(&self) -> Seq<char> {
        "https://login.microsoftonline.com/"@ + self.tenant_id@ + "/saml2"@
    }

    open spec fn base_url_ok(&self) -> bool {
        url_ok_of(self.base_url_chars())
    }

    fn request_base(&self) -> (r: Result<String, ProviderUrlError>) {
        let mut url = String::new();
        url.append("https://login.microsoftonline.com/");
        url.append(self.tenant_id.as_str());
        url.append("/saml2");
        if url_parses(url.as_str()) {
            Ok(url)
        } else {
            Err(ProviderUrlError::MalformedTenant)
        }
    }
}

} // verus!
