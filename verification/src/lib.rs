//! Verified core of a SAML 2.0 web single sign-on client.
//!
//! The crate covers the wire codec for the HTTP-Redirect binding
//! (raw DEFLATE, standard base64, percent-encoding), the construction
//! of `AuthnRequest` documents, the computation of an identity
//! provider's sign-in URL, and the state machine that captures the
//! provider's callback and resolves exactly one outcome.
//!
//! Browser automation, configuration persistence and interactive
//! prompting are left to unverified callers; they feed this library
//! plain values and act on the values it returns.
pub mod codec;
pub mod prompt;
pub mod provider;
pub mod request;
pub mod response;
pub mod session;
