//! The browser-driven capture protocol.
//!
//! A `CaptureSession` owns the decision logic of one sign-on attempt:
//! it walks `Idle -> Launched -> Navigated`, and two observers feed it
//! the browser's network events.  The request observer recognizes the
//! POST to the callback URL and extracts the `SAMLResponse` form
//! field; the response observer turns an HTTP error status into a
//! provider failure.  Whichever fires first resolves the session's
//! one-shot result slot; every later write is a no-op, so the session
//! resolves to exactly one outcome.
//!
//! The browser itself is driven by an unverified caller: it launches
//! the tab, navigates to the URL this module computes, and hands every
//! intercepted event to `on_request` or `on_response` as plain values.
use vstd::prelude::*;
use vstd::string::StringExecFns;
use crate::codec::DecodeError;
use crate::codec::EncodedSAML;
use crate::codec::transport_decoding_of;
use crate::codec::transport_encoding_of;
use crate::provider::SamlIdProvider;
use crate::request::SamlAuthRequest;
use crate::response::SamlResponse;

verus! {

/// Maximum bytes of network data the capturing browser tab buffers,
/// for the total buffer, each resource, and each request's POST data.
/// Larger assertions would be silently truncated.
pub const CAPTURE_BUFFER_LIMIT: u32 = 100_000_000;

/// The one outcome of a capture session.
#[derive(Debug, Clone, PartialEq, Eq)]
pub enum CaptureResult {
    /// The callback POST carried a `SAMLResponse` field that decoded
    /// to this raw assertion XML.
    Assertion(String),
    /// The identity provider answered with this HTTP error status on
    /// this URL.
    ProviderFailure(u16, String),
    /// The callback POST was observed but its body had no
    /// `SAMLResponse` field.
    NoAssertionFound,
}

/// Why a session could not process a request.
#[derive(Debug, Clone, Copy, PartialEq, Eq, Structural)]
pub enum SessionError {
    /// `begin_process` was called before the session was launched.
    SessionNotLaunched,
    /// The provider's configuration does not form a valid sign-in URL.
    MalformedTenant,
}

/// Where a session stands in its lifecycle.  Resolution is tracked
/// separately, by the result slot.
#[derive(Debug, Clone, Copy, PartialEq, Eq, Structural)]
pub enum SessionPhase {
    /// Created; no browser tab yet.
    Idle,
    /// A tab is open and the observers are installed.
    Launched,
    /// The tab was pointed at the provider's sign-in URL.
    Navigated,
}

/// A single-fulfillment slot: it accepts exactly one write, and every
/// write after the first changes nothing.  Observers racing to resolve
/// a session both write here; exactly one wins.
pub struct OneShotSlot<T> {
    value: Option<T>,
}

impl<T> OneShotSlot<T> {
    /// The value written so far, if any.
    pub closed spec fn value_spec(&self) -> Option<T> {
        self.value
    }

    /// Whether a value has been written.
    pub open spec fn is_resolved(&self) -> bool {
        self.value_spec() is Some
    }

    /// The slot after an attempted write: unchanged when already
    /// resolved, else holding `v`.
    pub closed spec fn write_spec(self, v: T) -> Self {
        if self.value is Some {
            self
        } else {
            OneShotSlot { value: Some(v) }
        }
    }

    /// An empty slot.
    pub fn new() -> (r: Self)
        ensures
            !r.is_resolved(),
    {
        OneShotSlot { value: None }
    }

    /// Writes `v` unless a value is already present; reports whether
    /// the write took effect.
    pub fn try_write(&mut self, v: T) -> (accepted: bool)
        ensures
            *final(self) == old(self).write_spec(v),
            accepted == !old(self).is_resolved(),
            accepted ==> final(self).value_spec() == Some(v),
            !accepted ==> *final(self) == *old(self),
    {
        match self.value {
            Some(_) => false,
            None => {
                self.value = Some(v);
                true
            },
        }
    }

    /// Reads the slot without consuming it.
    pub fn get(&self) -> (r: &Option<T>)
        ensures
            *r == self.value_spec(),
    {
        &self.value
    }
}

/// Single fulfillment: a resolved slot never changes again.  Of two
/// writes, only the first can take effect; the slot is resolved after
/// it; and a write to a fresh slot stores exactly its value.
pub proof fn lemma_single_fulfillment<T>(s: OneShotSlot<T>, v1: T, v2: T)
    ensures
        s.write_spec(v1).write_spec(v2) == s.write_spec(v1),
        s.write_spec(v1).is_resolved(),
        !s.is_resolved() ==> s.write_spec(v1).value_spec() == Some(v1),
        s.is_resolved() ==> s.write_spec(v1) == s,
{
}

/// The characters of one POST-data entry; an entry without bytes
/// contributes nothing.
pub open spec fn entry_chars(e: Option<String>) -> Seq<char> {
    match e {
        Some(s) => s@,
        None => Seq::empty(),
    }
}

/// The POST body: all entries concatenated in their original order.
pub open spec fn concat_entries(entries: Seq<Option<String>>) -> Seq<char>
    decreases entries.len(),
{
    if entries.len() == 0 {
        Seq::empty()
    } else {
        concat_entries(entries.drop_last()) + entry_chars(entries.last())
    }
}

/// What parsing `body` as `application/x-www-form-urlencoded` yields:
/// the decoded key/value pairs, in order.
pub uninterp spec fn form_pairs_of(body: Seq<char>) -> Seq<(Seq<char>, Seq<char>)>;

/// The value of the first pair whose key is `key`, if any.
pub open spec fn find_form_value(pairs: Seq<(Seq<char>, Seq<char>)>, key: Seq<char>) -> Option<
    Seq<char>,
>
    decreases pairs.len(),
{
    if pairs.len() == 0 {
        None
    } else if pairs[0].0 == key {
        Some(pairs[0].1)
    } else {
        find_form_value(pairs.drop_first(), key)
    }
}

/// The `SAMLResponse` field of a form-urlencoded body, if present.
pub open spec fn saml_field_of(body: Seq<char>) -> Option<Seq<char>> {
    find_form_value(form_pairs_of(body), "SAMLResponse"@)
}

/// Relies on `url::form_urlencoded::parse`: decodes the body into its
/// key/value pairs, in order, a pure function of the body.
#[verifier::external_body]
fn form_decode(body: &str) -> (r: Vec<(String, String)>)
    ensures
        r@.len() == form_pairs_of(body@).len(),
        forall|i: int|
            0 <= i < r@.len() ==> r@[i].0@ == form_pairs_of(body@)[i].0 && r@[i].1@
                == form_pairs_of(body@)[i].1,
{
    url::form_urlencoded::parse(body.as_bytes()).into_owned().collect()
}

/// Concatenates the POST-data entries in their original order,
/// reassembling a body the browser delivered in fragments.
pub fn reassemble_post_data(entries: &Vec<Option<String>>) -> (r: String)
    ensures
        r@ == concat_entries(entries@),
{
    let mut out = String::new();
    let mut i: usize = 0;
    while i < entries.len()
        invariant
            i <= entries@.len(),
            out@ == concat_entries(entries@.take(i as int)),
        decreases entries@.len() - i,
    {
        if let Some(fragment) = &entries[i] {
            out.append(fragment.as_str());
        }
        proof {
            assert(entries@.take(i + 1).drop_last() =~= entries@.take(i as int));
        }
        i = i + 1;
    }
    proof {
        assert(entries@.take(entries@.len() as int) =~= entries@);
    }
    out
}

/// Looks up the `SAMLResponse` field in a form-urlencoded body.
pub fn extract_saml_response(body: &str) -> (r: Option<String>)
    ensures
        r matches Some(v) ==> saml_field_of(body@) == Some(v@),
        r is None ==> saml_field_of(body@) is None,
{
    let pairs = form_decode(body);
    let key = "SAMLResponse".to_owned();
    let ghost abstract_pairs = form_pairs_of(body@);
    proof {
        assert(abstract_pairs.skip(0) =~= abstract_pairs);
    }
    let mut i: usize = 0;
    while i < pairs.len()
        invariant
            i <= pairs@.len(),
            key@ == "SAMLResponse"@,
            abstract_pairs == form_pairs_of(body@),
            pairs@.len() == abstract_pairs.len(),
            forall|j: int|
                0 <= j < pairs@.len() ==> pairs@[j].0@ == abstract_pairs[j].0 && pairs@[j].1@
                    == abstract_pairs[j].1,
            find_form_value(abstract_pairs.skip(i as int), "SAMLResponse"@) == find_form_value(
                abstract_pairs,
                "SAMLResponse"@,
            ),
        decreases pairs@.len() - i,
    {
        if pairs[i].0 == key {
            proof {
                assert(abstract_pairs.skip(i as int)[0] == abstract_pairs[i as int]);
                assert(find_form_value(abstract_pairs.skip(i as int), "SAMLResponse"@) == Some(
                    abstract_pairs[i as int].1,
                ));
            }
            return Some(pairs[i].1.clone());
        }
        proof {
            assert(abstract_pairs.skip(i as int).drop_first() =~= abstract_pairs.skip(i + 1));
        }
        i = i + 1;
    }
    proof {
        assert(abstract_pairs.skip(pairs@.len() as int) =~= Seq::<(Seq<char>, Seq<char>)>::empty());
    }
    None
}

/// Whether `o` is the outcome the request observer owes for a
/// callback POST with the given entries: the decoded assertion when a
/// `SAMLResponse` field is present and decodes, the decode error when
/// it does not decode, and `NoAssertionFound` when the field or the
/// whole body is absent.
pub open spec fn request_outcome_matches(
    post: Option<Seq<Option<String>>>,
    o: Result<CaptureResult, DecodeError>,
) -> bool {
    match post {
        None => o == Ok::<CaptureResult, DecodeError>(CaptureResult::NoAssertionFound),
        Some(entries) => match saml_field_of(concat_entries(entries)) {
            None => o == Ok::<CaptureResult, DecodeError>(CaptureResult::NoAssertionFound),
            Some(field) => match transport_decoding_of(field) {
                Ok(raw) => o matches Ok(c) && c matches CaptureResult::Assertion(xml) && xml@
                    == raw,
                Err(e) => o == Err::<CaptureResult, DecodeError>(e),
            },
        },
    }
}

/// The spec view of an optional entry list.
pub open spec fn post_entries_view(post: Option<Vec<Option<String>>>) -> Option<
    Seq<Option<String>>,
> {
    match post {
        Some(entries) => Some(entries@),
        None => None,
    }
}

/// Extracts the capture outcome from the POST-data entries of a
/// callback request: reassembles the body, parses it as a form, looks
/// up `SAMLResponse`, and decodes it through the transport codec.
///
/// The field's value is deliberately put through all three decoding
/// stages — percent, base64, raw DEFLATE — the same pipeline the
/// outbound request uses, not through base64 alone.
pub fn capture_callback_request(post_data_entries: &Vec<Option<String>>) -> (r: Result<
    CaptureResult,
    DecodeError,
>)
    ensures
        request_outcome_matches(Some(post_data_entries@), r),
{
    let body = reassemble_post_data(post_data_entries);
    match extract_saml_response(body.as_str()) {
        None => Ok(CaptureResult::NoAssertionFound),
        Some(field) => {
            let encoded = EncodedSAML::new(field);
            match SamlResponse::from_encoded(encoded) {
                Ok(resp) => Ok(CaptureResult::Assertion(resp.raw_xml)),
                Err(e) => Err(e),
            }
        },
    }
}

/// One sign-on attempt: the session's phase, its one-shot result
/// slot, and the callback URL whose POST it watches for.
pub struct CaptureSession {
    /// The URL the identity provider must POST its response to.
    pub callback_url: String,
    /// Where the session stands in its lifecycle.
    pub phase: SessionPhase,
    /// The one-shot result slot both observers write to.
    pub slot: OneShotSlot<Result<CaptureResult, DecodeError>>,
}

impl CaptureSession {
    /// A fresh, unlaunched session watching for `callback_url`.
    pub fn new(callback_url: String) -> (r: Self)
        ensures
            r.callback_url == callback_url,
            r.phase == SessionPhase::Idle,
            !r.slot.is_resolved(),
    {
        CaptureSession { callback_url, phase: SessionPhase::Idle, slot: OneShotSlot::new() }
    }

    /// Records that the browser tab is open and the observers are
    /// installed.  The caller performs the launch itself and must not
    /// call this when it failed.
    pub fn mark_launched(&mut self)
        ensures
            final(self).phase == SessionPhase::Launched,
            final(self).callback_url == old(self).callback_url,
            final(self).slot == old(self).slot,
    {
        self.phase = SessionPhase::Launched;
    }

    /// Starts processing a request: computes the provider's sign-in
    /// URL and moves to `Navigated`.  Refused before launch; after
    /// launch it succeeds exactly when the provider's configuration
    /// forms a valid URL, and fails with `MalformedTenant` otherwise.
    /// The caller navigates the tab to the returned URL and then waits
    /// for an observer to resolve the session.
    pub fn begin_process<P: SamlIdProvider>(
        &mut self,
        provider: &P,
        saml_request: SamlAuthRequest,
    ) -> (r: Result<String, SessionError>)
        ensures
            old(self).phase == SessionPhase::Idle ==> r == Err::<String, SessionError>(
                SessionError::SessionNotLaunched,
            ) && *final(self) == *old(self),
            old(self).phase != SessionPhase::Idle ==> (r is Ok <==> provider.base_url_ok()),
            old(self).phase != SessionPhase::Idle ==> (r matches Ok(u)
                ==> u@ == provider.base_url_chars() + "?SAMLRequest="@
                    + transport_encoding_of(saml_request.xml_chars())
                && final(self).phase == SessionPhase::Navigated
                && final(self).callback_url == old(self).callback_url
                && final(self).slot == old(self).slot),
            old(self).phase != SessionPhase::Idle ==> (r matches Err(e)
                ==> e == SessionError::MalformedTenant && *final(self) == *old(self)),
    {
        if self.phase == SessionPhase::Idle {
            return Err(SessionError::SessionNotLaunched);
        }
        match provider.request_url(saml_request) {
            Ok(url) => {
                self.phase = SessionPhase::Navigated;
                Ok(url)
            },
            Err(_) => Err(SessionError::MalformedTenant),
        }
    }

    /// The request observer: fires on every outgoing request.  A POST
    /// whose URL is exactly the callback URL carries the provider's
    /// response; its outcome is written to the result slot.  Requests
    /// before launch and to other URLs change nothing, and a resolved
    /// session never changes again.
    pub fn on_request(&mut self, url: &str, method: &str, post_data_entries: Option<
        Vec<Option<String>>,
    >)
        ensures
            old(self).phase == SessionPhase::Idle || url@ != old(self).callback_url@ || method@
                != "POST"@ ==> *final(self) == *old(self),
            old(self).slot.is_resolved() ==> *final(self) == *old(self),
            old(self).phase != SessionPhase::Idle && url@ == old(self).callback_url@
                && method@ == "POST"@ && !old(self).slot.is_resolved()
                ==> final(self).phase == old(self).phase
                && final(self).callback_url == old(self).callback_url
                && (final(self).slot.value_spec() matches Some(o)
                    && request_outcome_matches(post_entries_view(post_data_entries), o)),
    {
        if self.phase == SessionPhase::Idle {
            return ;
        }
        let url_owned = url.to_owned();
        let method_owned = method.to_owned();
        let post_literal = "POST".to_owned();
        if url_owned == self.callback_url && method_owned == post_literal {
            let outcome = match &post_data_entries {
                Some(entries) => capture_callback_request(entries),
                None => Ok(CaptureResult::NoAssertionFound),
            };
            self.slot.try_write(outcome);
        }
    }

    /// The response observer: fires on every inbound response.  A
    /// status of 400 or above resolves the session to a provider
    /// failure — except 401, which is treated as a logging-only event
    /// and changes nothing.  A resolved session never changes again.
    pub fn on_response(&mut self, status: u16, url: &str)
        ensures
            old(self).phase == SessionPhase::Idle || status < 400 || status == 401 ==> *final(self)
                == *old(self),
            old(self).slot.is_resolved() ==> *final(self) == *old(self),
            old(self).phase != SessionPhase::Idle && status >= 400 && status != 401
                && !old(self).slot.is_resolved()
                ==> final(self).phase == old(self).phase
                && final(self).callback_url == old(self).callback_url
                && (final(self).slot.value_spec() matches Some(o)
                    && (o matches Ok(c)
                        && (c matches CaptureResult::ProviderFailure(s, u)
                            && s == status && u@ == url@))),
    {
        if self.phase == SessionPhase::Idle {
            return ;
        }
        if status >= 400 && status != 401 {
            let failure = CaptureResult::ProviderFailure(status, url.to_owned());
            self.slot.try_write(Ok(failure));
        }
    }

    /// The session's outcome, once an observer resolved it.
    pub fn outcome(&self) -> (r: &Option<Result<CaptureResult, DecodeError>>)
        ensures
            *r == self.slot.value_spec(),
    {
        self.slot.get()
    }
}

} // verus!
