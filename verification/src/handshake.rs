//! The handshake: the request that asks for a connection, the ticket that
//! answers it, and the endpoint that a ticket leads to.
//!
//! The request itself is sent elsewhere. This module says what is sent, reads
//! the answer's body, and decides where to connect.

use vstd::prelude::*;
use crate::json::document_of;
use crate::json::flag;
use crate::json::flag_of;
use crate::json::is_null;
use crate::json::member;
use crate::json::member_of;
use crate::json::null_doc;
use crate::json::parse_document;
use crate::json::text;
use crate::json::text_of;
use crate::json::text_view;
use crate::locator::domain;
use crate::locator::domain_of;
use crate::locator::host_of;
use crate::locator::parse_url;
use crate::locator::url_of;

verus! {

/// What the handshake sends: one `POST` without a body to `url`, with
/// `authorization` as the value of its `Authorization` header.
#[derive(Clone, Debug, PartialEq, Eq)]
pub struct HandshakeRequest {
    pub url: String,
    pub authorization: String,
}

/// Where the handshake request goes.
pub open spec fn open_url() -> Seq<char> {
    "https://slack.com/api/apps.connections.open"@
}

/// Builds the handshake request for a bearer token.
pub fn handshake_request(token: &str) -> (request: HandshakeRequest)
    ensures
        request.url@ == open_url(),
        request.authorization@ == "Bearer "@ + token@,
{
    let mut authorization = "Bearer ".to_owned();
    authorization.append(token);
    HandshakeRequest {
        url: "https://slack.com/api/apps.connections.open".to_owned(),
        authorization,
    }
}

/// The answer to the handshake request.
#[derive(Clone, Debug, PartialEq, Eq)]
pub struct OpenConnectionResponse {
    pub ok: bool,
    pub url: Option<String>,
    pub error: Option<String>,
}

pub struct TicketView {
    pub ok: bool,
    pub url: Option<Seq<char>>,
    pub error: Option<Seq<char>>,
}

impl View for OpenConnectionResponse {
    type V = TicketView;

    open spec fn view(&self) -> TicketView {
        TicketView { ok: self.ok, url: text_view(self.url), error: text_view(self.error) }
    }
}

impl TicketView {
    /// A positive ticket names a URL with a domain name to connect to; a
    /// negative one says what went wrong.
    pub open spec fn well_formed(self) -> bool {
        if self.ok {
            self.url matches Some(url) && host_of(url) matches Some(host) && host.len() > 0
        } else {
            self.error is Some
        }
    }
}

/// Why a response body is no ticket.
#[derive(Clone, Copy, Debug, PartialEq, Eq, Structural)]
pub enum TicketError {
    /// The body is no JSON document.
    Malformed,
    /// The document lacks the boolean `ok`, or holds under `url` or `error`
    /// something that is neither a string nor `null`.
    Mismatch,
}

/// The optional string under `key`: `Some(None)` where the member is absent
/// or `null`, `Some(Some(..))` where it is a string, `None` for anything else.
pub open spec fn optional_text_at(doc: serde_json::Value, key: Seq<char>) -> Option<
    Option<Seq<char>>,
> {
    match member_of(doc, key) {
        None => Some(None),
        Some(found) => if null_doc(found) {
            Some(None)
        } else {
            match text_of(found) {
                Some(s) => Some(Some(s)),
                None => None,
            }
        },
    }
}

/// The boolean under `key`, where the document is an object that holds one
/// there.
pub open spec fn flag_at(doc: serde_json::Value, key: Seq<char>) -> Option<bool> {
    match member_of(doc, key) {
        Some(found) => flag_of(found),
        None => None,
    }
}

/// The ticket that a document holds, if it holds one.
pub open spec fn ticket_of(doc: serde_json::Value) -> Option<TicketView> {
    match (flag_at(doc, "ok"@), optional_text_at(doc, "url"@), optional_text_at(doc, "error"@)) {
        (Some(ok), Some(url), Some(error)) => Some(TicketView { ok, url, error }),
        _ => None,
    }
}

/// The ticket that a response body decodes to, or why it decodes to none.
pub open spec fn decoded_ticket(body: Seq<char>) -> Result<TicketView, TicketError> {
    match document_of(body) {
        None => Err(TicketError::Malformed),
        Some(doc) => match ticket_of(doc) {
            Some(ticket) => Ok(ticket),
            None => Err(TicketError::Mismatch),
        },
    }
}

/// What a ticket decoder's result stands for.
pub open spec fn ticket_outcome_view(r: Result<OpenConnectionResponse, TicketError>) -> Result<
    TicketView,
    TicketError,
> {
    match r {
        Ok(ticket) => Ok(ticket@),
        Err(e) => Err(e),
    }
}

fn optional_text_member(doc: &serde_json::Value, key: &str) -> (r: Option<Option<String>>)
    ensures
        match r {
            Some(found) => optional_text_at(*doc, key@) == Some(text_view(found)),
            None => optional_text_at(*doc, key@) is None,
        },
{
    match member(doc, key) {
        None => Some(None),
        Some(found) => if is_null(found) {
            Some(None)
        } else {
            match text(found) {
                Some(s) => Some(Some(s.to_owned())),
                None => None,
            }
        },
    }
}

/// Reads a ticket out of a document. Members other than `ok`, `url` and
/// `error` are ignored.
pub fn read_ticket(doc: &serde_json::Value) -> (r: Option<OpenConnectionResponse>)
    ensures
        match r {
            Some(ticket) => ticket_of(*doc) == Some(ticket@),
            None => ticket_of(*doc) is None,
        },
{
    let ok = match member(doc, "ok") {
        Some(found) => flag(found),
        None => None,
    };
    let url = optional_text_member(doc, "url");
    let error = optional_text_member(doc, "error");
    match (ok, url, error) {
        (Some(ok), Some(url), Some(error)) => Some(OpenConnectionResponse { ok, url, error }),
        _ => None,
    }
}

/// Decodes the body of the handshake response.
pub fn decode_ticket(body: &str) -> (r: Result<OpenConnectionResponse, TicketError>)
    ensures
        ticket_outcome_view(r) == decoded_ticket(body@),
{
    match parse_document(body) {
        Err(_) => Err(TicketError::Malformed),
        Ok(doc) => match read_ticket(&doc) {
            Some(ticket) => Ok(ticket),
            None => Err(TicketError::Mismatch),
        },
    }
}

/// Where to connect: the host to reach on the TLS port, and the full URL to
/// hand to the WebSocket upgrade.
#[derive(Clone, Debug, PartialEq, Eq)]
pub struct Endpoint {
    pub host: String,
    pub url: String,
}

pub struct EndpointView {
    pub host: Seq<char>,
    pub url: Seq<char>,
}

impl View for Endpoint {
    type V = EndpointView;

    open spec fn view(&self) -> EndpointView {
        EndpointView { host: self.host@, url: self.url@ }
    }
}

impl EndpointView {
    /// The socket address of the secure stream: the host and the TLS port.
    pub open spec fn address(self) -> Seq<char> {
        self.host + ":443"@
    }
}

impl Endpoint {
    /// The socket address to open the secure stream to.
    pub fn address(&self) -> (r: String)
        ensures
            r@ == self@.address(),
    {
        let mut r = self.host.clone();
        r.append(":443");
        r
    }
}

/// Why a ticket leads nowhere.
#[derive(Clone, Debug, PartialEq, Eq)]
pub enum SetupError {
    /// The peer refused the connection, with its reason if it gave one.
    Refused { reason: Option<String> },
    /// The ticket is positive and names no URL.
    MissingUrl,
    /// The ticket's URL is no URL.
    InvalidUrl,
    /// The ticket's URL has no domain name.
    NoDomain,
}

pub enum SetupErrorView {
    Refused { reason: Option<Seq<char>> },
    MissingUrl,
    InvalidUrl,
    NoDomain,
}

impl View for SetupError {
    type V = SetupErrorView;

    open spec fn view(&self) -> SetupErrorView {
        match self {
            SetupError::Refused { reason } => SetupErrorView::Refused { reason: text_view(*reason) },
            SetupError::MissingUrl => SetupErrorView::MissingUrl,
            SetupError::InvalidUrl => SetupErrorView::InvalidUrl,
            SetupError::NoDomain => SetupErrorView::NoDomain,
        }
    }
}

impl SetupErrorView {
    /// The message that tells a person what went wrong.
    pub open spec fn message(self) -> Seq<char> {
        match self {
            SetupErrorView::Refused { reason: Some(reason) } => "app.connections.open failed: "@
                + reason,
            SetupErrorView::Refused { reason: None } => "app.connections.open failed: "@
                + "Unknow error"@,
            SetupErrorView::MissingUrl => "no url passed from server"@,
            SetupErrorView::InvalidUrl => "failed to parse entrypoint url"@,
            SetupErrorView::NoDomain => "no domain name?"@,
        }
    }
}

impl SetupError {
    /// The message that tells a person what went wrong.
    pub fn message(&self) -> (r: String)
        ensures
            r@ == self@.message(),
    {
        match self {
            SetupError::Refused { reason } => {
                let mut r = "app.connections.open failed: ".to_owned();
                match reason {
                    Some(reason) => r.append(reason.as_str()),
                    None => r.append("Unknow error"),
                }
                r
            },
            SetupError::MissingUrl => "no url passed from server".to_owned(),
            SetupError::InvalidUrl => "failed to parse entrypoint url".to_owned(),
            SetupError::NoDomain => "no domain name?".to_owned(),
        }
    }
}

/// The endpoint that a ticket leads to, or why it leads nowhere.
pub open spec fn target_of(ticket: TicketView) -> Result<EndpointView, SetupErrorView> {
    if !ticket.ok {
        Err(SetupErrorView::Refused { reason: ticket.error })
    } else {
        match ticket.url {
            None => Err(SetupErrorView::MissingUrl),
            Some(url) => match url_of(url) {
                None => Err(SetupErrorView::InvalidUrl),
                Some(parsed) => match domain_of(parsed) {
                    Some(host) => if host.len() > 0 {
                        Ok(EndpointView { host, url })
                    } else {
                        Err(SetupErrorView::NoDomain)
                    },
                    None => Err(SetupErrorView::NoDomain),
                },
            },
        }
    }
}

/// What the result of `connection_target` stands for.
pub open spec fn target_view(r: Result<Endpoint, SetupError>) -> Result<
    EndpointView,
    SetupErrorView,
> {
    match r {
        Ok(endpoint) => Ok(endpoint@),
        Err(e) => Err(e@),
    }
}

/// Decides where a ticket leads. A negative ticket is refused with the
/// peer's reason. A positive one leads to the domain name in its URL, which
/// is never empty, and keeps the URL as it came.
pub fn connection_target(ticket: &OpenConnectionResponse) -> (r: Result<Endpoint, SetupError>)
    ensures
        target_view(r) == target_of(ticket@),
        r matches Ok(endpoint) ==> ticket.ok && endpoint.host@.len() > 0 && Some(endpoint.url@)
            == ticket@.url && host_of(endpoint.url@) == Some(endpoint.host@),
        ticket@.well_formed() ==> (r is Ok <==> ticket.ok),
{
    if !ticket.ok {
        return Err(SetupError::Refused { reason: ticket.error.clone() });
    }
    let url = match &ticket.url {
        Some(url) => url,
        None => {
            return Err(SetupError::MissingUrl);
        },
    };
    let parsed = match parse_url(url.as_str()) {
        Ok(parsed) => parsed,
        Err(_) => {
            return Err(SetupError::InvalidUrl);
        },
    };
    match domain(&parsed) {
        Some(host) => if host.is_empty() {
            Err(SetupError::NoDomain)
        } else {
            Ok(Endpoint { host: host.to_owned(), url: url.clone() })
        },
        None => Err(SetupError::NoDomain),
    }
}

impl OpenConnectionResponse {
    /// Whether the ticket is well formed: a positive one names a URL with a
    /// domain name, a negative one gives its reason.
    pub fn is_well_formed(&self) -> (r: bool)
        ensures
            r == self@.well_formed(),
    {
        if self.ok {
            connection_target(self).is_ok()
        } else {
            self.error.is_some()
        }
    }
}

/// A well-formed positive ticket leads to an endpoint: its host is the
/// domain name of the ticket's URL, that name is not empty, and the secure
/// stream goes to that host on the TLS port.
pub proof fn positive_ticket_names_its_target(ticket: TicketView)
    requires
        ticket.well_formed(),
        ticket.ok,
    ensures
        target_of(ticket) matches Ok(endpoint) && endpoint.host.len() > 0 && Some(endpoint.host)
            == host_of(ticket.url->0) && endpoint.url == ticket.url->0 && endpoint.address()
            == host_of(ticket.url->0)->0 + ":443"@,
{
}

} // verus!
