//! Request dispatch: which host a request names, whether the filter lets it
//! through, and what is to be done with it.
//!
//! The caller reads a request off the wire, hands its head over as a
//! `RequestHead`, and carries out the `Dispatch` it gets back: write the
//! refusal, open the tunnel, or send the request on.

use crate::addon::filter::blocked_response;
use crate::addon::filter::FilterModel;
use crate::addon::filter::FilterRules;
use crate::response::blocked;
use crate::response::tunnel_ready;
use crate::response::ProxyResponse;
use crate::response::ResponseModel;
use vstd::prelude::*;

verus! {

/// The parts of an incoming request that dispatch looks at.
#[derive(Debug, PartialEq, Eq)]
pub struct RequestHead {
    /// The method token as it stood on the request line.
    pub method: String,
    /// `host[:port]` of the request target, where the target has one.
    pub authority: Option<String>,
    /// The value of the `Host` header, where there is a readable one.
    pub host_header: Option<String>,
    /// Path and query of the request target, where the target has them.
    pub path_and_query: Option<String>,
}

/// What a `RequestHead` says.
pub struct RequestModel {
    pub method: Seq<char>,
    pub authority: Option<Seq<char>>,
    pub host_header: Option<Seq<char>>,
    pub path_and_query: Option<Seq<char>>,
}

/// The text of an optional string.
pub open spec fn text_of(s: Option<String>) -> Option<Seq<char>> {
    match s {
        Some(s) => Some(s@),
        None => None,
    }
}

impl View for RequestHead {
    type V = RequestModel;

    open spec fn view(&self) -> RequestModel {
        RequestModel {
            method: self.method@,
            authority: text_of(self.authority),
            host_header: text_of(self.host_header),
            path_and_query: text_of(self.path_and_query),
        }
    }
}

/// Why a request could not be dispatched.
#[derive(Debug, PartialEq, Eq)]
pub enum RequestError {
    /// A request to forward whose target names no authority.
    MissingAuthority,
    /// A CONNECT whose target names no authority.
    ConnectMissingAuthority,
    /// The rewritten target, held here, is not a URI.
    InvalidUri(String),
}

/// What a `RequestError` says.
pub enum RequestErrorModel {
    MissingAuthority,
    ConnectMissingAuthority,
    InvalidUri(Seq<char>),
}

impl View for RequestError {
    type V = RequestErrorModel;

    open spec fn view(&self) -> RequestErrorModel {
        match self {
            RequestError::MissingAuthority => RequestErrorModel::MissingAuthority,
            RequestError::ConnectMissingAuthority => RequestErrorModel::ConnectMissingAuthority,
            RequestError::InvalidUri(uri) => RequestErrorModel::InvalidUri(uri@),
        }
    }
}

impl RequestErrorModel {
    /// The error in words.
    pub open spec fn message(self) -> Seq<char> {
        match self {
            RequestErrorModel::MissingAuthority => "Missing authority in URI"@,
            RequestErrorModel::ConnectMissingAuthority => "CONNECT request missing authority in URI"@,
            RequestErrorModel::InvalidUri(uri) => "Failed to parse URI: "@ + uri,
        }
    }
}

impl RequestError {
    /// The error in words, for a log line or an error response.
    pub fn message(&self) -> (text: String)
        ensures
            text@ == self@.message(),
    {
        match self {
            RequestError::MissingAuthority => "Missing authority in URI".to_string(),
            RequestError::ConnectMissingAuthority => "CONNECT request missing authority in URI".to_string(),
            RequestError::InvalidUri(uri) => {
                let mut text = "Failed to parse URI: ".to_string();
                text.append(uri.as_str());
                text
            },
        }
    }
}

/// What is to be done with a request.
#[derive(Debug, PartialEq, Eq)]
pub enum Dispatch {
    /// The filter refused the host: answer with `response` and do nothing
    /// else. Nothing is forwarded and no connection is opened.
    Blocked { response: ProxyResponse },
    /// An accepted CONNECT: answer with `response`, then relay bytes between
    /// the client and `addr`.
    Tunnel { addr: String, response: ProxyResponse },
    /// An accepted request of any other method: send it to `uri`, its target
    /// in absolute form, and hand the answer back as it comes.
    Forward { uri: String },
}

/// What a `Dispatch` says.
pub enum DispatchModel {
    Blocked { response: ResponseModel },
    Tunnel { addr: Seq<char>, response: ResponseModel },
    Forward { uri: Seq<char> },
}

impl View for Dispatch {
    type V = DispatchModel;

    open spec fn view(&self) -> DispatchModel {
        match self {
            Dispatch::Blocked { response } => DispatchModel::Blocked { response: response@ },
            Dispatch::Tunnel { addr, response } => DispatchModel::Tunnel {
                addr: addr@,
                response: response@,
            },
            Dispatch::Forward { uri } => DispatchModel::Forward { uri: uri@ },
        }
    }
}

/// What the outcome of a dispatch says.
pub open spec fn outcome_of(outcome: Result<Dispatch, RequestError>) -> Result<
    DispatchModel,
    RequestErrorModel,
> {
    match outcome {
        Ok(dispatch) => Ok(dispatch@),
        Err(error) => Err(error@),
    }
}

/// The host that a request names: the authority of its target; without
/// one, the `Host` header; without either, the empty string.
pub open spec fn target_host(req: RequestModel) -> Seq<char> {
    match req.authority {
        Some(authority) => authority,
        None => match req.host_header {
            Some(host) => host,
            None => Seq::empty(),
        },
    }
}

/// Whether the request asks for a tunnel.
pub open spec fn is_connect(req: RequestModel) -> bool {
    req.method == "CONNECT"@
}

/// The target of a forwarded request in absolute form: the scheme `http`,
/// the authority, then path and query, or `/` where the target had none.
pub open spec fn absolute_uri(authority: Seq<char>, path_and_query: Option<Seq<char>>) -> Seq<
    char,
> {
    "http://"@ + authority + match path_and_query {
        Some(path) => path,
        None => "/"@,
    }
}

/// Whether the parser of `hyper::Uri` accepts `text`.
pub uninterp spec fn uri_accepted(text: Seq<char>) -> bool;

/// Trusted, not proved. Runs `<hyper::Uri as FromStr>::from_str` on `text`
/// (`hyper::Uri` is `http::Uri` under another path) and reports whether it
/// returned a URI. The parser reads nothing but the bytes of `text`, and
/// what it refuses comes back as an error, not as a panic. The contract
/// gives the verdict its name, `uri_accepted`, and claims nothing else: not
/// which texts are accepted, nor what the parsed URI holds.
#[verifier::external_body]
fn parses_as_uri(text: &str) -> (accepted: bool)
    ensures
        accepted == uri_accepted(text@),
{
    text.parse::<hyper::Uri>().is_ok()
}

/// What becomes of a request to forward once its rewritten target has been
/// put to the URI parser.
pub open spec fn forward_checked_outcome(target: Seq<char>, accepted: bool) -> Result<
    DispatchModel,
    RequestErrorModel,
> {
    if accepted {
        Ok(DispatchModel::Forward { uri: target })
    } else {
        Err(RequestErrorModel::InvalidUri(target))
    }
}

/// What becomes of a request of a method other than CONNECT that the
/// filter let through.
pub open spec fn forward_outcome(req: RequestModel) -> Result<DispatchModel, RequestErrorModel> {
    match req.authority {
        None => Err(RequestErrorModel::MissingAuthority),
        Some(authority) => {
            let target = absolute_uri(authority, req.path_and_query);
            forward_checked_outcome(target, uri_accepted(target))
        },
    }
}

/// What becomes of a CONNECT that the filter let through.
pub open spec fn connect_outcome(req: RequestModel) -> Result<DispatchModel, RequestErrorModel> {
    match req.authority {
        None => Err(RequestErrorModel::ConnectMissingAuthority),
        Some(authority) => Ok(DispatchModel::Tunnel { addr: authority, response: tunnel_ready() }),
    }
}

/// What becomes of a request under a filter.
pub open spec fn proxy_outcome(req: RequestModel, rules: FilterModel) -> Result<
    DispatchModel,
    RequestErrorModel,
> {
    let host = target_host(req);
    if !rules.allows(host) {
        Ok(DispatchModel::Blocked { response: blocked(host) })
    } else if is_connect(req) {
        connect_outcome(req)
    } else {
        forward_outcome(req)
    }
}

/// A request that names no host, neither in its target nor in a `Host`
/// header, is looked up under the empty name. Where the filter lets that
/// name through, the request fails for want of an authority.
pub proof fn lemma_request_without_host_fails(req: RequestModel, rules: FilterModel)
    requires
        req.authority is None,
        req.host_header is None,
        rules.allows(Seq::empty()),
    ensures
        proxy_outcome(req, rules) == Err::<DispatchModel, RequestErrorModel>(
            if is_connect(req) {
                RequestErrorModel::ConnectMissingAuthority
            } else {
                RequestErrorModel::MissingAuthority
            },
        ),
{
}

/// Nothing is tunnelled and nothing is forwarded for a request whose target
/// names no authority: it is refused under the name it does give, or it
/// fails as a request.
pub proof fn lemma_no_authority_no_passage(req: RequestModel, rules: FilterModel)
    requires
        req.authority is None,
    ensures
        match proxy_outcome(req, rules) {
            Ok(DispatchModel::Blocked { response }) => !rules.allows(target_host(req))
                && response == blocked(target_host(req)),
            Ok(_) => false,
            Err(error) => rules.allows(target_host(req)) && (error
                == RequestErrorModel::MissingAuthority || error
                == RequestErrorModel::ConnectMissingAuthority),
        },
{
}

/// A host that the filter refuses gets the refusal and nothing else,
/// whatever the method and the rest of the request.
pub proof fn lemma_refused_host_is_blocked(req: RequestModel, rules: FilterModel)
    requires
        !rules.allows(target_host(req)),
    ensures
        proxy_outcome(req, rules) == Ok::<DispatchModel, RequestErrorModel>(
            DispatchModel::Blocked { response: blocked(target_host(req)) },
        ),
{
}

impl RequestHead {
    /// The host that the request names, for the filter and for the refusal.
    pub fn target_host(&self) -> (host: String)
        ensures
            host@ == target_host(self@),
    {
        match &self.authority {
            Some(authority) => authority.clone(),
            None => match &self.host_header {
                Some(host) => host.clone(),
                None => String::new(),
            },
        }
    }

    /// Whether the method is CONNECT, letter for letter.
    pub fn is_connect(&self) -> (connect: bool)
        ensures
            connect == is_connect(self@),
    {
        self.method == "CONNECT".to_string()
    }
}

/// Writes the target of a forwarded request in absolute form.
pub fn absolute_uri_of(authority: &str, path_and_query: Option<&str>) -> (uri: String)
    ensures
        uri@ == absolute_uri(
            authority@,
            match path_and_query {
                Some(path) => Some(path@),
                None => None,
            },
        ),
{
    let mut uri = "http://".to_string();
    uri.append(authority);
    match path_and_query {
        Some(path) => uri.append(path),
        None => uri.append("/"),
    }
    uri
}

/// Settles a request to forward, given its rewritten target and the URI
/// parser's verdict on it.
pub fn forward_checked(target: String, accepted: bool) -> (outcome: Result<Dispatch, RequestError>)
    ensures
        outcome_of(outcome) == forward_checked_outcome(target@, accepted),
{
    if accepted {
        Ok(Dispatch::Forward { uri: target })
    } else {
        Err(RequestError::InvalidUri(target))
    }
}

/// Prepares a request of a method other than CONNECT for the origin: its
/// target is rewritten to absolute form and checked to be a URI.
pub fn handle_http(req: &RequestHead) -> (outcome: Result<Dispatch, RequestError>)
    ensures
        outcome_of(outcome) == forward_outcome(req@),
{
    match &req.authority {
        None => Err(RequestError::MissingAuthority),
        Some(authority) => {
            let target = match &req.path_and_query {
                Some(path) => absolute_uri_of(authority.as_str(), Some(path.as_str())),
                None => absolute_uri_of(authority.as_str(), None),
            };
            let accepted = parses_as_uri(target.as_str());
            forward_checked(target, accepted)
        },
    }
}

/// Prepares a CONNECT: the address to relay to, and the acknowledgement
/// that the client gets before the relay begins.
pub fn handle_connect(req: &RequestHead) -> (outcome: Result<Dispatch, RequestError>)
    ensures
        outcome_of(outcome) == connect_outcome(req@),
{
    match &req.authority {
        None => Err(RequestError::ConnectMissingAuthority),
        Some(authority) => {
            let response = ProxyResponse { status: 200, headers: Vec::new(), body: String::new() };
            assert(response@.headers =~= tunnel_ready().headers);
            Ok(Dispatch::Tunnel { addr: authority.clone(), response })
        },
    }
}

/// Decides what is to be done with a request: refuse it where the filter
/// refuses its host, else tunnel a CONNECT and forward anything else.
pub fn proxy(req: &RequestHead, rules: &FilterRules) -> (outcome: Result<Dispatch, RequestError>)
    ensures
        outcome_of(outcome) == proxy_outcome(req@, rules@),
{
    let host = req.target_host();
    if !rules.is_allowed(host.as_str()) {
        return Ok(Dispatch::Blocked { response: blocked_response(host.as_str()) });
    }
    if req.is_connect() {
        handle_connect(req)
    } else {
        handle_http(req)
    }
}

} // verus!
