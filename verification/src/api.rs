//! The client side of the remote service: who may talk to it, and what an
//! answer of the service amounts to.

use vstd::prelude::*;
use crate::error::ConfigurationError;
use crate::models::{TimeEntry, TimeEntryView};
use crate::text::{decimal, decimal_text};

verus! {

/// The mathematical value of [`Credentials`].
pub struct CredentialsView {
    pub api_token: Seq<char>,
}

impl CredentialsView {
    /// Credentials can be used when their token is not empty.
    pub open spec fn usable(self) -> bool {
        self.api_token.len() > 0
    }
}

/// The access token of an account, as the credential store keeps it.
#[derive(Debug, PartialEq, Eq)]
pub struct Credentials {
    pub api_token: String,
}

impl View for Credentials {
    type V = CredentialsView;

    open spec fn view(&self) -> CredentialsView {
        CredentialsView { api_token: self.api_token@ }
    }
}

impl DeepView for Credentials {
    type V = CredentialsView;

    open spec fn deep_view(&self) -> CredentialsView {
        self@
    }
}

/// The mathematical value of an [`ApiError`].
pub enum ApiErrorView {
    Authentication,
    Network,
    Remote { status: u16, message: Seq<char> },
    Decode,
}

/// Why a request to the remote service gave no result.
#[derive(Debug, PartialEq, Eq)]
pub enum ApiError {
    /// The service rejected the access token.
    Authentication,
    /// The service could not be reached.
    Network,
    /// The service answered with a status that is neither a success nor a
    /// rejection of the token.
    Remote { status: u16, message: String },
    /// The service's answer could not be read.
    Decode,
}

impl View for ApiError {
    type V = ApiErrorView;

    open spec fn view(&self) -> ApiErrorView {
        match self {
            ApiError::Authentication => ApiErrorView::Authentication,
            ApiError::Network => ApiErrorView::Network,
            ApiError::Remote { status, message } => ApiErrorView::Remote {
                status: *status,
                message: message@,
            },
            ApiError::Decode => ApiErrorView::Decode,
        }
    }
}

/// The mathematical value of a [`Request`].
pub enum RequestView {
    GetUser,
    GetRunningTimeEntry,
    GetTimeEntries,
    CreateTimeEntry(TimeEntryView),
    UpdateTimeEntry { id: i64, entry: TimeEntryView },
}

/// One operation of the remote service.
#[derive(Debug, PartialEq, Eq)]
pub enum Request {
    /// The account that the token belongs to.
    GetUser,
    /// The entry that is running, if any.
    GetRunningTimeEntry,
    /// The recent entries, most recent first.
    GetTimeEntries,
    /// Create this entry.
    CreateTimeEntry(TimeEntry),
    /// Replace the entry with this identifier by this entry.
    UpdateTimeEntry { id: i64, entry: TimeEntry },
}

impl View for Request {
    type V = RequestView;

    open spec fn view(&self) -> RequestView {
        match self {
            Request::GetUser => RequestView::GetUser,
            Request::GetRunningTimeEntry => RequestView::GetRunningTimeEntry,
            Request::GetTimeEntries => RequestView::GetTimeEntries,
            Request::CreateTimeEntry(entry) => RequestView::CreateTimeEntry(entry@),
            Request::UpdateTimeEntry { id, entry } => RequestView::UpdateTimeEntry {
                id: *id,
                entry: entry@,
            },
        }
    }
}

/// How a request is put to the service.
#[derive(Clone, Copy, Debug, PartialEq, Eq, Structural)]
pub enum Method {
    Get,
    Post,
    Put,
}

impl RequestView {
    /// Reading is a `GET`, creating a `POST`, replacing a `PUT`.
    pub open spec fn method(self) -> Method {
        match self {
            RequestView::GetUser
            | RequestView::GetRunningTimeEntry
            | RequestView::GetTimeEntries => Method::Get,
            RequestView::CreateTimeEntry(_) => Method::Post,
            RequestView::UpdateTimeEntry { .. } => Method::Put,
        }
    }

    /// The resource that the request addresses, as a path below the resource
    /// of the current user: that resource itself, the running entry, the
    /// collection of entries, or one entry by its identifier.
    pub open spec fn resource(self) -> Seq<char> {
        match self {
            RequestView::GetUser => Seq::empty(),
            RequestView::GetRunningTimeEntry => "/time_entries/current"@,
            RequestView::GetTimeEntries | RequestView::CreateTimeEntry(_) => "/time_entries"@,
            RequestView::UpdateTimeEntry { id, .. } => "/time_entries/"@ + decimal(id as int),
        }
    }

    /// The entry that the request carries to the service, if it carries one.
    pub open spec fn payload(self) -> Option<TimeEntryView> {
        match self {
            RequestView::CreateTimeEntry(entry) => Some(entry),
            RequestView::UpdateTimeEntry { entry, .. } => Some(entry),
            _ => None,
        }
    }
}

impl Request {
    /// How the request is put to the service.
    pub fn method(&self) -> (method: Method)
        ensures
            method == self@.method(),
    {
        match self {
            Request::GetUser | Request::GetRunningTimeEntry | Request::GetTimeEntries => Method::Get,
            Request::CreateTimeEntry(_) => Method::Post,
            Request::UpdateTimeEntry { .. } => Method::Put,
        }
    }

    /// The resource that the request addresses.
    pub fn resource(&self) -> (path: String)
        ensures
            path@ == self@.resource(),
    {
        match self {
            Request::GetUser => String::new(),
            Request::GetRunningTimeEntry => String::from_str("/time_entries/current"),
            Request::GetTimeEntries | Request::CreateTimeEntry(_) => String::from_str(
                "/time_entries",
            ),
            Request::UpdateTimeEntry { id, .. } => {
                let number = decimal_text(*id);
                String::from_str("/time_entries/").concat(number.as_str())
            },
        }
    }

    /// The entry that the request carries to the service, if it carries one.
    pub fn payload(&self) -> (entry: Option<&TimeEntry>)
        ensures
            entry.deep_view() == self@.payload(),
    {
        match self {
            Request::CreateTimeEntry(entry) => Some(entry),
            Request::UpdateTimeEntry { entry, .. } => Some(entry),
            _ => None,
        }
    }
}

/// The mathematical value of a [`Reply`].
pub enum ReplyView {
    Unreachable,
    Answered { status: u16, body: Seq<char> },
}

/// What came back for one request.
#[derive(Debug, PartialEq, Eq)]
pub enum Reply {
    /// Nothing: the connection failed or timed out.
    Unreachable,
    /// An answer with its HTTP status and its body as text.
    Answered { status: u16, body: String },
}

impl View for Reply {
    type V = ReplyView;

    open spec fn view(&self) -> ReplyView {
        match self {
            Reply::Unreachable => ReplyView::Unreachable,
            Reply::Answered { status, body } => ReplyView::Answered { status: *status, body: body@ },
        }
    }
}

/// A status that reports success.
pub open spec fn is_success(status: u16) -> bool {
    200 <= status <= 299
}

/// A status by which the service rejects the access token.
pub open spec fn is_rejection(status: u16) -> bool {
    status == 401 || status == 403
}

/// What a reply amounts to: the body of a successful answer, or the error
/// that stands for anything else.
pub open spec fn reply_outcome(reply: ReplyView) -> Result<Seq<char>, ApiErrorView> {
    match reply {
        ReplyView::Unreachable => Err(ApiErrorView::Network),
        ReplyView::Answered { status, body } => if is_success(status) {
            Ok(body)
        } else if is_rejection(status) {
            Err(ApiErrorView::Authentication)
        } else {
            Err(ApiErrorView::Remote { status, message: body })
        },
    }
}

/// What a reply amounts to where the service may answer that there is
/// nothing: no body at all, or the body of a successful answer that says
/// more than that.
pub open spec fn optional_reply_outcome(reply: ReplyView) -> Result<
    Option<Seq<char>>,
    ApiErrorView,
> {
    match reply_outcome(reply) {
        Ok(body) => if is_absent(body) {
            Ok(None)
        } else {
            Ok(Some(body))
        },
        Err(error) => Err(error),
    }
}

/// The mathematical value of the outcome of a reply.
pub open spec fn body_view(outcome: Result<String, ApiError>) -> Result<Seq<char>, ApiErrorView> {
    match outcome {
        Ok(body) => Ok(body@),
        Err(error) => Err(error@),
    }
}

/// The mathematical value of the outcome of a reply that may say that there
/// is nothing.
pub open spec fn optional_body_view(outcome: Result<Option<String>, ApiError>) -> Result<
    Option<Seq<char>>,
    ApiErrorView,
> {
    match outcome {
        Ok(body) => Ok(body.deep_view()),
        Err(error) => Err(error@),
    }
}

/// A body that stands for "no entry": empty, or the word `null`.
pub open spec fn is_absent(body: Seq<char>) -> bool {
    body.len() == 0 || body == seq!['n', 'u', 'l', 'l']
}

/// The client of the service's interface in its ninth version: credentials
/// that were found usable.
#[derive(Debug, PartialEq, Eq)]
pub struct V9ApiClient {
    api_token: String,
}

impl View for V9ApiClient {
    type V = CredentialsView;

    closed spec fn view(&self) -> CredentialsView {
        CredentialsView { api_token: self.api_token@ }
    }
}

impl Clone for V9ApiClient {
    fn clone(&self) -> (copy: Self)
        ensures
            copy@ == self@,
    {
        proof {
            use_type_invariant(self);
        }
        V9ApiClient { api_token: self.api_token.clone() }
    }
}

impl V9ApiClient {
    #[verifier::type_invariant]
    spec fn holds_usable_credentials(self) -> bool {
        self@.usable()
    }

    /// A client for `credentials`, unless their token is empty.
    pub fn from_credentials(credentials: Credentials) -> (made: Result<
        V9ApiClient,
        ConfigurationError,
    >)
        ensures
            made is Ok <==> credentials@.usable(),
            made matches Ok(client) ==> client@ == credentials@,
    {
        if credentials.api_token.as_str().unicode_len() == 0 {
            Err(ConfigurationError)
        } else {
            Ok(V9ApiClient { api_token: credentials.api_token })
        }
    }

    /// The access token that the client authenticates with.
    pub fn api_token(&self) -> (token: &str)
        ensures
            token@ == self@.api_token,
            self@.usable(),
    {
        proof {
            use_type_invariant(self);
        }
        self.api_token.as_str()
    }

    /// Reads a reply of the service: the body of a successful answer, or the
    /// error that the reply stands for.
    pub fn receive(reply: Reply) -> (outcome: Result<String, ApiError>)
        ensures
            body_view(outcome) == reply_outcome(reply@),
    {
        match reply {
            Reply::Unreachable => Err(ApiError::Network),
            Reply::Answered { status, body } => if 200 <= status && status <= 299 {
                Ok(body)
            } else if status == 401 || status == 403 {
                Err(ApiError::Authentication)
            } else {
                Err(ApiError::Remote { status, message: body })
            },
        }
    }

    /// Reads a reply of the service to a request that may be answered with
    /// nothing, as the request for the running entry is.
    pub fn receive_optional(reply: Reply) -> (outcome: Result<Option<String>, ApiError>)
        ensures
            optional_body_view(outcome) == optional_reply_outcome(reply@),
    {
        match Self::receive(reply) {
            Err(error) => Err(error),
            Ok(body) => if Self::reports_absence(body.as_str()) {
                Ok(None)
            } else {
                Ok(Some(body))
            },
        }
    }

    /// What the body of a successful answer amounts to once it was read as
    /// a value: that value, or a decoding error where it could not be read.
    pub fn decoded<T>(parsed: Option<T>) -> (outcome: Result<T, ApiError>)
        ensures
            match parsed {
                Some(value) => outcome == Ok::<T, ApiError>(value),
                None => outcome matches Err(error) && error@ == ApiErrorView::Decode,
            },
    {
        match parsed {
            Some(value) => Ok(value),
            None => Err(ApiError::Decode),
        }
    }

    /// Whether the body of a successful answer says that there is no entry.
    pub fn reports_absence(body: &str) -> (absent: bool)
        ensures
            absent == is_absent(body@),
    {
        proof {
            reveal_strlit("null");
            assert("null"@ =~= seq!['n', 'u', 'l', 'l']);
        }
        body.unicode_len() == 0 || str_equal(body, "null")
    }
}

/// Whether two texts hold the same characters.
fn str_equal(left: &str, right: &str) -> (same: bool)
    ensures
        same == (left@ == right@),
{
    let count = left.unicode_len();
    if count != right.unicode_len() {
        return false;
    }
    let mut i: usize = 0;
    while i < count
        invariant
            count == left@.len(),
            count == right@.len(),
            i <= count,
            forall|k: int| 0 <= k < i ==> left@[k] == right@[k],
        decreases count - i,
    {
        if left.get_char(i) != right.get_char(i) {
            return false;
        }
        i += 1;
    }
    assert(left@ =~= right@);
    true
}

} // verus!
