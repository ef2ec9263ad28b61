//! What passes between the service and the database: the requests that the
//! service asks to have sent, the replies that it is handed back, and the
//! errors in which an exchange can end.

use crate::models::{option_text, GameType, NotionProperties, NotionPropertiesView};
use vstd::prelude::*;
use vstd::string::StringExecFns;

verus! {

/// How recording or reading outcomes can fail.
#[derive(Debug, PartialEq, Eq)]
pub enum Error {
    /// The key has reached its daily limit of records for the game.
    SpinLimitReached,
    /// The database rejected a request, sent a reply of an unknown shape, or
    /// is not configured for the game; with the reason.
    NotionApi(String),
    /// A value could not be put on the wire; with the reason.
    Serialization(String),
    /// A request could not be sent, or its reply not be read; with the reason.
    HttpClient(String),
}

/// What an [`Error`] holds, as mathematical values.
pub enum ErrorView {
    SpinLimitReached,
    NotionApi(Seq<char>),
    Serialization(Seq<char>),
    HttpClient(Seq<char>),
}

impl View for Error {
    type V = ErrorView;

    open spec fn view(&self) -> ErrorView {
        match self {
            Error::SpinLimitReached => ErrorView::SpinLimitReached,
            Error::NotionApi(reason) => ErrorView::NotionApi(reason@),
            Error::Serialization(reason) => ErrorView::Serialization(reason@),
            Error::HttpClient(reason) => ErrorView::HttpClient(reason@),
        }
    }
}

impl ErrorView {
    /// The error in words.
    pub open spec fn message(self) -> Seq<char> {
        match self {
            ErrorView::SpinLimitReached => "Daily spin limit reached"@,
            ErrorView::NotionApi(reason) => "Notion API error: "@ + reason,
            ErrorView::Serialization(reason) => "Serialization error: "@ + reason,
            ErrorView::HttpClient(reason) => "HTTP client error: "@ + reason,
        }
    }
}

impl Error {
    /// The error in words.
    pub fn message(&self) -> (text: String)
        ensures
            text@ == self@.message(),
    {
        match self {
            Error::SpinLimitReached => String::from_str("Daily spin limit reached"),
            Error::NotionApi(reason) => String::from_str("Notion API error: ").concat(
                reason.as_str(),
            ),
            Error::Serialization(reason) => String::from_str("Serialization error: ").concat(
                reason.as_str(),
            ),
            Error::HttpClient(reason) => String::from_str("HTTP client error: ").concat(
                reason.as_str(),
            ),
        }
    }
}

/// The view of the outcome of an operation that returns nothing.
pub open spec fn unit_result_view(result: Result<(), Error>) -> Result<(), ErrorView> {
    match result {
        Ok(_) => Ok(()),
        Err(error) => Err(error@),
    }
}

/// The HTTP method of a request.
#[derive(Debug, Clone, Copy, PartialEq, Eq, Structural)]
pub enum Method {
    Post,
    Patch,
}

/// The body of a request, before it is put into JSON.
#[derive(Debug, PartialEq, Eq)]
pub enum Payload {
    /// A query for the pages of one game whose title is `key` and whose date
    /// lies in the window from `from` to `until`. The window holds both of
    /// its ends: a page dated at `from` or at `until` is asked for.
    TodayFilter { key: String, game_type: GameType, from: String, until: String },
    /// A query for one page of entries, of the given size.
    PageSize(u32),
    /// A new page in the database `database_id`, marked as a record of the
    /// game.
    NewPage { database_id: String, game_type: GameType, properties: NotionProperties },
    /// New properties for a page.
    Properties(NotionProperties),
    /// The mark that moves a page to the archive.
    Archived,
}

/// What a [`Payload`] holds, as mathematical values.
pub enum PayloadView {
    TodayFilter { key: Seq<char>, game_type: GameType, from: Seq<char>, until: Seq<char> },
    PageSize(u32),
    NewPage { database_id: Seq<char>, game_type: GameType, properties: NotionPropertiesView },
    Properties(NotionPropertiesView),
    Archived,
}

impl View for Payload {
    type V = PayloadView;

    open spec fn view(&self) -> PayloadView {
        match self {
            Payload::TodayFilter { key, game_type, from, until } => PayloadView::TodayFilter {
                key: key@,
                game_type: *game_type,
                from: from@,
                until: until@,
            },
            Payload::PageSize(size) => PayloadView::PageSize(*size),
            Payload::NewPage { database_id, game_type, properties } => PayloadView::NewPage {
                database_id: database_id@,
                game_type: *game_type,
                properties: properties@,
            },
            Payload::Properties(properties) => PayloadView::Properties(properties@),
            Payload::Archived => PayloadView::Archived,
        }
    }
}

/// A request that the service asks to have sent to the database.
#[derive(Debug, PartialEq, Eq)]
pub struct StoreRequest {
    pub method: Method,
    pub url: String,
    /// The value of the `Authorization` header.
    pub authorization: String,
    /// The value of the `Notion-Version` header.
    pub version: String,
    pub payload: Payload,
}

/// What a [`StoreRequest`] holds, as mathematical values.
pub struct StoreRequestView {
    pub method: Method,
    pub url: Seq<char>,
    pub authorization: Seq<char>,
    pub version: Seq<char>,
    pub payload: PayloadView,
}

impl View for StoreRequest {
    type V = StoreRequestView;

    open spec fn view(&self) -> StoreRequestView {
        StoreRequestView {
            method: self.method,
            url: self.url@,
            authorization: self.authorization@,
            version: self.version@,
            payload: self.payload@,
        }
    }
}

impl StoreRequest {
    /// Whether the request is a query, whose reply is read for its entries.
    /// The reply to any other request is not read beyond its status.
    pub fn expects_entries(&self) -> (query: bool)
        ensures
            query <==> self@.payload is TodayFilter || self@.payload is PageSize,
    {
        match &self.payload {
            Payload::TodayFilter { .. } => true,
            Payload::PageSize(_) => true,
            _ => false,
        }
    }
}

/// One entry of a query's reply, as far as the reply holds it: a field that
/// is missing, or of another type than a record's, is `None`.
#[derive(Debug, PartialEq, Eq)]
pub struct RawEntry {
    pub key: Option<String>,
    pub datetime: Option<String>,
    pub number: Option<i64>,
    pub is_win: Option<bool>,
    pub checked: Option<bool>,
}

/// What a [`RawEntry`] holds, as mathematical values.
pub struct RawEntryView {
    pub key: Option<Seq<char>>,
    pub datetime: Option<Seq<char>>,
    pub number: Option<i64>,
    pub is_win: Option<bool>,
    pub checked: Option<bool>,
}

impl View for RawEntry {
    type V = RawEntryView;

    open spec fn view(&self) -> RawEntryView {
        RawEntryView {
            key: option_text(self.key),
            datetime: option_text(self.datetime),
            number: self.number,
            is_win: self.is_win,
            checked: self.checked,
        }
    }
}

/// The views of a list of entries, in order.
pub open spec fn entry_views(entries: Seq<RawEntry>) -> Seq<RawEntryView> {
    Seq::new(entries.len(), |i: int| entries[i]@)
}

/// How an exchange with the database ended.
#[derive(Debug, PartialEq, Eq)]
pub enum StoreReply {
    /// The request could not be sent, or the reply could not be read; with the
    /// reason.
    Failed(String),
    /// The database answered with a status other than success; with the text
    /// of its reply.
    Rejected(String),
    /// The database answered with success. The entries are those of the
    /// reply's list of results, where the reply was read and holds such a
    /// list.
    Accepted(Option<Vec<RawEntry>>),
}

/// What a [`StoreReply`] holds, as mathematical values.
pub enum StoreReplyView {
    Failed(Seq<char>),
    Rejected(Seq<char>),
    Accepted(Option<Seq<RawEntryView>>),
}

impl View for StoreReply {
    type V = StoreReplyView;

    open spec fn view(&self) -> StoreReplyView {
        match self {
            StoreReply::Failed(reason) => StoreReplyView::Failed(reason@),
            StoreReply::Rejected(text) => StoreReplyView::Rejected(text@),
            StoreReply::Accepted(Some(entries)) => StoreReplyView::Accepted(
                Some(entry_views(entries@)),
            ),
            StoreReply::Accepted(None) => StoreReplyView::Accepted(None),
        }
    }
}

} // verus!
