//! Requests, responses and the errors that a response can carry.

use crate::codec::{ErlangValue, ErlangValueView};
use crate::json::{row_views, JsonValue, JsonView};
use vstd::prelude::*;
use vstd::string::StringExecFns;

verus! {

/// One request of a client.
#[derive(Debug, PartialEq, Eq)]
pub enum Command {
    Begin,
    Close { stmt: usize },
    Commit,
    Deallocate { cursor: usize },
    Declare { stmt: usize, params: Vec<ErlangValue> },
    Execute { stmt: usize, params: Vec<ErlangValue> },
    Fetch { cursor: usize },
    Prepare { query: String },
    Rollback,
    Status,
}

/// A request as a mathematical term.
pub enum CommandView {
    Begin,
    Close { stmt: usize },
    Commit,
    Deallocate { cursor: usize },
    Declare { stmt: usize, params: Seq<ErlangValueView> },
    Execute { stmt: usize, params: Seq<ErlangValueView> },
    Fetch { cursor: usize },
    Prepare { query: Seq<char> },
    Rollback,
    Status,
}

/// The views of a sequence of wire values, in order.
pub open spec fn wire_views(values: Seq<ErlangValue>) -> Seq<ErlangValueView> {
    values.map_values(|value: ErlangValue| value@)
}

impl View for Command {
    type V = CommandView;

    open spec fn view(&self) -> CommandView {
        match self {
            Command::Begin => CommandView::Begin,
            Command::Close { stmt } => CommandView::Close { stmt: *stmt },
            Command::Commit => CommandView::Commit,
            Command::Deallocate { cursor } => CommandView::Deallocate { cursor: *cursor },
            Command::Declare { stmt, params } => CommandView::Declare {
                stmt: *stmt,
                params: wire_views(params@),
            },
            Command::Execute { stmt, params } => CommandView::Execute {
                stmt: *stmt,
                params: wire_views(params@),
            },
            Command::Fetch { cursor } => CommandView::Fetch { cursor: *cursor },
            Command::Prepare { query } => CommandView::Prepare { query: query@ },
            Command::Rollback => CommandView::Rollback,
            Command::Status => CommandView::Status,
        }
    }
}

/// What went wrong with a request.
#[derive(Debug, PartialEq, Eq)]
pub enum SQLError {
    /// The engine failed to run a statement; with the engine's message.
    Execution(String),
    /// The engine failed to prepare a statement; with the engine's message.
    Preparation(String),
    /// The engine failed to hand over a result row; with the engine's message.
    RowProcessing(String),
    /// The handle names no live statement.
    InvalidCacheIndex,
    /// The command is known but not served.
    Unsupported,
    /// Every slot of the statement registry is taken.
    CacheFull,
}

/// An error as a mathematical term.
pub enum SQLErrorView {
    Execution(Seq<char>),
    Preparation(Seq<char>),
    RowProcessing(Seq<char>),
    InvalidCacheIndex,
    Unsupported,
    CacheFull,
}

impl View for SQLError {
    type V = SQLErrorView;

    open spec fn view(&self) -> SQLErrorView {
        match self {
            SQLError::Execution(message) => SQLErrorView::Execution(message@),
            SQLError::Preparation(message) => SQLErrorView::Preparation(message@),
            SQLError::RowProcessing(message) => SQLErrorView::RowProcessing(message@),
            SQLError::InvalidCacheIndex => SQLErrorView::InvalidCacheIndex,
            SQLError::Unsupported => SQLErrorView::Unsupported,
            SQLError::CacheFull => SQLErrorView::CacheFull,
        }
    }
}

/// The message that an error shows to the client.
pub open spec fn error_text(err: SQLErrorView) -> Seq<char> {
    match err {
        SQLErrorView::Execution(message) => "SQL execution error: "@ + message,
        SQLErrorView::Preparation(message) => "SQL preparation error: "@ + message,
        SQLErrorView::RowProcessing(message) => "SQL row processing error: "@ + message,
        SQLErrorView::InvalidCacheIndex => "Invalid cache index"@,
        SQLErrorView::Unsupported => "Feature not supported"@,
        SQLErrorView::CacheFull => "Cache is full"@,
    }
}

impl SQLError {
    /// The message that the error shows to the client.
    pub fn to_string(&self) -> (text: String)
        ensures
            text@ == error_text(self@),
    {
        match self {
            SQLError::Execution(message) => String::from_str("SQL execution error: ").concat(
                message.as_str(),
            ),
            SQLError::Preparation(message) => String::from_str("SQL preparation error: ").concat(
                message.as_str(),
            ),
            SQLError::RowProcessing(message) => String::from_str(
                "SQL row processing error: ",
            ).concat(message.as_str()),
            SQLError::InvalidCacheIndex => String::from_str("Invalid cache index"),
            SQLError::Unsupported => String::from_str("Feature not supported"),
            SQLError::CacheFull => String::from_str("Cache is full"),
        }
    }
}

/// The answer to one request.
#[derive(Debug, PartialEq, Eq)]
pub enum Response {
    /// The request was served. `columns` pairs each column's name with the
    /// name of its type; a statement without a result set has no columns and
    /// no rows.
    Success { columns: Vec<(String, String)>, rows: Vec<Vec<JsonValue>>, num_rows: usize },
    /// The request failed.
    Error { message: String },
}

/// A response as a mathematical term.
pub enum ResponseView {
    Success { columns: Seq<(Seq<char>, Seq<char>)>, rows: Seq<Seq<JsonView>>, num_rows: nat },
    Error { message: Seq<char> },
}

/// The views of the columns of a result set, in order.
pub open spec fn column_views(columns: Seq<(String, String)>) -> Seq<(Seq<char>, Seq<char>)> {
    columns.map_values(|column: (String, String)| (column.0@, column.1@))
}

impl View for Response {
    type V = ResponseView;

    open spec fn view(&self) -> ResponseView {
        match self {
            Response::Success { columns, rows, num_rows } => ResponseView::Success {
                columns: column_views(columns@),
                rows: row_views(rows@),
                num_rows: *num_rows as nat,
            },
            Response::Error { message } => ResponseView::Error { message: message@ },
        }
    }
}

impl ResponseView {
    /// The response to a request that was served and has nothing to report.
    pub open spec fn empty() -> ResponseView {
        ResponseView::Success { columns: Seq::empty(), rows: Seq::empty(), num_rows: 0 }
    }

    /// The response that reports `err`.
    pub open spec fn of_error(err: SQLErrorView) -> ResponseView {
        ResponseView::Error { message: error_text(err) }
    }

    /// The response for the outcome of a request.
    pub open spec fn of_result(result: Result<ResponseView, SQLErrorView>) -> ResponseView {
        match result {
            Ok(response) => response,
            Err(err) => ResponseView::of_error(err),
        }
    }
}

impl Response {
    /// A success without a result set.
    pub fn empty() -> (response: Response)
        ensures
            response@ == ResponseView::empty(),
    {
        let response = Response::Success { columns: Vec::new(), rows: Vec::new(), num_rows: 0 };
        assert(response@->Success_columns =~= Seq::empty());
        assert(response@->Success_rows =~= Seq::empty());
        response
    }

    /// A failure with the given message.
    pub fn error(message: String) -> (response: Response)
        ensures
            response@ == (ResponseView::Error { message: message@ }),
    {
        Response::Error { message }
    }
}

impl vstd::std_specs::convert::FromSpecImpl<SQLError> for Response {
    open spec fn obeys_from_spec() -> bool {
        false
    }

    open spec fn from_spec(err: SQLError) -> Response {
        arbitrary()
    }
}

impl From<SQLError> for Response {
    /// The failure that shows the error's message.
    fn from(err: SQLError) -> (response: Response)
        ensures
            response@ == ResponseView::of_error(err@),
    {
        Response::error(err.to_string())
    }
}

impl vstd::std_specs::convert::FromSpecImpl<Result<Response, SQLError>> for Response {
    open spec fn obeys_from_spec() -> bool {
        false
    }

    open spec fn from_spec(result: Result<Response, SQLError>) -> Response {
        arbitrary()
    }
}

impl From<Result<Response, SQLError>> for Response {
    /// The response itself where there is one, else the failure that shows
    /// the error's message.
    fn from(result: Result<Response, SQLError>) -> (response: Response)
        ensures
            response@ == ResponseView::of_result(
                match result {
                    Ok(served) => Ok(served@),
                    Err(err) => Err(err@),
                },
            ),
    {
        match result {
            Ok(served) => served,
            Err(err) => Response::from(err),
        }
    }
}

} // verus!
