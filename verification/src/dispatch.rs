//! The command dispatcher.
//!
//! The bridge serves one request at a time. For each request `dispatch`
//! decides what is to be done: answer at once, or ask the engine for one piece
//! of work. The caller performs that work and hands its outcome to `prepare`,
//! `simple_command` or `execute`, which give the response. Between requests
//! nothing is kept but the registry of prepared statements.

use crate::cache::{is_full, is_live, next_handle, remove_spec, store_spec, Cache};
use crate::codec::{
    jsons_of, to_sql_spec, values_to_json, ErlangValue, ErlangValueView, SqlParam, SqlParamView,
};
use crate::json::{json_views, JsonValue, JsonView};
use crate::protocol::{
    column_views, wire_views, Command, CommandView, Response, ResponseView, SQLError, SQLErrorView,
};
use crate::value::{all_fit, all_fit_micros, table_views, value_views, Value, ValueView};
use vstd::prelude::*;
use vstd::string::StringExecFns;

verus! {

/// What is to be done for a request.
#[derive(Debug, PartialEq, Eq)]
pub enum Action<'a> {
    /// Nothing is asked of the engine: this is the response.
    Respond(Response),
    /// Prepare `query`, then call `prepare` with the outcome.
    Prepare { query: &'a str },
    /// Prepare and run `sql` without parameters, then call `simple_command`
    /// with the outcome.
    Simple { sql: &'static str },
    /// Run the live statement `stmt` with `params` bound to its placeholders
    /// in order, then call `execute` with the outcome.
    Execute { stmt: usize, params: Vec<SqlParam<'a>> },
}

/// An action as a mathematical term.
pub enum ActionView {
    Respond(ResponseView),
    Prepare { query: Seq<char> },
    Simple { sql: Seq<char> },
    Execute { stmt: usize, params: Seq<SqlParamView> },
}

/// The views of a sequence of parameters, in order.
pub open spec fn param_views(params: Seq<SqlParam>) -> Seq<SqlParamView> {
    params.map_values(|param: SqlParam| param@)
}

impl<'a> View for Action<'a> {
    type V = ActionView;

    open spec fn view(&self) -> ActionView {
        match self {
            Action::Respond(response) => ActionView::Respond(response@),
            Action::Prepare { query } => ActionView::Prepare { query: query@ },
            Action::Simple { sql } => ActionView::Simple { sql: sql@ },
            Action::Execute { stmt, params } => ActionView::Execute {
                stmt: *stmt,
                params: param_views(params@),
            },
        }
    }
}

/// The action for a request, given the slots of the statement registry.
pub open spec fn action_for<T>(cmd: CommandView, slots: Seq<Option<T>>) -> ActionView {
    match cmd {
        CommandView::Prepare { query } => ActionView::Prepare { query },
        CommandView::Close { stmt } => ActionView::Respond(ResponseView::empty()),
        CommandView::Begin => ActionView::Simple { sql: "BEGIN"@ },
        CommandView::Commit => ActionView::Simple { sql: "COMMIT"@ },
        CommandView::Rollback => ActionView::Simple { sql: "ROLLBACK"@ },
        CommandView::Execute { stmt, params } => if is_live(slots, stmt as int) {
            ActionView::Execute {
                stmt,
                params: params.map_values(|value: ErlangValueView| to_sql_spec(value)),
            }
        } else {
            ActionView::Respond(ResponseView::of_error(SQLErrorView::InvalidCacheIndex))
        },
        CommandView::Status => ActionView::Respond(ResponseView::empty()),
        CommandView::Declare { stmt, params } => ActionView::Respond(
            ResponseView::of_error(SQLErrorView::Unsupported),
        ),
        CommandView::Fetch { cursor } => ActionView::Respond(
            ResponseView::of_error(SQLErrorView::Unsupported),
        ),
        CommandView::Deallocate { cursor } => ActionView::Respond(
            ResponseView::of_error(SQLErrorView::Unsupported),
        ),
    }
}

/// The slots of the statement registry once `dispatch` has looked at a
/// request: `Close` empties the slot it names, no other command touches any.
pub open spec fn slots_after<T>(cmd: CommandView, slots: Seq<Option<T>>) -> Seq<Option<T>> {
    match cmd {
        CommandView::Close { stmt } => remove_spec(slots, stmt as int),
        _ => slots,
    }
}

/// Converts the parameters of a request, each at its own position.
fn params_to_sql<'a>(values: &'a Vec<ErlangValue>) -> (params: Vec<SqlParam<'a>>)
    ensures
        param_views(params@) == wire_views(values@).map_values(
            |value: ErlangValueView| to_sql_spec(value),
        ),
{
    let mut params: Vec<SqlParam<'a>> = Vec::new();
    let mut i: usize = 0;
    while i < values.len()
        invariant
            i <= values@.len(),
            params@.len() == i,
            forall|j: int| 0 <= j < i ==> (#[trigger] params@[j])@ == to_sql_spec(values@[j]@),
        decreases values@.len() - i,
    {
        params.push(values[i].to_sql());
        i += 1;
    }
    assert(param_views(params@) =~= wire_views(values@).map_values(
        |value: ErlangValueView| to_sql_spec(value),
    ));
    params
}

/// Decides what is to be done for `cmd`.
///
/// `Close` empties the statement's slot here and now, and is answered with an
/// empty success whether or not the slot held a statement. `Execute` on a
/// handle that names no live statement is answered with the invalid-index
/// error. The cursor commands are answered with the not-supported error.
pub fn dispatch<'a, T>(cmd: &'a Command, statements: &mut Cache<T>) -> (action: Action<'a>)
    ensures
        final(statements).cursor() == old(statements).cursor(),
        final(statements)@ == slots_after(cmd@, old(statements)@),
        action@ == action_for(cmd@, old(statements)@),
{
    match cmd {
        Command::Prepare { query } => Action::Prepare { query: query.as_str() },
        Command::Close { stmt } => {
            statements.remove(*stmt);
            Action::Respond(Response::empty())
        },
        Command::Begin => Action::Simple { sql: "BEGIN" },
        Command::Commit => Action::Simple { sql: "COMMIT" },
        Command::Rollback => Action::Simple { sql: "ROLLBACK" },
        Command::Execute { stmt, params } => {
            let live = statements.get_mut(*stmt).is_some();
            assert(statements@ =~= old(statements)@);
            if live {
                Action::Execute { stmt: *stmt, params: params_to_sql(params) }
            } else {
                Action::Respond(Response::from(SQLError::InvalidCacheIndex))
            }
        },
        Command::Status => Action::Respond(Response::empty()),
        Command::Declare { .. } => Action::Respond(Response::from(SQLError::Unsupported)),
        Command::Fetch { .. } => Action::Respond(Response::from(SQLError::Unsupported)),
        Command::Deallocate { .. } => Action::Respond(Response::from(SQLError::Unsupported)),
    }
}

/// The view of what a handler returns.
pub open spec fn result_view(result: Result<Response, SQLError>) -> Result<
    ResponseView,
    SQLErrorView,
> {
    match result {
        Ok(response) => Ok(response@),
        Err(err) => Err(err@),
    }
}

/// The response that tells the client the handle of a statement just
/// prepared: one row with one column, `ref`.
pub open spec fn handle_response(handle: u32) -> ResponseView {
    ResponseView::Success {
        columns: seq![("ref"@, "UInteger"@)],
        rows: seq![seq![JsonView::Integer(handle as int)]],
        num_rows: 1,
    }
}

/// Finishes a `Prepare`: `prepared` is the statement that the engine made of
/// the query, or the engine's message.
///
/// A statement is stored in the registry and its handle is reported. Where
/// every slot is taken the statement is dropped, the registry stays as it
/// was and the result is the cache-full error. Where the engine refused the
/// query the registry stays as it was and the error carries the engine's
/// message.
pub fn prepare<T>(prepared: Result<T, String>, cache: &mut Cache<T>) -> (result: Result<
    Response,
    SQLError,
>)
    ensures
        prepared is Ok ==> (result is Err <==> is_full(old(cache)@)),
        result is Err ==> final(cache)@ == old(cache)@ && final(cache).cursor() == old(
            cache,
        ).cursor(),
        match prepared {
            Ok(stmt) => match next_handle(old(cache)@, old(cache).cursor()) {
                Some(h) => {
                    &&& result_view(result) == Ok::<ResponseView, SQLErrorView>(
                        handle_response(h),
                    )
                    &&& store_spec(
                        old(cache)@,
                        old(cache).cursor(),
                        stmt,
                        Some(h),
                        final(cache)@,
                        final(cache).cursor(),
                    )
                },
                None => result_view(result) == Err::<ResponseView, SQLErrorView>(
                    SQLErrorView::CacheFull,
                ),
            },
            Err(message) => result_view(result) == Err::<ResponseView, SQLErrorView>(
                SQLErrorView::Preparation(message@),
            ),
        },
{
    match prepared {
        Ok(stmt) => match cache.store(stmt) {
            Some(h) => {
                let mut columns: Vec<(String, String)> = Vec::new();
                columns.push((String::from_str("ref"), String::from_str("UInteger")));
                let mut row: Vec<JsonValue> = Vec::new();
                row.push(JsonValue::UInt(h as u64));
                let mut rows: Vec<Vec<JsonValue>> = Vec::new();
                rows.push(row);
                let response = Response::Success { columns, rows, num_rows: 1 };
                proof {
                    let expected = handle_response(h);
                    assert(response@->Success_columns =~= expected->Success_columns);
                    assert(json_views(rows@[0]@) =~= expected->Success_rows[0]);
                    assert(response@->Success_rows =~= expected->Success_rows);
                }
                Ok(response)
            },
            None => Err(SQLError::CacheFull),
        },
        Err(message) => Err(SQLError::Preparation(message)),
    }
}

/// What the engine answered to `Action::Simple`.
#[derive(Debug, PartialEq, Eq)]
pub enum SimpleOutcome {
    /// The statement could not be prepared; with the engine's message.
    PrepareFailed(String),
    /// The statement could not be run; with the engine's message.
    ExecuteFailed(String),
    /// The statement ran.
    Done,
}

/// The result of a simple command for each answer of the engine.
pub open spec fn simple_command_spec(outcome: SimpleOutcome) -> Result<
    ResponseView,
    SQLErrorView,
> {
    match outcome {
        SimpleOutcome::PrepareFailed(message) => Err(SQLErrorView::Preparation(message@)),
        SimpleOutcome::ExecuteFailed(message) => Err(SQLErrorView::Execution(message@)),
        SimpleOutcome::Done => Ok(ResponseView::empty()),
    }
}

/// Finishes `Begin`, `Commit` and `Rollback`: an empty success where the
/// statement ran, else the error of the step that failed.
pub fn simple_command(outcome: SimpleOutcome) -> (result: Result<Response, SQLError>)
    ensures
        result_view(result) == simple_command_spec(outcome),
{
    match outcome {
        SimpleOutcome::PrepareFailed(message) => Err(SQLError::Preparation(message)),
        SimpleOutcome::ExecuteFailed(message) => Err(SQLError::Execution(message)),
        SimpleOutcome::Done => Ok(Response::empty()),
    }
}

/// What the engine answered to `Action::Execute`.
#[derive(Debug, PartialEq, Eq)]
pub enum QueryOutcome {
    /// The statement could not be run; with the engine's message.
    Failed(String),
    /// A row could not be read; with the engine's message.
    RowFailed(String),
    /// The statement ran: the name and the type name of each column of its
    /// result, and the rows. A statement without a result set has neither.
    Rows { columns: Vec<(String, String)>, rows: Vec<Vec<Value>> },
}

/// An answer to `Action::Execute` as a mathematical term.
pub enum QueryOutcomeView {
    Failed(Seq<char>),
    RowFailed(Seq<char>),
    Rows { columns: Seq<(Seq<char>, Seq<char>)>, rows: Seq<Seq<ValueView>> },
}

impl View for QueryOutcome {
    type V = QueryOutcomeView;

    open spec fn view(&self) -> QueryOutcomeView {
        match self {
            QueryOutcome::Failed(message) => QueryOutcomeView::Failed(message@),
            QueryOutcome::RowFailed(message) => QueryOutcomeView::RowFailed(message@),
            QueryOutcome::Rows { columns, rows } => QueryOutcomeView::Rows {
                columns: column_views(columns@),
                rows: table_views(rows@),
            },
        }
    }
}

impl QueryOutcomeView {
    /// Every value of every row can be converted to JSON: its timestamps and
    /// times of day can be told in microseconds.
    pub open spec fn micros_fit(self) -> bool {
        match self {
            QueryOutcomeView::Rows { columns, rows } => forall|i: int|
                0 <= i < rows.len() ==> all_fit(#[trigger] rows[i]),
            _ => true,
        }
    }
}

/// The result of an `Execute` for each answer of the engine. The rows keep
/// their order and each value is converted by the codec. A result set with a
/// timestamp or a time of day that cannot be told in microseconds is a row
/// that cannot be processed.
pub open spec fn execute_spec(outcome: QueryOutcomeView) -> Result<ResponseView, SQLErrorView> {
    match outcome {
        QueryOutcomeView::Failed(message) => Err(SQLErrorView::Execution(message)),
        QueryOutcomeView::RowFailed(message) => Err(SQLErrorView::RowProcessing(message)),
        QueryOutcomeView::Rows { columns, rows } => if outcome.micros_fit() {
            Ok(
                ResponseView::Success {
                    columns,
                    rows: rows.map_values(|row: Seq<ValueView>| jsons_of(row)),
                    num_rows: rows.len(),
                },
            )
        } else {
            Err(SQLErrorView::RowProcessing("Timestamp out of range"@))
        },
    }
}

impl QueryOutcome {
    /// Whether every value of every row can be converted: see
    /// `Value::fits_micros`.
    pub fn fits_micros(&self) -> (fits: bool)
        ensures
            fits == self@.micros_fit(),
    {
        match self {
            QueryOutcome::Rows { columns, rows } => {
                let mut i: usize = 0;
                while i < rows.len()
                    invariant
                        i <= rows@.len(),
                        self@ == (QueryOutcomeView::Rows {
                            columns: column_views(columns@),
                            rows: table_views(rows@),
                        }),
                        forall|j: int| 0 <= j < i ==> all_fit(#[trigger] table_views(rows@)[j]),
                    decreases rows@.len() - i,
                {
                    if !all_fit_micros(&rows[i]) {
                        assert(!all_fit(self@->Rows_rows[i as int]));
                        return false;
                    }
                    i += 1;
                }
                true
            },
            _ => true,
        }
    }
}

/// Finishes an `Execute`: the result set as a response, or the error of the
/// step that failed.
pub fn execute(outcome: QueryOutcome) -> (result: Result<Response, SQLError>)
    ensures
        result_view(result) == execute_spec(outcome@),
{
    if !outcome.fits_micros() {
        return Err(SQLError::RowProcessing(String::from_str("Timestamp out of range")));
    }
    match outcome {
        QueryOutcome::Failed(message) => Err(SQLError::Execution(message)),
        QueryOutcome::RowFailed(message) => Err(SQLError::RowProcessing(message)),
        QueryOutcome::Rows { columns, rows } => {
            let ghost all = rows@;
            let num_rows = rows.len();
            let mut converted: Vec<Vec<JsonValue>> = Vec::new();
            for row in it: rows
                invariant
                    it.seq() == all,
                    forall|i: int| 0 <= i < all.len() ==> all_fit(#[trigger] table_views(all)[i]),
                    converted@.len() == it.index(),
                    forall|j: int|
                        0 <= j < converted@.len() ==> json_views((#[trigger] converted@[j])@)
                            == jsons_of(value_views(all[j]@)),
            {
                assert(row == all[it.index() as int]);
                assert(all_fit(table_views(all)[it.index() as int]));
                converted.push(values_to_json(row));
            }
            let response = Response::Success { columns, rows: converted, num_rows };
            proof {
                let expected = execute_spec(outcome@)->Ok_0;
                assert(response@->Success_rows =~= expected->Success_rows);
            }
            Ok(response)
        },
    }
}

/// `Execute` on a handle that names no live statement, be it out of range,
/// never handed out or closed since, is answered with the invalid-index
/// error and leaves the registry as it is.
pub proof fn lemma_unknown_handle<T>(
    slots: Seq<Option<T>>,
    stmt: usize,
    params: Seq<ErlangValueView>,
)
    requires
        !is_live(slots, stmt as int),
    ensures
        action_for(CommandView::Execute { stmt, params }, slots) == ActionView::Respond(
            ResponseView::Error { message: "Invalid cache index"@ },
        ),
        slots_after(CommandView::Execute { stmt, params }, slots) == slots,
{
}

/// `Close` is idempotent: a second `Close` of the same handle is answered
/// like the first, with an empty success, and leaves the registry as the
/// first left it.
pub proof fn lemma_close_idempotent<T>(slots: Seq<Option<T>>, stmt: usize)
    ensures
        action_for(CommandView::Close { stmt }, slots) == ActionView::Respond(
            ResponseView::empty(),
        ),
        action_for(
            CommandView::Close { stmt },
            slots_after(CommandView::Close { stmt }, slots),
        ) == ActionView::Respond(ResponseView::empty()),
        slots_after(CommandView::Close { stmt }, slots_after(CommandView::Close { stmt }, slots))
            == slots_after(CommandView::Close { stmt }, slots),
        !is_live(slots_after(CommandView::Close { stmt }, slots), stmt as int),
{
    let once = slots_after(CommandView::Close { stmt }, slots);
    assert(slots_after(CommandView::Close { stmt }, once) =~= once);
}

/// A statement stays open until it is closed: whatever request `dispatch`
/// looks at, a live statement is still in its slot afterwards, unless the
/// request is the `Close` of that very handle. An `Execute` of a live handle
/// is always sent on to the engine, with each parameter at its position.
pub proof fn lemma_open_until_closed<T>(slots: Seq<Option<T>>, h: usize, cmd: CommandView)
    requires
        is_live(slots, h as int),
    ensures
        cmd != (CommandView::Close { stmt: h }) ==> is_live(slots_after(cmd, slots), h as int)
            && slots_after(cmd, slots)[h as int] == slots[h as int],
        cmd == (CommandView::Close { stmt: h }) ==> !is_live(slots_after(cmd, slots), h as int),
        cmd matches CommandView::Execute { stmt, params } ==> stmt == h ==> action_for(cmd, slots)
            == (ActionView::Execute {
            stmt: h,
            params: params.map_values(|value: ErlangValueView| to_sql_spec(value)),
        }),
{
}

} // verus!
