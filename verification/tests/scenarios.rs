use duckex::cache::Cache;
use duckex::codec::{ErlangValue, SqlParam};
use duckex::dispatch::{
    dispatch, execute, prepare, simple_command, Action, QueryOutcome, SimpleOutcome,
};
use duckex::json::JsonValue;
use duckex::protocol::{Command, Response};
use duckex::value::Value;
use duckex::wire::DecodeError;
use serde::ser::{SerializeMap, SerializeSeq};

fn text(s: &str) -> String {
    s.to_string()
}

/// A stand-in for a prepared statement: the query it was made of.
type Statement = String;

/// A stand-in for the engine. It knows a handful of statements, keeps one
/// table of blobs, and refuses everything else as the engine would.
struct Engine {
    blobs: Vec<Vec<u8>>,
}

impl Engine {
    fn prepare(&self, query: &str) -> Result<Statement, String> {
        match query {
            "SELECT 1 AS x"
            | "SELECT ?"
            | "INSERT INTO blobs VALUES (?)"
            | "SELECT b FROM blobs"
            | "SELECT 1/0" => Ok(query.to_string()),
            _ => Err(format!("Parser Error: syntax error at or near \"{query}\"")),
        }
    }

    fn run_simple(&self, sql: &str) -> SimpleOutcome {
        match sql {
            "BEGIN" | "COMMIT" | "ROLLBACK" => SimpleOutcome::Done,
            _ => SimpleOutcome::PrepareFailed(format!("Parser Error: {sql}")),
        }
    }

    fn run(&mut self, stmt: &Statement, params: &[SqlParam]) -> QueryOutcome {
        match stmt.as_str() {
            "SELECT 1 AS x" => QueryOutcome::Rows {
                columns: vec![(text("x"), text("Int32"))],
                rows: vec![vec![Value::Int(1)]],
            },
            "SELECT ?" => QueryOutcome::Rows {
                columns: vec![(text("$1"), text("Int64"))],
                rows: vec![vec![match &params[0] {
                    SqlParam::BigInt(i) => Value::BigInt(*i),
                    SqlParam::Double(bits) => Value::Double(*bits),
                    SqlParam::Text(s) => Value::Text(s.to_string()),
                    SqlParam::Boolean(b) => Value::Boolean(*b),
                    SqlParam::Null => Value::Null,
                    SqlParam::Blob(bytes) => Value::Blob(bytes.clone()),
                }]],
            },
            "INSERT INTO blobs VALUES (?)" => match &params[0] {
                SqlParam::Blob(bytes) => {
                    self.blobs.push(bytes.clone());
                    QueryOutcome::Rows {
                        columns: vec![],
                        rows: vec![],
                    }
                }
                _ => QueryOutcome::Failed(text("Conversion Error: not a blob")),
            },
            "SELECT b FROM blobs" => QueryOutcome::Rows {
                columns: vec![(text("b"), text("Binary"))],
                rows: self
                    .blobs
                    .iter()
                    .map(|bytes| vec![Value::Blob(bytes.clone())])
                    .collect(),
            },
            _ => QueryOutcome::Failed(text("Out of Range Error: division by zero")),
        }
    }
}

/// Serves one request the way the bridge's loop does.
fn serve(engine: &mut Engine, statements: &mut Cache<Statement>, cmd: Command) -> Response {
    match dispatch(&cmd, statements) {
        Action::Respond(response) => response,
        Action::Prepare { query } => prepare(engine.prepare(query), statements).into(),
        Action::Simple { sql } => simple_command(engine.run_simple(sql)).into(),
        Action::Execute { stmt, params } => {
            let statement = statements
                .get_mut(stmt)
                .expect("dispatch found the statement")
                .clone();
            execute(engine.run(&statement, &params)).into()
        }
    }
}

/// JSON text as a JSON value of the library.
fn parse(line: &str) -> JsonValue {
    fn convert(value: serde_json::Value) -> JsonValue {
        match value {
            serde_json::Value::Null => JsonValue::Null,
            serde_json::Value::Bool(b) => JsonValue::Bool(b),
            serde_json::Value::Number(n) => {
                if let Some(u) = n.as_u64() {
                    JsonValue::UInt(u)
                } else if let Some(i) = n.as_i64() {
                    JsonValue::Int(i)
                } else {
                    JsonValue::Float(n.as_f64().expect("a number").to_bits())
                }
            }
            serde_json::Value::String(s) => JsonValue::String(s),
            serde_json::Value::Array(items) => {
                JsonValue::Array(items.into_iter().map(convert).collect())
            }
            serde_json::Value::Object(members) => JsonValue::Object(
                members
                    .into_iter()
                    .map(|(name, value)| (name, convert(value)))
                    .collect(),
            ),
        }
    }
    convert(serde_json::from_str(line).expect("JSON text"))
}

/// A JSON value of the library, to be written as JSON text.
struct Text<'a>(&'a JsonValue);

impl serde::Serialize for Text<'_> {
    fn serialize<S>(&self, serializer: S) -> Result<S::Ok, S::Error>
    where
        S: serde::Serializer,
    {
        match self.0 {
            JsonValue::Null => serializer.serialize_unit(),
            JsonValue::Bool(b) => serializer.serialize_bool(*b),
            JsonValue::Int(i) => serializer.serialize_i64(*i),
            JsonValue::UInt(u) => serializer.serialize_u64(*u),
            JsonValue::HugeInt(i) => serializer.serialize_i128(*i),
            JsonValue::UHugeInt(u) => serializer.serialize_u128(*u),
            JsonValue::Float(bits) => serializer.serialize_f64(f64::from_bits(*bits)),
            JsonValue::String(s) => serializer.serialize_str(s),
            JsonValue::Array(items) => {
                let mut seq = serializer.serialize_seq(Some(items.len()))?;
                for item in items {
                    seq.serialize_element(&Text(item))?;
                }
                seq.end()
            }
            JsonValue::Object(members) => {
                let mut map = serializer.serialize_map(Some(members.len()))?;
                for (name, value) in members {
                    map.serialize_entry(name, &Text(value))?;
                }
                map.end()
            }
        }
    }
}

/// A JSON value of the library as JSON text.
fn write(value: JsonValue) -> String {
    serde_json::to_string(&Text(&value)).expect("JSON text")
}

/// Serves one line of input the way the bridge's loop does: one line in, one
/// line out.
fn serve_line(engine: &mut Engine, statements: &mut Cache<Statement>, line: &str) -> String {
    let cmd = Command::from_json(&parse(line)).expect("a request");
    write(serve(engine, statements, cmd).to_json())
}

fn handle_of(response: &Response) -> usize {
    match response {
        Response::Success { rows, .. } => match rows[0][0] {
            JsonValue::UInt(h) => h as usize,
            _ => panic!("the handle is a non-negative integer"),
        },
        Response::Error { message } => panic!("no handle: {message}"),
    }
}

#[test]
fn scenario_prepare_execute_close() {
    let mut engine = Engine { blobs: vec![] };
    let mut statements: Cache<Statement> = Cache::with_capacity(1024);

    let prepared = serve(
        &mut engine,
        &mut statements,
        Command::Prepare {
            query: text("SELECT 1 AS x"),
        },
    );
    assert_eq!(
        prepared,
        Response::Success {
            columns: vec![(text("ref"), text("UInteger"))],
            rows: vec![vec![JsonValue::UInt(0)]],
            num_rows: 1
        }
    );

    let executed = serve(
        &mut engine,
        &mut statements,
        Command::Execute {
            stmt: 0,
            params: vec![],
        },
    );
    assert_eq!(
        executed,
        Response::Success {
            columns: vec![(text("x"), text("Int32"))],
            rows: vec![vec![JsonValue::Int(1)]],
            num_rows: 1
        }
    );

    // A statement can be run any number of times.
    let again = serve(
        &mut engine,
        &mut statements,
        Command::Execute {
            stmt: 0,
            params: vec![],
        },
    );
    assert_eq!(again, executed);

    let closed = serve(&mut engine, &mut statements, Command::Close { stmt: 0 });
    assert_eq!(closed, Response::empty());

    let gone = serve(
        &mut engine,
        &mut statements,
        Command::Execute {
            stmt: 0,
            params: vec![],
        },
    );
    assert_eq!(
        gone,
        Response::Error {
            message: text("Invalid cache index")
        }
    );
}

#[test]
fn scenario_invalid_sql() {
    let mut engine = Engine { blobs: vec![] };
    let mut statements: Cache<Statement> = Cache::with_capacity(2);
    let response = serve(
        &mut engine,
        &mut statements,
        Command::Prepare {
            query: text("SELEKT 1"),
        },
    );
    match response {
        Response::Error { message } => {
            assert!(!message.is_empty());
            assert!(message.starts_with("SQL preparation error: "));
        }
        Response::Success { .. } => panic!("invalid SQL cannot be prepared"),
    }
    // The registry is as large, and as empty, as before.
    assert_eq!(statements.get_mut(0), None);
    assert_eq!(statements.get_mut(1), None);
    assert_eq!(statements.store(text("a")), Some(0));
    assert_eq!(statements.store(text("b")), Some(1));
    assert_eq!(statements.store(text("c")), None);
}

#[test]
fn scenario_blob_round_trip() {
    let mut engine = Engine { blobs: vec![] };
    let mut statements: Cache<Statement> = Cache::with_capacity(8);
    let insert = handle_of(&serve(
        &mut engine,
        &mut statements,
        Command::Prepare {
            query: text("INSERT INTO blobs VALUES (?)"),
        },
    ));
    let select = handle_of(&serve(
        &mut engine,
        &mut statements,
        Command::Prepare {
            query: text("SELECT b FROM blobs"),
        },
    ));
    assert_ne!(insert, select);

    let inserted = serve(
        &mut engine,
        &mut statements,
        Command::Execute {
            stmt: insert,
            params: vec![ErlangValue::Blob(text("AAECAw=="))],
        },
    );
    assert_eq!(inserted, Response::empty());
    assert_eq!(engine.blobs, vec![vec![0u8, 1, 2, 3]]);

    let selected = serve(
        &mut engine,
        &mut statements,
        Command::Execute {
            stmt: select,
            params: vec![],
        },
    );
    assert_eq!(
        selected,
        Response::Success {
            columns: vec![(text("b"), text("Binary"))],
            rows: vec![vec![JsonValue::String(text("AAECAw=="))]],
            num_rows: 1
        }
    );
}

#[test]
fn scenario_transaction_forwarding() {
    let mut engine = Engine { blobs: vec![] };
    let mut statements: Cache<Statement> = Cache::with_capacity(8);
    assert_eq!(
        serve(&mut engine, &mut statements, Command::Begin),
        Response::empty()
    );
    let failing = handle_of(&serve(
        &mut engine,
        &mut statements,
        Command::Prepare {
            query: text("SELECT 1/0"),
        },
    ));
    assert_eq!(
        serve(
            &mut engine,
            &mut statements,
            Command::Execute {
                stmt: failing,
                params: vec![]
            }
        ),
        Response::Error {
            message: text("SQL execution error: Out of Range Error: division by zero")
        }
    );
    assert_eq!(
        serve(&mut engine, &mut statements, Command::Rollback),
        Response::empty()
    );
    assert_eq!(
        serve(&mut engine, &mut statements, Command::Commit),
        Response::empty()
    );
}

#[test]
fn scenario_select_parameter_round_trip() {
    let mut engine = Engine { blobs: vec![] };
    let mut statements: Cache<Statement> = Cache::with_capacity(8);
    let select = handle_of(&serve(
        &mut engine,
        &mut statements,
        Command::Prepare {
            query: text("SELECT ?"),
        },
    ));
    let cases = vec![
        (ErlangValue::Integer(42), JsonValue::Int(42)),
        (
            ErlangValue::Float(1.25f64.to_bits()),
            JsonValue::Float(1.25f64.to_bits()),
        ),
        (ErlangValue::Text(text("t")), JsonValue::String(text("t"))),
        (ErlangValue::Boolean(true), JsonValue::Bool(true)),
        (ErlangValue::Null, JsonValue::Null),
        (
            ErlangValue::Blob(text("AAECAw==")),
            JsonValue::String(text("AAECAw==")),
        ),
    ];
    for (wire, json) in cases {
        let response = serve(
            &mut engine,
            &mut statements,
            Command::Execute {
                stmt: select,
                params: vec![wire],
            },
        );
        match response {
            Response::Success { rows, num_rows, .. } => {
                assert_eq!(num_rows, 1);
                assert_eq!(rows, vec![vec![json]]);
            }
            Response::Error { message } => panic!("{message}"),
        }
    }
}

#[test]
fn scenario_registry_full() {
    let mut engine = Engine { blobs: vec![] };
    let mut statements: Cache<Statement> = Cache::with_capacity(2);
    for expected in 0..2u64 {
        let response = serve(
            &mut engine,
            &mut statements,
            Command::Prepare {
                query: text("SELECT 1 AS x"),
            },
        );
        assert_eq!(handle_of(&response) as u64, expected);
    }
    let full = serve(
        &mut engine,
        &mut statements,
        Command::Prepare {
            query: text("SELECT 1 AS x"),
        },
    );
    assert_eq!(
        full,
        Response::Error {
            message: text("Cache is full")
        }
    );
    // The statements that were open still are.
    for stmt in 0..2usize {
        let response = serve(
            &mut engine,
            &mut statements,
            Command::Execute {
                stmt,
                params: vec![],
            },
        );
        assert!(matches!(response, Response::Success { .. }));
    }
    assert_eq!(
        serve(&mut engine, &mut statements, Command::Close { stmt: 1 }),
        Response::empty()
    );
    let again = serve(
        &mut engine,
        &mut statements,
        Command::Prepare {
            query: text("SELECT 1 AS x"),
        },
    );
    assert_eq!(handle_of(&again), 1);
}

#[test]
fn scenario_prepare_execute_close_line_by_line() {
    let mut engine = Engine { blobs: vec![] };
    let mut statements: Cache<Statement> = Cache::with_capacity(1024);
    assert_eq!(
        serve_line(
            &mut engine,
            &mut statements,
            r#"{"command":"prepare","query":"SELECT 1 AS x"}"#
        ),
        r#"{"status":"ok","columns":[["ref","UInteger"]],"rows":[[0]],"num_rows":1}"#
    );
    assert_eq!(
        serve_line(
            &mut engine,
            &mut statements,
            r#"{"command":"execute","stmt":0,"params":[]}"#
        ),
        r#"{"status":"ok","columns":[["x","Int32"]],"rows":[[1]],"num_rows":1}"#
    );
    assert_eq!(
        serve_line(
            &mut engine,
            &mut statements,
            r#"{"command":"close","stmt":0}"#
        ),
        r#"{"status":"ok","columns":[],"rows":[],"num_rows":0}"#
    );
    assert_eq!(
        serve_line(
            &mut engine,
            &mut statements,
            r#"{"command":"close","stmt":0}"#
        ),
        r#"{"status":"ok","columns":[],"rows":[],"num_rows":0}"#
    );
}

#[test]
fn scenario_invalid_sql_line_by_line() {
    let mut engine = Engine { blobs: vec![] };
    let mut statements: Cache<Statement> = Cache::with_capacity(1024);
    let line = serve_line(
        &mut engine,
        &mut statements,
        r#"{"command":"prepare","query":"SELEKT 1"}"#,
    );
    let response: serde_json::Value = serde_json::from_str(&line).expect("JSON text");
    assert_eq!(response["status"], "error");
    let message = response["message"].as_str().expect("a message");
    assert!(!message.is_empty());
    assert_eq!(response.as_object().map(|members| members.len()), Some(2));
}

#[test]
fn scenario_unknown_handle_line_by_line() {
    let mut engine = Engine { blobs: vec![] };
    let mut statements: Cache<Statement> = Cache::with_capacity(1024);
    assert_eq!(
        serve_line(
            &mut engine,
            &mut statements,
            r#"{"command":"execute","stmt":999999,"params":[]}"#
        ),
        r#"{"status":"error","message":"Invalid cache index"}"#
    );
}

#[test]
fn scenario_blob_round_trip_line_by_line() {
    let mut engine = Engine { blobs: vec![] };
    let mut statements: Cache<Statement> = Cache::with_capacity(1024);
    serve_line(
        &mut engine,
        &mut statements,
        r#"{"command":"prepare","query":"SELECT b FROM blobs"}"#,
    );
    // A string on the wire is text; the bytes are put in the table as a
    // blob parameter would have put them.
    engine.blobs.push(vec![0, 1, 2, 3]);
    let line = serve_line(
        &mut engine,
        &mut statements,
        r#"{"command":"execute","stmt":0,"params":[]}"#,
    );
    assert_eq!(
        line,
        r#"{"status":"ok","columns":[["b","Binary"]],"rows":[["AAECAw=="]],"num_rows":1}"#
    );
}

#[test]
fn scenario_transaction_forwarding_line_by_line() {
    let mut engine = Engine { blobs: vec![] };
    let mut statements: Cache<Statement> = Cache::with_capacity(1024);
    let empty = r#"{"status":"ok","columns":[],"rows":[],"num_rows":0}"#;
    assert_eq!(
        serve_line(&mut engine, &mut statements, r#"{"command":"begin"}"#),
        empty
    );
    assert_eq!(
        serve_line(
            &mut engine,
            &mut statements,
            r#"{"command":"prepare","query":"SELECT 1/0"}"#
        ),
        r#"{"status":"ok","columns":[["ref","UInteger"]],"rows":[[0]],"num_rows":1}"#
    );
    assert_eq!(
        serve_line(
            &mut engine,
            &mut statements,
            r#"{"command":"execute","stmt":0,"params":[]}"#
        ),
        r#"{"status":"error","message":"SQL execution error: Out of Range Error: division by zero"}"#
    );
    assert_eq!(
        serve_line(&mut engine, &mut statements, r#"{"command":"rollback"}"#),
        empty
    );
    assert_eq!(
        serve_line(&mut engine, &mut statements, r#"{"command":"status"}"#),
        empty
    );
}

#[test]
fn scenario_cursor_commands_line_by_line() {
    let mut engine = Engine { blobs: vec![] };
    let mut statements: Cache<Statement> = Cache::with_capacity(1024);
    let unsupported = r#"{"status":"error","message":"Feature not supported"}"#;
    for line in [
        r#"{"command":"declare","stmt":0,"params":[]}"#,
        r#"{"command":"fetch","cursor":0}"#,
        r#"{"command":"deallocate","cursor":0}"#,
    ] {
        assert_eq!(serve_line(&mut engine, &mut statements, line), unsupported);
    }
}

#[test]
fn scenario_line_that_is_no_request() {
    assert_eq!(
        Command::from_json(&parse(r#"{"command":"explode"}"#)),
        Err(DecodeError::UnknownCommand)
    );
    assert_eq!(
        Command::from_json(&parse("42")),
        Err(DecodeError::NotAnObject)
    );
}

#[test]
fn scenario_registry_full_line_by_line() {
    let mut engine = Engine { blobs: vec![] };
    let mut statements: Cache<Statement> = Cache::with_capacity(1);
    let prepare = r#"{"command":"prepare","query":"SELECT 1 AS x"}"#;
    assert_eq!(
        serve_line(&mut engine, &mut statements, prepare),
        r#"{"status":"ok","columns":[["ref","UInteger"]],"rows":[[0]],"num_rows":1}"#
    );
    assert_eq!(
        serve_line(&mut engine, &mut statements, prepare),
        r#"{"status":"error","message":"Cache is full"}"#
    );
    assert_eq!(
        serve_line(
            &mut engine,
            &mut statements,
            r#"{"command":"close","stmt":0}"#
        ),
        r#"{"status":"ok","columns":[],"rows":[],"num_rows":0}"#
    );
    assert_eq!(
        serve_line(&mut engine, &mut statements, prepare),
        r#"{"status":"ok","columns":[["ref","UInteger"]],"rows":[[0]],"num_rows":1}"#
    );
}
