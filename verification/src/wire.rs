//! The wire format: which JSON value stands for which request, and which JSON
//! value a response is written as.
//!
//! A request is a JSON object with a member `command` that names the command
//! in snake case, and one member for each field of that command. Members
//! that the command does not have are ignored; a member that it has must
//! not occur twice. A parameter is a JSON scalar: its kind says which wire
//! value it is. A response is a JSON object with a member `status`, `ok` or
//! `error`, followed by its fields.

use crate::codec::{float_is_finite, is_finite, wire_json, ErlangValue, ErlangValueView};
use crate::json::{
    json_views, lemma_json_views, lemma_member_views, member_views, row_views, JsonValue, JsonView,
};
use crate::protocol::{column_views, wire_views, Command, CommandView, Response, ResponseView};
use vstd::prelude::*;
use vstd::string::StringExecFns;

verus! {

/// Why a JSON value is no request.
#[derive(Debug, Clone, Copy, PartialEq, Eq, Structural)]
pub enum DecodeError {
    /// The value is not an object.
    NotAnObject,
    /// The member `command` is missing, occurs twice or is not a string.
    BadTag,
    /// The member `command` names no command.
    UnknownCommand,
    /// A field of the command is missing, occurs twice or has a value of the
    /// wrong kind.
    BadField,
}

/// The member at position `i` exists and is called `name`.
pub open spec fn is_named(members: Seq<(Seq<char>, JsonView)>, name: Seq<char>, i: int) -> bool {
    0 <= i < members.len() && members[i].0 == name
}

/// What a search for the member called `name` finds.
pub enum Lookup {
    Missing,
    Found(JsonView),
    Duplicate,
}

/// The one member of an object that is called `name`.
pub open spec fn lookup(members: Seq<(Seq<char>, JsonView)>, name: Seq<char>) -> Lookup {
    if forall|i: int| !is_named(members, name, i) {
        Lookup::Missing
    } else if exists|i: int, j: int|
        is_named(members, name, i) && is_named(members, name, j) && i != j {
        Lookup::Duplicate
    } else {
        Lookup::Found(members[choose|i: int| is_named(members, name, i)].1)
    }
}

/// What a search in an object has found.
enum Found<'a> {
    Missing,
    One(&'a JsonValue),
    Duplicate,
}

impl<'a> Found<'a> {
    spec fn view(&self) -> Lookup {
        match self {
            Found::Missing => Lookup::Missing,
            Found::One(value) => Lookup::Found(value@),
            Found::Duplicate => Lookup::Duplicate,
        }
    }
}

/// Searches the members of an object for the one called `name`.
fn find<'a>(members: &'a Vec<(String, JsonValue)>, name: &str) -> (found: Found<'a>)
    ensures
        found@ == lookup(member_views(members@), name@),
{
    let wanted = String::from_str(name);
    let ghost views = member_views(members@);
    proof {
        lemma_member_views(members@);
    }
    let mut first: Option<usize> = None;
    let mut twice = false;
    let mut i: usize = 0;
    while i < members.len()
        invariant
            i <= members@.len(),
            wanted@ == name@,
            views == member_views(members@),
            views.len() == members@.len(),
            forall|k: int|
                0 <= k < members@.len() ==> (#[trigger] views[k]) == (
                    members@[k].0@,
                    members@[k].1@,
                ),
            first matches Some(f) ==> f < i && is_named(views, name@, f as int),
            first is None ==> !twice,
            first is None ==> forall|k: int| 0 <= k < i ==> !is_named(views, name@, k),
            !twice ==> forall|k: int|
                0 <= k < i && is_named(views, name@, k) ==> first == Some(k as usize),
            twice ==> exists|a: int, b: int|
                is_named(views, name@, a) && is_named(views, name@, b) && a != b,
        decreases members@.len() - i,
    {
        if members[i].0 == wanted {
            assert(is_named(views, name@, i as int));
            match first {
                None => {
                    first = Some(i);
                },
                Some(f) => {
                    assert(is_named(views, name@, f as int) && is_named(views, name@, i as int)
                        && f as int != i as int);
                    twice = true;
                },
            }
        } else {
            assert(!is_named(views, name@, i as int));
        }
        i += 1;
    }
    if twice {
        assert(!forall|k: int| !is_named(views, name@, k));
        Found::Duplicate
    } else {
        match first {
            None => {
                assert forall|k: int| !is_named(views, name@, k) by {}
                Found::Missing
            },
            Some(f) => {
                assert(is_named(views, name@, f as int));
                assert(!forall|k: int| !is_named(views, name@, k));
                assert forall|a: int, b: int|
                    is_named(views, name@, a) && is_named(views, name@, b) implies a == b by {
                    assert(first == Some(a as usize));
                    assert(first == Some(b as usize));
                }
                let ghost chosen = choose|k: int| is_named(views, name@, k);
                assert(chosen == f as int);
                Found::One(&members[f].1)
            },
        }
    }
}

/// The bit pattern of the binary64 number nearest to `u`, ties to even, for
/// a `u` of 64 significant bits: the upper 53 bits are the significand, the
/// lower 11 decide the rounding, and a carry out of the significand goes into
/// the exponent.
pub open spec fn nearest_double(u: u64) -> u64 {
    let significand = u >> 11;
    let rest = u & 0x7ff;
    let up = rest > 0x400 || (rest == 0x400 && significand & 1 == 1);
    let rounded = if up {
        significand + 1
    } else {
        significand as int
    };
    (0x43e0_0000_0000_0000 + (rounded - 0x10_0000_0000_0000)) as u64
}

/// The binary64 number nearest to an integer above `i64::MAX`.
pub fn double_of(u: u64) -> (bits: u64)
    requires
        u > i64::MAX,
    ensures
        bits == nearest_double(u),
{
    let significand: u64 = u >> 11;
    let rest: u64 = u & 0x7ff;
    assert(0x10_0000_0000_0000 <= significand < 0x20_0000_0000_0000) by (bit_vector)
        requires
            u > 0x7fff_ffff_ffff_ffff,
            significand == u >> 11,
    ;
    let up = rest > 0x400 || (rest == 0x400 && significand & 1 == 1);
    let rounded: u64 = if up {
        significand + 1
    } else {
        significand
    };
    0x43e0_0000_0000_0000 + (rounded - 0x10_0000_0000_0000)
}

/// The handle or cursor that a JSON value stands for: a number without a
/// fraction, not negative, that fits `usize`.
pub open spec fn decode_usize(json: JsonView) -> Option<usize> {
    match json {
        JsonView::Integer(n) => if 0 <= n <= usize::MAX {
            Some(n as usize)
        } else {
            None
        },
        _ => None,
    }
}

/// The wire value that a JSON value stands for. The attempts are made in a
/// fixed order: a boolean, null, a number as a 64-bit signed integer, a
/// number as a float, a string as text. No JSON value stands for a blob, and
/// an array or an object stands for nothing; nor does an integer beyond 64
/// bits, which a reader of JSON text hands over as a float.
pub open spec fn decode_wire(json: JsonView) -> Option<ErlangValueView> {
    match json {
        JsonView::Bool(b) => Some(ErlangValueView::Boolean(b)),
        JsonView::Null => Some(ErlangValueView::Null),
        JsonView::Integer(n) => if i64::MIN <= n <= i64::MAX {
            Some(ErlangValueView::Integer(n as i64))
        } else if i64::MAX < n <= u64::MAX {
            Some(ErlangValueView::Float(nearest_double(n as u64)))
        } else {
            None
        },
        JsonView::Float(bits) => Some(ErlangValueView::Float(bits)),
        JsonView::String(s) => Some(ErlangValueView::Text(s)),
        JsonView::Array(_) => None,
        JsonView::Object(_) => None,
    }
}

/// The parameters that a JSON value stands for: an array of which every item
/// stands for a wire value, in the same order.
pub open spec fn decode_params(json: JsonView) -> Option<Seq<ErlangValueView>> {
    match json {
        JsonView::Array(items) => if forall|i: int|
            0 <= i < items.len() ==> decode_wire(#[trigger] items[i]) is Some {
            Some(items.map_values(|item: JsonView| decode_wire(item)->0))
        } else {
            None
        },
        _ => None,
    }
}

/// The member called `name`, as a handle or a cursor.
pub open spec fn usize_field(members: Seq<(Seq<char>, JsonView)>, name: Seq<char>) -> Option<
    usize,
> {
    match lookup(members, name) {
        Lookup::Found(value) => decode_usize(value),
        _ => None,
    }
}

/// The member called `name`, as parameters.
pub open spec fn params_field(members: Seq<(Seq<char>, JsonView)>, name: Seq<char>) -> Option<
    Seq<ErlangValueView>,
> {
    match lookup(members, name) {
        Lookup::Found(value) => decode_params(value),
        _ => None,
    }
}

/// The member called `name`, as text.
pub open spec fn text_field(members: Seq<(Seq<char>, JsonView)>, name: Seq<char>) -> Option<
    Seq<char>,
> {
    match lookup(members, name) {
        Lookup::Found(JsonView::String(s)) => Some(s),
        _ => None,
    }
}

/// The command named `tag`, with its fields taken from `members`.
pub open spec fn decode_tagged(tag: Seq<char>, members: Seq<(Seq<char>, JsonView)>) -> Result<
    CommandView,
    DecodeError,
> {
    if tag == "begin"@ {
        Ok(CommandView::Begin)
    } else if tag == "close"@ {
        match usize_field(members, "stmt"@) {
            Some(stmt) => Ok(CommandView::Close { stmt }),
            None => Err(DecodeError::BadField),
        }
    } else if tag == "commit"@ {
        Ok(CommandView::Commit)
    } else if tag == "deallocate"@ {
        match usize_field(members, "cursor"@) {
            Some(cursor) => Ok(CommandView::Deallocate { cursor }),
            None => Err(DecodeError::BadField),
        }
    } else if tag == "declare"@ {
        match (usize_field(members, "stmt"@), params_field(members, "params"@)) {
            (Some(stmt), Some(params)) => Ok(CommandView::Declare { stmt, params }),
            _ => Err(DecodeError::BadField),
        }
    } else if tag == "execute"@ {
        match (usize_field(members, "stmt"@), params_field(members, "params"@)) {
            (Some(stmt), Some(params)) => Ok(CommandView::Execute { stmt, params }),
            _ => Err(DecodeError::BadField),
        }
    } else if tag == "fetch"@ {
        match usize_field(members, "cursor"@) {
            Some(cursor) => Ok(CommandView::Fetch { cursor }),
            None => Err(DecodeError::BadField),
        }
    } else if tag == "prepare"@ {
        match text_field(members, "query"@) {
            Some(query) => Ok(CommandView::Prepare { query }),
            None => Err(DecodeError::BadField),
        }
    } else if tag == "rollback"@ {
        Ok(CommandView::Rollback)
    } else if tag == "status"@ {
        Ok(CommandView::Status)
    } else {
        Err(DecodeError::UnknownCommand)
    }
}

/// The request that a JSON value stands for, or why it stands for none.
pub open spec fn decode_command(json: JsonView) -> Result<CommandView, DecodeError> {
    match json {
        JsonView::Object(members) => match lookup(members, "command"@) {
            Lookup::Found(JsonView::String(tag)) => decode_tagged(tag, members),
            _ => Err(DecodeError::BadTag),
        },
        _ => Err(DecodeError::NotAnObject),
    }
}

/// Reads a handle or a cursor.
fn usize_of(json: &JsonValue) -> (decoded: Option<usize>)
    ensures
        decoded == decode_usize(json@),
{
    match json {
        JsonValue::Int(i) => if *i >= 0 && *i as u64 <= usize::MAX as u64 {
            Some(*i as usize)
        } else {
            None
        },
        JsonValue::UInt(u) => if *u <= usize::MAX as u64 {
            Some(*u as usize)
        } else {
            None
        },
        JsonValue::HugeInt(i) => if *i >= 0 && *i as u128 <= usize::MAX as u128 {
            Some(*i as usize)
        } else {
            None
        },
        JsonValue::UHugeInt(u) => if *u <= usize::MAX as u128 {
            Some(*u as usize)
        } else {
            None
        },
        _ => None,
    }
}

impl ErlangValue {
    /// Reads a parameter: see `decode_wire`.
    pub fn from_json(json: &JsonValue) -> (decoded: Option<ErlangValue>)
        ensures
            match decoded {
                Some(value) => decode_wire(json@) == Some(value@),
                None => decode_wire(json@) is None,
            },
    {
        match json {
            JsonValue::Bool(b) => Some(ErlangValue::Boolean(*b)),
            JsonValue::Null => Some(ErlangValue::Null),
            JsonValue::Int(i) => Some(ErlangValue::Integer(*i)),
            JsonValue::UInt(u) => if *u <= i64::MAX as u64 {
                Some(ErlangValue::Integer(*u as i64))
            } else {
                Some(ErlangValue::Float(double_of(*u)))
            },
            JsonValue::HugeInt(i) => if *i >= i64::MIN as i128 && *i <= i64::MAX as i128 {
                Some(ErlangValue::Integer(*i as i64))
            } else if *i > i64::MAX as i128 && *i <= u64::MAX as i128 {
                Some(ErlangValue::Float(double_of(*i as u64)))
            } else {
                None
            },
            JsonValue::UHugeInt(u) => if *u <= i64::MAX as u128 {
                Some(ErlangValue::Integer(*u as i64))
            } else if *u <= u64::MAX as u128 {
                Some(ErlangValue::Float(double_of(*u as u64)))
            } else {
                None
            },
            JsonValue::Float(bits) => Some(ErlangValue::Float(*bits)),
            JsonValue::String(s) => Some(ErlangValue::Text(s.clone())),
            JsonValue::Array(_) => None,
            JsonValue::Object(_) => None,
        }
    }
}

/// Reads the parameters of a request.
fn params_of(json: &JsonValue) -> (decoded: Option<Vec<ErlangValue>>)
    ensures
        match decoded {
            Some(params) => decode_params(json@) == Some(wire_views(params@)),
            None => decode_params(json@) is None,
        },
{
    match json {
        JsonValue::Array(items) => {
            let ghost views = json_views(items@);
            proof {
                lemma_json_views(items@);
            }
            let mut params: Vec<ErlangValue> = Vec::new();
            let mut i: usize = 0;
            while i < items.len()
                invariant
                    i <= items@.len(),
                    json@ == JsonView::Array(views),
                    views == json_views(items@),
                    views.len() == items@.len(),
                    forall|k: int| 0 <= k < items@.len() ==> (#[trigger] views[k]) == items@[k]@,
                    params@.len() == i,
                    forall|k: int|
                        0 <= k < i ==> decode_wire(#[trigger] views[k]) == Some(params@[k]@),
                decreases items@.len() - i,
            {
                match ErlangValue::from_json(&items[i]) {
                    Some(value) => {
                        params.push(value);
                    },
                    None => {
                        assert(decode_wire(views[i as int]) is None);
                        return None;
                    },
                }
                i += 1;
            }
            assert(wire_views(params@) =~= views.map_values(
                |item: JsonView| decode_wire(item)->0,
            ));
            Some(params)
        },
        _ => None,
    }
}

/// Reads the field `name` as a handle or a cursor.
fn usize_in(members: &Vec<(String, JsonValue)>, name: &str) -> (decoded: Option<usize>)
    ensures
        decoded == usize_field(member_views(members@), name@),
{
    match find(members, name) {
        Found::One(value) => usize_of(value),
        _ => None,
    }
}

/// Reads the field `name` as parameters.
fn params_in(members: &Vec<(String, JsonValue)>, name: &str) -> (decoded: Option<
    Vec<ErlangValue>,
>)
    ensures
        match decoded {
            Some(params) => params_field(member_views(members@), name@) == Some(
                wire_views(params@),
            ),
            None => params_field(member_views(members@), name@) is None,
        },
{
    match find(members, name) {
        Found::One(value) => params_of(value),
        _ => None,
    }
}

/// Reads the field `name` as text.
fn text_in(members: &Vec<(String, JsonValue)>, name: &str) -> (decoded: Option<String>)
    ensures
        match decoded {
            Some(text) => text_field(member_views(members@), name@) == Some(text@),
            None => text_field(member_views(members@), name@) is None,
        },
{
    match find(members, name) {
        Found::One(JsonValue::String(s)) => Some(s.clone()),
        _ => None,
    }
}

/// The view of what `Command::from_json` returns.
pub open spec fn decoded_view(decoded: Result<Command, DecodeError>) -> Result<
    CommandView,
    DecodeError,
> {
    match decoded {
        Ok(cmd) => Ok(cmd@),
        Err(err) => Err(err),
    }
}

/// Reads the command named `tag`.
fn tagged(tag: &String, members: &Vec<(String, JsonValue)>) -> (decoded: Result<
    Command,
    DecodeError,
>)
    ensures
        decoded_view(decoded) == decode_tagged(tag@, member_views(members@)),
{
    if *tag == String::from_str("begin") {
        Ok(Command::Begin)
    } else if *tag == String::from_str("close") {
        match usize_in(members, "stmt") {
            Some(stmt) => Ok(Command::Close { stmt }),
            None => Err(DecodeError::BadField),
        }
    } else if *tag == String::from_str("commit") {
        Ok(Command::Commit)
    } else if *tag == String::from_str("deallocate") {
        match usize_in(members, "cursor") {
            Some(cursor) => Ok(Command::Deallocate { cursor }),
            None => Err(DecodeError::BadField),
        }
    } else if *tag == String::from_str("declare") {
        match (usize_in(members, "stmt"), params_in(members, "params")) {
            (Some(stmt), Some(params)) => Ok(Command::Declare { stmt, params }),
            _ => Err(DecodeError::BadField),
        }
    } else if *tag == String::from_str("execute") {
        match (usize_in(members, "stmt"), params_in(members, "params")) {
            (Some(stmt), Some(params)) => Ok(Command::Execute { stmt, params }),
            _ => Err(DecodeError::BadField),
        }
    } else if *tag == String::from_str("fetch") {
        match usize_in(members, "cursor") {
            Some(cursor) => Ok(Command::Fetch { cursor }),
            None => Err(DecodeError::BadField),
        }
    } else if *tag == String::from_str("prepare") {
        match text_in(members, "query") {
            Some(query) => Ok(Command::Prepare { query }),
            None => Err(DecodeError::BadField),
        }
    } else if *tag == String::from_str("rollback") {
        Ok(Command::Rollback)
    } else if *tag == String::from_str("status") {
        Ok(Command::Status)
    } else {
        Err(DecodeError::UnknownCommand)
    }
}

impl Command {
    /// Reads a request from its JSON form: see `decode_command`.
    pub fn from_json(json: &JsonValue) -> (decoded: Result<Command, DecodeError>)
        ensures
            decoded_view(decoded) == decode_command(json@),
    {
        match json {
            JsonValue::Object(members) => match find(members, "command") {
                Found::One(JsonValue::String(tag)) => tagged(tag, members),
                _ => Err(DecodeError::BadTag),
            },
            _ => Err(DecodeError::NotAnObject),
        }
    }
}

/// The JSON form of a column: its name, then the name of its type.
pub open spec fn encode_column(column: (Seq<char>, Seq<char>)) -> JsonView {
    JsonView::Array(seq![JsonView::String(column.0), JsonView::String(column.1)])
}

/// The JSON form of a response: the status first, then the fields in their
/// order. A row is an array of its values, the rows are an array of rows.
pub open spec fn encode_response(response: ResponseView) -> JsonView {
    match response {
        ResponseView::Success { columns, rows, num_rows } => JsonView::Object(
            seq![
                ("status"@, JsonView::String("ok"@)),
                (
                    "columns"@,
                    JsonView::Array(
                        columns.map_values(|column: (Seq<char>, Seq<char>)| encode_column(column)),
                    ),
                ),
                (
                    "rows"@,
                    JsonView::Array(rows.map_values(|row: Seq<JsonView>| JsonView::Array(row))),
                ),
                ("num_rows"@, JsonView::Integer(num_rows as int)),
            ],
        ),
        ResponseView::Error { message } => JsonView::Object(
            seq![("status"@, JsonView::String("error"@)), ("message"@, JsonView::String(message))],
        ),
    }
}

/// Writes the columns of a result set.
fn columns_to_json(columns: Vec<(String, String)>) -> (json: JsonValue)
    ensures
        json@ == JsonView::Array(
            column_views(columns@).map_values(
                |column: (Seq<char>, Seq<char>)| encode_column(column),
            ),
        ),
{
    let ghost all = columns@;
    let mut out: Vec<JsonValue> = Vec::new();
    for column in it: columns
        invariant
            it.seq() == all,
            out@.len() == it.index(),
            forall|j: int|
                0 <= j < out@.len() ==> (#[trigger] out@[j])@ == encode_column(
                    (all[j].0@, all[j].1@),
                ),
    {
        assert(column == all[it.index() as int]);
        let (name, kind) = column;
        let mut pair: Vec<JsonValue> = Vec::new();
        pair.push(JsonValue::String(name));
        pair.push(JsonValue::String(kind));
        proof {
            lemma_json_views(pair@);
        }
        let json = JsonValue::Array(pair);
        assert(json@->Array_0 =~= encode_column((name@, kind@))->Array_0);
        out.push(json);
    }
    let json = JsonValue::Array(out);
    proof {
        lemma_json_views(out@);
        assert(json@->Array_0 =~= column_views(all).map_values(
            |column: (Seq<char>, Seq<char>)| encode_column(column),
        ));
    }
    json
}

/// Writes the rows of a result set.
fn rows_to_json(rows: Vec<Vec<JsonValue>>) -> (json: JsonValue)
    ensures
        json@ == JsonView::Array(
            row_views(rows@).map_values(|row: Seq<JsonView>| JsonView::Array(row)),
        ),
{
    let ghost all = rows@;
    let mut out: Vec<JsonValue> = Vec::new();
    for row in it: rows
        invariant
            it.seq() == all,
            out@.len() == it.index(),
            forall|j: int|
                0 <= j < out@.len() ==> (#[trigger] out@[j])@ == JsonView::Array(
                    json_views(all[j]@),
                ),
    {
        assert(row == all[it.index() as int]);
        out.push(JsonValue::Array(row));
    }
    let json = JsonValue::Array(out);
    proof {
        lemma_json_views(out@);
        assert(json@->Array_0 =~= row_views(all).map_values(
            |row: Seq<JsonView>| JsonView::Array(row),
        ));
    }
    json
}

impl Response {
    /// Writes the response in its JSON form: see `encode_response`.
    pub fn to_json(self) -> (json: JsonValue)
        ensures
            json@ == encode_response(self@),
    {
        let mut members: Vec<(String, JsonValue)> = Vec::new();
        match self {
            Response::Success { columns, rows, num_rows } => {
                members.push(
                    (String::from_str("status"), JsonValue::String(String::from_str("ok"))),
                );
                members.push((String::from_str("columns"), columns_to_json(columns)));
                members.push((String::from_str("rows"), rows_to_json(rows)));
                members.push((String::from_str("num_rows"), JsonValue::UInt(num_rows as u64)));
            },
            Response::Error { message } => {
                members.push(
                    (String::from_str("status"), JsonValue::String(String::from_str("error"))),
                );
                members.push((String::from_str("message"), JsonValue::String(message)));
            },
        }
        let json = JsonValue::Object(members);
        proof {
            lemma_member_views(members@);
            assert(json@->Object_0 =~= encode_response(self@)->Object_0);
        }
        json
    }
}

impl ErlangValue {
    /// Writes the wire value in its JSON form: see `wire_json`.
    pub fn to_json(&self) -> (json: JsonValue)
        ensures
            json@ == wire_json(self@),
    {
        match self {
            ErlangValue::Integer(i) => JsonValue::Int(*i),
            ErlangValue::Float(bits) => if float_is_finite(*bits) {
                JsonValue::Float(*bits)
            } else {
                JsonValue::Null
            },
            ErlangValue::Text(s) => JsonValue::String(s.clone()),
            ErlangValue::Boolean(b) => JsonValue::Bool(*b),
            ErlangValue::Null => JsonValue::Null,
            ErlangValue::Blob(s) => JsonValue::String(s.clone()),
        }
    }
}

/// Reading undoes writing: the JSON form of a wire value stands for that
/// wire value again, unless it is a blob, whose JSON form stands for text, or
/// a float that JSON cannot write, whose JSON form stands for null.
pub proof fn lemma_wire_json_decodes(value: ErlangValueView)
    ensures
        decode_wire(wire_json(value)) == Some(
            match value {
                ErlangValueView::Blob(text) => ErlangValueView::Text(text),
                ErlangValueView::Float(bits) => if is_finite(bits) {
                    value
                } else {
                    ErlangValueView::Null
                },
                _ => value,
            },
        ),
{
}

} // verus!
