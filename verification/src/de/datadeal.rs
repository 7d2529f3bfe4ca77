//! The rows of a scan as text.

use crate::text::integer_to_string;
use crate::text::padded_text;
use crate::text::string_from_utf8;
use vstd::prelude::*;
use vstd::string::StrSliceExecFns;
use vstd::string::StringExecFns;
use vstd::utf8::decode_utf8;
use vstd::utf8::valid_utf8;

verus! {

#[derive(Debug)]
pub enum DataDealError {
    VertexResultError,
    EdgeResultError,
    ColumnNameError,
    ValueError,
    BinaryDecodeError,
    Custom(String),
}

#[derive(Debug)]
pub struct ProcessError(pub DataDealError);

impl ProcessError {
    /// This error as it is shown.
    pub open spec fn text(self) -> Seq<char> {
        match self.0 {
            DataDealError::Custom(message) => "DataDeal Error: "@ + message@,
            DataDealError::VertexResultError => "Vertex Result Error"@,
            DataDealError::EdgeResultError => "Edge Result Error"@,
            DataDealError::ColumnNameError => "Column Name Error"@,
            DataDealError::ValueError => "Value Error"@,
            DataDealError::BinaryDecodeError => "Binary Decode Error"@,
        }
    }

    /// This error as it is shown.
    pub fn to_string(&self) -> (text: String)
        ensures
            text@ == self.text(),
    {
        match &self.0 {
            DataDealError::Custom(message) => String::from_str("DataDeal Error: ").concat(
                message.as_str(),
            ),
            DataDealError::VertexResultError => String::from_str("Vertex Result Error"),
            DataDealError::EdgeResultError => String::from_str("Edge Result Error"),
            DataDealError::ColumnNameError => String::from_str("Column Name Error"),
            DataDealError::ValueError => String::from_str("Value Error"),
            DataDealError::BinaryDecodeError => String::from_str("Binary Decode Error"),
        }
    }
}

/// The texts of strings.
pub open spec fn texts(strings: Seq<String>) -> Seq<Seq<char>> {
    strings.map_values(|string: String| string@)
}

/// What became of turning something into text, as contracts speak of it.
pub open spec fn text_view(result: Result<String, ProcessError>) -> Result<
    Seq<char>,
    DataDealError,
> {
    match result {
        Ok(text) => Ok(text@),
        Err(error) => Err(error.0),
    }
}

/// What became of turning several things into text, as contracts speak of it.
pub open spec fn texts_view(result: Result<Vec<String>, ProcessError>) -> Result<
    Seq<Seq<char>>,
    DataDealError,
> {
    match result {
        Ok(all) => Ok(texts(all@)),
        Err(error) => Err(error.0),
    }
}

/// The name of a column: its bytes read as UTF-8. Bytes that are no valid UTF-8 are
/// rejected as a column name error.
pub fn process_column_name(bytes: &[u8]) -> (name: Result<String, ProcessError>)
    ensures
        valid_utf8(bytes@) ==> (name matches Ok(text) && text@ == decode_utf8(bytes@)),
        !valid_utf8(bytes@) ==> (name matches Err(error) && error.0 is ColumnNameError),
{
    match string_from_utf8(bytes) {
        Ok(decoded_string) => Ok(decoded_string),
        Err(_) => Err(ProcessError(DataDealError::ColumnNameError)),
    }
}

/// The first `count` of `names`, each read as UTF-8; the first of them that is no
/// valid UTF-8 has them all rejected as a column name error.
pub open spec fn names_text(names: Seq<Vec<u8>>, count: int) -> Result<
    Seq<Seq<char>>,
    DataDealError,
>
    decreases count,
{
    if count <= 0 {
        Ok(Seq::empty())
    } else {
        match names_text(names, count - 1) {
            Err(error) => Err(error),
            Ok(before) => if valid_utf8(names[count - 1]@) {
                Ok(before.push(decode_utf8(names[count - 1]@)))
            } else {
                Err(DataDealError::ColumnNameError)
            },
        }
    }
}

/// A name that is rejected has all the names rejected, however many follow.
proof fn lemma_names_stay_rejected(names: Seq<Vec<u8>>, count: int, more: int)
    requires
        names_text(names, count) is Err,
        count <= more,
    ensures
        names_text(names, more) == names_text(names, count),
    decreases more - count,
{
    if count < more {
        lemma_names_stay_rejected(names, count, more - 1);
    }
}

/// The names of the columns, each read as UTF-8.
pub fn process_column_names(names: &Vec<Vec<u8>>) -> (processed: Result<Vec<String>, ProcessError>)
    ensures
        texts_view(processed) == names_text(names@, names@.len() as int),
{
    let mut all: Vec<String> = Vec::new();
    let mut index: usize = 0;
    assert(texts(all@) =~= Seq::<Seq<char>>::empty());
    while index < names.len()
        invariant
            index <= names@.len(),
            names_text(names@, index as int) == Ok::<Seq<Seq<char>>, DataDealError>(texts(all@)),
        decreases names@.len() - index,
    {
        match process_column_name(names[index].as_slice()) {
            Ok(text) => {
                let ghost before = texts(all@);
                all.push(text);
                assert(texts(all@) =~= before.push(text@));
            },
            Err(error) => {
                proof {
                    lemma_names_stay_rejected(names@, index + 1, names@.len() as int);
                }
                return Err(error);
            },
        }
        index += 1;
    }
    Ok(all)
}

/// One value of a row.
#[derive(Debug)]
pub enum Value {
    Bool(bool),
    Int(i64),
    /// A floating-point number, as it is shown.
    Float(String),
    /// A string, as the bytes that the server sent.
    Bytes(Vec<u8>),
    Date { year: i16, month: i8, day: i8 },
    Time { hour: i8, minute: i8, sec: i8, microsec: i32 },
    DateTime { year: i16, month: i8, day: i8, hour: i8, minute: i8, sec: i8, microsec: i32 },
    Duration { months: i32, seconds: i64, microseconds: i32 },
    /// A value of any other kind.
    Other,
}

/// One value of a row, as contracts speak of it.
pub enum ValueView {
    Bool(bool),
    Int(i64),
    Float(Seq<char>),
    Bytes(Seq<u8>),
    Date { year: i16, month: i8, day: i8 },
    Time { hour: i8, minute: i8, sec: i8, microsec: i32 },
    DateTime { year: i16, month: i8, day: i8, hour: i8, minute: i8, sec: i8, microsec: i32 },
    Duration { months: i32, seconds: i64, microseconds: i32 },
    Other,
}

impl View for Value {
    type V = ValueView;

    open spec fn view(&self) -> ValueView {
        match self {
            Value::Bool(flag) => ValueView::Bool(*flag),
            Value::Int(number) => ValueView::Int(*number),
            Value::Float(shown) => ValueView::Float(shown@),
            Value::Bytes(bytes) => ValueView::Bytes(bytes@),
            Value::Date { year, month, day } => ValueView::Date {
                year: *year,
                month: *month,
                day: *day,
            },
            Value::Time { hour, minute, sec, microsec } => ValueView::Time {
                hour: *hour,
                minute: *minute,
                sec: *sec,
                microsec: *microsec,
            },
            Value::DateTime { year, month, day, hour, minute, sec, microsec } => {
                ValueView::DateTime {
                    year: *year,
                    month: *month,
                    day: *day,
                    hour: *hour,
                    minute: *minute,
                    sec: *sec,
                    microsec: *microsec,
                }
            },
            Value::Duration { months, seconds, microseconds } => ValueView::Duration {
                months: *months,
                seconds: *seconds,
                microseconds: *microseconds,
            },
            Value::Other => ValueView::Other,
        }
    }
}

impl Value {
    /// A copy of this value.
    pub fn copy(&self) -> (copy: Value)
        ensures
            copy@ == self@,
    {
        match self {
            Value::Bool(flag) => Value::Bool(*flag),
            Value::Int(number) => Value::Int(*number),
            Value::Float(shown) => Value::Float(shown.clone()),
            Value::Bytes(bytes) => Value::Bytes(vstd::slice::slice_to_vec(bytes.as_slice())),
            Value::Date { year, month, day } => Value::Date {
                year: *year,
                month: *month,
                day: *day,
            },
            Value::Time { hour, minute, sec, microsec } => Value::Time {
                hour: *hour,
                minute: *minute,
                sec: *sec,
                microsec: *microsec,
            },
            Value::DateTime { year, month, day, hour, minute, sec, microsec } => Value::DateTime {
                year: *year,
                month: *month,
                day: *day,
                hour: *hour,
                minute: *minute,
                sec: *sec,
                microsec: *microsec,
            },
            Value::Duration { months, seconds, microseconds } => Value::Duration {
                months: *months,
                seconds: *seconds,
                microseconds: *microseconds,
            },
            Value::Other => Value::Other,
        }
    }
}

/// A calendar day as text: year, month and day, the latter two in two digits.
pub open spec fn date_text(year: int, month: int, day: int) -> Seq<char> {
    padded_text(year, 0) + "-"@ + padded_text(month, 2) + "-"@ + padded_text(day, 2)
}

/// A time of day as text: hour, minute and second in two digits each, and the
/// microsecond in six.
pub open spec fn time_text(hour: int, minute: int, sec: int, microsec: int) -> Seq<char> {
    padded_text(hour, 2) + ":"@ + padded_text(minute, 2) + ":"@ + padded_text(sec, 2) + "."@
        + padded_text(microsec, 6)
}

/// A duration as text.
pub open spec fn duration_text(months: int, seconds: int, microseconds: int) -> Seq<char> {
    padded_text(months, 0) + " months, "@ + padded_text(seconds, 0) + " seconds, "@
        + padded_text(microseconds, 0) + " microseconds"@
}

/// A value as text. Bytes that are no valid UTF-8 cannot be shown, nor can a value of
/// another kind than those named.
pub open spec fn value_text(value: Value) -> Result<Seq<char>, DataDealError> {
    match value {
        Value::Bool(flag) => Ok(
            if flag {
                "true"@
            } else {
                "false"@
            },
        ),
        Value::Int(number) => Ok(padded_text(number as int, 0)),
        Value::Float(shown) => Ok(shown@),
        Value::Bytes(bytes) => if valid_utf8(bytes@) {
            Ok(decode_utf8(bytes@))
        } else {
            Err(DataDealError::BinaryDecodeError)
        },
        Value::Date { year, month, day } => Ok(date_text(year as int, month as int, day as int)),
        Value::Time { hour, minute, sec, microsec } => Ok(
            time_text(hour as int, minute as int, sec as int, microsec as int),
        ),
        Value::DateTime { year, month, day, hour, minute, sec, microsec } => Ok(
            date_text(year as int, month as int, day as int) + " "@ + time_text(
                hour as int,
                minute as int,
                sec as int,
                microsec as int,
            ),
        ),
        Value::Duration { months, seconds, microseconds } => Ok(
            duration_text(months as int, seconds as int, microseconds as int),
        ),
        Value::Other => Err(DataDealError::ValueError),
    }
}

fn date_to_string(year: i16, month: i8, day: i8) -> (text: String)
    ensures
        text@ == date_text(year as int, month as int, day as int),
{
    let mut text = integer_to_string(year as i64, 0);
    text.append("-");
    text.append(integer_to_string(month as i64, 2).as_str());
    text.append("-");
    text.append(integer_to_string(day as i64, 2).as_str());
    text
}

fn time_to_string(hour: i8, minute: i8, sec: i8, microsec: i32) -> (text: String)
    ensures
        text@ == time_text(hour as int, minute as int, sec as int, microsec as int),
{
    let mut text = integer_to_string(hour as i64, 2);
    text.append(":");
    text.append(integer_to_string(minute as i64, 2).as_str());
    text.append(":");
    text.append(integer_to_string(sec as i64, 2).as_str());
    text.append(".");
    text.append(integer_to_string(microsec as i64, 6).as_str());
    text
}

/// One value as text.
pub fn process_value(value: &Value) -> (text: Result<String, ProcessError>)
    ensures
        text_view(text) == value_text(*value),
{
    match value {
        Value::Bool(flag) => Ok(
            if *flag {
                String::from_str("true")
            } else {
                String::from_str("false")
            },
        ),
        Value::Int(number) => Ok(integer_to_string(*number, 0)),
        Value::Float(shown) => Ok(shown.clone()),
        Value::Bytes(bytes) => match string_from_utf8(bytes.as_slice()) {
            Ok(decoded_string) => Ok(decoded_string),
            Err(_) => Err(ProcessError(DataDealError::BinaryDecodeError)),
        },
        Value::Date { year, month, day } => Ok(date_to_string(*year, *month, *day)),
        Value::Time { hour, minute, sec, microsec } => Ok(
            time_to_string(*hour, *minute, *sec, *microsec),
        ),
        Value::DateTime { year, month, day, hour, minute, sec, microsec } => {
            let mut text = date_to_string(*year, *month, *day);
            text.append(" ");
            text.append(time_to_string(*hour, *minute, *sec, *microsec).as_str());
            Ok(text)
        },
        Value::Duration { months, seconds, microseconds } => {
            let mut text = integer_to_string(*months as i64, 0);
            text.append(" months, ");
            text.append(integer_to_string(*seconds, 0).as_str());
            text.append(" seconds, ");
            text.append(integer_to_string(*microseconds as i64, 0).as_str());
            text.append(" microseconds");
            Ok(text)
        },
        Value::Other => Err(ProcessError(DataDealError::ValueError)),
    }
}

/// The first `count` of `values` as text; the first of them that cannot be shown has
/// them all rejected for its reason.
pub open spec fn values_text(values: Seq<Value>, count: int) -> Result<
    Seq<Seq<char>>,
    DataDealError,
>
    decreases count,
{
    if count <= 0 {
        Ok(Seq::empty())
    } else {
        match values_text(values, count - 1) {
            Err(error) => Err(error),
            Ok(before) => match value_text(values[count - 1]) {
                Err(error) => Err(error),
                Ok(text) => Ok(before.push(text)),
            },
        }
    }
}

/// A value that cannot be shown has all the values rejected, however many follow.
proof fn lemma_values_stay_rejected(values: Seq<Value>, count: int, more: int)
    requires
        values_text(values, count) is Err,
        count <= more,
    ensures
        values_text(values, more) == values_text(values, count),
    decreases more - count,
{
    if count < more {
        lemma_values_stay_rejected(values, count, more - 1);
    }
}

/// The values of one row as text.
pub fn process_values(values: &Vec<Value>) -> (processed: Result<Vec<String>, ProcessError>)
    ensures
        texts_view(processed) == values_text(values@, values@.len() as int),
{
    let mut all: Vec<String> = Vec::new();
    let mut index: usize = 0;
    assert(texts(all@) =~= Seq::<Seq<char>>::empty());
    while index < values.len()
        invariant
            index <= values@.len(),
            values_text(values@, index as int) == Ok::<Seq<Seq<char>>, DataDealError>(
                texts(all@),
            ),
        decreases values@.len() - index,
    {
        match process_value(&values[index]) {
            Ok(text) => {
                let ghost before = texts(all@);
                all.push(text);
                assert(texts(all@) =~= before.push(text@));
            },
            Err(error) => {
                proof {
                    lemma_values_stay_rejected(values@, index + 1, values@.len() as int);
                }
                return Err(error);
            },
        }
        index += 1;
    }
    Ok(all)
}

/// The position of the first full stop in `name` at or after `from`, or the length of
/// `name` where there is none.
pub open spec fn find_dot(name: Seq<char>, from: int) -> int
    decreases name.len() - from,
{
    if from >= name.len() {
        name.len() as int
    } else if name[from] == '.' {
        from
    } else {
        find_dot(name, from + 1)
    }
}

/// What stands before the first full stop of a column name: the tag or the edge type.
pub open spec fn first_part(name: Seq<char>) -> Seq<char> {
    name.subrange(0, find_dot(name, 0))
}

/// What stands between the first full stop of a column name and the next: the
/// property. A name without a full stop is all property.
pub open spec fn second_part(name: Seq<char>) -> Seq<char> {
    let first = find_dot(name, 0);
    if first >= name.len() {
        name
    } else {
        name.subrange(first + 1, find_dot(name, first + 1))
    }
}

/// The text at `index` of `rows`, or nothing where there is none.
pub open spec fn cell(rows: Seq<Seq<char>>, index: int) -> Seq<char> {
    if 0 <= index < rows.len() {
        rows[index]
    } else {
        Seq::empty()
    }
}

/// What the columns of `col_names` from `skip` on come from: the first part of the
/// last of them, or nothing where there is none.
pub open spec fn origin(col_names: Seq<Seq<char>>, skip: int) -> Seq<char> {
    if col_names.len() > skip {
        first_part(col_names.last())
    } else {
        Seq::empty()
    }
}

/// The properties in the columns from `skip` up to `upto`, each as its name, a colon
/// and its value, with a comma between one and the next.
pub open spec fn props_text(
    col_names: Seq<Seq<char>>,
    rows: Seq<Seq<char>>,
    skip: int,
    upto: int,
) -> Seq<char>
    decreases upto - skip,
{
    if upto <= skip {
        Seq::empty()
    } else {
        props_text(col_names, rows, skip, upto - 1) + (if upto - 1 > skip {
            ", "@
        } else {
            Seq::empty()
        }) + second_part(col_names[upto - 1]) + ": "@ + cell(rows, upto - 1)
    }
}

/// A vertex as text: its id, its tag, and its properties in braces. The names of the
/// columns and the values have to be equally many.
pub open spec fn vertex_text(col_names: Seq<Seq<char>>, rows: Seq<Seq<char>>) -> Result<
    Seq<char>,
    DataDealError,
> {
    if col_names.len() != rows.len() {
        Err(DataDealError::VertexResultError)
    } else {
        Ok(
            "("@ + cell(rows, 1) + ":"@ + origin(col_names, 2) + "{"@ + props_text(
                col_names,
                rows,
                2,
                col_names.len() as int,
            ) + "})"@,
        )
    }
}

/// An edge as text: its source, its type and rank with its properties in braces, and
/// its destination. The names of the columns and the values have to be equally many.
pub open spec fn edge_text(col_names: Seq<Seq<char>>, rows: Seq<Seq<char>>) -> Result<
    Seq<char>,
    DataDealError,
> {
    if col_names.len() != rows.len() {
        Err(DataDealError::EdgeResultError)
    } else {
        Ok(
            "("@ + cell(rows, 0) + ")-[:"@ + origin(col_names, 4) + "@"@ + cell(rows, 2) + "{"@
                + props_text(col_names, rows, 4, col_names.len() as int) + "}]->("@ + cell(
                rows,
                3,
            ) + ")"@,
        )
    }
}

/// The position of the first full stop in `name` at or after `from`.
fn find_dot_from(name: &str, from: usize) -> (at: usize)
    requires
        from <= name@.len(),
    ensures
        at == find_dot(name@, from as int),
        from <= at <= name@.len(),
{
    let len = name.unicode_len();
    let mut at = from;
    while at < len
        invariant
            len == name@.len(),
            from <= at <= len,
            find_dot(name@, from as int) == find_dot(name@, at as int),
        decreases len - at,
    {
        if name.get_char(at) == '.' {
            return at;
        }
        at += 1;
    }
    at
}

/// The two parts of a column name.
fn split_name(name: &str) -> (parts: (String, String))
    ensures
        parts.0@ == first_part(name@),
        parts.1@ == second_part(name@),
{
    let len = name.unicode_len();
    let first = find_dot_from(name, 0);
    let tag = String::from_str(name.substring_char(0, first));
    if first >= len {
        (tag, String::from_str(name))
    } else {
        let second = find_dot_from(name, first + 1);
        (tag, String::from_str(name.substring_char(first + 1, second)))
    }
}

/// The text at `index` of `rows`, or nothing where there is none.
fn cell_at(rows: &Vec<String>, index: usize) -> (text: &str)
    ensures
        text@ == cell(texts(rows@), index as int),
{
    if index < rows.len() {
        rows[index].as_str()
    } else {
        proof {
            reveal_strlit("");
        }
        ""
    }
}

/// What the columns from `skip` on come from, and their properties as text.
fn describe_props(col_names: &Vec<String>, rows: &Vec<String>, skip: usize) -> (described: (
    String,
    String,
))
    ensures
        described.0@ == origin(texts(col_names@), skip as int),
        described.1@ == props_text(
            texts(col_names@),
            texts(rows@),
            skip as int,
            col_names@.len() as int,
        ),
{
    let mut from = String::new();
    let mut props = String::new();
    if col_names.len() <= skip {
        return (from, props);
    }
    let mut index = skip;
    while index < col_names.len()
        invariant
            skip <= index <= col_names@.len(),
            skip < col_names@.len(),
            index > skip ==> from@ == first_part(col_names@[index - 1]@),
            props@ == props_text(texts(col_names@), texts(rows@), skip as int, index as int),
        decreases col_names@.len() - index,
    {
        let (tag, prop) = split_name(col_names[index].as_str());
        from = tag;
        if index > skip {
            props.append(", ");
        }
        props.append(prop.as_str());
        props.append(": ");
        props.append(cell_at(rows, index));
        index += 1;
        proof {
            let names = texts(col_names@);
            let before = props_text(names, texts(rows@), skip as int, index - 1);
            let separator = if index - 1 > skip {
                ", "@
            } else {
                Seq::<char>::empty()
            };
            assert(names[index - 1] == col_names@[index - 1]@);
            assert(props@ =~= before + separator + second_part(names[index - 1]) + ": "@ + cell(
                texts(rows@),
                index - 1,
            ));
        }
    }
    assert(texts(col_names@).last() == col_names@[col_names@.len() - 1]@);
    (from, props)
}

/// One vertex of a scan as text, from the names of the columns and the values of one
/// row: the id and the tag, then every property with its value.
pub fn scan_vertex_result(col_names: &Vec<String>, rows: &Vec<String>) -> (result: Result<
    String,
    ProcessError,
>)
    ensures
        text_view(result) == vertex_text(texts(col_names@), texts(rows@)),
{
    if col_names.len() != rows.len() {
        return Err(ProcessError(DataDealError::VertexResultError));
    }
    let (tag, props) = describe_props(col_names, rows, 2);
    let mut result = String::from_str("(");
    result.append(cell_at(rows, 1));
    result.append(":");
    result.append(tag.as_str());
    result.append("{");
    result.append(props.as_str());
    result.append("})");
    assert(Ok::<Seq<char>, DataDealError>(result@) =~= vertex_text(
        texts(col_names@),
        texts(rows@),
    ));
    Ok(result)
}

/// One edge of a scan as text, from the names of the columns and the values of one
/// row: source, type, rank and destination, and every property with its value.
pub fn scan_edge_result(col_names: &Vec<String>, rows: &Vec<String>) -> (result: Result<
    String,
    ProcessError,
>)
    ensures
        text_view(result) == edge_text(texts(col_names@), texts(rows@)),
{
    if col_names.len() != rows.len() {
        return Err(ProcessError(DataDealError::EdgeResultError));
    }
    let (kind, props) = describe_props(col_names, rows, 4);
    let mut result = String::from_str("(");
    result.append(cell_at(rows, 0));
    result.append(")-[:");
    result.append(kind.as_str());
    result.append("@");
    result.append(cell_at(rows, 2));
    result.append("{");
    result.append(props.as_str());
    result.append("}]->(");
    result.append(cell_at(rows, 3));
    result.append(")");
    assert(Ok::<Seq<char>, DataDealError>(result@) =~= edge_text(
        texts(col_names@),
        texts(rows@),
    ));
    Ok(result)
}

/// One row as the text of a vertex or of an edge, given the names of the columns: its
/// values are shown first, and what cannot be shown has the row rejected.
pub open spec fn row_text(col_names: Seq<Seq<char>>, values: Seq<Value>, is_vertex: bool)
    -> Result<Seq<char>, DataDealError> {
    match values_text(values, values.len() as int) {
        Err(error) => Err(error),
        Ok(shown) => if is_vertex {
            vertex_text(col_names, shown)
        } else {
            edge_text(col_names, shown)
        },
    }
}

/// The first `count` of `rows` as text; the first of them that is rejected has them
/// all rejected for its reason.
pub open spec fn rows_text(
    col_names: Seq<Seq<char>>,
    rows: Seq<Vec<Value>>,
    is_vertex: bool,
    count: int,
) -> Result<Seq<Seq<char>>, DataDealError>
    decreases count,
{
    if count <= 0 {
        Ok(Seq::empty())
    } else {
        match rows_text(col_names, rows, is_vertex, count - 1) {
            Err(error) => Err(error),
            Ok(before) => match row_text(col_names, rows[count - 1]@, is_vertex) {
                Err(error) => Err(error),
                Ok(text) => Ok(before.push(text)),
            },
        }
    }
}

/// The rows of a scan as text. Without columns there is nothing to show. Otherwise the
/// names of the columns are read first, then row after row.
pub open spec fn scan_text(column_names: Seq<Vec<u8>>, rows: Seq<Vec<Value>>, is_vertex: bool)
    -> Result<Seq<Seq<char>>, DataDealError> {
    if column_names.len() == 0 {
        Ok(Seq::empty())
    } else {
        match names_text(column_names, column_names.len() as int) {
            Err(error) => Err(error),
            Ok(names) => rows_text(names, rows, is_vertex, rows.len() as int),
        }
    }
}

/// A row that is rejected has all the rows rejected, however many follow.
proof fn lemma_rows_stay_rejected(
    col_names: Seq<Seq<char>>,
    rows: Seq<Vec<Value>>,
    is_vertex: bool,
    count: int,
    more: int,
)
    requires
        rows_text(col_names, rows, is_vertex, count) is Err,
        count <= more,
    ensures
        rows_text(col_names, rows, is_vertex, more) == rows_text(
            col_names,
            rows,
            is_vertex,
            count,
        ),
    decreases more - count,
{
    if count < more {
        lemma_rows_stay_rejected(col_names, rows, is_vertex, count, more - 1);
    }
}

/// The rows of a scan, each as the text of a vertex or of an edge.
pub fn deserialize_scan_response(
    column_names: &Vec<Vec<u8>>,
    rows: &Vec<Vec<Value>>,
    is_vertex: bool,
) -> (result: Result<Vec<String>, ProcessError>)
    ensures
        texts_view(result) == scan_text(column_names@, rows@, is_vertex),
{
    let mut data_set: Vec<String> = Vec::new();
    assert(texts(data_set@) =~= Seq::<Seq<char>>::empty());
    if column_names.len() == 0 {
        return Ok(data_set);
    }
    let processed_column_names = match process_column_names(column_names) {
        Ok(names) => names,
        Err(error) => {
            return Err(error);
        },
    };
    let ghost names = texts(processed_column_names@);
    let mut index: usize = 0;
    while index < rows.len()
        invariant
            index <= rows@.len(),
            names == texts(processed_column_names@),
            column_names@.len() > 0,
            names_text(column_names@, column_names@.len() as int) == Ok::<
                Seq<Seq<char>>,
                DataDealError,
            >(names),
            rows_text(names, rows@, is_vertex, index as int) == Ok::<
                Seq<Seq<char>>,
                DataDealError,
            >(texts(data_set@)),
        decreases rows@.len() - index,
    {
        let processed_values = match process_values(&rows[index]) {
            Ok(values) => values,
            Err(error) => {
                proof {
                    assert(row_text(names, rows@[index as int]@, is_vertex) == Err::<
                        Seq<char>,
                        DataDealError,
                    >(error.0));
                    assert(rows_text(names, rows@, is_vertex, index + 1) == Err::<
                        Seq<Seq<char>>,
                        DataDealError,
                    >(error.0));
                    lemma_rows_stay_rejected(
                        names,
                        rows@,
                        is_vertex,
                        index + 1,
                        rows@.len() as int,
                    );
                }
                return Err(error);
            },
        };
        let shown = if is_vertex {
            scan_vertex_result(&processed_column_names, &processed_values)
        } else {
            scan_edge_result(&processed_column_names, &processed_values)
        };
        assert(text_view(shown) == row_text(names, rows@[index as int]@, is_vertex));
        match shown {
            Ok(text) => {
                let ghost before = texts(data_set@);
                data_set.push(text);
                assert(texts(data_set@) =~= before.push(text@));
            },
            Err(error) => {
                proof {
                    assert(rows_text(names, rows@, is_vertex, index + 1) == Err::<
                        Seq<Seq<char>>,
                        DataDealError,
                    >(error.0));
                    lemma_rows_stay_rejected(
                        names,
                        rows@,
                        is_vertex,
                        index + 1,
                        rows@.len() as int,
                    );
                }
                return Err(error);
            },
        }
        index += 1;
    }
    Ok(data_set)
}

} // verus!
