//! What a command prints: lines on one of three channels, and JSON documents as
//! the sequence of writes that produces them.

use crate::text;
use vstd::prelude::*;

verus! {

/// Where a line goes: results to standard output, status and errors to
/// standard error.
#[derive(Clone, Copy, Debug, PartialEq, Eq, Structural)]
pub enum Channel {
    Result,
    Status,
    Error,
}

/// One printed line.
#[derive(Clone, Debug)]
pub struct Line {
    pub channel: Channel,
    pub text: String,
}

impl View for Line {
    type V = (Channel, Seq<char>);

    open spec fn view(&self) -> (Channel, Seq<char>) {
        (self.channel, self.text@)
    }
}

/// The lines of a report as values.
pub open spec fn lines_view(lines: Seq<Line>) -> Seq<(Channel, Seq<char>)> {
    Seq::new(lines.len(), |i: int| lines[i]@)
}

/// The strings of a list as values.
pub open spec fn strings_view(items: Seq<String>) -> Seq<Seq<char>> {
    Seq::new(items.len(), |i: int| items[i]@)
}

pub open spec fn result(s: Seq<char>) -> (Channel, Seq<char>) {
    (Channel::Result, s)
}

pub open spec fn status(s: Seq<char>) -> (Channel, Seq<char>) {
    (Channel::Status, s)
}

pub open spec fn error(s: Seq<char>) -> (Channel, Seq<char>) {
    (Channel::Error, s)
}

/// The lines printed so far, in order.
#[derive(Debug)]
pub struct Printed {
    pub lines: Vec<Line>,
}

impl View for Printed {
    type V = Seq<(Channel, Seq<char>)>;

    open spec fn view(&self) -> Seq<(Channel, Seq<char>)> {
        lines_view(self.lines@)
    }
}

impl Printed {
    pub fn new() -> (r: Printed)
        ensures
            r@ == Seq::<(Channel, Seq<char>)>::empty(),
    {
        let r = Printed { lines: Vec::new() };
        assert(r@ =~= Seq::<(Channel, Seq<char>)>::empty());
        r
    }

    fn line(&mut self, channel: Channel, text: String)
        ensures
            final(self)@ == old(self)@.push((channel, text@)),
    {
        self.lines.push(Line { channel, text });
        assert(self@ =~= old(self)@.push((channel, text@)));
    }

    pub fn result(&mut self, text: String)
        ensures
            final(self)@ == old(self)@.push(result(text@)),
    {
        self.line(Channel::Result, text);
    }

    pub fn status(&mut self, text: String)
        ensures
            final(self)@ == old(self)@.push(status(text@)),
    {
        self.line(Channel::Status, text);
    }

    pub fn error(&mut self, text: String)
        ensures
            final(self)@ == old(self)@.push(error(text@)),
    {
        self.line(Channel::Error, text);
    }

    /// Prints what somebody else printed.
    pub fn extend(&mut self, more: Printed)
        ensures
            final(self)@ == old(self)@ + more@,
    {
        let mut rest = more.lines;
        let ghost before = self@;
        self.lines.append(&mut rest);
        assert(self@ =~= before + more@);
    }
}

/// One error line and nothing else.
pub fn only_error(text: String) -> (r: Printed)
    ensures
        r@ == seq![error(text@)],
{
    let mut r = Printed::new();
    r.error(text);
    assert(r@ =~= seq![error(text@)]);
    r
}

/// What one write adds to a JSON document.
#[derive(Clone, Copy, Debug, PartialEq, Eq, Structural)]
pub enum JsonWrite {
    BeginObject,
    EndObject,
    BeginArray,
    BeginArrayObject,
    EndArray,
    Text,
    Integer,
    Boolean,
    Null,
    /// A double, carried by its bits.
    Double,
    /// A bare string inside an array.
    Item,
    /// A bare double inside an array, carried by its bits.
    DoubleItem,
}

/// One write to a JSON document: `key` names a field or an array.
#[derive(Clone, Debug)]
pub struct JsonOp {
    pub write: JsonWrite,
    pub key: String,
    pub text: String,
    pub number: i64,
}

/// A write as a value: what it adds, the key, the text and the number.
pub type JsonOpView = (JsonWrite, Seq<char>, Seq<char>, int);

impl View for JsonOp {
    type V = JsonOpView;

    open spec fn view(&self) -> JsonOpView {
        (self.write, self.key@, self.text@, self.number as int)
    }
}

pub open spec fn mark(write: JsonWrite, key: Seq<char>) -> JsonOpView {
    (write, key, Seq::empty(), 0)
}

pub open spec fn begin_object() -> JsonOpView {
    mark(JsonWrite::BeginObject, Seq::empty())
}

pub open spec fn end_object() -> JsonOpView {
    mark(JsonWrite::EndObject, Seq::empty())
}

pub open spec fn begin_array(key: Seq<char>) -> JsonOpView {
    mark(JsonWrite::BeginArray, key)
}

pub open spec fn begin_array_object() -> JsonOpView {
    mark(JsonWrite::BeginArrayObject, Seq::empty())
}

pub open spec fn end_array() -> JsonOpView {
    mark(JsonWrite::EndArray, Seq::empty())
}

pub open spec fn field_str(key: Seq<char>, text: Seq<char>) -> JsonOpView {
    (JsonWrite::Text, key, text, 0)
}

pub open spec fn field_i64(key: Seq<char>, number: int) -> JsonOpView {
    (JsonWrite::Integer, key, Seq::empty(), number)
}

pub open spec fn field_bool(key: Seq<char>, value: bool) -> JsonOpView {
    (JsonWrite::Boolean, key, Seq::empty(), if value { 1 } else { 0 })
}

pub open spec fn field_null(key: Seq<char>) -> JsonOpView {
    mark(JsonWrite::Null, key)
}

pub open spec fn field_f64(key: Seq<char>, bits: int) -> JsonOpView {
    (JsonWrite::Double, key, Seq::empty(), bits)
}

pub open spec fn value_str(text: Seq<char>) -> JsonOpView {
    (JsonWrite::Item, Seq::empty(), text, 0)
}

pub open spec fn value_f64(bits: int) -> JsonOpView {
    (JsonWrite::DoubleItem, Seq::empty(), Seq::empty(), bits)
}

/// A JSON document under construction: the writes made so far, in order.
#[derive(Debug)]
pub struct JsonWriter {
    pub ops: Vec<JsonOp>,
}

impl View for JsonWriter {
    type V = Seq<JsonOpView>;

    open spec fn view(&self) -> Seq<JsonOpView> {
        Seq::new(self.ops@.len(), |i: int| self.ops@[i]@)
    }
}

impl JsonWriter {
    pub fn new() -> (r: JsonWriter)
        ensures
            r@ == Seq::<JsonOpView>::empty(),
    {
        let r = JsonWriter { ops: Vec::new() };
        assert(r@ =~= Seq::<JsonOpView>::empty());
        r
    }

    fn put(&mut self, write: JsonWrite, key: &str, text: &str, number: i64)
        ensures
            final(self)@ == old(self)@.push((write, key@, text@, number as int)),
    {
        self.ops.push(JsonOp { write, key: text::owned(key), text: text::owned(text), number });
        assert(self@ =~= old(self)@.push((write, key@, text@, number as int)));
    }

    fn put_mark(&mut self, write: JsonWrite, key: &str)
        ensures
            final(self)@ == old(self)@.push(mark(write, key@)),
    {
        let none = String::new();
        self.put(write, key, none.as_str(), 0);
    }

    fn put_bare(&mut self, write: JsonWrite)
        ensures
            final(self)@ == old(self)@.push(mark(write, Seq::empty())),
    {
        let none = String::new();
        self.put_mark(write, none.as_str());
    }

    pub fn begin_object(&mut self)
        ensures
            final(self)@ == old(self)@.push(begin_object()),
    {
        self.put_bare(JsonWrite::BeginObject);
    }

    pub fn end_object(&mut self)
        ensures
            final(self)@ == old(self)@.push(end_object()),
    {
        self.put_bare(JsonWrite::EndObject);
    }

    pub fn begin_array(&mut self, key: &str)
        ensures
            final(self)@ == old(self)@.push(begin_array(key@)),
    {
        self.put_mark(JsonWrite::BeginArray, key);
    }

    pub fn begin_array_object(&mut self)
        ensures
            final(self)@ == old(self)@.push(begin_array_object()),
    {
        self.put_bare(JsonWrite::BeginArrayObject);
    }

    pub fn end_array(&mut self)
        ensures
            final(self)@ == old(self)@.push(end_array()),
    {
        self.put_bare(JsonWrite::EndArray);
    }

    pub fn field_str(&mut self, key: &str, text: &str)
        ensures
            final(self)@ == old(self)@.push(field_str(key@, text@)),
    {
        self.put(JsonWrite::Text, key, text, 0);
    }

    pub fn field_i64(&mut self, key: &str, number: i64)
        ensures
            final(self)@ == old(self)@.push(field_i64(key@, number as int)),
    {
        let none = String::new();
        self.put(JsonWrite::Integer, key, none.as_str(), number);
    }

    pub fn field_bool(&mut self, key: &str, value: bool)
        ensures
            final(self)@ == old(self)@.push(field_bool(key@, value)),
    {
        let none = String::new();
        self.put(JsonWrite::Boolean, key, none.as_str(), if value { 1 } else { 0 });
    }

    pub fn field_null(&mut self, key: &str)
        ensures
            final(self)@ == old(self)@.push(field_null(key@)),
    {
        self.put_mark(JsonWrite::Null, key);
    }

    pub fn field_f64(&mut self, key: &str, bits: i64)
        ensures
            final(self)@ == old(self)@.push(field_f64(key@, bits as int)),
    {
        let none = String::new();
        self.put(JsonWrite::Double, key, none.as_str(), bits);
    }

    pub fn value_str(&mut self, text: &str)
        ensures
            final(self)@ == old(self)@.push(value_str(text@)),
    {
        let none = String::new();
        self.put(JsonWrite::Item, none.as_str(), text, 0);
    }

    pub fn value_f64(&mut self, bits: i64)
        ensures
            final(self)@ == old(self)@.push(value_f64(bits as int)),
    {
        let none = String::new();
        self.put(JsonWrite::DoubleItem, none.as_str(), none.as_str(), bits);
    }
}

/// Rows under a header.
#[derive(Debug)]
pub struct Table {
    pub header: Vec<String>,
    pub rows: Vec<Vec<String>>,
}

/// The cells of a table as values.
pub open spec fn rows_view(rows: Seq<Vec<String>>) -> Seq<Seq<Seq<char>>> {
    Seq::new(rows.len(), |i: int| strings_view(rows[i]@))
}

/// What a command shows: one JSON document, lines, or a table between lines.
#[derive(Debug)]
pub enum Report {
    Document(JsonWriter),
    Lines(Printed),
    Table(Printed, Table, Printed),
}

/// A report as a value; a table is its header and its rows.
pub enum ReportView {
    Document(Seq<JsonOpView>),
    Lines(Seq<(Channel, Seq<char>)>),
    Table(Seq<(Channel, Seq<char>)>, Seq<Seq<char>>, Seq<Seq<Seq<char>>>, Seq<(Channel, Seq<char>)>),
}

impl View for Report {
    type V = ReportView;

    open spec fn view(&self) -> ReportView {
        match *self {
            Report::Document(json) => ReportView::Document(json@),
            Report::Lines(lines) => ReportView::Lines(lines@),
            Report::Table(before, table, after) => ReportView::Table(
                before@,
                strings_view(table.header@),
                rows_view(table.rows@),
                after@,
            ),
        }
    }
}

/// Results, status and errors go three different ways, and none changes the text.
pub proof fn a_line_keeps_its_channel(s: Seq<char>)
    ensures
        result(s).0 == Channel::Result && status(s).0 == Channel::Status && error(s).0 == Channel::Error,
        result(s).1 == s && status(s).1 == s && error(s).1 == s,
{
}

/// A field of a document is of its kind, under its name, with the value it was
/// given: two fields are the same only where name and value are.
pub proof fn a_field_keeps_its_name_and_value(key: Seq<char>, s: Seq<char>, n: int, b: bool)
    ensures
        field_str(key, s).0 == JsonWrite::Text && field_str(key, s).1 == key && field_str(key, s).2 == s,
        field_i64(key, n).0 == JsonWrite::Integer && field_i64(key, n).1 == key && field_i64(key, n).3 == n,
        field_bool(key, b).0 == JsonWrite::Boolean && field_bool(key, b).1 == key && (field_bool(key, b).3 != 0) == b,
        field_f64(key, n).0 == JsonWrite::Double && field_f64(key, n).1 == key && field_f64(key, n).3 == n,
        field_null(key).0 == JsonWrite::Null && field_null(key).1 == key,
        value_str(s).0 == JsonWrite::Item && value_str(s).2 == s,
        value_f64(n).0 == JsonWrite::DoubleItem && value_f64(n).3 == n,
        begin_array(key).0 == JsonWrite::BeginArray && begin_array(key).1 == key,
        begin_object().0 == JsonWrite::BeginObject && end_object().0 == JsonWrite::EndObject,
        begin_array_object().0 == JsonWrite::BeginArrayObject && end_array().0 == JsonWrite::EndArray,
{
}

} // verus!
