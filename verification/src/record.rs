//! The JSON the client reads and writes: flat objects of scalar members, and
//! the reading of a response body.

use vstd::prelude::*;
use vstd::string::StringExecFns;

use crate::text::{blank, is_blank};

verus! {

/// A member value of an output object.
#[derive(Debug)]
pub enum Scalar {
    Null,
    Bool(bool),
    Int(i64),
    UInt(u64),
    /// A floating-point number, held as the bit pattern of an IEEE 754
    /// binary64 value; the library only carries it.
    Float(u64),
    Str(String),
    /// A JSON document given by its text, which parses as JSON; it stands for
    /// the value that the text denotes.
    Json(String),
}

/// The mathematical content of a `Scalar`.
pub enum ScalarView {
    Null,
    Bool(bool),
    Int(i64),
    UInt(u64),
    Float(u64),
    Str(Seq<char>),
    Json(Seq<char>),
}

impl View for Scalar {
    type V = ScalarView;

    open spec fn view(&self) -> ScalarView {
        match self {
            Scalar::Null => ScalarView::Null,
            Scalar::Bool(b) => ScalarView::Bool(*b),
            Scalar::Int(i) => ScalarView::Int(*i),
            Scalar::UInt(u) => ScalarView::UInt(*u),
            Scalar::Float(f) => ScalarView::Float(*f),
            Scalar::Str(s) => ScalarView::Str(s@),
            Scalar::Json(t) => ScalarView::Json(t@),
        }
    }
}

impl Clone for Scalar {
    fn clone(&self) -> (r: Self)
        ensures
            r@ == self@,
    {
        match self {
            Scalar::Null => Scalar::Null,
            Scalar::Bool(b) => Scalar::Bool(*b),
            Scalar::Int(i) => Scalar::Int(*i),
            Scalar::UInt(u) => Scalar::UInt(*u),
            Scalar::Float(f) => Scalar::Float(*f),
            Scalar::Str(s) => Scalar::Str(s.clone()),
            Scalar::Json(t) => Scalar::Json(t.clone()),
        }
    }
}

impl Scalar {
    /// A string member holding the text `s`.
    pub fn text(s: &str) -> (r: Scalar)
        ensures
            r@ == ScalarView::Str(s@),
    {
        Scalar::Str(String::from_str(s))
    }
}

/// The text of a string value; empty for other values.
pub open spec fn text_of(v: ScalarView) -> Seq<char> {
    match v {
        ScalarView::Str(s) => s,
        _ => Seq::empty(),
    }
}

/// A JSON object whose members are scalars, in the order they were added.
#[derive(Debug)]
pub struct Record {
    pub fields: Vec<(String, Scalar)>,
}

/// The mathematical content of a `Record`: its members in order.
pub type RecordView = Seq<(Seq<char>, ScalarView)>;

impl View for Record {
    type V = RecordView;

    open spec fn view(&self) -> RecordView {
        self.fields@.map_values(|p: (String, Scalar)| (p.0@, p.1@))
    }
}

impl Clone for Record {
    fn clone(&self) -> (r: Self)
        ensures
            r@ == self@,
    {
        let mut fields: Vec<(String, Scalar)> = Vec::new();
        let n: usize = self.fields.len();
        let mut i: usize = 0;
        while i < n
            invariant
                n == self.fields@.len(),
                i <= n,
                fields@.len() == i,
                forall|j: int|
                    0 <= j < i ==> (#[trigger] fields@[j]).0@ == self.fields@[j].0@
                        && fields@[j].1@ == self.fields@[j].1@,
            decreases n - i,
        {
            let (k, v) = &self.fields[i];
            fields.push((k.clone(), v.clone()));
            i = i + 1;
        }
        let r = Record { fields };
        proof {
            assert(r@ =~= self@);
        }
        r
    }
}

impl Record {
    /// An object with no members.
    pub fn new() -> (r: Record)
        ensures
            r@ == Seq::<(Seq<char>, ScalarView)>::empty(),
    {
        let r = Record { fields: Vec::new() };
        proof {
            assert(r@ =~= Seq::<(Seq<char>, ScalarView)>::empty());
        }
        r
    }

    /// Adds the member `key`: `value` at the end.
    pub fn put(&mut self, key: &str, value: Scalar)
        ensures
            final(self)@ == old(self)@.push((key@, value@)),
    {
        self.fields.push((String::from_str(key), value));
        proof {
            assert(self@ =~= old(self)@.push((key@, value@)));
        }
    }

    /// Adds the member `key`: the string `value`.
    pub fn put_text(&mut self, key: &str, value: &str)
        ensures
            final(self)@ == old(self)@.push((key@, ScalarView::Str(value@))),
    {
        self.put(key, Scalar::text(value));
    }
}

/// The object with members `a`, `b`, in this order.
pub open spec fn fields2(a: (Seq<char>, ScalarView), b: (Seq<char>, ScalarView)) -> RecordView {
    seq![a].push(b)
}

/// The object with members `a`, `b`, `c`, in this order.
pub open spec fn fields3(
    a: (Seq<char>, ScalarView),
    b: (Seq<char>, ScalarView),
    c: (Seq<char>, ScalarView),
) -> RecordView {
    fields2(a, b).push(c)
}

/// The object with members `a` to `d`, in this order.
pub open spec fn fields4(
    a: (Seq<char>, ScalarView),
    b: (Seq<char>, ScalarView),
    c: (Seq<char>, ScalarView),
    d: (Seq<char>, ScalarView),
) -> RecordView {
    fields3(a, b, c).push(d)
}

/// The object with members `a` to `e`, in this order.
pub open spec fn fields5(
    a: (Seq<char>, ScalarView),
    b: (Seq<char>, ScalarView),
    c: (Seq<char>, ScalarView),
    d: (Seq<char>, ScalarView),
    e: (Seq<char>, ScalarView),
) -> RecordView {
    fields4(a, b, c, d).push(e)
}

/// The object with members `a` to `f`, in this order.
pub open spec fn fields6(
    a: (Seq<char>, ScalarView),
    b: (Seq<char>, ScalarView),
    c: (Seq<char>, ScalarView),
    d: (Seq<char>, ScalarView),
    e: (Seq<char>, ScalarView),
    f: (Seq<char>, ScalarView),
) -> RecordView {
    fields5(a, b, c, d, e).push(f)
}

/// What `serde_json::from_str::<serde_json::Value>` makes of a text, as far
/// as this client reads it: `None` when the text is not JSON; otherwise the
/// members of the top-level object, each with its string value when it has
/// one (no members when the document is not an object).
pub uninterp spec fn json_members(text: Seq<char>) -> Option<Seq<(Seq<char>, Option<Seq<char>>)>>;

/// Parses `text` with `serde_json::from_str` into a `serde_json::Value` and
/// lists its top-level members. The result is named `json_members`; nothing
/// else is claimed.
#[verifier::external_body]
fn parse_json_members(text: &str) -> (r: Option<Vec<(String, Option<String>)>>)
    ensures
        r.deep_view() == json_members(text@),
{
    match serde_json::from_str::<serde_json::Value>(text) {
        Ok(serde_json::Value::Object(m)) => Some(
            m.into_iter().map(|(k, x)| match x {
                serde_json::Value::String(s) => (k, Some(s)),
                _ => (k, None),
            }).collect(),
        ),
        Ok(_) => Some(Vec::new()),
        Err(_) => None,
    }
}

/// Whether `text` is a JSON document.
pub open spec fn is_json(text: Seq<char>) -> bool {
    json_members(text) is Some
}

/// The string value of the first member named `key`; `None` when there is no
/// such member or its value is not a string.
pub open spec fn member_text(
    members: Seq<(Seq<char>, Option<Seq<char>>)>,
    key: Seq<char>,
) -> Option<Seq<char>>
    decreases members.len(),
{
    if members.len() == 0 {
        None
    } else if members[0].0 == key {
        members[0].1
    } else {
        member_text(members.drop_first(), key)
    }
}

/// The string value of the first member named `key`, if it has one.
pub fn find_member_text(members: &Vec<(String, Option<String>)>, key: &str) -> (r: Option<
    String,
>)
    ensures
        r.deep_view() == member_text(members.deep_view(), key@),
{
    let ghost mv = members.deep_view();
    let n: usize = members.len();
    let mut i: usize = 0;
    proof {
        assert(mv.skip(0) =~= mv);
    }
    while i < n
        invariant
            n == members@.len(),
            mv == members.deep_view(),
            i <= n,
            member_text(mv, key@) == member_text(mv.skip(i as int), key@),
        decreases n - i,
    {
        proof {
            assert(mv.skip(i as int).drop_first() =~= mv.skip(i + 1));
            assert(mv.skip(i as int)[0] == mv[i as int]);
        }
        if crate::text::same_text(members[i].0.as_str(), key) {
            return match &members[i].1 {
                Some(s) => Some(s.clone()),
                None => None,
            };
        }
        i = i + 1;
    }
    None
}

/// The message among the top-level members of a body: its `error` string,
/// else its `message` string.
pub open spec fn members_error_message(ms: Seq<(Seq<char>, Option<Seq<char>>)>) -> Option<
    Seq<char>,
> {
    match member_text(ms, "error"@) {
        Some(e) => Some(e),
        None => member_text(ms, "message"@),
    }
}

/// The error message among the top-level members of a parsed body.
pub fn error_message_of_members(members: &Vec<(String, Option<String>)>) -> (r: Option<String>)
    ensures
        r.deep_view() == members_error_message(members.deep_view()),
{
    match find_member_text(members, "error") {
        Some(e) => Some(e),
        None => find_member_text(members, "message"),
    }
}

/// The message a failed response body carries: its top-level `error` string,
/// else its `message` string.
pub open spec fn body_error_message(text: Seq<char>) -> Option<Seq<char>> {
    match json_members(text) {
        None => None,
        Some(ms) => members_error_message(ms),
    }
}

/// The error message in a response body, if it has one.
pub fn extract_error_message(text: &str) -> (r: Option<String>)
    ensures
        r.deep_view() == body_error_message(text@),
{
    match parse_json_members(text) {
        Some(members) => error_message_of_members(&members),
        None => None,
    }
}

/// The value a response body stands for: nothing for a blank body, the JSON
/// document when it is one, else the text itself.
pub open spec fn body_value(text: Seq<char>) -> ScalarView {
    if is_blank(text) {
        ScalarView::Null
    } else if is_json(text) {
        ScalarView::Json(text)
    } else {
        ScalarView::Str(text)
    }
}

/// Reads a response body as JSON, or as plain text when it is not JSON.
pub fn parse_json_or_string(text: &str) -> (r: Scalar)
    ensures
        r@ == body_value(text@),
{
    if blank(text) {
        Scalar::Null
    } else {
        match parse_json_members(text) {
            Some(_) => Scalar::Json(String::from_str(text)),
            None => Scalar::Str(String::from_str(text)),
        }
    }
}

} // verus!
