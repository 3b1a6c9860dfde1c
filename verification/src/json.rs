//! A plain model of JSON documents, the parse of response bodies into it,
//! and the lookups that the response envelope needs.

use vstd::prelude::*;

verus! {

broadcast use vstd::string::group_string_axioms;

/// Declares `serde_json::Value`, the document type of the JSON parser.
#[verifier::external_type_specification]
#[verifier::external_body]
pub struct ExJsonValue(serde_json::Value);

/// Declares `serde_json::Error`, the parser's error.
#[verifier::external_type_specification]
#[verifier::external_body]
pub struct ExJsonError(serde_json::Error);

/// A JSON document. A number is kept as text: a parsed number as the JSON
/// parser renders it, which need not be the text it was written with. An
/// object is the list of its members in order; where two members share a
/// name, lookups here take the first.
#[derive(Debug)]
pub enum Json {
    /// `null`.
    Null,
    /// `true` or `false`.
    Bool(bool),
    /// A number, as text (a parsed number as the parser renders it).
    Number(String),
    /// A string.
    Str(String),
    /// An array of documents.
    Array(Vec<Json>),
    /// An object: its members, name and value, in order.
    Object(Vec<(String, Json)>),
}

/// The value of the first member named `key` among `members`.
pub open spec fn member(members: Seq<(String, Json)>, key: Seq<char>) -> Option<Json>
    decreases members.len(),
{
    if members.len() == 0 {
        None
    } else if members[0].0@ == key {
        Some(members[0].1)
    } else {
        member(members.drop_first(), key)
    }
}

/// `j[key]`: the member `key` of an object; `None` for anything else.
pub open spec fn get(j: Json, key: Seq<char>) -> Option<Json> {
    match j {
        Json::Object(m) => member(m@, key),
        _ => None,
    }
}

/// The text of a JSON string; `None` for anything else.
pub open spec fn as_str(j: Json) -> Option<Seq<char>> {
    match j {
        Json::Str(s) => Some(s@),
        _ => None,
    }
}

/// The first element of a non-empty array; `None` for anything else.
pub open spec fn first(j: Json) -> Option<Json> {
    match j {
        Json::Array(a) => if a@.len() > 0 {
            Some(a@[0])
        } else {
            None
        },
        _ => None,
    }
}

/// `j[key]` when `j` is present.
pub open spec fn get_opt(j: Option<Json>, key: Seq<char>) -> Option<Json> {
    match j {
        Some(v) => get(v, key),
        None => None,
    }
}

/// The text of `j` when it is present and a string.
pub open spec fn str_opt(j: Option<Json>) -> Option<Seq<char>> {
    match j {
        Some(v) => as_str(v),
        None => None,
    }
}

/// The first element of `j` when it is present and a non-empty array.
pub open spec fn first_opt(j: Option<Json>) -> Option<Json> {
    match j {
        Some(v) => first(v),
        None => None,
    }
}

/// The document that the JSON parser (`serde_json::from_str`) reads from
/// `text`, or `None` when `text` is not valid JSON.
pub uninterp spec fn parsed_json(text: Seq<char>) -> Option<Json>;

/// Parses `text` with `serde_json::from_str::<serde_json::Value>`.
/// The contract claims that the outcome depends on `text` alone: an `Ok`
/// exactly when the parser accepts it, carrying the document named by
/// [`parsed_json`]. What the parser accepts is not stated.
#[verifier::external_body]
pub(crate) fn parse_json(text: &str) -> (r: Result<Json, serde_json::Error>)
    ensures
        r is Ok <==> parsed_json(text@) is Some,
        r matches Ok(j) ==> parsed_json(text@) == Some(j),
{
    serde_json::from_str::<serde_json::Value>(text).map(document_of_value)
}

/// Turns the parser's document into a [`Json`], one node for one node.
#[verifier::external_body]
fn document_of_value(v: serde_json::Value) -> Json {
    match v {
        serde_json::Value::Null => Json::Null,
        serde_json::Value::Bool(b) => Json::Bool(b),
        serde_json::Value::Number(n) => Json::Number(n.to_string()),
        serde_json::Value::String(s) => Json::Str(s),
        serde_json::Value::Array(a) => Json::Array(a.into_iter().map(document_of_value).collect()),
        serde_json::Value::Object(m) => Json::Object(
            m.into_iter().map(|(k, v)| (k, document_of_value(v))).collect(),
        ),
    }
}

/// Whether `a` and `b` are the same document: the same kind, the same
/// text, and item for item, member for member, the same contents.
pub open spec fn same_doc(a: Json, b: Json) -> bool
    decreases a, 1nat,
{
    match a {
        Json::Null => b is Null,
        Json::Bool(x) => b == Json::Bool(x),
        Json::Number(x) => b matches Json::Number(y) && x@ == y@,
        Json::Str(x) => b matches Json::Str(y) && x@ == y@,
        Json::Array(x) => b matches Json::Array(y) && same_items(x@, y@),
        Json::Object(x) => b matches Json::Object(y) && same_members(x@, y@),
    }
}

/// Whether `x` and `y` hold the same documents, in order.
pub open spec fn same_items(x: Seq<Json>, y: Seq<Json>) -> bool
    decreases x, 0nat,
{
    if x.len() == 0 {
        y.len() == 0
    } else {
        y.len() == x.len() && same_doc(x.last(), y.last()) && same_items(x.drop_last(), y.drop_last())
    }
}

/// Whether `x` and `y` hold the same members, in order.
pub open spec fn same_members(x: Seq<(String, Json)>, y: Seq<(String, Json)>) -> bool
    decreases x, 0nat,
{
    if x.len() == 0 {
        y.len() == 0
    } else {
        y.len() == x.len() && x.last().0@ == y.last().0@ && same_doc(x.last().1, y.last().1)
            && same_members(x.drop_last(), y.drop_last())
    }
}

/// A copy of `j`.
pub fn copy_doc(j: &Json) -> (r: Json)
    ensures
        same_doc(*j, r),
    decreases *j,
{
    match j {
        Json::Null => Json::Null,
        Json::Bool(b) => Json::Bool(*b),
        Json::Number(t) => Json::Number(t.clone()),
        Json::Str(t) => Json::Str(t.clone()),
        Json::Array(a) => {
            let mut out: Vec<Json> = Vec::new();
            let mut i: usize = 0;
            while i < a.len()
                invariant
                    i <= a@.len(),
                    *j == Json::Array(*a),
                    same_items(a@.take(i as int), out@),
                decreases a.len() - i,
            {
                proof {
                    vstd::std_specs::vec::axiom_vec_index_decreases(*a, i as int);
                    assert(decreases_to!(*j => (*j)->Array_0));
                }
                let c = copy_doc(&a[i]);
                let ghost before = out@;
                out.push(c);
                assert(a@.take(i + 1).drop_last() == a@.take(i as int));
                assert(out@.drop_last() == before);
                i = i + 1;
            }
            assert(a@.take(a@.len() as int) == a@);
            Json::Array(out)
        },
        Json::Object(m) => {
            let mut out: Vec<(String, Json)> = Vec::new();
            let mut i: usize = 0;
            while i < m.len()
                invariant
                    i <= m@.len(),
                    *j == Json::Object(*m),
                    same_members(m@.take(i as int), out@),
                decreases m.len() - i,
            {
                proof {
                    vstd::std_specs::vec::axiom_vec_index_decreases(*m, i as int);
                    assert(decreases_to!(*j => (*j)->Object_0));
                    assert(decreases_to!(m[i as int] => m[i as int].1));
                }
                let c = copy_doc(&m[i].1);
                let ghost before = out@;
                out.push((m[i].0.clone(), c));
                assert(m@.take(i + 1).drop_last() == m@.take(i as int));
                assert(out@.drop_last() == before);
                i = i + 1;
            }
            assert(m@.take(m@.len() as int) == m@);
            Json::Object(out)
        },
    }
}

impl Clone for Json {
    /// A copy of the document.
    fn clone(&self) -> (r: Json)
        ensures
            same_doc(*self, r),
    {
        copy_doc(self)
    }
}

impl Default for Json {
    /// `null`, the value an absent document stands for.
    fn default() -> (j: Json)
        ensures
            j == Json::Null,
    {
        Json::Null
    }
}

impl Json {
    /// `self[key]`: the first member named `key` of an object.
    pub fn get(&self, key: &str) -> (r: Option<&Json>)
        ensures
            r is None <==> get(*self, key@) is None,
            r matches Some(v) ==> get(*self, key@) == Some(*v),
    {
        match self {
            Json::Object(m) => {
                let wanted = key.to_string();
                let mut i: usize = 0;
                assert(m@.skip(0) == m@);
                while i < m.len()
                    invariant
                        i <= m@.len(),
                        wanted@ == key@,
                        get(*self, key@) == member(m@, key@),
                        member(m@, key@) == member(m@.skip(i as int), key@),
                    decreases m.len() - i,
                {
                    assert(m@.skip(i + 1) == m@.skip(i as int).drop_first());
                    assert(m@.skip(i as int)[0] == m@[i as int]);
                    if m[i].0 == wanted {
                        assert(member(m@.skip(i as int), key@) == Some(m@[i as int].1));
                        return Some(&m[i].1);
                    }
                    i = i + 1;
                }
                assert(m@.skip(i as int).len() == 0);
                None
            },
            _ => None,
        }
    }

    /// The text of a JSON string.
    pub fn as_str(&self) -> (r: Option<&String>)
        ensures
            r is None <==> as_str(*self) is None,
            r matches Some(s) ==> as_str(*self) == Some(s@),
    {
        match self {
            Json::Str(s) => Some(s),
            _ => None,
        }
    }

    /// The first element of a non-empty array.
    pub fn first(&self) -> (r: Option<&Json>)
        ensures
            r is None <==> first(*self) is None,
            r matches Some(v) ==> first(*self) == Some(*v),
    {
        match self {
            Json::Array(a) => if a.len() > 0 {
                Some(&a[0])
            } else {
                None
            },
            _ => None,
        }
    }

    /// Moves out `self[key]`, the first member named `key` of an object.
    pub fn take(self, key: &str) -> (r: Option<Json>)
        ensures
            r == get(self, key@),
    {
        match self {
            Json::Object(m) => {
                let ghost whole = m@;
                let wanted = key.to_string();
                let mut m = m;
                let mut i: usize = 0;
                assert(m@.skip(0) == m@);
                while i < m.len()
                    invariant
                        i <= m@.len(),
                        m@ == whole,
                        get(self, key@) == member(whole, key@),
                        wanted@ == key@,
                        member(whole, key@) == member(m@.skip(i as int), key@),
                    decreases m.len() - i,
                {
                    assert(m@.skip(i + 1) == m@.skip(i as int).drop_first());
                    assert(m@.skip(i as int)[0] == m@[i as int]);
                    if m[i].0 == wanted {
                        assert(member(m@.skip(i as int), key@) == Some(m@[i as int].1));
                        let (_, v) = m.swap_remove(i);
                        return Some(v);
                    }
                    i = i + 1;
                }
                assert(m@.skip(i as int).len() == 0);
                None
            },
            _ => None,
        }
    }

    /// Moves out the first element of a non-empty array.
    pub fn take_first(self) -> (r: Option<Json>)
        ensures
            r == first(self),
    {
        match self {
            Json::Array(a) => {
                let mut a = a;
                if a.len() > 0 {
                    Some(a.swap_remove(0))
                } else {
                    None
                }
            },
            _ => None,
        }
    }
}

} // verus!
