//! GraphQL requests: the query text, the variables object, and the member
//! of the response's `data` object that holds the answer.

use crate::json::{member, Json};
use crate::text::{decimal_int, decimal_string};
use base64::Engine;
use vstd::prelude::*;

verus! {

broadcast use vstd::string::group_string_axioms;

/// What a JSON value built for a request is expected to hold.
pub enum Expected {
    /// A string with this text.
    Text(Seq<char>),
    /// A number with this integer value.
    Int(int),
    /// A boolean.
    Flag(bool),
    /// Exactly this document.
    Doc(Json),
    /// An array of strings with these texts.
    Texts(Seq<Seq<char>>),
    /// An object with exactly these members, in this order.
    Obj(Seq<(Seq<char>, Expected)>),
    /// An array whose items hold, one for one, what these describe.
    List(Seq<Expected>),
}

/// Whether `j` holds what `e` describes.
pub open spec fn holds(j: Json, e: Expected) -> bool
    decreases e, 1nat,
{
    match e {
        Expected::Text(s) => j matches Json::Str(t) && t@ == s,
        Expected::Int(i) => j matches Json::Number(t) && t@ == decimal_int(i),
        Expected::Flag(b) => j == Json::Bool(b),
        Expected::Doc(d) => j == d,
        Expected::Texts(l) => j matches Json::Array(a) && a@.len() == l.len() && (forall|k: int|
            0 <= k < l.len() ==> #[trigger] as_text(a@[k]) == Some(l[k])),
        Expected::Obj(fields) => j matches Json::Object(m) && members_hold(m@, fields),
        Expected::List(l) => j matches Json::Array(a) && items_hold(a@, l),
    }
}

/// Whether the items `a` hold, one for one and in order, what `l` describes.
pub open spec fn items_hold(a: Seq<Json>, l: Seq<Expected>) -> bool
    decreases l, 0nat,
{
    if l.len() == 0 {
        a.len() == 0
    } else {
        a.len() == l.len() && holds(a.last(), l.last()) && items_hold(a.drop_last(), l.drop_last())
    }
}

/// The text of a JSON string.
pub open spec fn as_text(j: Json) -> Option<Seq<char>> {
    crate::json::as_str(j)
}

/// Whether the members `m` are, one for one and in order, the members
/// `fields` describes.
pub open spec fn members_hold(m: Seq<(String, Json)>, fields: Seq<(Seq<char>, Expected)>) -> bool
    decreases fields, 0nat,
{
    if fields.len() == 0 {
        m.len() == 0
    } else {
        m.len() == fields.len() && m.last().0@ == fields.last().0 && holds(
            m.last().1,
            fields.last().1,
        ) && members_hold(m.drop_last(), fields.drop_last())
    }
}

/// What the first member named `key` among `fields` is described to hold.
pub open spec fn lookup(fields: Seq<(Seq<char>, Expected)>, key: Seq<char>) -> Option<Expected>
    decreases fields.len(),
{
    if fields.len() == 0 {
        None
    } else if fields[0].0 == key {
        Some(fields[0].1)
    } else {
        lookup(fields.drop_first(), key)
    }
}

/// Looking a name up in members described one after another finds it in
/// the first part when it is there, else in the second.
pub broadcast proof fn lemma_lookup_concat(
    a: Seq<(Seq<char>, Expected)>,
    b: Seq<(Seq<char>, Expected)>,
    key: Seq<char>,
)
    ensures
        #[trigger] lookup(a + b, key) == (match lookup(a, key) {
            Some(e) => Some(e),
            None => lookup(b, key),
        }),
    decreases a.len(),
{
    if a.len() == 0 {
        assert(a + b == b);
    } else {
        assert((a + b)[0] == a[0]);
        assert((a + b).drop_first() == a.drop_first() + b);
        lemma_lookup_concat(a.drop_first(), b, key);
    }
}

/// Looking a name up in an optional text member.
pub broadcast proof fn lemma_lookup_opt_text(k: Seq<char>, v: Option<String>, key: Seq<char>)
    ensures
        #[trigger] lookup(opt_text(k, v), key) == (if k == key && v is Some {
            Some(Expected::Text(v->0@))
        } else {
            None::<Expected>
        }),
{
    reveal_with_fuel(lookup, 2);
}

/// Looking a name up in an optional borrowed text member.
pub broadcast proof fn lemma_lookup_opt_str(k: Seq<char>, v: Option<&str>, key: Seq<char>)
    ensures
        #[trigger] lookup(opt_str(k, v), key) == (if k == key && v is Some {
            Some(Expected::Text(v->0@))
        } else {
            None::<Expected>
        }),
{
    reveal_with_fuel(lookup, 2);
}

/// Looking a name up in an optional number member.
pub broadcast proof fn lemma_lookup_opt_int(k: Seq<char>, v: Option<i32>, key: Seq<char>)
    ensures
        #[trigger] lookup(opt_int(k, v), key) == (if k == key && v is Some {
            Some(Expected::Int(v->0 as int))
        } else {
            None::<Expected>
        }),
{
    reveal_with_fuel(lookup, 2);
}

/// Looking a name up in an optional boolean member.
pub broadcast proof fn lemma_lookup_opt_flag(k: Seq<char>, v: Option<bool>, key: Seq<char>)
    ensures
        #[trigger] lookup(opt_flag(k, v), key) == (if k == key && v is Some {
            Some(Expected::Flag(v->0))
        } else {
            None::<Expected>
        }),
{
    reveal_with_fuel(lookup, 2);
}

/// Looking a name up in an optional list of strings.
pub broadcast proof fn lemma_lookup_opt_texts(k: Seq<char>, v: Option<Vec<String>>, key: Seq<char>)
    ensures
        #[trigger] lookup(opt_texts(k, v), key) == (if k == key && v is Some {
            Some(Expected::Texts(texts(v->0@)))
        } else {
            None::<Expected>
        }),
{
    reveal_with_fuel(lookup, 2);
}

/// Looking a name up in an optional document member.
pub broadcast proof fn lemma_lookup_opt_doc(k: Seq<char>, v: Option<Json>, key: Seq<char>)
    ensures
        #[trigger] lookup(opt_doc(k, v), key) == (if k == key && v is Some {
            Some(Expected::Doc(v->0))
        } else {
            None::<Expected>
        }),
{
    reveal_with_fuel(lookup, 2);
}

/// Looking a name up in an optional object member.
pub broadcast proof fn lemma_lookup_opt_members(
    k: Seq<char>,
    v: Option<Vec<(String, Json)>>,
    key: Seq<char>,
)
    ensures
        #[trigger] lookup(opt_members(k, v), key) == (if k == key && v is Some {
            Some(Expected::Doc(Json::Object(v->0)))
        } else {
            None::<Expected>
        }),
{
    reveal_with_fuel(lookup, 2);
}

/// Looking a name up in one member.
pub broadcast proof fn lemma_lookup_field(k: Seq<char>, e: Expected, key: Seq<char>)
    ensures
        #[trigger] lookup(field(k, e), key) == (if k == key {
            Some(e)
        } else {
            None::<Expected>
        }),
{
    reveal_with_fuel(lookup, 2);
}

/// Looking a name up where nothing is described.
pub broadcast proof fn lemma_lookup_empty(key: Seq<char>)
    ensures
        #[trigger] lookup(Seq::<(Seq<char>, Expected)>::empty(), key) is None,
{
}

/// The facts for looking names up in described members.
pub broadcast group group_lookup {
    lemma_lookup_concat,
    lemma_lookup_opt_text,
    lemma_lookup_opt_str,
    lemma_lookup_opt_int,
    lemma_lookup_opt_flag,
    lemma_lookup_opt_texts,
    lemma_lookup_opt_doc,
    lemma_lookup_opt_members,
    lemma_lookup_field,
    lemma_lookup_empty,
}

/// Members and their description agree position by position.
pub open spec fn pairwise_hold(m: Seq<(String, Json)>, fields: Seq<(Seq<char>, Expected)>) -> bool {
    &&& m.len() == fields.len()
    &&& forall|i: int| 0 <= i < m.len() ==> #[trigger] m[i].0@ == fields[i].0 && holds(m[i].1, fields[i].1)
}

proof fn lemma_members_hold_pairwise(m: Seq<(String, Json)>, fields: Seq<(Seq<char>, Expected)>)
    requires
        members_hold(m, fields),
    ensures
        pairwise_hold(m, fields),
    decreases fields.len(),
{
    if fields.len() > 0 {
        lemma_members_hold_pairwise(m.drop_last(), fields.drop_last());
        assert forall|i: int| 0 <= i < m.len() implies #[trigger] m[i].0@ == fields[i].0 && holds(
            m[i].1,
            fields[i].1,
        ) by {
            if i < m.len() - 1 {
                assert(m[i] == m.drop_last()[i]);
                assert(fields[i] == fields.drop_last()[i]);
            }
        }
    }
}

proof fn lemma_pairwise_member(m: Seq<(String, Json)>, fields: Seq<(Seq<char>, Expected)>, key: Seq<char>)
    requires
        pairwise_hold(m, fields),
    ensures
        lookup(fields, key) is None ==> member(m, key) is None,
        lookup(fields, key) matches Some(e) ==> (member(m, key) matches Some(j) && holds(j, e)),
    decreases m.len(),
{
    if m.len() > 0 {
        assert(m[0].0@ == fields[0].0 && holds(m[0].1, fields[0].1));
        if fields[0].0 != key {
            assert forall|i: int| 0 <= i < m.drop_first().len() implies #[trigger] m.drop_first()[i].0@
                == fields.drop_first()[i].0 && holds(m.drop_first()[i].1, fields.drop_first()[i].1) by {
                assert(m.drop_first()[i] == m[i + 1]);
                assert(fields.drop_first()[i] == fields[i + 1]);
            }
            lemma_pairwise_member(m.drop_first(), fields.drop_first(), key);
        }
    }
}

/// The member `key` of an object whose members hold what `fields`
/// describes is there exactly when `fields` names it, and holds what the
/// first such description says.
pub proof fn lemma_member_described(m: Seq<(String, Json)>, fields: Seq<(Seq<char>, Expected)>, key: Seq<char>)
    requires
        members_hold(m, fields),
    ensures
        lookup(fields, key) is None ==> member(m, key) is None,
        lookup(fields, key) matches Some(e) ==> (member(m, key) matches Some(j) && holds(j, e)),
{
    lemma_members_hold_pairwise(m, fields);
    lemma_pairwise_member(m, fields, key);
}

/// The member `key` of the variables that `r` sends.
pub open spec fn variable(r: GraphQLRequest, key: Seq<char>) -> Option<Json> {
    match r.variables {
        Some(m) => member(m@, key),
        None => None,
    }
}

/// The member `key` of `j`, when `j` is an object.
pub open spec fn member_of(j: Option<Json>, key: Seq<char>) -> Option<Json> {
    match j {
        Some(Json::Object(m)) => member(m@, key),
        _ => None,
    }
}

/// The text of `j`, when it is a string.
pub open spec fn text_of(j: Option<Json>) -> Option<Seq<char>> {
    match j {
        Some(Json::Str(t)) => Some(t@),
        _ => None,
    }
}

/// The integer `j` is written as, when it is a number written in decimal.
pub open spec fn number_is(j: Option<Json>, i: int) -> bool {
    j matches Some(Json::Number(t)) && t@ == decimal_int(i)
}

/// What an optional text option is sent as: its text under its name, or
/// nothing at all.
pub open spec fn sent_text(j: Option<Json>, value: Option<String>) -> bool {
    match value {
        Some(v) => text_of(j) == Some(v@),
        None => j is None,
    }
}

/// What an optional borrowed text argument is sent as: its text under its
/// name, or nothing at all.
pub open spec fn sent_str(j: Option<Json>, value: Option<&str>) -> bool {
    match value {
        Some(v) => text_of(j) == Some(v@),
        None => j is None,
    }
}

/// What an optional integer option is sent as: its decimal number under
/// its name, or nothing at all.
pub open spec fn sent_int(j: Option<Json>, value: Option<i32>) -> bool {
    match value {
        Some(v) => number_is(j, v as int),
        None => j is None,
    }
}

/// What an optional flag is sent as: the boolean under its name, or nothing
/// at all.
pub open spec fn sent_flag(j: Option<Json>, value: Option<bool>) -> bool {
    match value {
        Some(v) => j == Some(Json::Bool(v)),
        None => j is None,
    }
}

/// The variables a request sends hold what its description says: a member
/// is there exactly when the description names it, holding what the first
/// such description says.
pub proof fn lemma_variable_described(
    r: GraphQLRequest,
    query: Seq<char>,
    fields: Seq<(Seq<char>, Expected)>,
    answer: Seq<char>,
    key: Seq<char>,
)
    requires
        request_is(r, query, Some(fields), answer),
    ensures
        lookup(fields, key) is None ==> variable(r, key) is None,
        lookup(fields, key) matches Some(e) ==> (variable(r, key) matches Some(j) && holds(j, e)),
{
    let m = r.variables->0;
    lemma_member_described(m@, fields, key);
}

/// A member `key` holding `e`.
pub open spec fn field(key: Seq<char>, e: Expected) -> Seq<(Seq<char>, Expected)> {
    seq![(key, e)]
}

/// A member `key` holding the text of `value`, when there is one.
pub open spec fn opt_text(key: Seq<char>, value: Option<String>) -> Seq<(Seq<char>, Expected)> {
    match value {
        Some(s) => seq![(key, Expected::Text(s@))],
        None => seq![],
    }
}

/// A member `key` holding the number `value`, when there is one.
pub open spec fn opt_int(key: Seq<char>, value: Option<i32>) -> Seq<(Seq<char>, Expected)> {
    match value {
        Some(i) => seq![(key, Expected::Int(i as int))],
        None => seq![],
    }
}

/// A member `key` holding the boolean `value`, when there is one.
pub open spec fn opt_flag(key: Seq<char>, value: Option<bool>) -> Seq<(Seq<char>, Expected)> {
    match value {
        Some(b) => seq![(key, Expected::Flag(b))],
        None => seq![],
    }
}

/// A member `key` holding the document `value`, when there is one.
pub open spec fn opt_doc(key: Seq<char>, value: Option<Json>) -> Seq<(Seq<char>, Expected)> {
    match value {
        Some(d) => seq![(key, Expected::Doc(d))],
        None => seq![],
    }
}

/// A member `key` holding the text of `value`, when there is one.
pub open spec fn opt_str(key: Seq<char>, value: Option<&str>) -> Seq<(Seq<char>, Expected)> {
    match value {
        Some(s) => seq![(key, Expected::Text(s@))],
        None => seq![],
    }
}

/// A member `key` holding the text of `value`, or `null`.
pub open spec fn text_or_null(key: Seq<char>, value: Option<String>) -> Seq<(Seq<char>, Expected)> {
    match value {
        Some(s) => seq![(key, Expected::Text(s@))],
        None => seq![(key, Expected::Doc(Json::Null))],
    }
}

/// A member `key` holding an object with the members `value`, when there
/// are some.
pub open spec fn opt_members(key: Seq<char>, value: Option<Vec<(String, Json)>>) -> Seq<
    (Seq<char>, Expected),
> {
    match value {
        Some(m) => seq![(key, Expected::Doc(Json::Object(m)))],
        None => seq![],
    }
}

/// A member `key` holding the document `value`, or `null`.
pub open spec fn doc_or_null(key: Seq<char>, value: Option<Json>) -> Seq<(Seq<char>, Expected)> {
    match value {
        Some(d) => seq![(key, Expected::Doc(d))],
        None => seq![(key, Expected::Doc(Json::Null))],
    }
}

/// A member `key` holding the strings `value`, or `null`.
pub open spec fn texts_or_null(key: Seq<char>, value: Option<Vec<String>>) -> Seq<
    (Seq<char>, Expected),
> {
    match value {
        Some(v) => seq![(key, Expected::Texts(texts(v@)))],
        None => seq![(key, Expected::Doc(Json::Null))],
    }
}

/// The texts of a list of strings.
pub open spec fn texts(v: Seq<String>) -> Seq<Seq<char>> {
    v.map_values(|s: String| s@)
}

/// A member `key` holding the strings `value`, when there are some.
pub open spec fn opt_texts(key: Seq<char>, value: Option<Vec<String>>) -> Seq<
    (Seq<char>, Expected),
> {
    match value {
        Some(v) => seq![(key, Expected::Texts(texts(v@)))],
        None => seq![],
    }
}

/// The text that the standard base64 alphabet, with `=` padding, encodes
/// `bytes` as.
pub uninterp spec fn base64_standard(bytes: Seq<u8>) -> Seq<char>;

/// Encodes `bytes` with `base64::engine::general_purpose::STANDARD`. Trusted:
/// the result is the padded standard encoding of exactly these bytes, four
/// characters for every started group of three bytes. The encoder panics
/// only when that length overflows `usize`, which `requires` rules out.
#[verifier::external_body]
pub(crate) fn base64_encode(bytes: &[u8]) -> (s: String)
    requires
        bytes@.len() / 3 * 4 + 4 <= usize::MAX,
    ensures
        s@ == base64_standard(bytes@),
        s@.len() == (bytes@.len() + 2) / 3 * 4,
{
    base64::engine::general_purpose::STANDARD.encode(bytes)
}

/// A JSON object under construction, with the description of what it holds.
/// Members are appended in order; adding a name that is already there adds
/// a second member, and lookups of that name find the first. The requests
/// of this library each name a member once.
pub struct ObjectBuilder {
    /// The members so far.
    pub members: Vec<(String, Json)>,
    /// What the members hold.
    pub expected: Ghost<Seq<(Seq<char>, Expected)>>,
}

impl ObjectBuilder {
    /// The members hold what is described.
    pub open spec fn wf(&self) -> bool {
        members_hold(self.members@, self.expected@)
    }

    /// An object without members.
    pub fn new() -> (b: ObjectBuilder)
        ensures
            b.wf(),
            b.expected@ == Seq::<(Seq<char>, Expected)>::empty(),
    {
        ObjectBuilder { members: Vec::new(), expected: Ghost(Seq::empty()) }
    }

    fn push(&mut self, key: &str, value: Json, Ghost(e): Ghost<Expected>)
        requires
            old(self).wf(),
            holds(value, e),
        ensures
            final(self).wf(),
            final(self).expected@ == old(self).expected@ + field(key@, e),
    {
        let ghost old_members = self.members@;
        let ghost old_expected = self.expected@;
        self.members.push((String::from_str(key), value));
        self.expected = Ghost(self.expected@ + field(key@, e));
        assert(self.members@.drop_last() == old_members);
        assert(self.expected@.drop_last() == old_expected);
    }

    /// Adds the member `key` holding the string `value`.
    pub fn put_text(&mut self, key: &str, value: &str)
        requires
            old(self).wf(),
        ensures
            final(self).wf(),
            final(self).expected@ == old(self).expected@ + field(key@, Expected::Text(value@)),
    {
        self.push(key, Json::Str(String::from_str(value)), Ghost(Expected::Text(value@)));
    }

    /// Adds the member `key` holding the string `value`, when there is one.
    pub fn put_opt_text(&mut self, key: &str, value: Option<String>)
        requires
            old(self).wf(),
        ensures
            final(self).wf(),
            final(self).expected@ == old(self).expected@ + opt_text(key@, value),
    {
        match value {
            Some(s) => {
                let ghost t = s@;
                self.push(key, Json::Str(s), Ghost(Expected::Text(t)));
            },
            None => {
                assert(self.expected@ + opt_text(key@, value) == self.expected@);
            },
        }
    }

    /// Adds the member `key` holding the number `value`.
    pub fn put_int(&mut self, key: &str, value: i64)
        requires
            old(self).wf(),
        ensures
            final(self).wf(),
            final(self).expected@ == old(self).expected@ + field(key@, Expected::Int(value as int)),
    {
        self.push(key, Json::Number(decimal_string(value)), Ghost(Expected::Int(value as int)));
    }

    /// Adds the member `key` holding the number `value`, when there is one.
    pub fn put_opt_int(&mut self, key: &str, value: Option<i32>)
        requires
            old(self).wf(),
        ensures
            final(self).wf(),
            final(self).expected@ == old(self).expected@ + opt_int(key@, value),
    {
        match value {
            Some(i) => {
                self.put_int(key, i as i64);
            },
            None => {
                assert(self.expected@ + opt_int(key@, value) == self.expected@);
            },
        }
    }

    /// Adds the member `key` holding the boolean `value`.
    pub fn put_flag(&mut self, key: &str, value: bool)
        requires
            old(self).wf(),
        ensures
            final(self).wf(),
            final(self).expected@ == old(self).expected@ + field(key@, Expected::Flag(value)),
    {
        self.push(key, Json::Bool(value), Ghost(Expected::Flag(value)));
    }

    /// Adds the member `key` holding the boolean `value`, when there is one.
    pub fn put_opt_flag(&mut self, key: &str, value: Option<bool>)
        requires
            old(self).wf(),
        ensures
            final(self).wf(),
            final(self).expected@ == old(self).expected@ + opt_flag(key@, value),
    {
        match value {
            Some(b) => {
                self.put_flag(key, b);
            },
            None => {
                assert(self.expected@ + opt_flag(key@, value) == self.expected@);
            },
        }
    }

    /// Adds the member `key` holding the document `value`.
    pub fn put_doc(&mut self, key: &str, value: Json)
        requires
            old(self).wf(),
        ensures
            final(self).wf(),
            final(self).expected@ == old(self).expected@ + field(key@, Expected::Doc(value)),
    {
        let ghost d = value;
        self.push(key, value, Ghost(Expected::Doc(d)));
    }

    /// Adds the member `key` holding the document `value`, when there is one.
    pub fn put_opt_doc(&mut self, key: &str, value: Option<Json>)
        requires
            old(self).wf(),
        ensures
            final(self).wf(),
            final(self).expected@ == old(self).expected@ + opt_doc(key@, value),
    {
        match value {
            Some(d) => {
                self.put_doc(key, d);
            },
            None => {
                assert(self.expected@ + opt_doc(key@, value) == self.expected@);
            },
        }
    }

    /// Adds the member `key` holding the strings `value`.
    pub fn put_texts(&mut self, key: &str, value: Vec<String>)
        requires
            old(self).wf(),
        ensures
            final(self).wf(),
            final(self).expected@ == old(self).expected@ + field(
                key@,
                Expected::Texts(texts(value@)),
            ),
    {
        let ghost l = texts(value@);
        let mut items: Vec<Json> = Vec::new();
        let mut rest = value;
        let ghost all = rest@;
        let mut taken: usize = 0;
        let n = rest.len();
        while taken < n
            invariant
                n == all.len(),
                taken <= n,
                l == texts(all),
                rest@ == all.subrange(taken as int, n as int),
                items@.len() == taken,
                forall|k: int| 0 <= k < taken ==> #[trigger] as_text(items@[k]) == Some(l[k]),
            decreases n - taken,
        {
            let s = rest.remove(0);
            items.push(Json::Str(s));
            assert(rest@ == all.subrange(taken + 1, n as int));
            taken = taken + 1;
        }
        self.push(key, Json::Array(items), Ghost(Expected::Texts(l)));
    }

    /// Adds the member `key` holding the strings `value`, when there are
    /// some.
    pub fn put_opt_texts(&mut self, key: &str, value: Option<Vec<String>>)
        requires
            old(self).wf(),
        ensures
            final(self).wf(),
            final(self).expected@ == old(self).expected@ + opt_texts(key@, value),
    {
        match value {
            Some(v) => {
                self.put_texts(key, v);
            },
            None => {
                assert(self.expected@ + opt_texts(key@, value) == self.expected@);
            },
        }
    }

    /// Adds the member `key` holding the string `value`.
    pub fn put_string(&mut self, key: &str, value: String)
        requires
            old(self).wf(),
        ensures
            final(self).wf(),
            final(self).expected@ == old(self).expected@ + field(key@, Expected::Text(value@)),
    {
        let ghost t = value@;
        self.push(key, Json::Str(value), Ghost(Expected::Text(t)));
    }

    /// Adds the member `key` holding the string `value`, when there is one.
    pub fn put_opt_str(&mut self, key: &str, value: Option<&str>)
        requires
            old(self).wf(),
        ensures
            final(self).wf(),
            final(self).expected@ == old(self).expected@ + opt_str(key@, value),
    {
        match value {
            Some(s) => {
                self.put_text(key, s);
            },
            None => {
                assert(self.expected@ + opt_str(key@, value) == self.expected@);
            },
        }
    }

    /// Adds the member `key` holding the string `value`, or `null`.
    pub fn put_text_or_null(&mut self, key: &str, value: Option<String>)
        requires
            old(self).wf(),
        ensures
            final(self).wf(),
            final(self).expected@ == old(self).expected@ + text_or_null(key@, value),
    {
        match value {
            Some(s) => {
                self.put_string(key, s);
            },
            None => {
                self.put_doc(key, Json::Null);
            },
        }
    }

    /// Adds the member `key` holding the document `value`, or `null`.
    pub fn put_doc_or_null(&mut self, key: &str, value: Option<Json>)
        requires
            old(self).wf(),
        ensures
            final(self).wf(),
            final(self).expected@ == old(self).expected@ + doc_or_null(key@, value),
    {
        match value {
            Some(d) => {
                self.put_doc(key, d);
            },
            None => {
                self.put_doc(key, Json::Null);
            },
        }
    }

    /// Adds the member `key` holding the strings `value`, or `null`.
    pub fn put_texts_or_null(&mut self, key: &str, value: Option<Vec<String>>)
        requires
            old(self).wf(),
        ensures
            final(self).wf(),
            final(self).expected@ == old(self).expected@ + texts_or_null(key@, value),
    {
        match value {
            Some(v) => {
                self.put_texts(key, v);
            },
            None => {
                self.put_doc(key, Json::Null);
            },
        }
    }

    /// Adds the member `key` holding the array `items`, which hold what `l`
    /// describes.
    pub(crate) fn put_list(&mut self, key: &str, items: Vec<Json>, Ghost(l): Ghost<Seq<Expected>>)
        requires
            old(self).wf(),
            items_hold(items@, l),
        ensures
            final(self).wf(),
            final(self).expected@ == old(self).expected@ + field(key@, Expected::List(l)),
    {
        self.push(key, Json::Array(items), Ghost(Expected::List(l)));
    }

    /// Adds the member `key` holding an object with the members `value`.
    pub fn put_members(&mut self, key: &str, value: Vec<(String, Json)>)
        requires
            old(self).wf(),
        ensures
            final(self).wf(),
            final(self).expected@ == old(self).expected@ + field(
                key@,
                Expected::Doc(Json::Object(value)),
            ),
    {
        self.put_doc(key, Json::Object(value));
    }

    /// Adds the member `key` holding an object with the members `value`,
    /// when there are some.
    pub fn put_opt_members(&mut self, key: &str, value: Option<Vec<(String, Json)>>)
        requires
            old(self).wf(),
        ensures
            final(self).wf(),
            final(self).expected@ == old(self).expected@ + opt_members(key@, value),
    {
        match value {
            Some(m) => {
                self.put_members(key, m);
            },
            None => {
                assert(self.expected@ + opt_members(key@, value) == self.expected@);
            },
        }
    }

    /// Adds the member `key` holding copies of the strings `value`.
    pub fn put_text_slice(&mut self, key: &str, value: &[String])
        requires
            old(self).wf(),
        ensures
            final(self).wf(),
            final(self).expected@ == old(self).expected@ + field(
                key@,
                Expected::Texts(texts(value@)),
            ),
    {
        let ghost l = texts(value@);
        let mut items: Vec<Json> = Vec::new();
        for i in 0..value.len()
            invariant
                l == texts(value@),
                items@.len() == i,
                forall|k: int| 0 <= k < i ==> #[trigger] as_text(items@[k]) == Some(l[k]),
        {
            items.push(Json::Str(value[i].clone()));
        }
        self.push(key, Json::Array(items), Ghost(Expected::Texts(l)));
    }

    /// Adds the member `key` holding the object `value` builds.
    pub fn put_object(&mut self, key: &str, value: ObjectBuilder)
        requires
            old(self).wf(),
            value.wf(),
        ensures
            final(self).wf(),
            final(self).expected@ == old(self).expected@ + field(key@, Expected::Obj(value.expected@)),
    {
        let ghost e = value.expected@;
        let j = value.finish();
        self.push(key, j, Ghost(Expected::Obj(e)));
    }

    /// The object.
    pub fn finish(self) -> (j: Json)
        requires
            self.wf(),
        ensures
            holds(j, Expected::Obj(self.expected@)),
    {
        Json::Object(self.members)
    }
}

/// A GraphQL operation to send: the query text, its variables, and the
/// member of the response's `data` object that holds the answer.
pub struct GraphQLRequest {
    /// The GraphQL document.
    pub query: String,
    /// The variables object, when the operation takes variables.
    pub variables: Option<Vec<(String, Json)>>,
    /// The member of `data` that holds the answer.
    pub field: String,
}

/// Whether `r` is the operation `query` with the variables `vars` (as
/// described) whose answer is the member `field` of `data`.
pub open spec fn request_is(
    r: GraphQLRequest,
    query: Seq<char>,
    vars: Option<Seq<(Seq<char>, Expected)>>,
    field: Seq<char>,
) -> bool {
    &&& r.query@ == query
    &&& r.field@ == field
    &&& match vars {
        Some(fields) => r.variables matches Some(m) && members_hold(m@, fields),
        None => r.variables is None,
    }
}

/// The operation `query`, with the variables `vars` built, answering in the
/// member `field` of `data`.
pub fn request(query: &str, vars: ObjectBuilder, field: &str) -> (r: GraphQLRequest)
    requires
        vars.wf(),
    ensures
        request_is(r, query@, Some(vars.expected@), field@),
{
    GraphQLRequest {
        query: String::from_str(query),
        variables: Some(vars.members),
        field: String::from_str(field),
    }
}

/// The operation `query`, without variables, answering in the member
/// `field` of `data`.
pub fn request_without_variables(query: &str, field: &str) -> (r: GraphQLRequest)
    ensures
        request_is(r, query@, None, field@),
{
    GraphQLRequest { query: String::from_str(query), variables: None, field: String::from_str(field) }
}

/// The member `field` of the `data` object of a response; `Null` when it is
/// absent.
pub fn answer_of(data: Vec<(String, Json)>, field: &str) -> (j: Json)
    ensures
        j == (match crate::json::member(data@, field@) {
            Some(v) => v,
            None => Json::Null,
        }),
{
    match Json::Object(data).take(field) {
        Some(v) => v,
        None => Json::Null,
    }
}

} // verus!
