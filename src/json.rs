//! The JSON tree that the transcript decoder works on, and the two calls into
//! serde_json that turn text into such a tree and back.
use vstd::prelude::*;

verus! {

/// A JSON number as serde_json classifies it: a non-negative integer, a
/// negative integer, or any other number, kept as its printed text.
#[derive(Debug)]
pub enum JsonNumber {
    PosInt(u64),
    NegInt(i64),
    Float(String),
}

/// A JSON value. Arrays and objects are lists, so that equal trees are equal
/// values.
#[derive(Debug)]
pub enum JsonValue {
    Null,
    Bool(bool),
    Number(JsonNumber),
    Str(String),
    Array(JsonItems),
    Object(JsonMembers),
}

/// The elements of a JSON array, in order.
#[derive(Debug)]
pub enum JsonItems {
    Nil,
    Cons(Box<JsonValue>, Box<JsonItems>),
}

/// The members of a JSON object, in order.
#[derive(Debug)]
pub enum JsonMembers {
    Nil,
    Cons(String, Box<JsonValue>, Box<JsonMembers>),
}

/// A JSON number as a mathematical value.
pub enum NumberModel {
    PosInt(u64),
    NegInt(i64),
    Float(Seq<char>),
}

/// A JSON value as a mathematical value: strings as character sequences.
pub enum JsonModel {
    Null,
    Bool(bool),
    Number(NumberModel),
    Str(Seq<char>),
    Array(Seq<JsonModel>),
    Object(Seq<(Seq<char>, JsonModel)>),
}

pub open spec fn number_model(n: JsonNumber) -> NumberModel {
    match n {
        JsonNumber::PosInt(u) => NumberModel::PosInt(u),
        JsonNumber::NegInt(i) => NumberModel::NegInt(i),
        JsonNumber::Float(t) => NumberModel::Float(t@),
    }
}

/// The mathematical value of a JSON value.
pub open spec fn model(v: JsonValue) -> JsonModel
    decreases v,
{
    match v {
        JsonValue::Null => JsonModel::Null,
        JsonValue::Bool(b) => JsonModel::Bool(b),
        JsonValue::Number(n) => JsonModel::Number(number_model(n)),
        JsonValue::Str(s) => JsonModel::Str(s@),
        JsonValue::Array(items) => JsonModel::Array(items_model(items)),
        JsonValue::Object(ms) => JsonModel::Object(members_model(ms)),
    }
}

/// The mathematical values of an array's elements.
pub open spec fn items_model(items: JsonItems) -> Seq<JsonModel>
    decreases items,
{
    match items {
        JsonItems::Nil => Seq::empty(),
        JsonItems::Cons(head, tail) => seq![model(*head)] + items_model(*tail),
    }
}

/// The names and mathematical values of an object's members.
pub open spec fn members_model(ms: JsonMembers) -> Seq<(Seq<char>, JsonModel)>
    decreases ms,
{
    match ms {
        JsonMembers::Nil => Seq::empty(),
        JsonMembers::Cons(k, v, rest) => seq![(k@, model(*v))] + members_model(*rest),
    }
}

/// The elements of an array as a sequence.
pub open spec fn items_seq(items: JsonItems) -> Seq<JsonValue>
    decreases items,
{
    match items {
        JsonItems::Nil => Seq::empty(),
        JsonItems::Cons(head, tail) => seq![*head] + items_seq(*tail),
    }
}

/// The value of the first member named `key`, if there is one.
pub open spec fn member(members: JsonMembers, key: Seq<char>) -> Option<JsonValue>
    decreases members,
{
    match members {
        JsonMembers::Nil => None,
        JsonMembers::Cons(k, v, rest) => if k@ == key {
            Some(*v)
        } else {
            member(*rest, key)
        },
    }
}

/// Whether two strings hold the same characters.
pub fn same_text(a: &str, b: &str) -> (r: bool)
    ensures
        r == (a@ == b@),
{
    let n = a.unicode_len();
    if n != b.unicode_len() {
        return false;
    }
    let mut i: usize = 0;
    while i < n
        invariant
            n == a@.len(),
            n == b@.len(),
            i <= n,
            a@.subrange(0, i as int) == b@.subrange(0, i as int),
        decreases n - i,
    {
        if a.get_char(i) != b.get_char(i) {
            return false;
        }
        assert(a@.subrange(0, i + 1) == a@.subrange(0, i as int).push(a@[i as int]));
        assert(b@.subrange(0, i + 1) == b@.subrange(0, i as int).push(b@[i as int]));
        i += 1;
    }
    assert(a@ == a@.subrange(0, n as int));
    assert(b@ == b@.subrange(0, n as int));
    true
}

impl JsonNumber {
    /// A copy equal to this number.
    pub fn copy(&self) -> (r: JsonNumber)
        ensures
            r == *self,
    {
        match self {
            JsonNumber::PosInt(u) => JsonNumber::PosInt(*u),
            JsonNumber::NegInt(i) => JsonNumber::NegInt(*i),
            JsonNumber::Float(t) => JsonNumber::Float(t.clone()),
        }
    }
}

impl JsonValue {
    /// A copy equal to this value.
    pub fn copy(&self) -> (r: JsonValue)
        ensures
            r == *self,
        decreases self,
    {
        match self {
            JsonValue::Null => JsonValue::Null,
            JsonValue::Bool(b) => JsonValue::Bool(*b),
            JsonValue::Number(n) => JsonValue::Number(n.copy()),
            JsonValue::Str(s) => JsonValue::Str(s.clone()),
            JsonValue::Array(items) => JsonValue::Array(items.copy()),
            JsonValue::Object(members) => JsonValue::Object(members.copy()),
        }
    }
}

proof fn lemma_items_seq_injective(a: JsonItems, b: JsonItems)
    requires
        items_seq(a) == items_seq(b),
    ensures
        a == b,
    decreases a,
{
    match (a, b) {
        (JsonItems::Cons(ha, ta), JsonItems::Cons(hb, tb)) => {
            assert(items_seq(*ta) == items_seq(a).drop_first());
            assert(items_seq(*tb) == items_seq(b).drop_first());
            assert(items_seq(a)[0] == *ha);
            assert(items_seq(b)[0] == *hb);
            lemma_items_seq_injective(*ta, *tb);
        },
        (JsonItems::Nil, JsonItems::Cons(..)) => {
            assert(items_seq(b).len() > 0);
        },
        (JsonItems::Cons(..), JsonItems::Nil) => {
            assert(items_seq(a).len() > 0);
        },
        _ => {},
    }
}

proof fn lemma_members_seq_injective(a: JsonMembers, b: JsonMembers)
    requires
        members_seq(a) == members_seq(b),
    ensures
        a == b,
    decreases a,
{
    match (a, b) {
        (JsonMembers::Cons(ka, va, ta), JsonMembers::Cons(kb, vb, tb)) => {
            assert(members_seq(*ta) == members_seq(a).drop_first());
            assert(members_seq(*tb) == members_seq(b).drop_first());
            assert(members_seq(a)[0] == (ka, *va));
            assert(members_seq(b)[0] == (kb, *vb));
            lemma_members_seq_injective(*ta, *tb);
        },
        (JsonMembers::Nil, JsonMembers::Cons(..)) => {
            assert(members_seq(b).len() > 0);
        },
        (JsonMembers::Cons(..), JsonMembers::Nil) => {
            assert(members_seq(a).len() > 0);
        },
        _ => {},
    }
}

impl JsonItems {
    /// A copy equal to these elements.
    pub fn copy(&self) -> (r: JsonItems)
        ensures
            r == *self,
        decreases self,
    {
        let mut copies: Vec<JsonValue> = Vec::new();
        let mut cur = self;
        loop
            invariant
                *cur == *self || decreases_to!(*self => *cur),
                copies@ + items_seq(*cur) == items_seq(*self),
            decreases *cur,
        {
            match cur {
                JsonItems::Nil => {
                    assert(copies@ + items_seq(*cur) == copies@);
                    let r = items_from_vec(copies);
                    proof {
                        lemma_items_seq_injective(r, *self);
                    }
                    return r;
                },
                JsonItems::Cons(h, t) => {
                    let ghost done = copies@;
                    copies.push((**h).copy());
                    assert(items_seq(*cur) == seq![**h] + items_seq(**t));
                    assert(done + items_seq(*cur) == copies@ + items_seq(**t));
                    cur = &**t;
                },
            }
        }
    }
}

impl JsonMembers {
    /// A copy equal to these members.
    pub fn copy(&self) -> (r: JsonMembers)
        ensures
            r == *self,
        decreases self,
    {
        let mut copies: Vec<(String, JsonValue)> = Vec::new();
        let mut cur = self;
        loop
            invariant
                *cur == *self || decreases_to!(*self => *cur),
                copies@ + members_seq(*cur) == members_seq(*self),
            decreases *cur,
        {
            match cur {
                JsonMembers::Nil => {
                    assert(copies@ + members_seq(*cur) == copies@);
                    let r = members_from_vec(copies);
                    proof {
                        lemma_members_seq_injective(r, *self);
                    }
                    return r;
                },
                JsonMembers::Cons(k, v, t) => {
                    let ghost done = copies@;
                    copies.push((k.clone(), (**v).copy()));
                    assert(members_seq(*cur) == seq![(*k, **v)] + members_seq(**t));
                    assert(done + members_seq(*cur) == copies@ + members_seq(**t));
                    cur = &**t;
                },
            }
        }
    }

    /// A copy of the value of the first member named `key`.
    pub fn get(&self, key: &str) -> (r: Option<JsonValue>)
        ensures
            r == member(*self, key@),
    {
        let mut cur = self;
        loop
            invariant
                member(*cur, key@) == member(*self, key@),
            decreases *cur,
        {
            match cur {
                JsonMembers::Nil => return None,
                JsonMembers::Cons(k, v, rest) => {
                    if same_text(k.as_str(), key) {
                        return Some((**v).copy());
                    }
                    cur = &**rest;
                },
            }
        }
    }
}

#[verifier::external_type_specification]
#[verifier::external_body]
pub struct ExValue(serde_json::Value);

/// The tree that serde_json reads from a text, or `None` where it refuses the
/// text. It depends on the text alone.
pub uninterp spec fn parsed(text: Seq<char>) -> Option<JsonValue>;

/// The compact text that serde_json prints for a tree, or `None` where it
/// fails. It depends on the tree alone.
pub uninterp spec fn printed(v: JsonModel) -> Option<Seq<char>>;

/// Relies on serde_json::from_str into serde_json::Value: the tree of the
/// text, or serde_json's message on why it is not one JSON value.
#[verifier::external_body]
pub fn parse_json(text: &str) -> (r: Result<JsonValue, String>)
    ensures
        match r {
            Ok(v) => parsed(text@) == Some(v),
            Err(_) => parsed(text@) is None,
        },
{
    match serde_json::from_str::<serde_json::Value>(text) {
        Ok(v) => Ok(from_serde(v)),
        Err(e) => Err(e.to_string()),
    }
}

/// Relies on serde_json::to_string on serde_json::Value: the compact text of
/// the tree.
#[verifier::external_body]
pub fn print_json(v: &JsonValue) -> (r: Option<String>)
    ensures
        match r {
            Some(t) => printed(model(*v)) == Some(t@),
            None => printed(model(*v)) is None,
        },
{
    serde_json::to_string(&to_serde(v)).ok()
}

#[verifier::external_type_specification]
#[verifier::external_body]
pub struct ExNumber(serde_json::Number);

/// Moves serde_json's tree into this library's, node for node.
#[verifier::external_body]
fn from_serde(v: serde_json::Value) -> JsonValue {
    match v {
        serde_json::Value::Null => JsonValue::Null,
        serde_json::Value::Bool(b) => JsonValue::Bool(b),
        serde_json::Value::Number(n) => JsonValue::Number(number_from_serde(n)),
        serde_json::Value::String(s) => JsonValue::Str(s),
        serde_json::Value::Array(a) => JsonValue::Array(items_from_vec(a.into_iter().map(from_serde).collect())),
        serde_json::Value::Object(m) => JsonValue::Object(members_from_vec(m.into_iter().map(|(k, x)| (k, from_serde(x))).collect())),
    }
}

/// Moves a serde_json number into this library's form, by its kind.
#[verifier::external_body]
fn number_from_serde(n: serde_json::Number) -> JsonNumber {
    match (n.as_u64(), n.as_i64()) {
        (Some(u), _) => JsonNumber::PosInt(u),
        (None, Some(i)) => JsonNumber::NegInt(i),
        (None, None) => JsonNumber::Float(n.to_string()),
    }
}

/// Builds serde_json's tree from this library's, node for node.
#[verifier::external_body]
fn to_serde(v: &JsonValue) -> serde_json::Value {
    match v {
        JsonValue::Null => serde_json::Value::Null,
        JsonValue::Bool(b) => serde_json::Value::Bool(*b),
        JsonValue::Number(n) => number_to_serde(n),
        JsonValue::Str(s) => serde_json::Value::String(s.clone()),
        JsonValue::Array(items) => serde_json::Value::Array(item_refs(items).into_iter().map(to_serde).collect()),
        JsonValue::Object(ms) => serde_json::Value::Object(member_refs(ms).into_iter().map(|(k, x)| (k.clone(), to_serde(x))).collect()),
    }
}

/// Builds a serde_json number from this library's form; a printed float is
/// read back by serde_json, and a float text that serde_json does not read as
/// a number becomes `null`. Texts that `parse_json` produced always read back.
#[verifier::external_body]
fn number_to_serde(n: &JsonNumber) -> serde_json::Value {
    match n {
        JsonNumber::PosInt(u) => serde_json::Value::from(*u),
        JsonNumber::NegInt(i) => serde_json::Value::from(*i),
        JsonNumber::Float(t) => t.parse::<serde_json::Number>().map_or(serde_json::Value::Null, serde_json::Value::Number),
    }
}

/// The members of an object as a sequence of names and values.
pub open spec fn members_seq(ms: JsonMembers) -> Seq<(String, JsonValue)>
    decreases ms,
{
    match ms {
        JsonMembers::Nil => Seq::empty(),
        JsonMembers::Cons(k, v, rest) => seq![(k, *v)] + members_seq(*rest),
    }
}

/// The elements of a vector as an array.
pub fn items_from_vec(v: Vec<JsonValue>) -> (r: JsonItems)
    ensures
        items_seq(r) == v@,
{
    let ghost all = v@;
    let mut v = v;
    let mut acc = JsonItems::Nil;
    while v.len() > 0
        invariant
            v@ + items_seq(acc) == all,
        decreases v@.len(),
    {
        let ghost before = v@;
        let x = v.pop().unwrap();
        let ghost old_acc = acc;
        acc = JsonItems::Cons(Box::new(x), Box::new(acc));
        assert(v@ + items_seq(acc) == before.drop_last() + (seq![x] + items_seq(old_acc)));
        assert(before == before.drop_last().push(x));
    }
    assert(v@ + items_seq(acc) == items_seq(acc));
    acc
}

/// The name-value pairs of a vector as object members.
pub fn members_from_vec(v: Vec<(String, JsonValue)>) -> (r: JsonMembers)
    ensures
        members_seq(r) == v@,
{
    let ghost all = v@;
    let mut v = v;
    let mut acc = JsonMembers::Nil;
    while v.len() > 0
        invariant
            v@ + members_seq(acc) == all,
        decreases v@.len(),
    {
        let ghost before = v@;
        let (k, x) = v.pop().unwrap();
        let ghost old_acc = acc;
        acc = JsonMembers::Cons(k, Box::new(x), Box::new(acc));
        assert(v@ + members_seq(acc) == before.drop_last() + (seq![(k, x)] + members_seq(old_acc)));
        assert(before == before.drop_last().push((k, x)));
    }
    assert(v@ + members_seq(acc) == members_seq(acc));
    acc
}

/// The elements of an array, by reference, in order.
pub fn item_refs(l: &JsonItems) -> (r: Vec<&JsonValue>)
    ensures
        r@.len() == items_seq(*l).len(),
        forall|i: int| 0 <= i < r@.len() ==> *r@[i] == #[trigger] items_seq(*l)[i],
{
    let mut out: Vec<&JsonValue> = Vec::new();
    let mut cur = l;
    loop
        invariant
            out@.len() + items_seq(*cur).len() == items_seq(*l).len(),
            items_seq(*cur) == items_seq(*l).skip(out@.len() as int),
            forall|i: int| 0 <= i < out@.len() ==> *out@[i] == #[trigger] items_seq(*l)[i],
        decreases *cur,
    {
        match cur {
            JsonItems::Nil => return out,
            JsonItems::Cons(h, t) => {
                let ghost n = out@.len() as int;
                assert(items_seq(*l)[n] == items_seq(*cur)[0]);
                assert(items_seq(**t) == items_seq(*cur).drop_first());
                out.push(&**h);
                cur = &**t;
            },
        }
    }
}

/// The members of an object, by reference, in order.
pub fn member_refs(l: &JsonMembers) -> (r: Vec<(&String, &JsonValue)>)
    ensures
        r@.len() == members_seq(*l).len(),
        forall|i: int| 0 <= i < r@.len() ==> (*r@[i].0, *r@[i].1) == #[trigger] members_seq(*l)[i],
{
    let mut out: Vec<(&String, &JsonValue)> = Vec::new();
    let mut cur = l;
    loop
        invariant
            out@.len() + members_seq(*cur).len() == members_seq(*l).len(),
            members_seq(*cur) == members_seq(*l).skip(out@.len() as int),
            forall|i: int| 0 <= i < out@.len() ==> (*out@[i].0, *out@[i].1) == #[trigger] members_seq(*l)[i],
        decreases *cur,
    {
        match cur {
            JsonMembers::Nil => return out,
            JsonMembers::Cons(k, v, t) => {
                let ghost n = out@.len() as int;
                assert(members_seq(*l)[n] == members_seq(*cur)[0]);
                assert(members_seq(**t) == members_seq(*cur).drop_first());
                out.push((k, &**v));
                cur = &**t;
            },
        }
    }
}

} // verus!
