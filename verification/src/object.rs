use vstd::prelude::*;

use crate::rustgen_ir::{ExprField, path_view};
use crate::tokens::{Ident, IdentV, ident_view};

verus! {

broadcast use crate::rustgen_ir::lemma_path_view_nonempty;

/// The kind of a configuration value, named in diagnostics.
#[derive(Debug, Clone, Copy, PartialEq, Eq, Structural)]
pub enum ValueKind {
    Null,
    Bool,
    Number,
    Str,
    Array,
    Object,
}

/// A configuration number, as far as the engine reads one: whether it equals
/// floating-point zero (the truthiness rule), and its verbatim display text.
#[derive(Debug, PartialEq, Eq)]
pub struct Number {
    pub is_zero: bool,
    pub text: String,
}

/// A configuration value: the JSON-like model conditions are evaluated
/// against. Object entries keep their insertion order; a lookup takes the
/// first entry whose key matches.
#[derive(Debug, PartialEq, Eq)]
pub enum Value {
    Null,
    Bool(bool),
    Number(Number),
    Str(String),
    Array(Vec<Value>),
    Object(Vec<(String, Value)>),
}

/// Mathematical model of a configuration number.
#[verifier::ext_equal]
pub struct NumberV {
    pub is_zero: bool,
    pub text: Seq<char>,
}

/// Mathematical model of a configuration value.
#[verifier::ext_equal]
pub enum ValueV {
    Null,
    Bool(bool),
    Number(NumberV),
    Str(Seq<char>),
    Array(Seq<ValueV>),
    Object(Seq<(Seq<char>, ValueV)>),
}

pub open spec fn value_view(v: Value) -> ValueV
    decreases v,
{
    match v {
        Value::Null => ValueV::Null,
        Value::Bool(b) => ValueV::Bool(b),
        Value::Number(n) => ValueV::Number(NumberV { is_zero: n.is_zero, text: n.text@ }),
        Value::Str(s) => ValueV::Str(s@),
        Value::Array(a) => ValueV::Array(values_view(a@)),
        Value::Object(o) => ValueV::Object(entries_view(o@)),
    }
}

pub open spec fn values_view(s: Seq<Value>) -> Seq<ValueV>
    decreases s,
{
    if s.len() == 0 {
        Seq::empty()
    } else {
        seq![value_view(s[0])] + values_view(s.drop_first())
    }
}

pub open spec fn entries_view(s: Seq<(String, Value)>) -> Seq<(Seq<char>, ValueV)>
    decreases s,
{
    if s.len() == 0 {
        Seq::empty()
    } else {
        seq![(s[0].0@, value_view(s[0].1))] + entries_view(s.drop_first())
    }
}

pub broadcast proof fn lemma_values_view_len(s: Seq<Value>)
    ensures
        (#[trigger] values_view(s)).len() == s.len(),
    decreases s,
{
    if s.len() != 0 {
        lemma_values_view_len(s.drop_first());
    }
}

pub broadcast proof fn lemma_entries_view_len(s: Seq<(String, Value)>)
    ensures
        (#[trigger] entries_view(s)).len() == s.len(),
    decreases s,
{
    if s.len() != 0 {
        lemma_entries_view_len(s.drop_first());
    }
}

pub broadcast proof fn lemma_entries_view_index(s: Seq<(String, Value)>, i: int)
    requires
        0 <= i < s.len(),
    ensures
        #[trigger] entries_view(s)[i] == (s[i].0@, value_view(s[i].1)),
    decreases s,
{
    lemma_entries_view_len(s);
    if i > 0 {
        lemma_entries_view_index(s.drop_first(), i - 1);
    }
}

/// A path segment named a key absent from the object it reached; the keys
/// that were present are carried as candidates, in the object's own order.
#[derive(Debug, PartialEq, Eq)]
pub struct NotFoundError {
    pub candidates: Vec<String>,
    pub search_ident: Ident,
}

/// A path segment tried to descend into a value that has no children; the
/// value's kind and display form are carried for the diagnostic.
#[derive(Debug, PartialEq, Eq)]
pub struct NoChildError {
    pub given_type: ValueKind,
    pub given_value: String,
    pub search_ident: Ident,
}

/// A resolution failure: either of the two descent errors.
#[derive(Debug, PartialEq, Eq)]
pub enum Error {
    NotFound(NotFoundError),
    NoChild(NoChildError),
}

/// Mathematical model of a missing-key error.
#[verifier::ext_equal]
pub struct NotFoundErrorV {
    pub candidates: Seq<Seq<char>>,
    pub search_ident: IdentV,
}

/// Mathematical model of a childless-value error.
#[verifier::ext_equal]
pub struct NoChildErrorV {
    pub given_type: ValueKind,
    pub given_value: Seq<char>,
    pub search_ident: IdentV,
}

/// Mathematical model of a resolution failure.
#[verifier::ext_equal]
pub enum ErrorV {
    NotFound(NotFoundErrorV),
    NoChild(NoChildErrorV),
}

pub open spec fn error_view(e: Error) -> ErrorV {
    match e {
        Error::NotFound(n) => ErrorV::NotFound(
            NotFoundErrorV {
                candidates: strings_view(n.candidates@),
                search_ident: ident_view(n.search_ident),
            },
        ),
        Error::NoChild(n) => ErrorV::NoChild(
            NoChildErrorV {
                given_type: n.given_type,
                given_value: n.given_value@,
                search_ident: ident_view(n.search_ident),
            },
        ),
    }
}

pub open spec fn strings_view(s: Seq<String>) -> Seq<Seq<char>>
    decreases s,
{
    if s.len() == 0 {
        Seq::empty()
    } else {
        seq![s[0]@] + strings_view(s.drop_first())
    }
}

pub broadcast proof fn lemma_strings_view_len(s: Seq<String>)
    ensures
        (#[trigger] strings_view(s)).len() == s.len(),
    decreases s,
{
    if s.len() != 0 {
        lemma_strings_view_len(s.drop_first());
    }
}

pub broadcast proof fn lemma_strings_view_index(s: Seq<String>, i: int)
    requires
        0 <= i < s.len(),
    ensures
        #[trigger] strings_view(s)[i] == s[i]@,
    decreases s,
{
    lemma_strings_view_len(s);
    if i > 0 {
        lemma_strings_view_index(s.drop_first(), i - 1);
    }
}

/// The kind of a value.
pub open spec fn spec_value_kind(v: ValueV) -> ValueKind {
    match v {
        ValueV::Null => ValueKind::Null,
        ValueV::Bool(_) => ValueKind::Bool,
        ValueV::Number(_) => ValueKind::Number,
        ValueV::Str(_) => ValueKind::Str,
        ValueV::Array(_) => ValueKind::Array,
        ValueV::Object(_) => ValueKind::Object,
    }
}

/// The display form a childless value is reported with.
pub open spec fn spec_value_display(v: ValueV) -> Seq<char> {
    match v {
        ValueV::Null => "null"@,
        ValueV::Bool(b) => if b {
            "true"@
        } else {
            "false"@
        },
        ValueV::Number(n) => n.text,
        ValueV::Str(s) => s,
        ValueV::Array(_) => "[ ... ]"@,
        ValueV::Object(_) => Seq::empty(),
    }
}

/// The truthiness rule: how a resolved value decides a condition.
pub open spec fn spec_truthy(v: ValueV) -> bool {
    match v {
        ValueV::Bool(b) => b,
        ValueV::Null => false,
        ValueV::Str(s) => s.len() != 0,
        ValueV::Array(a) => a.len() != 0,
        ValueV::Number(n) => n.is_zero,
        ValueV::Object(_) => true,
    }
}

/// The keys of an object, in order.
pub open spec fn obj_keys(o: Seq<(Seq<char>, ValueV)>) -> Seq<Seq<char>> {
    o.map_values(|e: (Seq<char>, ValueV)| e.0)
}

/// Whether an object has an entry under the given key.
pub open spec fn obj_has_key(o: Seq<(Seq<char>, ValueV)>, k: Seq<char>) -> bool {
    exists|i: int| 0 <= i < o.len() && o[i].0 == k
}

/// The value of the first entry under the given key.
pub open spec fn obj_get(o: Seq<(Seq<char>, ValueV)>, k: Seq<char>) -> ValueV
    decreases o,
{
    if o.len() == 0 {
        ValueV::Null
    } else if o[0].0 == k {
        o[0].1
    } else {
        obj_get(o.drop_first(), k)
    }
}

proof fn lemma_obj_get_at(o: Seq<(Seq<char>, ValueV)>, k: Seq<char>, j: int)
    requires
        0 <= j < o.len(),
        o[j].0 == k,
        forall|l: int| 0 <= l < j ==> o[l].0 != k,
    ensures
        obj_has_key(o, k),
        obj_get(o, k) == o[j].1,
    decreases j,
{
    if j > 0 {
        lemma_obj_get_at(o.drop_first(), k, j - 1);
    }
}

/// Resolving a dotted path against a value, segment by segment. The reserved
/// segment `this` descends nowhere; any other segment requires the current
/// value to be an object holding it as a key.
pub open spec fn spec_search(v: ValueV, path: Seq<IdentV>) -> Result<ValueV, ErrorV>
    decreases path.len(),
{
    if path.len() == 0 {
        Result::Ok(v)
    } else {
        let seg = path[0];
        if seg.text == "this"@ {
            spec_search(v, path.drop_first())
        } else {
            match v {
                ValueV::Object(o) => if obj_has_key(o, seg.text) {
                    spec_search(obj_get(o, seg.text), path.drop_first())
                } else {
                    Result::Err(
                        ErrorV::NotFound(
                            NotFoundErrorV { candidates: obj_keys(o), search_ident: seg },
                        ),
                    )
                },
                _ => Result::Err(
                    ErrorV::NoChild(
                        NoChildErrorV {
                            given_type: spec_value_kind(v),
                            given_value: spec_value_display(v),
                            search_ident: seg,
                        },
                    ),
                ),
            }
        }
    }
}

/// The truthiness evaluator.
pub fn eval_as_bool(value: &Value) -> (r: bool)
    ensures
        r == spec_truthy(value_view(*value)),
{
    broadcast use lemma_values_view_len;

    match value {
        Value::Bool(b) => *b,
        Value::Null => false,
        Value::Str(s) => !s.as_str().is_empty(),
        Value::Array(a) => a.len() != 0,
        Value::Number(n) => n.is_zero,
        Value::Object(_) => true,
    }
}

/// The kind of a value, for diagnostics.
fn value_kind(value: &Value) -> (r: ValueKind)
    ensures
        r == spec_value_kind(value_view(*value)),
{
    match value {
        Value::Null => ValueKind::Null,
        Value::Bool(_) => ValueKind::Bool,
        Value::Number(_) => ValueKind::Number,
        Value::Str(_) => ValueKind::Str,
        Value::Array(_) => ValueKind::Array,
        Value::Object(_) => ValueKind::Object,
    }
}

/// The display form of a childless value, for diagnostics.
fn value_display(value: &Value) -> (r: String)
    ensures
        r@ == spec_value_display(value_view(*value)),
{
    match value {
        Value::Null => "null".to_owned(),
        Value::Bool(b) => if *b {
            "true".to_owned()
        } else {
            "false".to_owned()
        },
        Value::Number(n) => n.text.clone(),
        Value::Str(s) => s.clone(),
        Value::Array(_) => "[ ... ]".to_owned(),
        Value::Object(_) => String::new(),
    }
}

/// The first entry under the given key, if the object has one.
fn obj_find<'a>(entries: &'a Vec<(String, Value)>, key: &String) -> (r: Option<&'a Value>)
    ensures
        match r {
            Option::Some(v) => obj_has_key(entries_view(entries@), key@) && value_view(*v)
                == obj_get(entries_view(entries@), key@),
            Option::None => !obj_has_key(entries_view(entries@), key@),
        },
{
    broadcast use lemma_entries_view_len, lemma_entries_view_index;

    let ghost o = entries_view(entries@);
    let mut j: usize = 0;
    while j < entries.len()
        invariant
            0 <= j <= entries@.len(),
            o == entries_view(entries@),
            o.len() == entries@.len(),
            forall|l: int| 0 <= l < j ==> o[l].0 != key@,
        decreases entries@.len() - j,
    {
        let hit = entries[j].0 == *key;
        proof {
            lemma_entries_view_index(entries@, j as int);
            assert(o[j as int] == (entries@[j as int].0@, value_view(entries@[j as int].1)));
            assert(hit == (entries@[j as int].0@ == key@));
        }
        if hit {
            proof {
                lemma_obj_get_at(o, key@, j as int);
            }
            return Option::Some(&entries[j].1);
        }
        j += 1;
    }
    Option::None
}

/// The keys of an object, cloned in order, as error candidates.
fn obj_candidates(entries: &Vec<(String, Value)>) -> (r: Vec<String>)
    ensures
        strings_view(r@) == obj_keys(entries_view(entries@)),
{
    broadcast use lemma_entries_view_len, lemma_entries_view_index, lemma_strings_view_len,
        lemma_strings_view_index;

    let mut r: Vec<String> = Vec::new();
    let mut j: usize = 0;
    while j < entries.len()
        invariant
            0 <= j <= entries@.len(),
            r@.len() == j,
            forall|l: int| 0 <= l < j ==> r@[l] == entries@[l].0,
        decreases entries@.len() - j,
    {
        r.push(entries[j].0.clone());
        j += 1;
    }
    proof {
        assert(strings_view(r@) =~= obj_keys(entries_view(entries@)));
    }
    r
}

/// The path resolver: walks the field path from the given root value.
pub fn search<'a>(value: &'a Value, field: &ExprField) -> (r: Result<&'a Value, Error>)
    ensures
        match r {
            Result::Ok(v) => spec_search(value_view(*value), path_view(*field)) == Result::Ok::<
                ValueV,
                ErrorV,
            >(value_view(*v)),
            Result::Err(e) => spec_search(value_view(*value), path_view(*field)) == Result::Err::<
                ValueV,
                ErrorV,
            >(error_view(e)),
        },
    decreases *field,
{
    proof {
        reveal_with_fuel(spec_search, 3);
    }
    let ghost path = path_view(*field);
    let query = field.name();
    let next: &'a Value;
    if query == "this".to_owned() {
        next = value;
    } else {
        match value {
            Value::Object(entries) => {
                match obj_find(entries, &query) {
                    Option::Some(v) => {
                        next = v;
                    },
                    Option::None => {
                        return Result::Err(
                            Error::NotFound(
                                NotFoundError {
                                    candidates: obj_candidates(entries),
                                    search_ident: Ident {
                                        text: field.ident.text.clone(),
                                        pos: field.ident.pos,
                                    },
                                },
                            ),
                        );
                    },
                }
            },
            _ => {
                return Result::Err(
                    Error::NoChild(
                        NoChildError {
                            given_type: value_kind(value),
                            given_value: value_display(value),
                            search_ident: Ident {
                                text: field.ident.text.clone(),
                                pos: field.ident.pos,
                            },
                        },
                    ),
                );
            },
        }
    }
    match &field.member {
        Option::Some(m) => {
            proof {
                assert(path.drop_first() =~= path_view(*m.field));
            }
            search(next, &m.field)
        },
        Option::None => {
            proof {
                assert(path.drop_first() =~= Seq::<IdentV>::empty());
            }
            Result::Ok(next)
        },
    }
}

} // verus!
