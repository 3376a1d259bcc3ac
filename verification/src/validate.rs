//! The validator chain: pure range, length, item-count and pattern rules
//! applied to a coerced value, evaluated in declaration order, stopping at
//! the first failure, each with a deterministic description used verbatim
//! in error messages.

use vstd::prelude::*;

use crate::textnum::{bool_text, bool_to_text, dec_text, int_text, i64_text, u64_text};
use crate::value::Value;

verus! {

/// One rule of a validator chain.
pub enum Validator {
    /// An upper bound on a numeric value, inclusive unless `exclusive`.
    Maximum { value: i64, exclusive: bool },
    /// A lower bound on a numeric value, inclusive unless `exclusive`.
    Minimum { value: i64, exclusive: bool },
    /// An upper bound on the length of text, in characters.
    MaxLength { len: usize },
    /// A lower bound on the length of text, in characters.
    MinLength { len: usize },
    /// An upper bound on the number of items of a sequence.
    MaxItems { count: usize },
    /// A lower bound on the number of items of a sequence.
    MinItems { count: usize },
    /// A regular-expression match on text.
    Pattern { pattern: String },
}

/// What a pattern rule decides: whether the pattern, compiled as a
/// regular expression, matches anywhere in the text.
pub uninterp spec fn pattern_match_of(pattern: Seq<char>, text: Seq<char>) -> bool;

/// Decide a pattern rule.
///
/// Relies on `regex::Regex::new` and `regex::Regex::is_match`: whether the
/// pattern, compiled as a regular expression, matches anywhere in the text;
/// a pattern that is not a valid expression matches nothing. The result is
/// a function of the pattern and the text alone.
#[verifier::external_body]
fn regex_is_match(pattern: &str, text: &str) -> (r: bool)
    ensures
        r == pattern_match_of(pattern@, text@),
{
    match regex::Regex::new(pattern) {
        Ok(re) => re.is_match(text),
        Err(_) => false,
    }
}

/// Whether a rule holds of a value. Numeric bounds apply to integers,
/// length bounds and patterns to text, item-count bounds to sequences;
/// every other rule applies to each item of a sequence in turn, and a rule
/// applied to a value of a foreign shape fails.
pub open spec fn validator_holds(rule: Validator, value: Value) -> bool
    decreases value,
{
    match rule {
        Validator::Maximum { value: m, exclusive } => match value {
            Value::Int(x) => if exclusive { x < m } else { x <= m },
            Value::List(items) => list_elements_hold(rule, items@),
            _ => false,
        },
        Validator::Minimum { value: m, exclusive } => match value {
            Value::Int(x) => if exclusive { x > m } else { x >= m },
            Value::List(items) => list_elements_hold(rule, items@),
            _ => false,
        },
        Validator::MaxLength { len } => match value {
            Value::Str(s) => s@.len() <= len,
            Value::List(items) => list_elements_hold(rule, items@),
            _ => false,
        },
        Validator::MinLength { len } => match value {
            Value::Str(s) => s@.len() >= len,
            Value::List(items) => list_elements_hold(rule, items@),
            _ => false,
        },
        Validator::MaxItems { count } => match value {
            Value::List(items) => items@.len() <= count,
            _ => false,
        },
        Validator::MinItems { count } => match value {
            Value::List(items) => items@.len() >= count,
            _ => false,
        },
        Validator::Pattern { pattern } => match value {
            Value::Str(s) => pattern_match_of(pattern@, s@),
            Value::List(items) => list_elements_hold(rule, items@),
            _ => false,
        },
    }
}

/// Whether a rule holds of every item of a sequence.
pub open spec fn list_elements_hold(rule: Validator, items: Seq<Value>) -> bool
    decreases items,
{
    forall|i: int| 0 <= i < items.len() ==> validator_holds(rule, #[trigger] items[i])
}

/// Decide whether a rule holds of a value.
pub fn validator_check(rule: &Validator, value: &Value) -> (r: bool)
    ensures
        r == validator_holds(*rule, *value),
    decreases *value, 0int,
{
    match rule {
        Validator::Maximum { value: m, exclusive } => match value {
            Value::Int(x) => if *exclusive { *x < *m } else { *x <= *m },
            Value::List(items) => check_list(rule, items),
            _ => false,
        },
        Validator::Minimum { value: m, exclusive } => match value {
            Value::Int(x) => if *exclusive { *x > *m } else { *x >= *m },
            Value::List(items) => check_list(rule, items),
            _ => false,
        },
        Validator::MaxLength { len } => match value {
            Value::Str(s) => s.as_str().unicode_len() <= *len,
            Value::List(items) => check_list(rule, items),
            _ => false,
        },
        Validator::MinLength { len } => match value {
            Value::Str(s) => s.as_str().unicode_len() >= *len,
            Value::List(items) => check_list(rule, items),
            _ => false,
        },
        Validator::MaxItems { count } => match value {
            Value::List(items) => items.len() <= *count,
            _ => false,
        },
        Validator::MinItems { count } => match value {
            Value::List(items) => items.len() >= *count,
            _ => false,
        },
        Validator::Pattern { pattern } => match value {
            Value::Str(s) => regex_is_match(pattern.as_str(), s.as_str()),
            Value::List(items) => check_list(rule, items),
            _ => false,
        },
    }
}

fn check_list(rule: &Validator, items: &Vec<Value>) -> (r: bool)
    ensures
        r == list_elements_hold(*rule, items@),
    decreases *items, 1int,
{
    let mut i: usize = 0;
    while i < items.len()
        invariant
            0 <= i <= items@.len(),
            forall|j: int| 0 <= j < i ==> validator_holds(*rule, #[trigger] items@[j]),
        decreases items@.len() - i,
    {
        if !validator_check(rule, &items[i]) {
            return false;
        }
        i = i + 1;
    }
    true
}

/// The description of a rule, used verbatim in error messages, as in
/// `maximum(100, exclusive: false)`.
pub open spec fn validator_text(rule: Validator) -> Seq<char> {
    match rule {
        Validator::Maximum { value, exclusive } => {
            "maximum("@ + int_text(value as int) + ", exclusive: "@ + bool_text(exclusive) + ")"@
        },
        Validator::Minimum { value, exclusive } => {
            "minimum("@ + int_text(value as int) + ", exclusive: "@ + bool_text(exclusive) + ")"@
        },
        Validator::MaxLength { len } => "maxLength("@ + dec_text(len as nat) + ")"@,
        Validator::MinLength { len } => "minLength("@ + dec_text(len as nat) + ")"@,
        Validator::MaxItems { count } => "maxItems("@ + dec_text(count as nat) + ")"@,
        Validator::MinItems { count } => "minItems("@ + dec_text(count as nat) + ")"@,
        Validator::Pattern { pattern } => "pattern(\""@ + pattern@ + "\")"@,
    }
}

/// Render the description of a rule.
pub fn validator_description(rule: &Validator) -> (r: String)
    ensures
        r@ == validator_text(*rule),
{
    match rule {
        Validator::Maximum { value, exclusive } => {
            let mut s = "maximum(".to_owned();
            s.append(i64_text(*value).as_str());
            s.append(", exclusive: ");
            s.append(bool_to_text(*exclusive).as_str());
            s.append(")");
            s
        },
        Validator::Minimum { value, exclusive } => {
            let mut s = "minimum(".to_owned();
            s.append(i64_text(*value).as_str());
            s.append(", exclusive: ");
            s.append(bool_to_text(*exclusive).as_str());
            s.append(")");
            s
        },
        Validator::MaxLength { len } => {
            let mut s = "maxLength(".to_owned();
            s.append(u64_text(*len as u64).as_str());
            s.append(")");
            s
        },
        Validator::MinLength { len } => {
            let mut s = "minLength(".to_owned();
            s.append(u64_text(*len as u64).as_str());
            s.append(")");
            s
        },
        Validator::MaxItems { count } => {
            let mut s = "maxItems(".to_owned();
            s.append(u64_text(*count as u64).as_str());
            s.append(")");
            s
        },
        Validator::MinItems { count } => {
            let mut s = "minItems(".to_owned();
            s.append(u64_text(*count as u64).as_str());
            s.append(")");
            s
        },
        Validator::Pattern { pattern } => {
            let mut s = "pattern(\"".to_owned();
            s.append(pattern.as_str());
            s.append("\")");
            s
        },
    }
}

/// Run a chain of rules on a value, in order. Returns the position of the
/// first failing rule, or `None` when every rule holds.
pub fn run_validators(rules: &Vec<Validator>, value: &Value) -> (r: Option<usize>)
    ensures
        match r {
            Option::None => forall|i: int|
                0 <= i < rules@.len() ==> validator_holds(#[trigger] rules@[i], *value),
            Option::Some(i) => {
                &&& i < rules@.len()
                &&& !validator_holds(rules@[i as int], *value)
                &&& forall|j: int|
                    0 <= j < i ==> validator_holds(#[trigger] rules@[j], *value)
            },
        },
{
    let mut i: usize = 0;
    while i < rules.len()
        invariant
            0 <= i <= rules@.len(),
            forall|j: int| 0 <= j < i ==> validator_holds(#[trigger] rules@[j], *value),
        decreases rules@.len() - i,
    {
        if !validator_check(&rules[i], value) {
            return Option::Some(i);
        }
        i = i + 1;
    }
    Option::None
}

} // verus!
