//! Dynamic values: what parameter binding produces and what response
//! payloads carry, with structural comparison and JSON rendering.

use vstd::prelude::*;

use crate::textnum::{bool_text, bool_to_text, i64_text, int_text, push_char};

verus! {

/// A bound value: the result of coercing raw request text, a declared
/// default, or a payload handed back by an operation.
pub enum Value {
    /// No value (an optional parameter that was absent).
    Null,
    /// A truth value.
    Bool(bool),
    /// An integer.
    Int(i64),
    /// Text.
    Str(String),
    /// A sequence of values, in appearance order.
    List(Vec<Value>),
    /// Raw bytes (a binary payload; not a JSON value).
    Bytes(Vec<u8>),
}

/// Structural equality of two values.
pub open spec fn value_matches(a: Value, b: Value) -> bool
    decreases a,
{
    match (a, b) {
        (Value::Null, Value::Null) => true,
        (Value::Bool(x), Value::Bool(y)) => x == y,
        (Value::Int(x), Value::Int(y)) => x == y,
        (Value::Str(x), Value::Str(y)) => x@ == y@,
        (Value::List(x), Value::List(y)) => {
            x@.len() == y@.len() && forall|i: int|
                0 <= i < x@.len() ==> value_matches(#[trigger] x@[i], y@[i])
        },
        (Value::Bytes(x), Value::Bytes(y)) => x@ == y@,
        _ => false,
    }
}

/// Compare two byte vectors by contents.
pub fn bytes_eq(a: &Vec<u8>, b: &Vec<u8>) -> (r: bool)
    ensures
        r == (a@ == b@),
{
    if a.len() != b.len() {
        assert(a@.len() != b@.len());
        return false;
    }
    let mut i: usize = 0;
    while i < a.len()
        invariant
            0 <= i <= a.len(),
            a.len() == b.len(),
            forall|j: int| 0 <= j < i ==> a@[j] == b@[j],
        decreases a.len() - i,
    {
        if a[i] != b[i] {
            return false;
        }
        i = i + 1;
    }
    proof {
        assert(a@ =~= b@);
    }
    true
}

/// Decide structural equality of two values.
pub fn value_eq(a: &Value, b: &Value) -> (r: bool)
    ensures
        r == value_matches(*a, *b),
    decreases *a, 0int,
{
    match (a, b) {
        (Value::Null, Value::Null) => true,
        (Value::Bool(x), Value::Bool(y)) => *x == *y,
        (Value::Int(x), Value::Int(y)) => *x == *y,
        (Value::Str(x), Value::Str(y)) => *x == *y,
        (Value::List(x), Value::List(y)) => value_list_eq(x, y),
        (Value::Bytes(x), Value::Bytes(y)) => bytes_eq(x, y),
        _ => false,
    }
}

fn value_list_eq(a: &Vec<Value>, b: &Vec<Value>) -> (r: bool)
    ensures
        r == (a@.len() == b@.len() && forall|i: int|
            0 <= i < a@.len() ==> value_matches(#[trigger] a@[i], b@[i])),
    decreases *a, 1int,
{
    if a.len() != b.len() {
        return false;
    }
    let mut i: usize = 0;
    while i < a.len()
        invariant
            0 <= i <= a.len(),
            a.len() == b.len(),
            forall|j: int| 0 <= j < i ==> value_matches(#[trigger] a@[j], b@[j]),
        decreases a.len() - i,
    {
        if !value_eq(&a[i], &b[i]) {
            return false;
        }
        i = i + 1;
    }
    true
}

/// Copy a value; the copy matches the original structurally.
pub fn value_clone(v: &Value) -> (r: Value)
    ensures
        value_matches(*v, r),
    decreases *v, 0int,
{
    match v {
        Value::Null => Value::Null,
        Value::Bool(b) => Value::Bool(*b),
        Value::Int(i) => Value::Int(*i),
        Value::Str(s) => Value::Str(s.clone()),
        Value::List(items) => Value::List(value_vec_clone(items)),
        Value::Bytes(b) => Value::Bytes(bytes_clone(b)),
    }
}

/// Copy a byte vector.
pub fn bytes_clone(b: &Vec<u8>) -> (r: Vec<u8>)
    ensures
        r@ == b@,
{
    let mut out: Vec<u8> = Vec::new();
    let mut i: usize = 0;
    while i < b.len()
        invariant
            0 <= i <= b@.len(),
            out@ == b@.subrange(0, i as int),
        decreases b@.len() - i,
    {
        out.push(b[i]);
        proof {
            assert(out@ =~= b@.subrange(0, i + 1));
        }
        i = i + 1;
    }
    proof {
        assert(b@.subrange(0, b@.len() as int) =~= b@);
    }
    out
}

fn value_vec_clone(items: &Vec<Value>) -> (r: Vec<Value>)
    ensures
        r@.len() == items@.len(),
        forall|i: int| 0 <= i < items@.len() ==> value_matches(#[trigger] items@[i], r@[i]),
    decreases *items, 1int,
{
    let mut out: Vec<Value> = Vec::new();
    let mut i: usize = 0;
    while i < items.len()
        invariant
            0 <= i <= items@.len(),
            out@.len() == i,
            forall|j: int| 0 <= j < i ==> value_matches(#[trigger] items@[j], out@[j]),
        decreases items@.len() - i,
    {
        out.push(value_clone(&items[i]));
        i = i + 1;
    }
    out
}

/// The JSON escape of one character inside a quoted string: quote and
/// backslash get a leading backslash, all else stands as itself.
pub open spec fn esc_char(c: char) -> Seq<char> {
    if c == '"' {
        seq!['\\', '"']
    } else if c == '\\' {
        seq!['\\', '\\']
    } else {
        seq![c]
    }
}

/// The JSON escape of string contents.
pub open spec fn json_escaped(s: Seq<char>) -> Seq<char>
    decreases s.len(),
{
    if s.len() == 0 {
        Seq::empty()
    } else {
        esc_char(s[0]) + json_escaped(s.skip(1))
    }
}

/// The JSON text of a value. Bytes are not a JSON value and render empty;
/// a binary payload is emitted raw, never through this function.
pub open spec fn json_text(v: Value) -> Seq<char>
    decreases v,
{
    match v {
        Value::Null => "null"@,
        Value::Bool(b) => bool_text(b),
        Value::Int(i) => int_text(i as int),
        Value::Str(s) => seq!['"'] + json_escaped(s@) + seq!['"'],
        Value::List(items) => seq!['['] + json_items(items@) + seq![']'],
        Value::Bytes(_) => Seq::empty(),
    }
}

/// The comma-separated JSON texts of a sequence of values.
pub open spec fn json_items(items: Seq<Value>) -> Seq<char>
    decreases items,
{
    if items.len() == 0 {
        Seq::empty()
    } else if items.len() == 1 {
        json_text(items[0])
    } else {
        json_text(items[0]) + seq![','] + json_items(items.skip(1))
    }
}

/// Escaping distributes over appending one character.
pub proof fn lemma_json_escaped_snoc(s: Seq<char>, c: char)
    ensures
        json_escaped(s + seq![c]) == json_escaped(s) + esc_char(c),
    decreases s.len(),
{
    let t = s + seq![c];
    if s.len() == 0 {
        assert(t.skip(1) =~= Seq::<char>::empty());
        assert(t[0] == c);
        assert(json_escaped(Seq::<char>::empty()) =~= Seq::<char>::empty());
        assert(json_escaped(t) =~= esc_char(c));
        assert(json_escaped(s) + esc_char(c) =~= esc_char(c));
    } else {
        assert(t[0] == s[0]);
        assert(t.skip(1) =~= s.skip(1) + seq![c]);
        lemma_json_escaped_snoc(s.skip(1), c);
        assert(json_escaped(t) =~= json_escaped(s) + esc_char(c));
    }
}

/// Whether text is the JSON escape of some string contents: no bare
/// quote, and every backslash introduces an escaped quote or backslash.
pub open spec fn esc_decodable(e: Seq<char>) -> bool
    decreases e.len(),
{
    if e.len() == 0 {
        true
    } else if e[0] == '\\' {
        e.len() >= 2 && (e[1] == '"' || e[1] == '\\') && esc_decodable(e.skip(2))
    } else if e[0] == '"' {
        false
    } else {
        esc_decodable(e.skip(1))
    }
}

/// Decode JSON string escapes: the inverse of [`json_escaped`], where one
/// exists.
pub fn json_unescape(e: &str) -> (r: Option<String>)
    ensures
        match r {
            Option::Some(s) => esc_decodable(e@) && json_escaped(s@) == e@,
            Option::None => !esc_decodable(e@),
        },
{
    let n = e.unicode_len();
    let mut out = String::new();
    let mut i: usize = 0;
    proof {
        assert(e@.skip(0) =~= e@);
        assert(json_escaped(out@) =~= e@.subrange(0, 0));
    }
    while i < n
        invariant
            0 <= i <= n,
            n == e@.len(),
            json_escaped(out@) == e@.subrange(0, i as int),
            esc_decodable(e@) == esc_decodable(e@.skip(i as int)),
        decreases n - i,
    {
        let c = e.get_char(i);
        let ghost rem = e@.skip(i as int);
        proof {
            assert(rem[0] == c);
            assert(rem.len() == n - i);
        }
        if c == '\\' {
            if i + 1 == n {
                proof {
                    assert(!esc_decodable(rem));
                }
                return Option::None;
            }
            let c2 = e.get_char(i + 1);
            proof {
                assert(rem[1] == c2);
            }
            if c2 == '"' || c2 == '\\' {
                let ghost pre = out@;
                push_char(&mut out, c2);
                proof {
                    lemma_json_escaped_snoc(pre, c2);
                    assert(esc_char(c2) =~= seq!['\\', c2]);
                    assert(json_escaped(out@) =~= e@.subrange(0, i + 2));
                    assert(rem.skip(2) =~= e@.skip(i + 2));
                }
                i = i + 2;
            } else {
                proof {
                    assert(!esc_decodable(rem));
                }
                return Option::None;
            }
        } else if c == '"' {
            proof {
                assert(!esc_decodable(rem));
            }
            return Option::None;
        } else {
            let ghost pre = out@;
            push_char(&mut out, c);
            proof {
                lemma_json_escaped_snoc(pre, c);
                assert(esc_char(c) =~= seq![c]);
                assert(json_escaped(out@) =~= e@.subrange(0, i + 1));
                assert(rem.skip(1) =~= e@.skip(i + 1));
            }
            i = i + 1;
        }
    }
    proof {
        assert(e@.subrange(0, n as int) =~= e@);
        assert(e@.skip(n as int) =~= Seq::<char>::empty());
    }
    Option::Some(out)
}

/// Whether text reads as one JSON scalar: `null`, `true`, `false`, a
/// quoted string with quote and backslash escapes, or a decimal integer
/// in signed 64-bit range.
pub open spec fn json_scalar_coercible(t: Seq<char>) -> bool {
    ||| t == "null"@
    ||| t == "true"@
    ||| t == "false"@
    ||| (t.len() >= 2 && t[0] == '"' && t.last() == '"' && esc_decodable(
        t.subrange(1, t.len() - 1),
    ))
    ||| (match crate::textnum::text_int(t) {
        Option::Some(v) => i64::MIN <= v <= i64::MAX,
        Option::None => false,
    })
}

/// What a JSON scalar text reads as.
pub open spec fn json_scalar_to(t: Seq<char>, v: Value) -> bool {
    if t == "null"@ {
        v is Null
    } else if t == "true"@ {
        v == Value::Bool(true)
    } else if t == "false"@ {
        v == Value::Bool(false)
    } else if t.len() >= 2 && t[0] == '"' && t.last() == '"' {
        v matches Value::Str(s) && json_escaped(s@) == t.subrange(1, t.len() - 1)
    } else {
        v matches Value::Int(x) && crate::textnum::text_int(t) == Option::Some(x as int)
    }
}

/// Read one JSON scalar from text.
pub fn parse_json_scalar(s: &str) -> (r: Option<Value>)
    ensures
        match r {
            Option::Some(v) => json_scalar_coercible(s@) && json_scalar_to(s@, v),
            Option::None => !json_scalar_coercible(s@),
        },
{
    if crate::message::str_eq(s, "null") {
        return Option::Some(Value::Null);
    }
    if crate::message::str_eq(s, "true") {
        return Option::Some(Value::Bool(true));
    }
    if crate::message::str_eq(s, "false") {
        return Option::Some(Value::Bool(false));
    }
    let n = s.unicode_len();
    if n >= 2 && s.get_char(0) == '"' && s.get_char(n - 1) == '"' {
        let inner = s.substring_char(1, n - 1);
        proof {
            assert(inner@ == s@.subrange(1, s@.len() - 1));
        }
        return match json_unescape(inner) {
            Option::Some(txt) => Option::Some(Value::Str(txt)),
            Option::None => Option::None,
        };
    }
    match crate::textnum::parse_i64_text(s) {
        Option::Some(v) => Option::Some(Value::Int(v)),
        Option::None => Option::None,
    }
}

/// Render string contents with JSON escaping, between double quotes.
fn quoted_json_string(s: &str) -> (r: String)
    ensures
        r@ == seq!['"'] + json_escaped(s@) + seq!['"'],
{
    let mut out = String::new();
    push_char(&mut out, '"');
    let n = s.unicode_len();
    let mut i: usize = 0;
    while i < n
        invariant
            0 <= i <= n,
            n == s@.len(),
            out@ == seq!['"'] + json_escaped(s@.subrange(0, i as int)),
        decreases n - i,
    {
        let c = s.get_char(i);
        if c == '"' {
            push_char(&mut out, '\\');
            push_char(&mut out, '"');
        } else if c == '\\' {
            push_char(&mut out, '\\');
            push_char(&mut out, '\\');
        } else {
            push_char(&mut out, c);
        }
        proof {
            let pre = s@.subrange(0, i as int);
            lemma_json_escaped_snoc(pre, c);
            assert(pre + seq![c] =~= s@.subrange(0, i + 1));
            assert(out@ =~= seq!['"'] + json_escaped(s@.subrange(0, i + 1)));
        }
        i = i + 1;
    }
    proof {
        assert(s@.subrange(0, n as int) =~= s@);
    }
    push_char(&mut out, '"');
    out
}

/// Render a value as JSON text.
pub fn value_to_json(v: &Value) -> (r: String)
    ensures
        r@ == json_text(*v),
    decreases *v, 0int,
{
    match v {
        Value::Null => {
            proof { reveal_strlit("null"); }
            "null".to_owned()
        },
        Value::Bool(b) => bool_to_text(*b),
        Value::Int(i) => i64_text(*i),
        Value::Str(s) => quoted_json_string(s.as_str()),
        Value::List(items) => {
            let mut out = String::new();
            push_char(&mut out, '[');
            let inner = json_items_from(items, 0);
            out.append(inner.as_str());
            push_char(&mut out, ']');
            proof {
                assert(items@.skip(0) =~= items@);
                assert(out@ =~= seq!['['] + json_items(items@) + seq![']']);
            }
            out
        },
        Value::Bytes(_) => String::new(),
    }
}

fn json_items_from(items: &Vec<Value>, start: usize) -> (r: String)
    requires
        start <= items@.len(),
    ensures
        r@ == json_items(items@.skip(start as int)),
    decreases *items, items@.len() - start,
{
    let n = items.len();
    if start == n {
        proof {
            assert(items@.skip(start as int) =~= Seq::<Value>::empty());
        }
        String::new()
    } else if start + 1 == n {
        proof {
            assert(items@.skip(start as int).len() == 1);
            assert(items@.skip(start as int)[0] == items@[start as int]);
        }
        value_to_json(&items[start])
    } else {
        let mut out = value_to_json(&items[start]);
        push_char(&mut out, ',');
        let rest = json_items_from(items, start + 1);
        out.append(rest.as_str());
        proof {
            let tail = items@.skip(start as int);
            assert(tail[0] == items@[start as int]);
            assert(tail.skip(1) =~= items@.skip(start as int + 1));
            assert(out@ =~= json_items(items@.skip(start as int)));
        }
        out
    }
}

} // verus!
