//! The transport-facing shape of a request and a response, as plain
//! values: the transport adapter fills a request in and sends a response
//! out, and everything in between is pure.

use vstd::prelude::*;

use crate::textnum::push_char;

verus! {

/// An HTTP request method.
#[derive(Clone, Copy, PartialEq, Eq, Structural)]
pub enum HttpMethod {
    Get,
    Post,
    Put,
    Delete,
    Head,
    Options,
    Patch,
    Trace,
}

/// The lower-case wire name of a method.
pub open spec fn method_text(m: HttpMethod) -> Seq<char> {
    match m {
        HttpMethod::Get => "get"@,
        HttpMethod::Post => "post"@,
        HttpMethod::Put => "put"@,
        HttpMethod::Delete => "delete"@,
        HttpMethod::Head => "head"@,
        HttpMethod::Options => "options"@,
        HttpMethod::Patch => "patch"@,
        HttpMethod::Trace => "trace"@,
    }
}

/// The lower-case wire name of a method.
pub fn method_name(m: HttpMethod) -> (r: String)
    ensures
        r@ == method_text(m),
{
    match m {
        HttpMethod::Get => "get".to_owned(),
        HttpMethod::Post => "post".to_owned(),
        HttpMethod::Put => "put".to_owned(),
        HttpMethod::Delete => "delete".to_owned(),
        HttpMethod::Head => "head".to_owned(),
        HttpMethod::Options => "options".to_owned(),
        HttpMethod::Patch => "patch".to_owned(),
        HttpMethod::Trace => "trace".to_owned(),
    }
}

/// An incoming request, reduced to plain values. Query entries, header
/// lines and cookies keep their appearance order; `path_captures` holds
/// the named segments the router resolved from the matched path pattern;
/// `content_type` is the declared media type of the body, when one came
/// with the request; `remote_addr` and `protocol` are what the transport
/// knows of the peer and the protocol flavor.
pub struct HttpRequest {
    pub method: HttpMethod,
    pub path: String,
    pub remote_addr: String,
    pub protocol: String,
    pub query: Vec<(String, String)>,
    pub headers: Vec<(String, String)>,
    pub cookies: Vec<(String, String)>,
    pub path_captures: Vec<(String, String)>,
    pub content_type: Option<String>,
    pub body: Option<Vec<u8>>,
}

/// What an outgoing response carries as its body.
pub enum BodyData {
    Empty,
    Text(String),
    Blob(Vec<u8>),
}

/// An outgoing response, as plain values.
pub struct HttpResponse {
    pub status: u16,
    pub headers: Vec<(String, String)>,
    pub body: BodyData,
}

/// The scalar value of a character with ASCII upper case folded to lower.
pub open spec fn lower_u32(c: char) -> u32 {
    if 'A' <= c && c <= 'Z' {
        ((c as u32) + 32) as u32
    } else {
        c as u32
    }
}

/// Whether two texts agree up to ASCII case.
pub open spec fn nocase_eq(a: Seq<char>, b: Seq<char>) -> bool {
    a.len() == b.len() && forall|i: int| 0 <= i < a.len() ==> lower_u32(a[i]) == lower_u32(b[i])
}

/// Compare two texts by contents.
pub fn str_eq(a: &str, b: &str) -> (r: bool)
    ensures
        r == (a@ == b@),
{
    let na = a.unicode_len();
    let nb = b.unicode_len();
    if na != nb {
        return false;
    }
    let mut i: usize = 0;
    while i < na
        invariant
            0 <= i <= na,
            na == a@.len(),
            na == b@.len(),
            forall|j: int| 0 <= j < i ==> a@[j] == b@[j],
        decreases na - i,
    {
        if a.get_char(i) != b.get_char(i) {
            return false;
        }
        i = i + 1;
    }
    proof {
        assert(a@ =~= b@);
    }
    true
}

/// Compare two texts ignoring ASCII case.
pub fn text_eq_nocase(a: &str, b: &str) -> (r: bool)
    ensures
        r == nocase_eq(a@, b@),
{
    let na = a.unicode_len();
    let nb = b.unicode_len();
    if na != nb {
        return false;
    }
    let mut i: usize = 0;
    while i < na
        invariant
            0 <= i <= na,
            na == a@.len(),
            na == b@.len(),
            forall|j: int| 0 <= j < i ==> lower_u32(a@[j]) == lower_u32(b@[j]),
        decreases na - i,
    {
        let ca = a.get_char(i);
        let cb = b.get_char(i);
        let la: u32 = if 'A' <= ca && ca <= 'Z' {
            (ca as u32) + 32
        } else {
            ca as u32
        };
        let lb: u32 = if 'A' <= cb && cb <= 'Z' {
            (cb as u32) + 32
        } else {
            cb as u32
        };
        if la != lb {
            return false;
        }
        i = i + 1;
    }
    true
}

/// The values, in appearance order, of the entries whose name satisfies
/// the predicate.
pub open spec fn values_where(
    pairs: Seq<(String, String)>,
    pred: spec_fn(Seq<char>) -> bool,
) -> Seq<String>
    decreases pairs.len(),
{
    if pairs.len() == 0 {
        Seq::empty()
    } else {
        let rest = values_where(pairs.skip(1), pred);
        if pred(pairs[0].0@) {
            seq![pairs[0].1] + rest
        } else {
            rest
        }
    }
}

/// The values, in appearance order, of the entries with exactly this name.
pub open spec fn values_for(pairs: Seq<(String, String)>, name: Seq<char>) -> Seq<String> {
    values_where(pairs, |k: Seq<char>| k == name)
}

/// The values, in appearance order, of the entries whose name equals this
/// one up to ASCII case, as header names are matched.
pub open spec fn header_values_for(pairs: Seq<(String, String)>, name: Seq<char>) -> Seq<String> {
    values_where(pairs, |k: Seq<char>| nocase_eq(k, name))
}

proof fn lemma_values_where_snoc(
    pairs: Seq<(String, String)>,
    pred: spec_fn(Seq<char>) -> bool,
    p: (String, String),
)
    ensures
        values_where(pairs.push(p), pred) == values_where(pairs, pred) + (if pred(p.0@) {
            seq![p.1]
        } else {
            Seq::<String>::empty()
        }),
    decreases pairs.len(),
{
    let t = pairs.push(p);
    if pairs.len() == 0 {
        assert(t.skip(1) =~= Seq::<(String, String)>::empty());
        assert(values_where(Seq::<(String, String)>::empty(), pred) =~= Seq::<String>::empty());
        assert(t[0] == p);
        if pred(p.0@) {
            assert(values_where(t, pred) =~= seq![p.1]);
            assert(values_where(pairs, pred) + seq![p.1] =~= seq![p.1]);
        } else {
            assert(values_where(t, pred) =~= Seq::<String>::empty());
            assert(values_where(pairs, pred) + Seq::<String>::empty() =~= Seq::<String>::empty());
        }
    } else {
        assert(t[0] == pairs[0]);
        assert(t.skip(1) =~= pairs.skip(1).push(p));
        lemma_values_where_snoc(pairs.skip(1), pred, p);
        if pred(pairs[0].0@) {
            assert(values_where(t, pred) =~= values_where(pairs, pred) + (if pred(p.0@) {
                seq![p.1]
            } else {
                Seq::<String>::empty()
            }));
        } else {
            assert(values_where(t, pred) =~= values_where(pairs, pred) + (if pred(p.0@) {
                seq![p.1]
            } else {
                Seq::<String>::empty()
            }));
        }
    }
}

/// Collect the values of the entries with the given name, in appearance
/// order; header names are matched ignoring ASCII case when `nocase`.
pub fn collect_values(pairs: &Vec<(String, String)>, name: &str, nocase: bool) -> (r: Vec<String>)
    ensures
        nocase ==> r@ == header_values_for(pairs@, name@),
        !nocase ==> r@ == values_for(pairs@, name@),
{
    let ghost pred: spec_fn(Seq<char>) -> bool = if nocase {
        |k: Seq<char>| nocase_eq(k, name@)
    } else {
        |k: Seq<char>| k == name@
    };
    let mut out: Vec<String> = Vec::new();
    let mut i: usize = 0;
    while i < pairs.len()
        invariant
            0 <= i <= pairs@.len(),
            pred == (if nocase {
                |k: Seq<char>| nocase_eq(k, name@)
            } else {
                |k: Seq<char>| k == name@
            }),
            out@ == values_where(pairs@.subrange(0, i as int), pred),
        decreases pairs@.len() - i,
    {
        let hit = if nocase {
            text_eq_nocase(pairs[i].0.as_str(), name)
        } else {
            str_eq(pairs[i].0.as_str(), name)
        };
        proof {
            assert(hit == pred(pairs@[i as int].0@));
        }
        if hit {
            out.push(pairs[i].1.clone());
        }
        proof {
            let pre = pairs@.subrange(0, i as int);
            lemma_values_where_snoc(pre, pred, pairs@[i as int]);
            assert(pre.push(pairs@[i as int]) =~= pairs@.subrange(0, i + 1));
            assert(out@ =~= values_where(pairs@.subrange(0, i + 1), pred));
        }
        i = i + 1;
    }
    proof {
        assert(pairs@.subrange(0, pairs@.len() as int) =~= pairs@);
    }
    out
}

/// The ASCII upper-case counterpart of a character.
pub open spec fn ascii_upper_char(c: char) -> char {
    if 'a' <= c && c <= 'z' {
        (((c as u32) - 32) as u32) as char
    } else {
        c
    }
}

/// The ASCII upper-case counterpart of a character.
///
/// Relies on `char::to_ascii_uppercase` (std): for 'a' through 'z' the
/// letter 32 lower in scalar value, any other character unchanged.
#[verifier::external_body]
fn to_upper_char(c: char) -> (r: char)
    ensures
        r == ascii_upper_char(c),
{
    c.to_ascii_uppercase()
}

/// The canonical display form of a header name: the first character
/// upper-cased, the rest as declared. Matching at runtime stays
/// case-insensitive; this only fixes what the document shows.
pub open spec fn canonical_header_text(s: Seq<char>) -> Seq<char> {
    if s.len() == 0 {
        s
    } else {
        seq![ascii_upper_char(s[0])] + s.skip(1)
    }
}

/// Render the canonical display form of a header name.
pub fn canonical_header_name(name: &str) -> (r: String)
    ensures
        r@ == canonical_header_text(name@),
{
    let n = name.unicode_len();
    if n == 0 {
        String::new()
    } else {
        let mut out = String::new();
        push_char(&mut out, to_upper_char(name.get_char(0)));
        let rest = name.substring_char(1, n);
        out.append(rest);
        proof {
            assert(out@ =~= canonical_header_text(name@));
        }
        out
    }
}

} // verus!
