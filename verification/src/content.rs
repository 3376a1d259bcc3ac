//! Content alternatives: the ordered list of (media type, shape) pairs a
//! request or response body may take, and the exact-media-type matching
//! that selects one.

use vstd::prelude::*;

use crate::message::{nocase_eq, str_eq, text_eq_nocase};
use crate::schema::{binary_schema, Schema, SchemaRef};

verus! {

/// How a payload of an alternative is carried.
#[derive(Clone, Copy, PartialEq, Eq, Structural)]
pub enum PayloadKind {
    /// A JSON value, rendered and read as JSON text.
    Json,
    /// Plain text, carried verbatim.
    Text,
    /// Raw bytes, carried verbatim.
    Binary,
}

/// One content alternative: the media type the document shows, the exact
/// content-type text a response carrying this alternative emits, the
/// payload shape, and how the payload is carried.
pub struct ContentAlt {
    pub content_type: String,
    pub emit_content_type: String,
    pub schema: SchemaRef,
    pub payload: PayloadKind,
}

impl ContentAlt {
    /// The JSON alternative: documented as `application/json`, emitted
    /// with the UTF-8 charset parameter.
    pub fn json(schema: SchemaRef) -> (r: Self)
        ensures
            r.content_type@ == "application/json"@,
            r.emit_content_type@ == "application/json; charset=utf-8"@,
            r.schema == schema,
            r.payload == PayloadKind::Json,
    {
        ContentAlt {
            content_type: "application/json".to_owned(),
            emit_content_type: "application/json; charset=utf-8".to_owned(),
            schema,
            payload: PayloadKind::Json,
        }
    }

    /// The plain-text alternative: documented as `text/plain`, emitted
    /// with the UTF-8 charset parameter, shaped as a string.
    pub fn plain_text() -> (r: Self)
        ensures
            r.content_type@ == "text/plain"@,
            r.emit_content_type@ == "text/plain; charset=utf-8"@,
            r.schema matches SchemaRef::Inline(s) && *s matches Schema::Primitive {
                ty,
                format,
            } && ty@ == "string"@ && format is None,
            r.payload == PayloadKind::Text,
    {
        ContentAlt {
            content_type: "text/plain".to_owned(),
            emit_content_type: "text/plain; charset=utf-8".to_owned(),
            schema: SchemaRef::Inline(
                Box::new(Schema::Primitive { ty: "string".to_owned(), format: Option::None }),
            ),
            payload: PayloadKind::Text,
        }
    }

    /// The binary alternative: `application/octet-stream`, with the
    /// sentinel shape `string` of format `binary`.
    pub fn binary() -> (r: Self)
        ensures
            r.content_type@ == "application/octet-stream"@,
            r.emit_content_type@ == "application/octet-stream"@,
            r.schema matches SchemaRef::Inline(s) && *s matches Schema::Primitive {
                ty,
                format,
            } && ty@ == "string"@ && (format matches Option::Some(f) && f@ == "binary"@),
            r.payload == PayloadKind::Binary,
    {
        ContentAlt {
            content_type: "application/octet-stream".to_owned(),
            emit_content_type: "application/octet-stream".to_owned(),
            schema: SchemaRef::Inline(Box::new(binary_schema())),
            payload: PayloadKind::Binary,
        }
    }

    /// An alternative under a custom media type, documented and emitted
    /// exactly as given.
    pub fn custom(content_type: String, schema: SchemaRef, payload: PayloadKind) -> (r: Self)
        ensures
            r.content_type@ == content_type@,
            r.emit_content_type@ == content_type@,
            r.schema == schema,
            r.payload == payload,
    {
        let emit = content_type.clone();
        ContentAlt { content_type, emit_content_type: emit, schema, payload }
    }
}

/// The position of the first ';' in the text, or its length.
pub open spec fn semi_index(s: Seq<char>) -> int
    decreases s.len(),
{
    if s.len() == 0 {
        0
    } else if s[0] == ';' {
        0
    } else {
        1 + semi_index(s.skip(1))
    }
}

proof fn lemma_semi_index(s: Seq<char>)
    ensures
        0 <= semi_index(s) <= s.len(),
        forall|j: int| 0 <= j < semi_index(s) ==> s[j] != ';',
        semi_index(s) < s.len() ==> s[semi_index(s)] == ';',
    decreases s.len(),
{
    if s.len() == 0 {
    } else if s[0] == ';' {
    } else {
        lemma_semi_index(s.skip(1));
        assert forall|j: int| 0 <= j < semi_index(s) implies s[j] != ';' by {
            if j > 0 {
                assert(s.skip(1)[j - 1] == s[j]);
            }
        }
        if semi_index(s) < s.len() {
            assert(s.skip(1)[semi_index(s) - 1] == s[semi_index(s)]);
        }
    }
}

/// The length of the text with trailing spaces removed.
pub open spec fn rtrim_len(s: Seq<char>) -> int
    decreases s.len(),
{
    if s.len() > 0 && s.last() == ' ' {
        rtrim_len(s.drop_last())
    } else {
        s.len() as int
    }
}

proof fn lemma_rtrim_len(s: Seq<char>)
    ensures
        0 <= rtrim_len(s) <= s.len(),
        forall|j: int| rtrim_len(s) <= j < s.len() ==> s[j] == ' ',
        rtrim_len(s) > 0 ==> s[rtrim_len(s) - 1] != ' ',
    decreases s.len(),
{
    if s.len() > 0 && s.last() == ' ' {
        lemma_rtrim_len(s.drop_last());
        assert forall|j: int| rtrim_len(s) <= j < s.len() implies s[j] == ' ' by {
            if j < s.len() - 1 {
                assert(s.drop_last()[j] == s[j]);
            }
        }
        if rtrim_len(s) > 0 {
            assert(s.drop_last()[rtrim_len(s) - 1] == s[rtrim_len(s) - 1]);
        }
    }
}

/// The essence of a media type: what stands before the first ';', with
/// trailing spaces removed. Parameters such as `charset` are ignored for
/// matching and honored only on emission.
pub open spec fn media_essence(s: Seq<char>) -> Seq<char> {
    let p = s.subrange(0, semi_index(s));
    p.subrange(0, rtrim_len(p))
}

/// Whether two media types match: equal essences, ignoring ASCII case.
pub open spec fn media_matches(a: Seq<char>, b: Seq<char>) -> bool {
    nocase_eq(media_essence(a), media_essence(b))
}

/// The essence of a media type, as text.
fn media_essence_str<'a>(s: &'a str) -> (r: &'a str)
    ensures
        r@ == media_essence(s@),
{
    let n = s.unicode_len();
    let mut semi: usize = 0;
    while semi < n && s.get_char(semi) != ';'
        invariant
            0 <= semi <= n,
            n == s@.len(),
            forall|j: int| 0 <= j < semi ==> s@[j] != ';',
        decreases n - semi,
    {
        semi = semi + 1;
    }
    proof {
        lemma_semi_index(s@);
        if semi < semi_index(s@) {
            assert(s@[semi as int] == ';');
        }
        assert(semi == semi_index(s@));
    }
    let ghost p = s@.subrange(0, semi_index(s@));
    let mut e: usize = semi;
    while e > 0 && s.get_char(e - 1) == ' '
        invariant
            0 <= e <= semi,
            semi <= n,
            semi == semi_index(s@),
            n == s@.len(),
            p == s@.subrange(0, semi_index(s@)),
            forall|j: int| e <= j < semi ==> s@[j] == ' ',
        decreases e,
    {
        e = e - 1;
    }
    proof {
        lemma_rtrim_len(p);
        assert(p.len() == semi_index(s@));
        if e < rtrim_len(p) {
            assert(s@[rtrim_len(p) - 1] == ' ');
            assert(p[rtrim_len(p) - 1] == s@[rtrim_len(p) - 1]);
            assert(false);
        }
        if e > rtrim_len(p) {
            assert(p[e - 1] == ' ');
            assert(p[e - 1] == s@[e - 1]);
            assert(false);
        }
        assert(e == rtrim_len(p));
    }
    let r = s.substring_char(0, e);
    proof {
        assert(r@ =~= media_essence(s@));
    }
    r
}

/// Whether two media types match, ignoring parameters and ASCII case.
pub fn media_match(a: &str, b: &str) -> (r: bool)
    ensures
        r == media_matches(a@, b@),
{
    text_eq_nocase(media_essence_str(a), media_essence_str(b))
}

/// Select the first alternative whose media type matches the request's
/// declared content type. An absent content type, like one matching no
/// alternative, selects nothing.
pub fn select_alternative(alts: &Vec<ContentAlt>, content_type: &Option<String>) -> (r: Option<
    usize,
>)
    ensures
        match r {
            Option::Some(i) => {
                &&& content_type matches Option::Some(ct)
                &&& i < alts@.len()
                &&& media_matches(alts@[i as int].content_type@, ct@)
                &&& forall|j: int|
                    0 <= j < i ==> !media_matches(#[trigger] alts@[j].content_type@, ct@)
            },
            Option::None => match content_type {
                Option::Some(ct) => forall|j: int|
                    0 <= j < alts@.len() ==> !media_matches(
                        #[trigger] alts@[j].content_type@,
                        ct@,
                    ),
                Option::None => true,
            },
        },
{
    if content_type.is_none() {
        return Option::None;
    }
    let ct = content_type.as_ref().unwrap();
    let mut i: usize = 0;
    while i < alts.len()
        invariant
            *content_type matches Option::Some(c) && c == ct,
            0 <= i <= alts@.len(),
            forall|j: int| 0 <= j < i ==> !media_matches(#[trigger] alts@[j].content_type@, ct@),
        decreases alts@.len() - i,
    {
        if media_match(alts[i].content_type.as_str(), ct.as_str()) {
            return Option::Some(i);
        }
        i = i + 1;
    }
    Option::None
}

/// The request-body descriptor: whether a body is required, its
/// description, and the ordered content alternatives.
pub struct RequestDescriptor {
    pub required: bool,
    pub description: Option<String>,
    pub content: Vec<ContentAlt>,
}

} // verus!
