//! Response declarations and response resolution: each variant of an
//! operation's result maps to a fixed or runtime-carried status, at most
//! one payload serialized per its declared content type, and extra
//! headers attached positionally after the payload in declaration order.

use vstd::prelude::*;

use crate::content::{ContentAlt, PayloadKind};
use crate::message::{canonical_header_name, canonical_header_text, BodyData, HttpResponse};
use crate::schema::SchemaRef;
use crate::value::{json_text, value_to_json, Value};

verus! {

/// A request or response header declaration. The stored name is the
/// canonical display form: first character upper-cased, the rest as
/// declared. Runtime matching stays case-insensitive.
pub struct HeaderDescriptor {
    pub name: String,
    pub schema: SchemaRef,
    pub description: Option<String>,
    pub required: bool,
    pub deprecated: bool,
}

impl HeaderDescriptor {
    /// A required header with the given wire name, normalized for
    /// display.
    pub fn new(name: &str, schema: SchemaRef) -> (r: Self)
        ensures
            r.name@ == canonical_header_text(name@),
            r.schema == schema,
            r.description is None,
            r.required,
            !r.deprecated,
    {
        HeaderDescriptor {
            name: canonical_header_name(name),
            schema,
            description: Option::None,
            required: true,
            deprecated: false,
        }
    }

    /// Mark the header optional.
    pub fn optional(self) -> (r: Self)
        ensures
            r == (HeaderDescriptor { required: false, ..self }),
    {
        HeaderDescriptor { required: false, ..self }
    }

    /// Attach a description shown in the document.
    pub fn describe(self, text: String) -> (r: Self)
        ensures
            r == (HeaderDescriptor { description: Option::Some(text), ..self }),
    {
        HeaderDescriptor { description: Option::Some(text), ..self }
    }

    /// Mark the header deprecated in the document.
    pub fn mark_deprecated(self) -> (r: Self)
        ensures
            r == (HeaderDescriptor { deprecated: true, ..self }),
    {
        HeaderDescriptor { deprecated: true, ..self }
    }
}

/// One variant of an operation's result: a fixed status, or none when the
/// status is carried at runtime in the returned value; a description; the
/// content alternatives; and the variant's own header declarations, in
/// field order.
pub struct ResponseVariant {
    pub status: Option<u16>,
    pub description: String,
    pub content: Vec<ContentAlt>,
    pub headers: Vec<HeaderDescriptor>,
}

impl ResponseVariant {
    /// A variant with a fixed declared status and no payload.
    pub fn with_status(status: u16, description: String) -> (r: Self)
        ensures
            r.status == Option::Some(status),
            r.description == description,
            r.content@.len() == 0,
            r.headers@.len() == 0,
    {
        ResponseVariant {
            status: Option::Some(status),
            description,
            content: Vec::new(),
            headers: Vec::new(),
        }
    }

    /// A variant whose status is determined at runtime: the document
    /// records no fixed status.
    pub fn with_runtime_status(description: String) -> (r: Self)
        ensures
            r.status is None,
            r.description == description,
            r.content@.len() == 0,
            r.headers@.len() == 0,
    {
        ResponseVariant {
            status: Option::None,
            description,
            content: Vec::new(),
            headers: Vec::new(),
        }
    }

    /// Append a content alternative.
    pub fn with_content(self, alt: ContentAlt) -> (r: Self)
        ensures
            r.content@ == self.content@.push(alt),
            r.status == self.status,
            r.description == self.description,
            r.headers@ == self.headers@,
    {
        let mut content = self.content;
        content.push(alt);
        ResponseVariant { content, ..self }
    }

    /// Append a header declaration.
    pub fn with_header(self, h: HeaderDescriptor) -> (r: Self)
        ensures
            r.headers@ == self.headers@.push(h),
            r.status == self.status,
            r.description == self.description,
            r.content@ == self.content@,
    {
        let mut headers = self.headers;
        headers.push(h);
        ResponseVariant { headers, ..self }
    }
}

/// The ordered response variants of one operation.
pub struct OperationResponses {
    pub responses: Vec<ResponseVariant>,
}

/// What an operation's result carries: which variant, the runtime status
/// when the variant declares none, at most one payload (an index into the
/// variant's content alternatives and its data), and one optional value
/// per variant header, positionally; `None` omits the header.
pub struct ResponseValue {
    pub variant: usize,
    pub runtime_status: Option<u16>,
    pub payload: Option<(usize, PayloadData)>,
    pub header_values: Vec<Option<String>>,
}

/// Payload data, carried as its alternative declares.
pub enum PayloadData {
    JsonValue(Value),
    Text(String),
    Blob(Vec<u8>),
}

/// Whether payload data is carried as the alternative declares.
pub open spec fn payload_fits(alt: ContentAlt, d: PayloadData) -> bool {
    match d {
        PayloadData::JsonValue(_) => alt.payload == PayloadKind::Json,
        PayloadData::Text(_) => alt.payload == PayloadKind::Text,
        PayloadData::Blob(_) => alt.payload == PayloadKind::Binary,
    }
}

/// Whether a result value is consistent with the declared variants: the
/// variant exists, a runtime status is carried exactly when the variant
/// declares none, the payload points at one of the variant's
/// alternatives and fits it, and there is one value slot per declared
/// header.
pub open spec fn response_value_wf(rv: ResponseValue, decl: OperationResponses) -> bool {
    &&& rv.variant < decl.responses@.len()
    &&& {
        let var = decl.responses@[rv.variant as int];
        &&& (rv.runtime_status is Some <==> var.status is None)
        &&& match rv.payload {
            Option::Some(p) => p.0 < var.content@.len() && payload_fits(
                var.content@[p.0 as int],
                p.1,
            ),
            Option::None => true,
        }
        &&& rv.header_values@.len() == var.headers@.len()
        &&& forall|i: int|
            0 <= i < var.headers@.len() && (#[trigger] var.headers@[i]).required
                ==> rv.header_values@[i] is Some
    }
}

/// The header pairs a variant's values emit: each present value under
/// its declared name, in declaration order; an absent value emits
/// nothing.
pub open spec fn present_header_views(
    hs: Seq<HeaderDescriptor>,
    vals: Seq<Option<String>>,
) -> Seq<(Seq<char>, Seq<char>)>
    decreases hs.len(),
{
    if hs.len() == 0 || vals.len() == 0 {
        Seq::empty()
    } else {
        let rest = present_header_views(hs.skip(1), vals.skip(1));
        match vals[0] {
            Option::Some(v) => seq![(hs[0].name@, v@)] + rest,
            Option::None => rest,
        }
    }
}

/// The name and value views of emitted header pairs.
pub open spec fn header_views(hs: Seq<(String, String)>) -> Seq<(Seq<char>, Seq<char>)> {
    hs.map_values(|p: (String, String)| (p.0@, p.1@))
}

fn emit_headers_from(
    hs: &Vec<HeaderDescriptor>,
    vals: &Vec<Option<String>>,
    start: usize,
) -> (r: Vec<(String, String)>)
    requires
        start <= hs@.len(),
        hs@.len() == vals@.len(),
    ensures
        header_views(r@) == present_header_views(hs@.skip(start as int), vals@.skip(start as int)),
    decreases hs@.len() - start,
{
    if start == hs.len() {
        proof {
            assert(hs@.skip(start as int) =~= Seq::<HeaderDescriptor>::empty());
            assert(header_views(Seq::<(String, String)>::empty()) =~= Seq::<(
                Seq<char>,
                Seq<char>,
            )>::empty());
        }
        Vec::new()
    } else {
        let rest = emit_headers_from(hs, vals, start + 1);
        proof {
            assert(hs@.skip(start as int)[0] == hs@[start as int]);
            assert(vals@.skip(start as int)[0] == vals@[start as int]);
            assert(hs@.skip(start as int).skip(1) =~= hs@.skip(start as int + 1));
            assert(vals@.skip(start as int).skip(1) =~= vals@.skip(start as int + 1));
        }
        if vals[start].is_some() {
            let v = vals[start].as_ref().unwrap();
            let mut out: Vec<(String, String)> = Vec::new();
            out.push((hs[start].name.clone(), v.clone()));
            let mut k: usize = 0;
            while k < rest.len()
                invariant
                    0 <= k <= rest@.len(),
                    out@.len() == 1 + k,
                    out@[0].0@ == hs@[start as int].name@,
                    out@[0].1@ == vals@[start as int].unwrap()@,
                    forall|j: int| 0 <= j < k ==> out@[j + 1] == rest@[j],
                decreases rest@.len() - k,
            {
                let (a, b) = &rest[k];
                out.push((a.clone(), b.clone()));
                k = k + 1;
            }
            proof {
                assert(header_views(out@) =~= present_header_views(
                    hs@.skip(start as int),
                    vals@.skip(start as int),
                ));
            }
            out
        } else {
            proof {
                assert(header_views(rest@) =~= present_header_views(
                    hs@.skip(start as int),
                    vals@.skip(start as int),
                ));
            }
            rest
        }
    }
}

/// Turn an operation's typed result into the transport response: the
/// declared status, or the carried one when the declaration leaves the
/// status to runtime; the payload rendered per its alternative, with that
/// alternative's content type emitted; then the present header values in
/// declaration order. A result without a payload emits an empty body and
/// no content type.
pub fn into_response(rv: &ResponseValue, decl: &OperationResponses) -> (r: HttpResponse)
    requires
        response_value_wf(*rv, *decl),
    ensures
        ({
            let var = decl.responses@[rv.variant as int];
            &&& r.status == (match var.status {
                Option::Some(s) => s,
                Option::None => rv.runtime_status.unwrap(),
            })
            &&& match rv.payload {
                Option::None => r.body is Empty && header_views(r.headers@)
                    == present_header_views(var.headers@, rv.header_values@),
                Option::Some(p) => {
                    &&& (match p.1 {
                        PayloadData::JsonValue(v) => r.body matches BodyData::Text(s) && s@
                            == json_text(v),
                        PayloadData::Text(t) => r.body matches BodyData::Text(s) && s@ == t@,
                        PayloadData::Blob(b) => r.body matches BodyData::Blob(d) && d@ == b@,
                    })
                    &&& header_views(r.headers@) == seq![
                        ("content-type"@, var.content@[p.0 as int].emit_content_type@),
                    ] + present_header_views(var.headers@, rv.header_values@)
                },
            }
        }),
{
    let var = &decl.responses[rv.variant];
    let status: u16 = match var.status {
        Option::Some(s) => s,
        Option::None => rv.runtime_status.unwrap(),
    };
    let mut headers: Vec<(String, String)> = Vec::new();
    let body: BodyData = match &rv.payload {
        Option::Some(p) => {
            let alt = &var.content[p.0];
            headers.push(("content-type".to_owned(), alt.emit_content_type.clone()));
            match &p.1 {
                PayloadData::JsonValue(v) => BodyData::Text(value_to_json(v)),
                PayloadData::Text(t) => BodyData::Text(t.clone()),
                PayloadData::Blob(b) => BodyData::Blob(crate::value::bytes_clone(b)),
            }
        },
        Option::None => BodyData::Empty,
    };
    let ghost first = headers@;
    let extra = emit_headers_from(&var.headers, &rv.header_values, 0);
    let mut k: usize = 0;
    while k < extra.len()
        invariant
            0 <= k <= extra@.len(),
            headers@.len() == first.len() + k,
            forall|j: int| 0 <= j < first.len() ==> headers@[j] == first[j],
            forall|j: int| 0 <= j < k ==> headers@[first.len() + j] == extra@[j],
        decreases extra@.len() - k,
    {
        let (a, b) = &extra[k];
        headers.push((a.clone(), b.clone()));
        k = k + 1;
    }
    proof {
        assert(var.headers@.skip(0) =~= var.headers@);
        assert(rv.header_values@.skip(0) =~= rv.header_values@);
        assert(header_views(headers@) =~= first.map_values(|p: (String, String)| (p.0@, p.1@))
            + header_views(extra@));
    }
    HttpResponse { status, headers, body }
}

} // verus!
