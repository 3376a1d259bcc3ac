//! Operations and the per-API description: one declaration per operation
//! — path, methods, parameters, request, responses, tags — built once at
//! startup, projected into the document, and consulted by routing and
//! binding at request time.

use vstd::prelude::*;

use crate::bind::raw_values_of;
use crate::content::RequestDescriptor;
use crate::message::{str_eq, HttpMethod, HttpRequest};
use crate::params::{ParamDescriptor, ParamLocation, ValueShape};
use crate::respond::{HeaderDescriptor, OperationResponses, ResponseVariant};
use crate::schema::{
    opt_text_clone, opt_text_view, prim_format_text, prim_type_text, primitive_schema,
    schema_ref_clone, schema_ref_matches, Schema, SchemaRef,
};
use crate::value::{value_clone, value_matches, Value};

verus! {

/// A link to external documentation.
pub struct ExternalDocument {
    pub url: String,
    pub description: Option<String>,
}

/// One documented, dispatchable operation: its path, the methods it
/// answers to, its parameters, its request body, its response variants,
/// and its document attributes.
pub struct Operation {
    pub path: String,
    pub methods: Vec<HttpMethod>,
    pub params: Vec<ParamDescriptor>,
    pub request: Option<RequestDescriptor>,
    pub responses: OperationResponses,
    pub request_headers: Vec<HeaderDescriptor>,
    pub response_headers: Vec<HeaderDescriptor>,
    pub tags: Vec<String>,
    pub deprecated: bool,
    pub external_docs: Option<ExternalDocument>,
    /// Whether the operation declares a recovery function for binding
    /// failures. The function itself is the caller's code; when this is
    /// unset, failures render as the default plain-text response.
    pub has_recovery: bool,
}

impl Operation {
    /// An operation on one path and method, answering 200 with an empty
    /// body until other response variants are declared.
    pub fn new(path: String, method: HttpMethod) -> (r: Self)
        ensures
            r.path == path,
            r.methods@ == seq![method],
            r.params@.len() == 0,
            r.request is None,
            r.responses.responses@.len() == 1,
            r.responses.responses@[0].status == Option::Some(200u16),
            r.responses.responses@[0].content@.len() == 0,
            r.responses.responses@[0].headers@.len() == 0,
            r.request_headers@.len() == 0,
            r.response_headers@.len() == 0,
            r.tags@.len() == 0,
            !r.deprecated,
            r.external_docs is None,
            !r.has_recovery,
    {
        let mut methods: Vec<HttpMethod> = Vec::new();
        methods.push(method);
        proof {
            assert(methods@ =~= seq![method]);
        }
        Operation {
            path,
            methods,
            params: Vec::new(),
            request: Option::None,
            responses: OperationResponses {
                responses: {
                    let mut v: Vec<ResponseVariant> = Vec::new();
                    v.push(ResponseVariant::with_status(200, String::new()));
                    v
                },
            },
            request_headers: Vec::new(),
            response_headers: Vec::new(),
            tags: Vec::new(),
            deprecated: false,
            external_docs: Option::None,
            has_recovery: false,
        }
    }

    /// Answer to one more method.
    pub fn with_method(self, method: HttpMethod) -> (r: Self)
        ensures
            r.methods@ == self.methods@.push(method),
            r.path == self.path,
            r.params == self.params,
            r.request == self.request,
            r.responses == self.responses,
            r.request_headers == self.request_headers,
            r.response_headers == self.response_headers,
            r.tags == self.tags,
            r.deprecated == self.deprecated,
            r.external_docs == self.external_docs,
            r.has_recovery == self.has_recovery,
    {
        let mut methods = self.methods;
        methods.push(method);
        Operation { methods, ..self }
    }

    /// Declare one more parameter.
    pub fn with_param(self, p: ParamDescriptor) -> (r: Self)
        ensures
            r.params@ == self.params@.push(p),
            r.path == self.path,
            r.methods == self.methods,
            r.request == self.request,
            r.responses == self.responses,
            r.request_headers == self.request_headers,
            r.response_headers == self.response_headers,
            r.tags == self.tags,
            r.deprecated == self.deprecated,
            r.external_docs == self.external_docs,
            r.has_recovery == self.has_recovery,
    {
        let mut params = self.params;
        params.push(p);
        Operation { params, ..self }
    }

    /// Declare the request body.
    pub fn with_request(self, d: RequestDescriptor) -> (r: Self)
        ensures
            r == (Operation { request: Option::Some(d), ..self }),
    {
        Operation { request: Option::Some(d), ..self }
    }

    /// Replace the response variants.
    pub fn with_responses(self, responses: OperationResponses) -> (r: Self)
        ensures
            r == (Operation { responses, ..self }),
    {
        Operation { responses, ..self }
    }

    /// Attach one more tag.
    pub fn with_tag(self, tag: String) -> (r: Self)
        ensures
            r.tags@ == self.tags@.push(tag),
            r.path == self.path,
            r.methods == self.methods,
            r.params == self.params,
            r.request == self.request,
            r.responses == self.responses,
            r.request_headers == self.request_headers,
            r.response_headers == self.response_headers,
            r.deprecated == self.deprecated,
            r.external_docs == self.external_docs,
            r.has_recovery == self.has_recovery,
    {
        let mut tags = self.tags;
        tags.push(tag);
        Operation { tags, ..self }
    }

    /// Mark the operation deprecated in the document.
    pub fn mark_deprecated(self) -> (r: Self)
        ensures
            r == (Operation { deprecated: true, ..self }),
    {
        Operation { deprecated: true, ..self }
    }

    /// Link external documentation.
    pub fn with_external_docs(self, url: String) -> (r: Self)
        ensures
            r.external_docs matches Option::Some(d) && d.url == url && d.description is None,
            r.path == self.path,
            r.methods == self.methods,
            r.params == self.params,
            r.request == self.request,
            r.responses == self.responses,
            r.request_headers == self.request_headers,
            r.response_headers == self.response_headers,
            r.tags == self.tags,
            r.deprecated == self.deprecated,
            r.has_recovery == self.has_recovery,
    {
        Operation {
            external_docs: Option::Some(ExternalDocument { url, description: Option::None }),
            ..self
        }
    }

    /// Declare one more documented request header.
    pub fn with_request_header(self, h: HeaderDescriptor) -> (r: Self)
        ensures
            r.request_headers@ == self.request_headers@.push(h),
            r.path == self.path,
            r.methods == self.methods,
            r.params == self.params,
            r.request == self.request,
            r.responses == self.responses,
            r.response_headers == self.response_headers,
            r.tags == self.tags,
            r.deprecated == self.deprecated,
            r.external_docs == self.external_docs,
            r.has_recovery == self.has_recovery,
    {
        let mut request_headers = self.request_headers;
        request_headers.push(h);
        Operation { request_headers, ..self }
    }

    /// Declare one more documented response header.
    pub fn with_response_header(self, h: HeaderDescriptor) -> (r: Self)
        ensures
            r.response_headers@ == self.response_headers@.push(h),
            r.path == self.path,
            r.methods == self.methods,
            r.params == self.params,
            r.request == self.request,
            r.responses == self.responses,
            r.request_headers == self.request_headers,
            r.tags == self.tags,
            r.deprecated == self.deprecated,
            r.external_docs == self.external_docs,
            r.has_recovery == self.has_recovery,
    {
        let mut response_headers = self.response_headers;
        response_headers.push(h);
        Operation { response_headers, ..self }
    }

    /// Declare a recovery function for binding failures.
    pub fn with_recovery(self) -> (r: Self)
        ensures
            r == (Operation { has_recovery: true, ..self }),
    {
        Operation { has_recovery: true, ..self }
    }
}

/// The per-API description: title, version, the operations in
/// declaration order, servers, and API-level header declarations that
/// the document adds to every operation. Built once before serving
/// begins, read-only afterward.
pub struct ApiDescription {
    pub title: String,
    pub version: String,
    pub operations: Vec<Operation>,
    pub servers: Vec<String>,
    pub request_headers: Vec<HeaderDescriptor>,
    pub response_headers: Vec<HeaderDescriptor>,
}

impl ApiDescription {
    /// An empty description under a title and version.
    pub fn new(title: String, version: String) -> (r: Self)
        ensures
            r.title == title,
            r.version == version,
            r.operations@.len() == 0,
            r.servers@.len() == 0,
            r.request_headers@.len() == 0,
            r.response_headers@.len() == 0,
    {
        ApiDescription {
            title,
            version,
            operations: Vec::new(),
            servers: Vec::new(),
            request_headers: Vec::new(),
            response_headers: Vec::new(),
        }
    }

    /// Add one operation, after those already declared.
    pub fn add_operation(self, op: Operation) -> (r: Self)
        ensures
            r.operations@ == self.operations@.push(op),
            r.title == self.title,
            r.version == self.version,
            r.servers == self.servers,
            r.request_headers == self.request_headers,
            r.response_headers == self.response_headers,
    {
        let mut operations = self.operations;
        operations.push(op);
        ApiDescription { operations, ..self }
    }

    /// Add a server entry.
    pub fn with_server(self, url: String) -> (r: Self)
        ensures
            r.servers@ == self.servers@.push(url),
            r.title == self.title,
            r.version == self.version,
            r.operations == self.operations,
            r.request_headers == self.request_headers,
            r.response_headers == self.response_headers,
    {
        let mut servers = self.servers;
        servers.push(url);
        ApiDescription { servers, ..self }
    }

    /// Declare a request header documented on every operation.
    pub fn with_request_header(self, h: HeaderDescriptor) -> (r: Self)
        ensures
            r.request_headers@ == self.request_headers@.push(h),
            r.title == self.title,
            r.version == self.version,
            r.operations == self.operations,
            r.servers == self.servers,
            r.response_headers == self.response_headers,
    {
        let mut request_headers = self.request_headers;
        request_headers.push(h);
        ApiDescription { request_headers, ..self }
    }

    /// Declare a response header documented on every operation.
    pub fn with_response_header(self, h: HeaderDescriptor) -> (r: Self)
        ensures
            r.response_headers@ == self.response_headers@.push(h),
            r.title == self.title,
            r.version == self.version,
            r.operations == self.operations,
            r.servers == self.servers,
            r.request_headers == self.request_headers,
    {
        let mut response_headers = self.response_headers;
        response_headers.push(h);
        ApiDescription { response_headers, ..self }
    }
}

/// Whether an operation answers this method on this path.
pub open spec fn operation_handles(op: Operation, m: HttpMethod, path: Seq<char>) -> bool {
    op.path@ == path && op.methods@.contains(m)
}

/// Whether a list of methods contains one.
pub fn methods_contain(ms: &Vec<HttpMethod>, m: HttpMethod) -> (r: bool)
    ensures
        r == ms@.contains(m),
{
    let mut i: usize = 0;
    while i < ms.len()
        invariant
            0 <= i <= ms@.len(),
            forall|j: int| 0 <= j < i ==> ms@[j] != m,
        decreases ms@.len() - i,
    {
        if ms[i] == m {
            return true;
        }
        i = i + 1;
    }
    false
}

/// Find the first operation answering this method on this path. The path
/// is matched exactly; named captures are the router's concern and
/// arrive with the request.
pub fn find_operation(api: &ApiDescription, method: HttpMethod, path: &str) -> (r: Option<usize>)
    ensures
        match r {
            Option::Some(i) => {
                &&& i < api.operations@.len()
                &&& operation_handles(api.operations@[i as int], method, path@)
                &&& forall|j: int|
                    0 <= j < i ==> !operation_handles(#[trigger] api.operations@[j], method, path@)
            },
            Option::None => forall|j: int|
                0 <= j < api.operations@.len() ==> !operation_handles(
                    #[trigger] api.operations@[j],
                    method,
                    path@,
                ),
        },
{
    let mut i: usize = 0;
    while i < api.operations.len()
        invariant
            0 <= i <= api.operations@.len(),
            forall|j: int|
                0 <= j < i ==> !operation_handles(#[trigger] api.operations@[j], method, path@),
        decreases api.operations@.len() - i,
    {
        let op = &api.operations[i];
        if str_eq(op.path.as_str(), path) && methods_contain(&op.methods, method) {
            return Option::Some(i);
        }
        i = i + 1;
    }
    Option::None
}

/// One parameter as the document shows it.
pub struct DocParam {
    pub name: String,
    pub location: ParamLocation,
    pub required: bool,
    pub deprecated: bool,
    pub description: Option<String>,
    pub schema: SchemaRef,
    pub default: Option<Value>,
}

/// Whether a scalar kind's schema stands inline in a reference.
pub open spec fn prim_schema_is(k: crate::schema::PrimitiveKind, s: Schema) -> bool {
    s matches Schema::Primitive { ty, format } && ty@ == prim_type_text(k) && opt_text_view(format)
        == prim_format_text(k)
}

/// The documented schema of a parameter shape: its scalar's schema, or
/// an array of it for a sequence shape.
pub open spec fn shape_schema_ok(shape: ValueShape, sref: SchemaRef) -> bool {
    match shape {
        ValueShape::One(k) => sref matches SchemaRef::Inline(s) && prim_schema_is(k, *s),
        ValueShape::Opt(k) => sref matches SchemaRef::Inline(s) && prim_schema_is(k, *s),
        ValueShape::Many(k) => sref matches SchemaRef::Inline(s) && (*s matches Schema::Array {
            item,
        } && (*item matches SchemaRef::Inline(inner) && prim_schema_is(k, *inner))),
    }
}

/// Build the documented schema of a parameter shape.
pub fn shape_schema(shape: ValueShape) -> (r: SchemaRef)
    ensures
        shape_schema_ok(shape, r),
{
    match shape {
        ValueShape::One(k) => SchemaRef::Inline(Box::new(primitive_schema(k))),
        ValueShape::Opt(k) => SchemaRef::Inline(Box::new(primitive_schema(k))),
        ValueShape::Many(k) => SchemaRef::Inline(
            Box::new(
                Schema::Array {
                    item: Box::new(SchemaRef::Inline(Box::new(primitive_schema(k)))),
                },
            ),
        ),
    }
}

/// Whether a documented parameter faithfully shows a descriptor: the
/// same wire name, location and flags, the shape's schema, and the same
/// default.
pub open spec fn doc_param_matches(p: ParamDescriptor, d: DocParam) -> bool {
    &&& d.name@ == p.name@
    &&& d.location == p.location
    &&& d.required == p.required
    &&& d.deprecated == p.deprecated
    &&& opt_text_view(d.description) == opt_text_view(p.description)
    &&& shape_schema_ok(p.shape, d.schema)
    &&& match (p.default, d.default) {
        (Option::Some(a), Option::Some(b)) => value_matches(a, b),
        (Option::None, Option::None) => true,
        _ => false,
    }
}

/// Whether a documented parameter shows a declared extra request header:
/// a header-located parameter under the header's canonical name.
pub open spec fn header_param_matches(h: HeaderDescriptor, d: DocParam) -> bool {
    &&& d.name@ == h.name@
    &&& d.location == ParamLocation::Header
    &&& d.required == h.required
    &&& d.deprecated == h.deprecated
    &&& opt_text_view(d.description) == opt_text_view(h.description)
    &&& schema_ref_matches(h.schema, d.schema)
    &&& d.default is None
}

/// Project one parameter descriptor into the document.
pub fn doc_param(p: &ParamDescriptor) -> (r: DocParam)
    ensures
        doc_param_matches(*p, r),
{
    DocParam {
        name: p.name.clone(),
        location: p.location,
        required: p.required,
        deprecated: p.deprecated,
        description: opt_text_clone(&p.description),
        schema: shape_schema(p.shape),
        default: match &p.default {
            Option::Some(d) => Option::Some(value_clone(d)),
            Option::None => Option::None,
        },
    }
}

fn header_param(h: &HeaderDescriptor) -> (r: DocParam)
    ensures
        header_param_matches(*h, r),
{
    DocParam {
        name: h.name.clone(),
        location: ParamLocation::Header,
        required: h.required,
        deprecated: h.deprecated,
        description: opt_text_clone(&h.description),
        schema: schema_ref_clone(&h.schema),
        default: Option::None,
    }
}

/// The documented parameters of an operation: the declared parameters in
/// order, then the operation's extra request headers, then the API's, as
/// header-located parameters.
pub fn doc_params(op: &Operation, api: &ApiDescription) -> (r: Vec<DocParam>)
    ensures
        r@.len() == op.params@.len() + op.request_headers@.len() + api.request_headers@.len(),
        forall|i: int|
            0 <= i < op.params@.len() ==> doc_param_matches(#[trigger] op.params@[i], r@[i]),
        forall|i: int|
            0 <= i < op.request_headers@.len() ==> header_param_matches(
                #[trigger] op.request_headers@[i],
                r@[op.params@.len() + i],
            ),
        forall|i: int|
            0 <= i < api.request_headers@.len() ==> header_param_matches(
                #[trigger] api.request_headers@[i],
                r@[op.params@.len() + op.request_headers@.len() + i],
            ),
{
    let mut out: Vec<DocParam> = Vec::new();
    let mut i: usize = 0;
    while i < op.params.len()
        invariant
            0 <= i <= op.params@.len(),
            out@.len() == i,
            forall|j: int|
                0 <= j < i ==> doc_param_matches(#[trigger] op.params@[j], out@[j]),
        decreases op.params@.len() - i,
    {
        out.push(doc_param(&op.params[i]));
        i = i + 1;
    }
    let base1 = out.len();
    let mut i: usize = 0;
    while i < op.request_headers.len()
        invariant
            0 <= i <= op.request_headers@.len(),
            base1 == op.params@.len(),
            out@.len() == base1 + i,
            forall|j: int|
                0 <= j < base1 ==> doc_param_matches(#[trigger] op.params@[j], out@[j]),
            forall|j: int|
                0 <= j < i ==> header_param_matches(
                    #[trigger] op.request_headers@[j],
                    out@[base1 + j],
                ),
        decreases op.request_headers@.len() - i,
    {
        out.push(header_param(&op.request_headers[i]));
        i = i + 1;
    }
    let base2 = out.len();
    let mut i: usize = 0;
    while i < api.request_headers.len()
        invariant
            0 <= i <= api.request_headers@.len(),
            base1 == op.params@.len(),
            base2 == op.params@.len() + op.request_headers@.len(),
            out@.len() == base2 + i,
            forall|j: int|
                0 <= j < base1 ==> doc_param_matches(#[trigger] op.params@[j], out@[j]),
            forall|j: int|
                0 <= j < op.request_headers@.len() ==> header_param_matches(
                    #[trigger] op.request_headers@[j],
                    out@[base1 + j],
                ),
            forall|j: int|
                0 <= j < i ==> header_param_matches(
                    #[trigger] api.request_headers@[j],
                    out@[base2 + j],
                ),
        decreases api.request_headers@.len() - i,
    {
        out.push(header_param(&api.request_headers[i]));
        i = i + 1;
    }
    out
}

/// Whether one header declaration shows another faithfully.
pub open spec fn header_matches(a: HeaderDescriptor, b: HeaderDescriptor) -> bool {
    &&& b.name@ == a.name@
    &&& b.required == a.required
    &&& b.deprecated == a.deprecated
    &&& opt_text_view(b.description) == opt_text_view(a.description)
    &&& schema_ref_matches(a.schema, b.schema)
}

fn header_clone(h: &HeaderDescriptor) -> (r: HeaderDescriptor)
    ensures
        header_matches(*h, r),
{
    HeaderDescriptor {
        name: h.name.clone(),
        schema: schema_ref_clone(&h.schema),
        description: opt_text_clone(&h.description),
        required: h.required,
        deprecated: h.deprecated,
    }
}

/// The documented headers of a response variant: the variant's own
/// declarations first, then the operation's extras, then the API's, one
/// entry each, without deduplication.
pub fn doc_response_headers(
    var: &ResponseVariant,
    op: &Operation,
    api: &ApiDescription,
) -> (r: Vec<HeaderDescriptor>)
    ensures
        r@.len() == var.headers@.len() + op.response_headers@.len() + api.response_headers@.len(),
        forall|i: int|
            0 <= i < var.headers@.len() ==> header_matches(#[trigger] var.headers@[i], r@[i]),
        forall|i: int|
            0 <= i < op.response_headers@.len() ==> header_matches(
                #[trigger] op.response_headers@[i],
                r@[var.headers@.len() + i],
            ),
        forall|i: int|
            0 <= i < api.response_headers@.len() ==> header_matches(
                #[trigger] api.response_headers@[i],
                r@[var.headers@.len() + op.response_headers@.len() + i],
            ),
{
    let mut out: Vec<HeaderDescriptor> = Vec::new();
    let mut i: usize = 0;
    while i < var.headers.len()
        invariant
            0 <= i <= var.headers@.len(),
            out@.len() == i,
            forall|j: int| 0 <= j < i ==> header_matches(#[trigger] var.headers@[j], out@[j]),
        decreases var.headers@.len() - i,
    {
        out.push(header_clone(&var.headers[i]));
        i = i + 1;
    }
    let base1 = out.len();
    let mut i: usize = 0;
    while i < op.response_headers.len()
        invariant
            0 <= i <= op.response_headers@.len(),
            base1 == var.headers@.len(),
            out@.len() == base1 + i,
            forall|j: int|
                0 <= j < base1 ==> header_matches(#[trigger] var.headers@[j], out@[j]),
            forall|j: int|
                0 <= j < i ==> header_matches(#[trigger] op.response_headers@[j], out@[base1 + j]),
        decreases op.response_headers@.len() - i,
    {
        out.push(header_clone(&op.response_headers[i]));
        i = i + 1;
    }
    let base2 = out.len();
    let mut i: usize = 0;
    while i < api.response_headers.len()
        invariant
            0 <= i <= api.response_headers@.len(),
            base1 == var.headers@.len(),
            base2 == var.headers@.len() + op.response_headers@.len(),
            out@.len() == base2 + i,
            forall|j: int|
                0 <= j < base1 ==> header_matches(#[trigger] var.headers@[j], out@[j]),
            forall|j: int|
                0 <= j < op.response_headers@.len() ==> header_matches(
                    #[trigger] op.response_headers@[j],
                    out@[base1 + j],
                ),
            forall|j: int|
                0 <= j < i ==> header_matches(#[trigger] api.response_headers@[j], out@[base2 + j]),
        decreases api.response_headers@.len() - i,
    {
        out.push(header_clone(&api.response_headers[i]));
        i = i + 1;
    }
    out
}

/// Law: for a parameter declared with a rename, the wire name used for
/// extraction and the name the document shows are one and the same — the
/// override — whatever in-code name the declaration started from.
pub proof fn lemma_rename_governs_extraction_and_document(
    p0: ParamDescriptor,
    wire: String,
    req: HttpRequest,
    d: DocParam,
)
    requires
        doc_param_matches((ParamDescriptor { name: wire, ..p0 }), d),
    ensures
        d.name@ == wire@,
        raw_values_of(req, (ParamDescriptor { name: wire, ..p0 })) == (match p0.location {
            ParamLocation::Query => crate::message::values_for(req.query@, wire@),
            ParamLocation::Header => crate::message::header_values_for(req.headers@, wire@),
            ParamLocation::Path => crate::message::values_for(req.path_captures@, wire@),
            ParamLocation::Cookie => crate::message::values_for(req.cookies@, wire@),
        }),
{
}

} // verus!
