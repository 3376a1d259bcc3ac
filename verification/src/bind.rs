//! The parameter binder and the binding-failure taxonomy: locating raw
//! values, coercing them into the declared shape, running the validator
//! chain, and rendering a failed binding as a deterministic message and a
//! default plain-text response.

use vstd::prelude::*;

use crate::content::{media_matches, ContentAlt, PayloadKind, RequestDescriptor};
use crate::schema::{Schema, SchemaRef};
use crate::message::{header_values_for, values_for, BodyData, HttpRequest, HttpResponse};
use crate::params::{
    coerce_text_value, coerced_matches, shape_name, shape_name_text, text_coercible,
    ParamDescriptor, ParamLocation, ValueShape,
};
use crate::validate::{run_validators, validator_description, validator_holds, validator_text};
use crate::value::{
    bytes_clone, json_scalar_coercible, json_scalar_to, parse_json_scalar, value_clone,
    value_matches, Value,
};

verus! {

/// Why a binding failed, captured before the operation body runs.
#[derive(Debug)]
pub enum BindFailure {
    /// A required parameter was absent.
    MissingParameter { name: String, expected: String },
    /// A parameter's raw text did not coerce into its declared shape.
    ParseFailure { name: String, expected: String },
    /// A coerced parameter was rejected by a validator rule.
    ValidationFailure { name: String, rule: String },
    /// The request body did not read as the selected alternative's shape.
    BodyFailure { expected: String },
    /// The request body's content type matched no declared alternative.
    UnsupportedMediaType,
}

/// The raw values a parameter draws on: all same-named entries of its
/// location, in appearance order; header names match ignoring ASCII case.
pub open spec fn raw_values_of(req: HttpRequest, p: ParamDescriptor) -> Seq<String> {
    match p.location {
        ParamLocation::Query => values_for(req.query@, p.name@),
        ParamLocation::Header => header_values_for(req.headers@, p.name@),
        ParamLocation::Path => values_for(req.path_captures@, p.name@),
        ParamLocation::Cookie => values_for(req.cookies@, p.name@),
    }
}

/// Whether the raw values coerce into the declared shape as the value
/// `v`: one scalar from the first entry, or, for a sequence shape, one
/// scalar from every entry in order.
pub open spec fn binds_to_value(p: ParamDescriptor, raws: Seq<String>, v: Value) -> bool {
    raws.len() > 0 && match p.shape {
        ValueShape::One(k) => text_coercible(k, raws[0]@) && coerced_matches(k, raws[0]@, v),
        ValueShape::Opt(k) => text_coercible(k, raws[0]@) && coerced_matches(k, raws[0]@, v),
        ValueShape::Many(k) => {
            &&& forall|i: int| 0 <= i < raws.len() ==> text_coercible(k, #[trigger] raws[i]@)
            &&& v matches Value::List(items)
            &&& items@.len() == raws.len()
            &&& forall|i: int|
                0 <= i < raws.len() ==> coerced_matches(k, raws[i]@, #[trigger] items@[i])
        },
    }
}

/// Whether coercion of the raw values into the declared shape fails.
pub open spec fn coercion_fails(p: ParamDescriptor, raws: Seq<String>) -> bool {
    raws.len() > 0 && match p.shape {
        ValueShape::One(k) => !text_coercible(k, raws[0]@),
        ValueShape::Opt(k) => !text_coercible(k, raws[0]@),
        ValueShape::Many(k) => exists|i: int|
            0 <= i < raws.len() && !text_coercible(k, #[trigger] raws[i]@),
    }
}

/// Whether every rule of the parameter's chain holds of the value.
pub open spec fn chain_passes(p: ParamDescriptor, v: Value) -> bool {
    forall|i: int| 0 <= i < p.validators@.len() ==> validator_holds(#[trigger] p.validators@[i], v)
}

/// What a successful binding returns: the declared default when the
/// parameter is absent (the author's own value, not re-validated), `Null`
/// for an absent optional parameter, else the coerced value with every
/// rule of the chain holding.
pub open spec fn bound_value_ok(p: ParamDescriptor, req: HttpRequest, v: Value) -> bool {
    let raws = raw_values_of(req, p);
    if raws.len() == 0 {
        match p.default {
            Option::Some(d) => value_matches(d, v),
            Option::None => p.shape is Opt && v is Null,
        }
    } else {
        binds_to_value(p, raws, v) && chain_passes(p, v)
    }
}

/// Which failure a parameter's binding may report, and on exactly which
/// requests: absence only when required without default, a parse failure
/// only when coercion fails, a validation failure only for the first
/// failing rule of the chain, each carrying the parameter's wire name.
pub open spec fn param_failure_ok(p: ParamDescriptor, req: HttpRequest, f: BindFailure) -> bool {
    let raws = raw_values_of(req, p);
    match f {
        BindFailure::MissingParameter { name, expected } => {
            &&& raws.len() == 0
            &&& p.default is None
            &&& !(p.shape is Opt)
            &&& name@ == p.name@
            &&& expected@ == shape_name_text(p.shape)
        },
        BindFailure::ParseFailure { name, expected } => {
            &&& coercion_fails(p, raws)
            &&& name@ == p.name@
            &&& expected@ == shape_name_text(p.shape)
        },
        BindFailure::ValidationFailure { name, rule } => {
            &&& name@ == p.name@
            &&& exists|v: Value, i: int|
                #![trigger validator_holds(p.validators@[i], v)]
                {
                    &&& binds_to_value(p, raws, v)
                    &&& 0 <= i < p.validators@.len()
                    &&& !validator_holds(p.validators@[i], v)
                    &&& (forall|j: int| 0 <= j < i ==> validator_holds(#[trigger] p.validators@[j], v))
                    &&& rule@ == validator_text(p.validators@[i])
                }
        },
        _ => false,
    }
}

/// Whether a parameter's binding succeeds on this request.
pub open spec fn param_bind_succeeds(p: ParamDescriptor, req: HttpRequest) -> bool {
    let raws = raw_values_of(req, p);
    if raws.len() == 0 {
        p.default is Some || p.shape is Opt
    } else {
        !coercion_fails(p, raws) && exists|v: Value| binds_to_value(p, raws, v) && chain_passes(p, v)
    }
}

/// Bind one parameter of a request: locate the raw values in the declared
/// location, fall back to the default or to `Null` when absent, coerce
/// into the declared shape, and run the validator chain in declaration
/// order, stopping at the first failing rule.
pub fn bind_parameter(req: &HttpRequest, p: &ParamDescriptor) -> (r: Result<Value, BindFailure>)
    ensures
        match r {
            Result::Ok(v) => bound_value_ok(*p, *req, v),
            Result::Err(f) => param_failure_ok(*p, *req, f),
        },
{
    let nocase = matches!(p.location, ParamLocation::Header);
    let pairs: &Vec<(String, String)> = match p.location {
        ParamLocation::Query => &req.query,
        ParamLocation::Header => &req.headers,
        ParamLocation::Path => &req.path_captures,
        ParamLocation::Cookie => &req.cookies,
    };
    let raws = crate::message::collect_values(pairs, p.name.as_str(), nocase);
    proof {
        assert(raws@ == raw_values_of(*req, *p));
    }
    if raws.len() == 0 {
        if p.default.is_some() {
            let d = p.default.as_ref().unwrap();
            return Result::Ok(value_clone(d));
        }
        if matches!(p.shape, ValueShape::Opt(_)) {
            return Result::Ok(Value::Null);
        }
        return Result::Err(
            BindFailure::MissingParameter { name: p.name.clone(), expected: shape_name(p.shape) },
        );
    }
    let bound: Value = match p.shape {
        ValueShape::One(k) => {
            match coerce_text_value(k, &raws[0]) {
                Option::Some(v) => v,
                Option::None => {
                    return Result::Err(
                        BindFailure::ParseFailure {
                            name: p.name.clone(),
                            expected: shape_name(p.shape),
                        },
                    );
                },
            }
        },
        ValueShape::Opt(k) => {
            match coerce_text_value(k, &raws[0]) {
                Option::Some(v) => v,
                Option::None => {
                    return Result::Err(
                        BindFailure::ParseFailure {
                            name: p.name.clone(),
                            expected: shape_name(p.shape),
                        },
                    );
                },
            }
        },
        ValueShape::Many(k) => {
            let mut items: Vec<Value> = Vec::new();
            let mut i: usize = 0;
            while i < raws.len()
                invariant
                    0 <= i <= raws@.len(),
                    items@.len() == i,
                    forall|j: int| 0 <= j < i ==> text_coercible(k, #[trigger] raws@[j]@),
                    forall|j: int|
                        0 <= j < i ==> coerced_matches(k, raws@[j]@, #[trigger] items@[j]),
                    p.shape == ValueShape::Many(k),
                    raws@ == raw_values_of(*req, *p),
                    raws@.len() > 0,
                decreases raws@.len() - i,
            {
                match coerce_text_value(k, &raws[i]) {
                    Option::Some(v) => {
                        items.push(v);
                    },
                    Option::None => {
                        return Result::Err(
                            BindFailure::ParseFailure {
                                name: p.name.clone(),
                                expected: shape_name(p.shape),
                            },
                        );
                    },
                }
                i = i + 1;
            }
            Value::List(items)
        },
    };
    match run_validators(&p.validators, &bound) {
        Option::None => Result::Ok(bound),
        Option::Some(i) => {
            let rule = validator_description(&p.validators[i]);
            proof {
                assert(binds_to_value(*p, raws@, bound));
            }
            Result::Err(BindFailure::ValidationFailure { name: p.name.clone(), rule })
        },
    }
}

/// The bytes of a request body: what came with the request, or empty.
pub open spec fn body_bytes(req: HttpRequest) -> Seq<u8> {
    match req.body {
        Option::Some(b) => b@,
        Option::None => Seq::empty(),
    }
}

/// Decode a request body as UTF-8 text.
///
/// Relies on `String::from_utf8` (std): succeeds exactly on valid UTF-8,
/// yielding its decoding.
#[verifier::external_body]
fn bytes_to_text(data: &Vec<u8>) -> (r: Option<String>)
    ensures
        r is Some <==> vstd::utf8::valid_utf8(data@),
        r matches Option::Some(s) ==> s@ == vstd::utf8::decode_utf8(data@),
{
    String::from_utf8(data.clone()).ok()
}

/// Whether an integer value lies within what a schema's format tag
/// allows; a missing or unrecognized format does not constrain it.
pub open spec fn int_format_allows(format: Option<Seq<char>>, v: int) -> bool {
    match format {
        Option::Some(f) => {
            if f == "int32"@ {
                -0x8000_0000 <= v <= 0x7fff_ffff
            } else if f == "uint16"@ {
                0 <= v <= 0xffff
            } else if f == "uint32"@ {
                0 <= v <= 0xffff_ffff
            } else {
                true
            }
        },
        Option::None => true,
    }
}

/// Whether one JSON scalar text satisfies a declared shape: an integer
/// schema wants decimal text within its format's range, a boolean schema
/// wants `true` or `false`, a string or enumeration schema wants a
/// quoted string, an object or array schema is never one scalar, and a
/// by-name reference is the registry author's concern at this layer.
pub open spec fn scalar_fits_schema(t: Seq<char>, s: Schema) -> bool {
    match s {
        Schema::Primitive { ty, format } => {
            if ty@ == "integer"@ {
                match crate::textnum::text_int(t) {
                    Option::Some(v) => int_format_allows(crate::schema::opt_text_view(format), v),
                    Option::None => false,
                }
            } else if ty@ == "boolean"@ {
                t == "true"@ || t == "false"@
            } else if ty@ == "string"@ {
                t.len() >= 2 && t[0] == '"' && t.last() == '"'
            } else {
                true
            }
        },
        Schema::Array { .. } => false,
        Schema::Enumeration { .. } => t.len() >= 2 && t[0] == '"' && t.last() == '"',
        Schema::Object { .. } => false,
        Schema::Reference { .. } => true,
    }
}

/// Whether one JSON scalar text satisfies a declared shape reference.
pub open spec fn scalar_fits_ref(t: Seq<char>, r: SchemaRef) -> bool {
    match r {
        SchemaRef::Inline(s) => scalar_fits_schema(t, *s),
        SchemaRef::Named(_) => true,
    }
}

/// Decide whether one JSON scalar text satisfies a declared shape.
fn text_fits_schema(txt: &str, s: &Schema) -> (r: bool)
    requires
        json_scalar_coercible(txt@),
    ensures
        r == scalar_fits_schema(txt@, *s),
{
    match s {
        Schema::Primitive { ty, format } => {
            if crate::message::str_eq(ty.as_str(), "integer") {
                match crate::textnum::parse_i64_text(txt) {
                    Option::Some(x) => {
                        if format.is_some() {
                            let f = format.as_ref().unwrap();
                            if crate::message::str_eq(f.as_str(), "int32") {
                                -0x8000_0000i64 <= x && x <= 0x7fff_ffffi64
                            } else if crate::message::str_eq(f.as_str(), "uint16") {
                                0 <= x && x <= 0xffffi64
                            } else if crate::message::str_eq(f.as_str(), "uint32") {
                                0 <= x && x <= 0xffff_ffffi64
                            } else {
                                true
                            }
                        } else {
                            true
                        }
                    },
                    Option::None => {
                        proof {
                            reveal_strlit("null");
                            reveal_strlit("true");
                            reveal_strlit("false");
                            if txt@ == "null"@ || txt@ == "true"@ || txt@ == "false"@ || (
                            txt@.len() >= 2 && txt@[0] == '"') {
                                assert(!crate::textnum::is_dec_digit(txt@[0]));
                                assert(txt@[0] != '-');
                                assert(crate::textnum::text_int(txt@) is None);
                            }
                            assert(crate::textnum::text_int(txt@) is None);
                        }
                        false
                    },
                }
            } else if crate::message::str_eq(ty.as_str(), "boolean") {
                proof {
                    reveal_strlit("true");
                    reveal_strlit("false");
                }
                crate::message::str_eq(txt, "true") || crate::message::str_eq(txt, "false")
            } else if crate::message::str_eq(ty.as_str(), "string") {
                quote_shaped(txt)
            } else {
                true
            }
        },
        Schema::Array { .. } => false,
        Schema::Enumeration { .. } => quote_shaped(txt),
        Schema::Object { .. } => false,
        Schema::Reference { .. } => true,
    }
}

/// Whether text has the shape of a quoted string.
fn quote_shaped(txt: &str) -> (r: bool)
    ensures
        r == (txt@.len() >= 2 && txt@[0] == '"' && txt@.last() == '"'),
{
    let n = txt.unicode_len();
    n >= 2 && txt.get_char(0) == '"' && txt.get_char(n - 1) == '"'
}

/// Whether body bytes read as the alternative's payload shape.
pub open spec fn body_coercible(alt: ContentAlt, bytes: Seq<u8>) -> bool {
    match alt.payload {
        PayloadKind::Binary => true,
        PayloadKind::Text => vstd::utf8::valid_utf8(bytes),
        PayloadKind::Json => vstd::utf8::valid_utf8(bytes) && json_scalar_coercible(
            vstd::utf8::decode_utf8(bytes),
        ) && scalar_fits_ref(vstd::utf8::decode_utf8(bytes), alt.schema),
    }
}

/// What body bytes read as, under the alternative's payload shape.
pub open spec fn body_value_ok(alt: ContentAlt, bytes: Seq<u8>, v: Value) -> bool {
    match alt.payload {
        PayloadKind::Binary => v matches Value::Bytes(b) && b@ == bytes,
        PayloadKind::Text => vstd::utf8::valid_utf8(bytes) && (v matches Value::Str(s) && s@
            == vstd::utf8::decode_utf8(bytes)),
        PayloadKind::Json => vstd::utf8::valid_utf8(bytes) && json_scalar_to(
            vstd::utf8::decode_utf8(bytes),
            v,
        ) && scalar_fits_ref(vstd::utf8::decode_utf8(bytes), alt.schema),
    }
}

/// What a successful body binding returns: nothing when the operation
/// declares no body, or declares one that is not required and the request
/// carries no content type; else the first alternative whose media type
/// matches, with the body read as its shape.
pub open spec fn body_outcome_ok(
    desc: Option<RequestDescriptor>,
    req: HttpRequest,
    b: Option<(usize, Value)>,
) -> bool {
    match desc {
        Option::None => b is None,
        Option::Some(d) => match b {
            Option::None => req.content_type is None && !d.required,
            Option::Some(iv) => {
                &&& req.content_type matches Option::Some(ct)
                &&& iv.0 < d.content@.len()
                &&& media_matches(d.content@[iv.0 as int].content_type@, ct@)
                &&& forall|j: int|
                    0 <= j < iv.0 ==> !media_matches(#[trigger] d.content@[j].content_type@, ct@)
                &&& body_value_ok(d.content@[iv.0 as int], body_bytes(req), iv.1)
            },
        },
    }
}

/// Which failure a body binding may report, and on exactly which
/// requests: an unmatched (or absent-but-required) content type is an
/// unsupported media type; a selected alternative whose bytes do not read
/// as its shape is a body failure naming that alternative's media type.
pub open spec fn body_failure_ok(
    desc: Option<RequestDescriptor>,
    req: HttpRequest,
    f: BindFailure,
) -> bool {
    match desc {
        Option::None => false,
        Option::Some(d) => match f {
            BindFailure::UnsupportedMediaType => match req.content_type {
                Option::None => d.required,
                Option::Some(ct) => forall|j: int|
                    0 <= j < d.content@.len() ==> !media_matches(
                        #[trigger] d.content@[j].content_type@,
                        ct@,
                    ),
            },
            BindFailure::BodyFailure { expected } => exists|i: int|
                #![trigger d.content@[i]]
                {
                    &&& req.content_type matches Option::Some(ct)
                    &&& 0 <= i < d.content@.len()
                    &&& media_matches(d.content@[i].content_type@, ct@)
                    &&& forall|j: int|
                        0 <= j < i ==> !media_matches(#[trigger] d.content@[j].content_type@, ct@)
                    &&& !body_coercible(d.content@[i], body_bytes(req))
                    &&& expected@ == d.content@[i].content_type@
                },
            _ => false,
        },
    }
}

/// Bind the request body against the declared alternatives: select the
/// first alternative matching the request's content type, then read the
/// body bytes as that alternative's payload shape.
pub fn bind_body(desc: &Option<RequestDescriptor>, req: &HttpRequest) -> (r: Result<
    Option<(usize, Value)>,
    BindFailure,
>)
    ensures
        match r {
            Result::Ok(b) => body_outcome_ok(*desc, *req, b),
            Result::Err(f) => body_failure_ok(*desc, *req, f),
        },
{
    if desc.is_none() {
        return Result::Ok(Option::None);
    }
    let d = desc.as_ref().unwrap();
    if req.content_type.is_none() {
        if !d.required {
            return Result::Ok(Option::None);
        }
        return Result::Err(BindFailure::UnsupportedMediaType);
    }
    let selected = crate::content::select_alternative(&d.content, &req.content_type);
    if selected.is_none() {
        return Result::Err(BindFailure::UnsupportedMediaType);
    }
    let i = selected.unwrap();
    let alt = &d.content[i];
    let empty: Vec<u8> = Vec::new();
    let data: &Vec<u8> = if req.body.is_some() {
        req.body.as_ref().unwrap()
    } else {
        &empty
    };
    proof {
        assert(data@ == body_bytes(*req));
    }
    match alt.payload {
        PayloadKind::Binary => Result::Ok(Option::Some((i, Value::Bytes(bytes_clone(data))))),
        PayloadKind::Text => {
            match bytes_to_text(data) {
                Option::Some(s) => Result::Ok(Option::Some((i, Value::Str(s)))),
                Option::None => Result::Err(
                    BindFailure::BodyFailure { expected: alt.content_type.clone() },
                ),
            }
        },
        PayloadKind::Json => {
            match bytes_to_text(data) {
                Option::Some(s) => {
                    match parse_json_scalar(s.as_str()) {
                        Option::Some(v) => {
                            let fits = match &alt.schema {
                                SchemaRef::Inline(sc) => text_fits_schema(s.as_str(), sc),
                                SchemaRef::Named(_) => true,
                            };
                            if fits {
                                Result::Ok(Option::Some((i, v)))
                            } else {
                                Result::Err(
                                    BindFailure::BodyFailure {
                                        expected: alt.content_type.clone(),
                                    },
                                )
                            }
                        },
                        Option::None => Result::Err(
                            BindFailure::BodyFailure { expected: alt.content_type.clone() },
                        ),
                    }
                },
                Option::None => Result::Err(
                    BindFailure::BodyFailure { expected: alt.content_type.clone() },
                ),
            }
        },
    }
}

/// What binding a whole request produces: one value per declared
/// parameter, in declaration order, and the bound body, if any.
pub struct BoundRequest {
    pub args: Vec<Value>,
    pub body: Option<(usize, Value)>,
}

/// Bind every declared parameter of an operation in declaration order,
/// then the request body. The first failure wins.
pub fn bind_operation_inputs(
    params: &Vec<ParamDescriptor>,
    request_desc: &Option<RequestDescriptor>,
    req: &HttpRequest,
) -> (r: Result<BoundRequest, BindFailure>)
    ensures
        match r {
            Result::Ok(b) => {
                &&& b.args@.len() == params@.len()
                &&& forall|i: int|
                    0 <= i < params@.len() ==> bound_value_ok(
                        #[trigger] params@[i],
                        *req,
                        b.args@[i],
                    )
                &&& body_outcome_ok(*request_desc, *req, b.body)
            },
            Result::Err(f) => {
                ||| exists|i: int|
                    #![trigger params@[i]]
                    {
                        &&& 0 <= i < params@.len()
                        &&& param_failure_ok(params@[i], *req, f)
                        &&& forall|j: int|
                            0 <= j < i ==> param_bind_succeeds(#[trigger] params@[j], *req)
                    }
                ||| ((forall|j: int|
                    0 <= j < params@.len() ==> param_bind_succeeds(#[trigger] params@[j], *req))
                    && body_failure_ok(*request_desc, *req, f))
            },
        },
{
    let mut args: Vec<Value> = Vec::new();
    let mut i: usize = 0;
    while i < params.len()
        invariant
            0 <= i <= params@.len(),
            args@.len() == i,
            forall|j: int|
                0 <= j < i ==> bound_value_ok(#[trigger] params@[j], *req, args@[j]),
            forall|j: int| 0 <= j < i ==> param_bind_succeeds(#[trigger] params@[j], *req),
        decreases params@.len() - i,
    {
        match bind_parameter(req, &params[i]) {
            Result::Ok(v) => {
                proof {
                    lemma_bound_implies_succeeds(params@[i as int], *req, v);
                }
                args.push(v);
            },
            Result::Err(f) => {
                return Result::Err(f);
            },
        }
        i = i + 1;
    }
    match bind_body(request_desc, req) {
        Result::Ok(b) => Result::Ok(BoundRequest { args, body: b }),
        Result::Err(f) => Result::Err(f),
    }
}

/// A binding that produced a value is a binding that succeeded.
proof fn lemma_bound_implies_succeeds(p: ParamDescriptor, req: HttpRequest, v: Value)
    requires
        bound_value_ok(p, req, v),
    ensures
        param_bind_succeeds(p, req),
{
    let raws = raw_values_of(req, p);
    if raws.len() > 0 {
        assert(binds_to_value(p, raws, v) && chain_passes(p, v));
    }
}

/// Law: for a parameter with a declared default, a request omitting the
/// parameter binds exactly to the default value, and the described
/// parameter is non-required — whatever order the declaration was built
/// in, since well-formedness ties `required` to the default's presence.
pub proof fn lemma_default_applies(p: ParamDescriptor, req: HttpRequest)
    requires
        crate::params::param_wf(p),
        p.default is Some,
        raw_values_of(req, p).len() == 0,
    ensures
        forall|v: Value| bound_value_ok(p, req, v) <==> value_matches(p.default.unwrap(), v),
        !p.required,
{
}

/// Law: a request body whose content type matches no declared
/// alternative can only fail as an unsupported media type — no
/// successful outcome and no other failure is consistent — and that
/// failure's default status is 415.
pub proof fn lemma_unmatched_content_type(d: RequestDescriptor, req: HttpRequest)
    requires
        req.content_type matches Option::Some(ct) && forall|j: int|
            0 <= j < d.content@.len() ==> !media_matches(#[trigger] d.content@[j].content_type@, ct@),
    ensures
        forall|b: Option<(usize, Value)>| !body_outcome_ok(Option::Some(d), req, b),
        forall|f: BindFailure|
            body_failure_ok(Option::Some(d), req, f) ==> f is UnsupportedMediaType,
        body_failure_ok(Option::Some(d), req, BindFailure::UnsupportedMediaType),
        failure_status_of(BindFailure::UnsupportedMediaType) == 415,
{
    assert forall|b: Option<(usize, Value)>| !body_outcome_ok(Option::Some(d), req, b) by {
        match b {
            Option::Some(iv) => {
                if body_outcome_ok(Option::Some(d), req, b) {
                    assert(media_matches(
                        d.content@[iv.0 as int].content_type@,
                        req.content_type.unwrap()@,
                    ));
                }
            },
            Option::None => {},
        }
    }
    assert forall|f: BindFailure|
        body_failure_ok(Option::Some(d), req, f) implies f is UnsupportedMediaType by {
        match f {
            BindFailure::BodyFailure { expected } => {
                if body_failure_ok(Option::Some(d), req, f) {
                    let i = choose|i: int|
                        #![trigger d.content@[i]]
                        {
                            &&& req.content_type matches Option::Some(ct)
                            &&& 0 <= i < d.content@.len()
                            &&& media_matches(d.content@[i].content_type@, ct@)
                            &&& forall|j: int|
                                0 <= j < i ==> !media_matches(
                                    #[trigger] d.content@[j].content_type@,
                                    ct@,
                                )
                            &&& !body_coercible(d.content@[i], body_bytes(req))
                            &&& expected@ == d.content@[i].content_type@
                        };
                    assert(media_matches(d.content@[i].content_type@, req.content_type.unwrap()@));
                }
            },
            _ => {},
        }
    }
}

/// The status a failure maps to when no recovery function is declared:
/// 415 for an unmatched content type, 400 for everything else.
pub open spec fn failure_status_of(f: BindFailure) -> u16 {
    match f {
        BindFailure::UnsupportedMediaType => 415u16,
        _ => 400u16,
    }
}

/// The status a failure maps to.
pub fn failure_status(f: &BindFailure) -> (r: u16)
    ensures
        r == failure_status_of(*f),
{
    match f {
        BindFailure::UnsupportedMediaType => 415,
        _ => 400,
    }
}

/// The deterministic message of a failure: the parameter's wire name and
/// the coercion or rule description, verbatim.
pub open spec fn failure_text(f: BindFailure) -> Seq<char> {
    match f {
        BindFailure::MissingParameter { name, expected } => {
            "failed to parse parameter `"@ + name@ + "`: Type \""@ + expected@
                + "\" expects an input value."@
        },
        BindFailure::ParseFailure { name, expected } => {
            "failed to parse parameter `"@ + name@ + "`: invalid value for type \""@ + expected@
                + "\""@
        },
        BindFailure::ValidationFailure { name, rule } => {
            "failed to parse parameter `"@ + name@ + "`: verification failed. "@ + rule@
        },
        BindFailure::BodyFailure { expected } => {
            "failed to parse request payload: invalid content for \""@ + expected@ + "\""@
        },
        BindFailure::UnsupportedMediaType => "unsupported media type"@,
    }
}

/// Render the message of a failure.
pub fn failure_message(f: &BindFailure) -> (r: String)
    ensures
        r@ == failure_text(*f),
{
    match f {
        BindFailure::MissingParameter { name, expected } => {
            let mut s = "failed to parse parameter `".to_owned();
            s.append(name.as_str());
            s.append("`: Type \"");
            s.append(expected.as_str());
            s.append("\" expects an input value.");
            s
        },
        BindFailure::ParseFailure { name, expected } => {
            let mut s = "failed to parse parameter `".to_owned();
            s.append(name.as_str());
            s.append("`: invalid value for type \"");
            s.append(expected.as_str());
            s.append("\"");
            s
        },
        BindFailure::ValidationFailure { name, rule } => {
            let mut s = "failed to parse parameter `".to_owned();
            s.append(name.as_str());
            s.append("`: verification failed. ");
            s.append(rule.as_str());
            s
        },
        BindFailure::BodyFailure { expected } => {
            let mut s = "failed to parse request payload: invalid content for \"".to_owned();
            s.append(expected.as_str());
            s.append("\"");
            s
        },
        BindFailure::UnsupportedMediaType => "unsupported media type".to_owned(),
    }
}

/// The default response of a failure when no recovery function is
/// declared: the mapped status, a plain-text content type, and the
/// failure's message as the body.
pub fn default_failure_response(f: &BindFailure) -> (r: HttpResponse)
    ensures
        r.status == failure_status_of(*f),
        r.headers@.len() == 1,
        r.headers@[0].0@ == "content-type"@,
        r.headers@[0].1@ == "text/plain; charset=utf-8"@,
        r.body matches BodyData::Text(s) && s@ == failure_text(*f),
{
    let mut headers: Vec<(String, String)> = Vec::new();
    headers.push(("content-type".to_owned(), "text/plain; charset=utf-8".to_owned()));
    HttpResponse {
        status: failure_status(f),
        headers,
        body: BodyData::Text(failure_message(f)),
    }
}

} // verus!
