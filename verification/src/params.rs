//! Parameter descriptors: where a parameter is extracted from, the shape
//! it is coerced into, its default, and its validator chain — one
//! declaration consulted both by the binder and by the document.

use vstd::prelude::*;

use crate::schema::{prim_name_text, primitive_name, PrimitiveKind};
use crate::textnum::{parse_i64_text, push_char, text_int};
use crate::validate::Validator;
use crate::value::Value;

verus! {

/// Where a parameter's raw value is located in a request.
#[derive(Clone, Copy, PartialEq, Eq, Structural)]
pub enum ParamLocation {
    Query,
    Header,
    Path,
    Cookie,
}

/// The shape a parameter is bound into: one scalar, a sequence of
/// scalars collected from all same-named entries, or an optional scalar.
#[derive(Clone, Copy, PartialEq, Eq, Structural)]
pub enum ValueShape {
    One(PrimitiveKind),
    Many(PrimitiveKind),
    Opt(PrimitiveKind),
}

/// The display name of a shape, as used in error messages.
pub open spec fn shape_name_text(s: ValueShape) -> Seq<char> {
    match s {
        ValueShape::One(k) => prim_name_text(k),
        ValueShape::Opt(k) => prim_name_text(k),
        ValueShape::Many(k) => seq!['['] + prim_name_text(k) + seq![']'],
    }
}

/// Render the display name of a shape.
pub fn shape_name(s: ValueShape) -> (r: String)
    ensures
        r@ == shape_name_text(s),
{
    match s {
        ValueShape::One(k) => primitive_name(k),
        ValueShape::Opt(k) => primitive_name(k),
        ValueShape::Many(k) => {
            let mut out = String::new();
            push_char(&mut out, '[');
            out.append(primitive_name(k).as_str());
            push_char(&mut out, ']');
            proof {
                assert(out@ =~= shape_name_text(s));
            }
            out
        },
    }
}

/// One parameter of an operation. Built once at startup, immutable
/// afterward, consulted on every matching request and projected into the
/// document.
pub struct ParamDescriptor {
    /// The wire name: the name extraction looks up and the document shows.
    pub name: String,
    pub location: ParamLocation,
    pub shape: ValueShape,
    /// Whether a request must carry the parameter. Kept consistent with
    /// the shape and the default: see [`param_wf`].
    pub required: bool,
    pub deprecated: bool,
    pub description: Option<String>,
    pub default: Option<Value>,
    pub validators: Vec<Validator>,
}

/// A descriptor is well-formed when `required` holds exactly of a
/// non-optional shape without a default — however the declaration was
/// ordered.
pub open spec fn param_wf(p: ParamDescriptor) -> bool {
    p.required == (p.default is None && !(p.shape is Opt))
}

impl ParamDescriptor {
    /// A parameter with the given wire name, location and shape: no
    /// default, no validators, not deprecated.
    pub fn new(name: String, location: ParamLocation, shape: ValueShape) -> (r: Self)
        ensures
            r.name == name,
            r.location == location,
            r.shape == shape,
            !r.deprecated,
            r.description is None,
            r.default is None,
            r.validators@.len() == 0,
            param_wf(r),
    {
        let required = !matches!(shape, ValueShape::Opt(_));
        ParamDescriptor {
            name,
            location,
            shape,
            required,
            deprecated: false,
            description: Option::None,
            default: Option::None,
            validators: Vec::new(),
        }
    }

    /// Declare a default: a request omitting the parameter binds to this
    /// value, and the documented parameter is no longer required.
    pub fn with_default(self, value: Value) -> (r: Self)
        ensures
            r == (ParamDescriptor {
                default: Option::Some(value),
                required: false,
                ..self
            }),
            param_wf(r),
    {
        ParamDescriptor { default: Option::Some(value), required: false, ..self }
    }

    /// Replace the wire name: extraction and the document both use the
    /// new name.
    pub fn renamed(self, wire_name: String) -> (r: Self)
        ensures
            r == (ParamDescriptor { name: wire_name, ..self }),
    {
        ParamDescriptor { name: wire_name, ..self }
    }

    /// Attach a description shown in the document.
    pub fn describe(self, text: String) -> (r: Self)
        ensures
            r == (ParamDescriptor { description: Option::Some(text), ..self }),
    {
        ParamDescriptor { description: Option::Some(text), ..self }
    }

    /// Mark the parameter deprecated in the document.
    pub fn mark_deprecated(self) -> (r: Self)
        ensures
            r == (ParamDescriptor { deprecated: true, ..self }),
    {
        ParamDescriptor { deprecated: true, ..self }
    }

    /// Append one rule to the validator chain.
    pub fn with_validator(self, rule: Validator) -> (r: Self)
        ensures
            r.validators@ == self.validators@.push(rule),
            r.name == self.name,
            r.location == self.location,
            r.shape == self.shape,
            r.required == self.required,
            r.deprecated == self.deprecated,
            r.description == self.description,
            r.default == self.default,
    {
        let mut validators = self.validators;
        validators.push(rule);
        ParamDescriptor { validators, ..self }
    }
}

/// The value range of an integer scalar kind.
pub open spec fn kind_range_ok(k: PrimitiveKind, v: int) -> bool {
    match k {
        PrimitiveKind::Int32 => -0x8000_0000 <= v <= 0x7fff_ffff,
        PrimitiveKind::Int64 => i64::MIN <= v <= i64::MAX,
        PrimitiveKind::UInt16 => 0 <= v <= 0xffff,
        PrimitiveKind::UInt32 => 0 <= v <= 0xffff_ffff,
        PrimitiveKind::Boolean => false,
        PrimitiveKind::Text => false,
    }
}

/// Whether raw text can be coerced into a scalar kind: any text for
/// `Text`, exactly "true" or "false" for `Boolean`, decimal text within
/// the kind's range for the integer kinds.
pub open spec fn text_coercible(k: PrimitiveKind, raw: Seq<char>) -> bool {
    match k {
        PrimitiveKind::Text => true,
        PrimitiveKind::Boolean => raw == "true"@ || raw == "false"@,
        _ => match text_int(raw) {
            Option::Some(v) => kind_range_ok(k, v),
            Option::None => false,
        },
    }
}

/// What raw text coerces into, when it is coercible.
pub open spec fn coerced_matches(k: PrimitiveKind, raw: Seq<char>, v: Value) -> bool {
    match k {
        PrimitiveKind::Text => v matches Value::Str(s) && s@ == raw,
        PrimitiveKind::Boolean => v == Value::Bool(raw == "true"@),
        _ => v matches Value::Int(x) && text_int(raw) == Option::Some(x as int),
    }
}

/// Coerce one raw text into a scalar kind.
pub fn coerce_text_value(k: PrimitiveKind, raw: &String) -> (r: Option<Value>)
    ensures
        match r {
            Option::Some(v) => text_coercible(k, raw@) && coerced_matches(k, raw@, v),
            Option::None => !text_coercible(k, raw@),
        },
{
    match k {
        PrimitiveKind::Text => Option::Some(Value::Str(raw.clone())),
        PrimitiveKind::Boolean => {
            if crate::message::str_eq(raw.as_str(), "true") {
                Option::Some(Value::Bool(true))
            } else if crate::message::str_eq(raw.as_str(), "false") {
                Option::Some(Value::Bool(false))
            } else {
                Option::None
            }
        },
        _ => {
            match parse_i64_text(raw.as_str()) {
                Option::Some(v) => {
                    let ok = match k {
                        PrimitiveKind::Int32 => -0x8000_0000i64 <= v && v <= 0x7fff_ffffi64,
                        PrimitiveKind::Int64 => true,
                        PrimitiveKind::UInt16 => 0 <= v && v <= 0xffffi64,
                        PrimitiveKind::UInt32 => 0 <= v && v <= 0xffff_ffffi64,
                        PrimitiveKind::Boolean => false,
                        PrimitiveKind::Text => false,
                    };
                    if ok {
                        Option::Some(Value::Int(v))
                    } else {
                        Option::None
                    }
                },
                Option::None => Option::None,
            }
        },
    }
}

} // verus!
