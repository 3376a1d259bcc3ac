//! The schema model: tagged shape descriptors used both for the interface
//! document and for binding request data, together with structural
//! comparison of shapes.

use vstd::prelude::*;

verus! {

/// A reference to a shape: an inline schema, or the name of a registered one.
#[derive(Debug)]
pub enum SchemaRef {
    Inline(Box<Schema>),
    Named(String),
}

/// A tagged shape descriptor.
#[derive(Debug)]
pub enum Schema {
    /// A scalar shape, such as `integer` with format `int32`.
    Primitive { ty: String, format: Option<String> },
    /// An object shape: the names that must be present, and each
    /// property's shape, in declaration order.
    Object { required: Vec<String>, properties: Vec<(String, SchemaRef)> },
    /// A homogeneous sequence shape.
    Array { item: Box<SchemaRef> },
    /// A closed set of text values.
    Enumeration { values: Vec<String> },
    /// A by-name reference to a registered shape.
    Reference { name: String },
}

/// The scalar kinds a parameter or payload primitive may have.
#[derive(Clone, Copy, PartialEq, Eq, Structural)]
pub enum PrimitiveKind {
    Int32,
    Int64,
    UInt16,
    UInt32,
    Boolean,
    Text,
}

/// The document type label of a scalar kind.
pub open spec fn prim_type_text(k: PrimitiveKind) -> Seq<char> {
    match k {
        PrimitiveKind::Boolean => "boolean"@,
        PrimitiveKind::Text => "string"@,
        _ => "integer"@,
    }
}

/// The document format tag of a scalar kind, where one is defined.
pub open spec fn prim_format_text(k: PrimitiveKind) -> Option<Seq<char>> {
    match k {
        PrimitiveKind::Int32 => Option::Some("int32"@),
        PrimitiveKind::Int64 => Option::Some("int64"@),
        PrimitiveKind::UInt16 => Option::Some("uint16"@),
        PrimitiveKind::UInt32 => Option::Some("uint32"@),
        PrimitiveKind::Boolean => Option::None,
        PrimitiveKind::Text => Option::None,
    }
}

/// The display name of a scalar kind: the type label, with the format in
/// parentheses when there is one, as in `integer(int32)`.
pub open spec fn prim_name_text(k: PrimitiveKind) -> Seq<char> {
    match prim_format_text(k) {
        Option::Some(f) => prim_type_text(k) + "("@ + f + ")"@,
        Option::None => prim_type_text(k),
    }
}

/// The document type label of a scalar kind.
pub fn primitive_type_label(k: PrimitiveKind) -> (r: String)
    ensures
        r@ == prim_type_text(k),
{
    match k {
        PrimitiveKind::Boolean => "boolean".to_owned(),
        PrimitiveKind::Text => "string".to_owned(),
        _ => "integer".to_owned(),
    }
}

/// The document format tag of a scalar kind, where one is defined.
pub fn primitive_format(k: PrimitiveKind) -> (r: Option<String>)
    ensures
        opt_text_view(r) == prim_format_text(k),
{
    match k {
        PrimitiveKind::Int32 => Option::Some("int32".to_owned()),
        PrimitiveKind::Int64 => Option::Some("int64".to_owned()),
        PrimitiveKind::UInt16 => Option::Some("uint16".to_owned()),
        PrimitiveKind::UInt32 => Option::Some("uint32".to_owned()),
        PrimitiveKind::Boolean => Option::None,
        PrimitiveKind::Text => Option::None,
    }
}

/// The display name of a scalar kind, as in `integer(int32)`.
pub fn primitive_name(k: PrimitiveKind) -> (r: String)
    ensures
        r@ == prim_name_text(k),
{
    let mut s = primitive_type_label(k);
    match primitive_format(k) {
        Option::Some(f) => {
            proof {
                reveal_strlit("(");
                reveal_strlit(")");
            }
            s.append("(");
            s.append(f.as_str());
            s.append(")");
            s
        },
        Option::None => s,
    }
}

/// The fixed schema of a scalar kind.
pub fn primitive_schema(k: PrimitiveKind) -> (r: Schema)
    ensures
        r matches Schema::Primitive { ty, format } && ty@ == prim_type_text(k) && opt_text_view(
            format,
        ) == prim_format_text(k),
{
    Schema::Primitive { ty: primitive_type_label(k), format: primitive_format(k) }
}

/// The sentinel shape of a binary payload: `string` with format `binary`.
pub fn binary_schema() -> (r: Schema)
    ensures
        r matches Schema::Primitive { ty, format } && ty@ == "string"@ && opt_text_view(format)
            == Option::Some("binary"@),
{
    Schema::Primitive { ty: "string".to_owned(), format: Option::Some("binary".to_owned()) }
}

/// The contents of optional text, for comparison by value.
pub open spec fn opt_text_view(a: Option<String>) -> Option<Seq<char>> {
    match a {
        Option::None => Option::None,
        Option::Some(x) => Option::Some(x@),
    }
}

/// Whether two sequences of text agree element by element.
pub open spec fn text_seq_matches(a: Seq<String>, b: Seq<String>) -> bool {
    a.len() == b.len() && forall|i: int| 0 <= i < a.len() ==> a[i]@ == b[i]@
}

/// Structural equality of two shapes: same variant, and all text, flags
/// and nested shapes agree.
pub open spec fn schema_matches(a: Schema, b: Schema) -> bool
    decreases a,
{
    match (a, b) {
        (Schema::Primitive { ty: t1, format: f1 }, Schema::Primitive { ty: t2, format: f2 }) => {
            t1@ == t2@ && opt_text_view(f1) == opt_text_view(f2)
        },
        (
            Schema::Object { required: r1, properties: p1 },
            Schema::Object { required: r2, properties: p2 },
        ) => {
            &&& text_seq_matches(r1@, r2@)
            &&& p1@.len() == p2@.len()
            &&& forall|i: int|
                0 <= i < p1@.len() ==> (#[trigger] p1@[i]).0@ == p2@[i].0@ && schema_ref_matches(
                    p1@[i].1,
                    p2@[i].1,
                )
        },
        (Schema::Array { item: i1 }, Schema::Array { item: i2 }) => schema_ref_matches(*i1, *i2),
        (Schema::Enumeration { values: v1 }, Schema::Enumeration { values: v2 }) => {
            text_seq_matches(v1@, v2@)
        },
        (Schema::Reference { name: n1 }, Schema::Reference { name: n2 }) => n1@ == n2@,
        _ => false,
    }
}

/// Structural equality of two shape references.
pub open spec fn schema_ref_matches(a: SchemaRef, b: SchemaRef) -> bool
    decreases a,
{
    match (a, b) {
        (SchemaRef::Inline(s1), SchemaRef::Inline(s2)) => schema_matches(*s1, *s2),
        (SchemaRef::Named(n1), SchemaRef::Named(n2)) => n1@ == n2@,
        _ => false,
    }
}

/// Compare text by contents.
pub fn text_eq(a: &String, b: &String) -> (r: bool)
    ensures
        r == (a@ == b@),
{
    *a == *b
}

/// Compare optional text by contents.
pub fn opt_text_eq(a: &Option<String>, b: &Option<String>) -> (r: bool)
    ensures
        r == (opt_text_view(*a) == opt_text_view(*b)),
{
    match (a, b) {
        (Option::None, Option::None) => true,
        (Option::Some(x), Option::Some(y)) => text_eq(x, y),
        _ => false,
    }
}

/// Compare two sequences of text element by element.
pub fn text_vec_eq(a: &Vec<String>, b: &Vec<String>) -> (r: bool)
    ensures
        r == text_seq_matches(a@, b@),
{
    if a.len() != b.len() {
        return false;
    }
    let mut i: usize = 0;
    while i < a.len()
        invariant
            0 <= i <= a.len(),
            a.len() == b.len(),
            forall|j: int| 0 <= j < i ==> a@[j]@ == b@[j]@,
        decreases a.len() - i,
    {
        if !text_eq(&a[i], &b[i]) {
            return false;
        }
        i = i + 1;
    }
    true
}

/// Decide structural equality of two shapes.
pub fn schema_eq(a: &Schema, b: &Schema) -> (r: bool)
    ensures
        r == schema_matches(*a, *b),
    decreases *a,
{
    match (a, b) {
        (Schema::Primitive { ty: t1, format: f1 }, Schema::Primitive { ty: t2, format: f2 }) => {
            text_eq(t1, t2) && opt_text_eq(f1, f2)
        },
        (
            Schema::Object { required: r1, properties: p1 },
            Schema::Object { required: r2, properties: p2 },
        ) => text_vec_eq(r1, r2) && properties_eq(p1, p2),
        (Schema::Array { item: i1 }, Schema::Array { item: i2 }) => schema_ref_eq(i1, i2),
        (Schema::Enumeration { values: v1 }, Schema::Enumeration { values: v2 }) => {
            text_vec_eq(v1, v2)
        },
        (Schema::Reference { name: n1 }, Schema::Reference { name: n2 }) => text_eq(n1, n2),
        _ => false,
    }
}

/// Compare two property lists: names and nested shapes, in order.
fn properties_eq(a: &Vec<(String, SchemaRef)>, b: &Vec<(String, SchemaRef)>) -> (r: bool)
    ensures
        r == (a@.len() == b@.len() && forall|i: int|
            0 <= i < a@.len() ==> (#[trigger] a@[i]).0@ == b@[i].0@ && schema_ref_matches(
                a@[i].1,
                b@[i].1,
            )),
    decreases *a,
{
    if a.len() != b.len() {
        return false;
    }
    let mut i: usize = 0;
    while i < a.len()
        invariant
            0 <= i <= a.len(),
            a.len() == b.len(),
            forall|j: int|
                0 <= j < i ==> (#[trigger] a@[j]).0@ == b@[j].0@ && schema_ref_matches(
                    a@[j].1,
                    b@[j].1,
                ),
        decreases a.len() - i,
    {
        let (n1, s1) = &a[i];
        let (n2, s2) = &b[i];
        if !text_eq(n1, n2) {
            return false;
        }
        if !schema_ref_eq(s1, s2) {
            return false;
        }
        i = i + 1;
    }
    true
}

/// Decide structural equality of two shape references.
pub fn schema_ref_eq(a: &SchemaRef, b: &SchemaRef) -> (r: bool)
    ensures
        r == schema_ref_matches(*a, *b),
    decreases *a,
{
    match (a, b) {
        (SchemaRef::Inline(s1), SchemaRef::Inline(s2)) => schema_eq(s1, s2),
        (SchemaRef::Named(n1), SchemaRef::Named(n2)) => text_eq(n1, n2),
        _ => false,
    }
}

/// Copy optional text.
pub fn opt_text_clone(a: &Option<String>) -> (r: Option<String>)
    ensures
        opt_text_view(r) == opt_text_view(*a),
{
    match a {
        Option::None => Option::None,
        Option::Some(x) => Option::Some(x.clone()),
    }
}

/// Copy a list of text values.
pub fn text_vec_clone(a: &Vec<String>) -> (r: Vec<String>)
    ensures
        text_seq_matches(a@, r@),
{
    let mut out: Vec<String> = Vec::new();
    let mut i: usize = 0;
    while i < a.len()
        invariant
            0 <= i <= a@.len(),
            out@.len() == i,
            forall|j: int| 0 <= j < i ==> a@[j]@ == (#[trigger] out@[j])@,
        decreases a@.len() - i,
    {
        out.push(a[i].clone());
        i = i + 1;
    }
    out
}

/// Copy a shape; the copy matches the original structurally.
pub fn schema_clone(a: &Schema) -> (r: Schema)
    ensures
        schema_matches(*a, r),
    decreases *a,
{
    match a {
        Schema::Primitive { ty, format } => Schema::Primitive {
            ty: ty.clone(),
            format: opt_text_clone(format),
        },
        Schema::Object { required, properties } => {
            Schema::Object {
                required: text_vec_clone(required),
                properties: properties_clone(properties),
            }
        },
        Schema::Array { item } => Schema::Array { item: Box::new(schema_ref_clone(item)) },
        Schema::Enumeration { values } => Schema::Enumeration { values: text_vec_clone(values) },
        Schema::Reference { name } => Schema::Reference { name: name.clone() },
    }
}

fn properties_clone(properties: &Vec<(String, SchemaRef)>) -> (r: Vec<(String, SchemaRef)>)
    ensures
        r@.len() == properties@.len(),
        forall|j: int|
            0 <= j < properties@.len() ==> properties@[j].0@ == (#[trigger] r@[j]).0@
                && schema_ref_matches(properties@[j].1, r@[j].1),
    decreases *properties,
{
    let mut props: Vec<(String, SchemaRef)> = Vec::new();
    let mut i: usize = 0;
    while i < properties.len()
        invariant
            0 <= i <= properties@.len(),
            props@.len() == i,
            forall|j: int|
                0 <= j < i ==> properties@[j].0@ == (#[trigger] props@[j]).0@
                    && schema_ref_matches(properties@[j].1, props@[j].1),
        decreases properties@.len() - i,
    {
        let (n, s) = &properties[i];
        props.push((n.clone(), schema_ref_clone(s)));
        i = i + 1;
    }
    props
}

/// Copy a shape reference; the copy matches the original structurally.
pub fn schema_ref_clone(a: &SchemaRef) -> (r: SchemaRef)
    ensures
        schema_ref_matches(*a, r),
    decreases *a,
{
    match a {
        SchemaRef::Inline(s) => SchemaRef::Inline(Box::new(schema_clone(s))),
        SchemaRef::Named(n) => SchemaRef::Named(n.clone()),
    }
}

/// Structural equality of shapes is reflexive.
pub proof fn lemma_schema_matches_reflexive(a: Schema)
    ensures
        schema_matches(a, a),
    decreases a,
{
    match a {
        Schema::Object { required, properties } => {
            assert forall|i: int| 0 <= i < properties@.len() implies (
            #[trigger] properties@[i]).0@ == properties@[i].0@ && schema_ref_matches(
                properties@[i].1,
                properties@[i].1,
            ) by {
                lemma_schema_ref_matches_reflexive(properties@[i].1);
            }
        },
        Schema::Array { item } => {
            lemma_schema_ref_matches_reflexive(*item);
        },
        _ => {},
    }
}

/// Structural equality of shape references is reflexive.
pub proof fn lemma_schema_ref_matches_reflexive(a: SchemaRef)
    ensures
        schema_ref_matches(a, a),
    decreases a,
{
    match a {
        SchemaRef::Inline(s) => {
            lemma_schema_matches_reflexive(*s);
        },
        SchemaRef::Named(_) => {},
    }
}

} // verus!
