use openapi_core::bind::{bind_body, bind_parameter, failure_message, BindFailure};
use openapi_core::content::{select_alternative, ContentAlt, PayloadKind, RequestDescriptor};
use openapi_core::message::{canonical_header_name, method_name, HttpMethod, HttpRequest};
use openapi_core::params::{ParamDescriptor, ParamLocation, ValueShape};
use openapi_core::registry::{SchemaRegistry, SchemaConflict};
use openapi_core::schema::{
    primitive_name, primitive_schema, schema_eq, PrimitiveKind, Schema, SchemaRef,
};
use openapi_core::textnum::{i64_text, parse_i64_text, u64_text};
use openapi_core::trace::{
    request_span_attributes, request_span_name, response_content_length_attribute,
    response_status_attribute,
};
use openapi_core::validate::{validator_check, validator_description, Validator};
use openapi_core::value::{parse_json_scalar, value_eq, value_to_json, Value};

fn get_request(path: &str) -> HttpRequest {
    HttpRequest {
        method: HttpMethod::Get,
        path: path.to_string(),
        remote_addr: String::new(),
        protocol: String::new(),
        query: vec![],
        headers: vec![],
        cookies: vec![],
        path_captures: vec![],
        content_type: None,
        body: None,
    }
}

fn user_schema() -> Schema {
    Schema::Object {
        required: vec!["id".to_string()],
        properties: vec![
            ("id".to_string(), SchemaRef::Inline(Box::new(primitive_schema(PrimitiveKind::Int64)))),
            ("name".to_string(), SchemaRef::Inline(Box::new(primitive_schema(PrimitiveKind::Text)))),
        ],
    }
}

fn other_schema() -> Schema {
    Schema::Object {
        required: vec![],
        properties: vec![
            ("id".to_string(), SchemaRef::Inline(Box::new(primitive_schema(PrimitiveKind::Int64)))),
        ],
    }
}

#[test]
fn registry_round_trip() {
    let mut reg = SchemaRegistry::new();

    let first = reg.register("User".to_string(), user_schema()).unwrap();
    let second = reg.register("User".to_string(), user_schema()).unwrap();
    match (&first, &second) {
        (SchemaRef::Named(a), SchemaRef::Named(b)) => {
            assert_eq!(a, "User");
            assert_eq!(a, b);
        }
        _ => panic!("expected named references"),
    }
    assert_eq!(reg.entries.len(), 1);

    let conflict: SchemaConflict =
        reg.register("User".to_string(), other_schema()).unwrap_err();
    assert_eq!(conflict.name, "User");
    assert_eq!(reg.entries.len(), 1);

    let resolved = reg.resolve_named("User").unwrap();
    assert!(schema_eq(resolved, &user_schema()));
    assert!(reg.resolve_named("Missing").is_none());
}

#[test]
fn json_rendering() {
    assert_eq!(value_to_json(&Value::Null), "null");
    assert_eq!(value_to_json(&Value::Bool(true)), "true");
    assert_eq!(value_to_json(&Value::Int(-42)), "-42");
    assert_eq!(value_to_json(&Value::Str("abc".to_string())), r#""abc""#);
    assert_eq!(
        value_to_json(&Value::Str(r#"a"b\c"#.to_string())),
        r#""a\"b\\c""#
    );
    let list = Value::List(vec![
        Value::Int(1),
        Value::Int(2),
        Value::Int(3),
        Value::Int(4),
        Value::Int(5),
    ]);
    assert_eq!(value_to_json(&list), "[1,2,3,4,5]");
}

#[test]
fn json_scalar_parsing() {
    assert!(matches!(parse_json_scalar("null"), Some(Value::Null)));
    assert!(matches!(parse_json_scalar("true"), Some(Value::Bool(true))));
    assert!(matches!(parse_json_scalar("false"), Some(Value::Bool(false))));
    match parse_json_scalar("100") {
        Some(Value::Int(v)) => assert_eq!(v, 100),
        _ => panic!("expected an integer"),
    }
    match parse_json_scalar(r#""a\"b\\c""#) {
        Some(Value::Str(s)) => assert_eq!(s, r#"a"b\c"#),
        _ => panic!("expected a string"),
    }
    assert!(parse_json_scalar(r#""unterminated"#).is_none());
    assert!(parse_json_scalar(r#""bad\nescape""#).is_none());
    assert!(parse_json_scalar("not json").is_none());
}

#[test]
fn decimal_text() {
    assert_eq!(u64_text(0), "0");
    assert_eq!(u64_text(90210), "90210");
    assert_eq!(i64_text(-1), "-1");
    assert_eq!(i64_text(i64::MIN), "-9223372036854775808");
    assert_eq!(parse_i64_text("90210"), Some(90210));
    assert_eq!(parse_i64_text("-17"), Some(-17));
    assert_eq!(parse_i64_text("9223372036854775807"), Some(i64::MAX));
    assert_eq!(parse_i64_text("-9223372036854775808"), Some(i64::MIN));
    assert_eq!(parse_i64_text("9223372036854775808"), None);
    assert_eq!(parse_i64_text(""), None);
    assert_eq!(parse_i64_text("-"), None);
    assert_eq!(parse_i64_text("12a"), None);
}

#[test]
fn primitive_names() {
    assert_eq!(primitive_name(PrimitiveKind::Int32), "integer(int32)");
    assert_eq!(primitive_name(PrimitiveKind::UInt16), "integer(uint16)");
    assert_eq!(primitive_name(PrimitiveKind::Boolean), "boolean");
    assert_eq!(primitive_name(PrimitiveKind::Text), "string");
}

#[test]
fn validator_descriptions() {
    assert_eq!(
        validator_description(&Validator::Maximum { value: 100, exclusive: false }),
        "maximum(100, exclusive: false)"
    );
    assert_eq!(
        validator_description(&Validator::Minimum { value: -5, exclusive: true }),
        "minimum(-5, exclusive: true)"
    );
    assert_eq!(validator_description(&Validator::MaxLength { len: 8 }), "maxLength(8)");
    assert_eq!(validator_description(&Validator::MinLength { len: 2 }), "minLength(2)");
    assert_eq!(validator_description(&Validator::MaxItems { count: 3 }), "maxItems(3)");
    assert_eq!(validator_description(&Validator::MinItems { count: 1 }), "minItems(1)");
    assert_eq!(
        validator_description(&Validator::Pattern { pattern: "^a+$".to_string() }),
        r#"pattern("^a+$")"#
    );
}

#[test]
fn validator_checks() {
    let max = Validator::Maximum { value: 10, exclusive: false };
    assert!(validator_check(&max, &Value::Int(10)));
    assert!(!validator_check(&max, &Value::Int(11)));

    let max_ex = Validator::Maximum { value: 10, exclusive: true };
    assert!(!validator_check(&max_ex, &Value::Int(10)));

    let min = Validator::Minimum { value: 3, exclusive: false };
    assert!(validator_check(&min, &Value::Int(3)));
    assert!(!validator_check(&min, &Value::Int(2)));

    let len = Validator::MaxLength { len: 3 };
    assert!(validator_check(&len, &Value::Str("abc".to_string())));
    assert!(!validator_check(&len, &Value::Str("abcd".to_string())));

    let items = Validator::MaxItems { count: 2 };
    assert!(validator_check(&items, &Value::List(vec![Value::Int(1), Value::Int(2)])));
    assert!(!validator_check(&items, &Value::List(vec![Value::Int(1), Value::Int(2), Value::Int(3)])));

    // Numeric rules distribute over a sequence's items.
    let all_small = Value::List(vec![Value::Int(1), Value::Int(2)]);
    let one_large = Value::List(vec![Value::Int(1), Value::Int(99)]);
    assert!(validator_check(&max, &all_small));
    assert!(!validator_check(&max, &one_large));
}

#[test]
fn pattern_validator_uses_the_expression() {
    let rule = Validator::Pattern { pattern: "^ab+c$".to_string() };
    assert!(validator_check(&rule, &Value::Str("abbc".to_string())));
    assert!(!validator_check(&rule, &Value::Str("ac".to_string())));
    // An invalid expression matches nothing.
    let broken = Validator::Pattern { pattern: "(".to_string() };
    assert!(!validator_check(&broken, &Value::Str("(".to_string())));
}

#[test]
fn pattern_validator_end_to_end() {
    let p = ParamDescriptor::new(
        "name".to_string(),
        ParamLocation::Query,
        ValueShape::One(PrimitiveKind::Text),
    )
    .with_validator(Validator::Pattern { pattern: "^[a-z]+$".to_string() });

    let mut req = get_request("/");
    req.query = vec![("name".to_string(), "abc".to_string())];
    assert!(bind_parameter(&req, &p).is_ok());

    let mut req = get_request("/");
    req.query = vec![("name".to_string(), "ABC".to_string())];
    match bind_parameter(&req, &p) {
        Err(f @ BindFailure::ValidationFailure { .. }) => {
            assert_eq!(
                failure_message(&f),
                r#"failed to parse parameter `name`: verification failed. pattern("^[a-z]+$")"#
            );
        }
        _ => panic!("expected a validation failure"),
    }
}

#[test]
fn media_type_matching() {
    let alts = vec![ContentAlt::json(SchemaRef::Inline(Box::new(primitive_schema(
        PrimitiveKind::Int32,
    ))))];

    let ct = Some("application/json; charset=utf-8".to_string());
    assert_eq!(select_alternative(&alts, &ct), Some(0));

    let ct = Some("Application/JSON".to_string());
    assert_eq!(select_alternative(&alts, &ct), Some(0));

    let ct = Some("text/plain".to_string());
    assert_eq!(select_alternative(&alts, &ct), None);

    assert_eq!(select_alternative(&alts, &None), None);
}

#[test]
fn body_binding_failures() {
    let desc = Some(RequestDescriptor {
        required: true,
        description: None,
        content: vec![ContentAlt::json(SchemaRef::Inline(Box::new(primitive_schema(
            PrimitiveKind::Int32,
        ))))],
    });

    // A required body without a content type is an unsupported media type.
    let req = get_request("/");
    assert!(matches!(bind_body(&desc, &req), Err(BindFailure::UnsupportedMediaType)));

    // Bytes that are not UTF-8 do not read as JSON.
    let mut req = get_request("/");
    req.content_type = Some("application/json".to_string());
    req.body = Some(vec![0xff, 0xfe]);
    match bind_body(&desc, &req) {
        Err(f @ BindFailure::BodyFailure { .. }) => {
            assert_eq!(
                failure_message(&f),
                r#"failed to parse request payload: invalid content for "application/json""#
            );
        }
        _ => panic!("expected a body failure"),
    }

    // A JSON value of a foreign shape does not bind.
    let mut req = get_request("/");
    req.content_type = Some("application/json".to_string());
    req.body = Some(br#""abc""#.to_vec());
    assert!(matches!(bind_body(&desc, &req), Err(BindFailure::BodyFailure { .. })));

    // A JSON string body decodes its escapes.
    let text_desc = Some(RequestDescriptor {
        required: true,
        description: None,
        content: vec![ContentAlt::json(SchemaRef::Inline(Box::new(primitive_schema(
            PrimitiveKind::Text,
        ))))],
    });
    let mut req = get_request("/");
    req.content_type = Some("application/json".to_string());
    req.body = Some(br#""a\"b""#.to_vec());
    match bind_body(&text_desc, &req) {
        Ok(Some((0, Value::Str(s)))) => assert_eq!(s, r#"a"b"#),
        _ => panic!("expected a string body"),
    }

    // An integer out of the declared format's range does not bind.
    let u16_desc = Some(RequestDescriptor {
        required: true,
        description: None,
        content: vec![ContentAlt::json(SchemaRef::Inline(Box::new(primitive_schema(
            PrimitiveKind::UInt16,
        ))))],
    });
    let mut req = get_request("/");
    req.content_type = Some("application/json".to_string());
    req.body = Some(b"70000".to_vec());
    assert!(matches!(bind_body(&u16_desc, &req), Err(BindFailure::BodyFailure { .. })));
    let mut req = get_request("/");
    req.content_type = Some("application/json".to_string());
    req.body = Some(b"70".to_vec());
    assert!(matches!(bind_body(&u16_desc, &req), Ok(Some((0, Value::Int(70))))));

    // An operation without a declared body ignores the request's.
    let mut req = get_request("/");
    req.content_type = Some("application/json".to_string());
    req.body = Some(b"100".to_vec());
    assert!(matches!(bind_body(&None, &req), Ok(None)));

    // An optional body may be absent.
    let desc = Some(RequestDescriptor {
        required: false,
        description: None,
        content: vec![ContentAlt::plain_text()],
    });
    let req = get_request("/");
    assert!(matches!(bind_body(&desc, &req), Ok(None)));
}

#[test]
fn boolean_and_text_coercion() {
    let p = ParamDescriptor::new(
        "flag".to_string(),
        ParamLocation::Query,
        ValueShape::One(PrimitiveKind::Boolean),
    );
    let mut req = get_request("/");
    req.query = vec![("flag".to_string(), "true".to_string())];
    assert!(matches!(bind_parameter(&req, &p), Ok(Value::Bool(true))));

    let mut req = get_request("/");
    req.query = vec![("flag".to_string(), "yes".to_string())];
    assert!(matches!(bind_parameter(&req, &p), Err(BindFailure::ParseFailure { .. })));

    let p = ParamDescriptor::new(
        "q".to_string(),
        ParamLocation::Query,
        ValueShape::One(PrimitiveKind::Text),
    );
    let mut req = get_request("/");
    req.query = vec![("q".to_string(), "hello".to_string())];
    match bind_parameter(&req, &p) {
        Ok(Value::Str(s)) => assert_eq!(s, "hello"),
        _ => panic!("expected text"),
    }
}

#[test]
fn canonical_header_names() {
    assert_eq!(canonical_header_name("a2"), "A2");
    assert_eq!(canonical_header_name("MY-HEADER1"), "MY-HEADER1");
    assert_eq!(canonical_header_name("foo-bar"), "Foo-bar");
    assert_eq!(canonical_header_name(""), "");
}

#[test]
fn method_names() {
    assert_eq!(method_name(HttpMethod::Get), "get");
    assert_eq!(method_name(HttpMethod::Post), "post");
    assert_eq!(method_name(HttpMethod::Put), "put");
}

#[test]
fn value_equality() {
    let a = Value::List(vec![Value::Int(1), Value::Str("x".to_string())]);
    let b = Value::List(vec![Value::Int(1), Value::Str("x".to_string())]);
    let c = Value::List(vec![Value::Int(2), Value::Str("x".to_string())]);
    assert!(value_eq(&a, &b));
    assert!(!value_eq(&a, &c));
    assert!(!value_eq(&a, &Value::Null));
}

#[test]
fn span_decisions() {
    assert_eq!(request_span_name("GET", "/abc?x=1"), "GET /abc?x=1");

    let attrs = request_span_attributes("core", "1.0", "GET", "/abc", "127.0.0.1", "HTTP/1.1");
    assert_eq!(attrs.len(), 7);
    assert_eq!(attrs[0], ("telemetry.sdk.name".to_string(), "core".to_string()));
    assert_eq!(attrs[2], ("telemetry.sdk.language".to_string(), "rust".to_string()));
    assert_eq!(attrs[3], ("http.method".to_string(), "GET".to_string()));
    assert_eq!(attrs[6], ("http.flavor".to_string(), "HTTP/1.1".to_string()));

    assert_eq!(response_status_attribute(404), ("http.status_code".to_string(), 404));
    assert_eq!(
        response_content_length_attribute(12),
        ("http.response_content_length".to_string(), 12)
    );
}
