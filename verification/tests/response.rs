use openapi_core::bind::BindFailure;
use openapi_core::content::{ContentAlt, PayloadKind};
use openapi_core::message::{BodyData, HttpResponse};
use openapi_core::respond::{
    HeaderDescriptor, OperationResponses, PayloadData, ResponseValue, ResponseVariant,
};
use openapi_core::message::HttpMethod;
use openapi_core::operation::{doc_response_headers, ApiDescription, Operation};
use openapi_core::schema::{primitive_schema, schema_ref_eq, PrimitiveKind, SchemaRef};

fn i32_schema() -> SchemaRef {
    SchemaRef::Inline(Box::new(primitive_schema(PrimitiveKind::Int32)))
}

fn string_schema() -> SchemaRef {
    SchemaRef::Inline(Box::new(primitive_schema(PrimitiveKind::Text)))
}

fn bad_request_result_schema() -> SchemaRef {
    SchemaRef::Named("BadRequestResult".to_string())
}

/// The declaration of a three-variant response: a bare 200, a 400 with a
/// JSON payload registered by name, and a runtime-status plain-text one.
fn my_response() -> OperationResponses {
    OperationResponses {
        responses: vec![
            ResponseVariant::with_status(200, "Ok".to_string()),
            ResponseVariant::with_status(400, "A\nB\n\nC".to_string()).with_content(
                ContentAlt::custom(
                    "application/json".to_string(),
                    bad_request_result_schema(),
                    PayloadKind::Text,
                ),
            ),
            ResponseVariant::with_runtime_status(String::new())
                .with_content(ContentAlt::plain_text()),
        ],
    }
}

fn body_text(resp: &HttpResponse) -> String {
    match &resp.body {
        BodyData::Empty => String::new(),
        BodyData::Text(s) => s.clone(),
        BodyData::Blob(_) => panic!("expected a text body"),
    }
}

fn header_value<'a>(resp: &'a HttpResponse, name: &str) -> Option<&'a str> {
    resp.headers
        .iter()
        .find(|(n, _)| n.eq_ignore_ascii_case(name))
        .map(|(_, v)| v.as_str())
}

#[test]
fn meta() {
    let meta = my_response();

    assert_eq!(meta.responses[0].description, "Ok");
    assert_eq!(meta.responses[0].status, Some(200));
    assert!(meta.responses[0].content.is_empty());
    assert!(meta.responses[0].headers.is_empty());

    assert_eq!(meta.responses[1].description, "A\nB\n\nC");
    assert_eq!(meta.responses[1].status, Some(400));
    assert_eq!(meta.responses[1].content[0].content_type, "application/json");
    assert!(schema_ref_eq(&meta.responses[1].content[0].schema, &bad_request_result_schema()));
    assert!(meta.responses[1].headers.is_empty());

    assert_eq!(meta.responses[2].description, "");
    assert_eq!(meta.responses[2].status, None);
    assert_eq!(meta.responses[2].content[0].content_type, "text/plain");
    assert!(schema_ref_eq(&meta.responses[2].content[0].schema, &string_schema()));
    assert!(meta.responses[2].headers.is_empty());
}

#[test]
fn into_response() {
    let decl = my_response();

    let resp = openapi_core::respond::into_response(
        &ResponseValue { variant: 0, runtime_status: None, payload: None, header_values: vec![] },
        &decl,
    );
    assert_eq!(resp.status, 200);

    let resp = openapi_core::respond::into_response(
        &ResponseValue {
            variant: 1,
            runtime_status: None,
            payload: Some((
                0,
                PayloadData::Text(r#"{"error_code":123,"message":"abc"}"#.to_string()),
            )),
            header_values: vec![],
        },
        &decl,
    );
    assert_eq!(body_text(&resp), r#"{"error_code":123,"message":"abc"}"#);
    assert_eq!(resp.status, 400);

    let resp = openapi_core::respond::into_response(
        &ResponseValue {
            variant: 2,
            runtime_status: Some(502),
            payload: Some((0, PayloadData::Text("abcdef".to_string()))),
            header_values: vec![],
        },
        &decl,
    );
    assert_eq!(body_text(&resp), "abcdef");
    assert_eq!(resp.status, 502);
}

fn headers_response() -> OperationResponses {
    OperationResponses {
        responses: vec![
            ResponseVariant::with_status(200, String::new()),
            ResponseVariant::with_status(200, String::new())
                .with_header(
                    HeaderDescriptor::new("MY-HEADER1", i32_schema())
                        .describe("header1".to_string()),
                )
                .with_header(HeaderDescriptor::new("MY-HEADER2", string_schema()).optional()),
            ResponseVariant::with_status(400, String::new())
                .with_content(ContentAlt::custom(
                    "application/json".to_string(),
                    bad_request_result_schema(),
                    PayloadKind::Text,
                ))
                .with_header(HeaderDescriptor::new("MY-HEADER1", i32_schema()))
                .with_header(HeaderDescriptor::new("MY-HEADER2", string_schema())),
            ResponseVariant::with_runtime_status(String::new())
                .with_content(ContentAlt::plain_text())
                .with_header(HeaderDescriptor::new("MY-HEADER1", i32_schema()))
                .with_header(HeaderDescriptor::new("MY-HEADER2", string_schema())),
        ],
    }
}

#[test]
fn headers() {
    let meta = headers_response();
    assert!(meta.responses[0].headers.is_empty());

    let header1 = &meta.responses[1].headers[0];
    let header2 = &meta.responses[1].headers[1];

    assert_eq!(header1.name, "MY-HEADER1");
    assert_eq!(header1.description.as_deref(), Some("header1"));
    assert_eq!(header1.required, true);
    assert!(schema_ref_eq(&header1.schema, &i32_schema()));

    assert_eq!(header2.name, "MY-HEADER2");
    assert_eq!(header2.description, None);
    assert_eq!(header2.required, false);
    assert!(schema_ref_eq(&header2.schema, &string_schema()));

    let resp = openapi_core::respond::into_response(
        &ResponseValue { variant: 0, runtime_status: None, payload: None, header_values: vec![] },
        &meta,
    );
    assert_eq!(resp.status, 200);

    let resp = openapi_core::respond::into_response(
        &ResponseValue {
            variant: 1,
            runtime_status: None,
            payload: None,
            header_values: vec![Some("88".to_string()), Some("abc".to_string())],
        },
        &meta,
    );
    assert_eq!(resp.status, 200);
    assert_eq!(header_value(&resp, "MY-HEADER1"), Some("88"));
    assert_eq!(header_value(&resp, "MY-HEADER2"), Some("abc"));

    let resp = openapi_core::respond::into_response(
        &ResponseValue {
            variant: 1,
            runtime_status: None,
            payload: None,
            header_values: vec![Some("88".to_string()), None],
        },
        &meta,
    );
    assert_eq!(resp.status, 200);
    assert_eq!(header_value(&resp, "MY-HEADER1"), Some("88"));
    assert!(header_value(&resp, "MY-HEADER2").is_none());

    let resp = openapi_core::respond::into_response(
        &ResponseValue {
            variant: 2,
            runtime_status: None,
            payload: Some((
                0,
                PayloadData::Text(r#"{"error_code":11,"message":"hehe"}"#.to_string()),
            )),
            header_values: vec![Some("88".to_string()), Some("abc".to_string())],
        },
        &meta,
    );
    assert_eq!(resp.status, 400);
    assert_eq!(body_text(&resp), r#"{"error_code":11,"message":"hehe"}"#);
    assert_eq!(header_value(&resp, "MY-HEADER1"), Some("88"));
    assert_eq!(header_value(&resp, "MY-HEADER2"), Some("abc"));

    let resp = openapi_core::respond::into_response(
        &ResponseValue {
            variant: 3,
            runtime_status: Some(409),
            payload: Some((0, PayloadData::Text("abcdef".to_string()))),
            header_values: vec![Some("88".to_string()), Some("abc".to_string())],
        },
        &meta,
    );
    assert_eq!(resp.status, 409);
    assert_eq!(body_text(&resp), "abcdef");
    assert_eq!(header_value(&resp, "MY-HEADER1"), Some("88"));
    assert_eq!(header_value(&resp, "MY-HEADER2"), Some("abc"));
}

#[test]
fn response_bad_request_handler() {
    let decl = OperationResponses {
        responses: vec![
            ResponseVariant::with_status(200, String::new()),
            ResponseVariant::with_status(400, String::new()),
        ],
    };
    let recovery = |_f: &BindFailure| -> ResponseValue {
        ResponseValue { variant: 1, runtime_status: None, payload: None, header_values: vec![] }
    };
    let rv = recovery(&BindFailure::UnsupportedMediaType);
    assert_eq!(rv.variant, 1);
    let resp = openapi_core::respond::into_response(&rv, &decl);
    assert_eq!(resp.status, 400);
}

#[test]
fn response_generic() {
    let decl = OperationResponses {
        responses: vec![
            ResponseVariant::with_status(200, String::new())
                .with_content(ContentAlt::json(string_schema())),
        ],
    };
    assert_eq!(decl.responses[0].description, "");
    assert_eq!(decl.responses[0].status, Some(200));
    assert_eq!(decl.responses[0].content[0].content_type, "application/json");
    assert!(schema_ref_eq(&decl.responses[0].content[0].schema, &string_schema()));

    let resp = openapi_core::respond::into_response(
        &ResponseValue {
            variant: 0,
            runtime_status: None,
            payload: Some((
                0,
                PayloadData::JsonValue(openapi_core::value::Value::Str("success".to_string())),
            )),
            header_values: vec![],
        },
        &decl,
    );
    assert_eq!(resp.status, 200);
    assert_eq!(body_text(&resp), r#""success""#);
}

#[test]
fn item_content_type() {
    let decl = OperationResponses {
        responses: vec![
            ResponseVariant::with_status(200, String::new()).with_content(ContentAlt::custom(
                "application/json2".to_string(),
                i32_schema(),
                PayloadKind::Json,
            )),
            ResponseVariant::with_runtime_status(String::new()).with_content(ContentAlt::custom(
                "application/json3".to_string(),
                i32_schema(),
                PayloadKind::Json,
            )),
        ],
    };

    assert_eq!(decl.responses[0].status, Some(200));
    assert_eq!(decl.responses[0].content[0].content_type, "application/json2");
    assert!(schema_ref_eq(&decl.responses[0].content[0].schema, &i32_schema()));
    assert_eq!(decl.responses[1].status, None);
    assert_eq!(decl.responses[1].content[0].content_type, "application/json3");
    assert!(schema_ref_eq(&decl.responses[1].content[0].schema, &i32_schema()));

    let resp = openapi_core::respond::into_response(
        &ResponseValue {
            variant: 0,
            runtime_status: None,
            payload: Some((0, PayloadData::JsonValue(openapi_core::value::Value::Int(100)))),
            header_values: vec![],
        },
        &decl,
    );
    assert_eq!(resp.status, 200);
    assert_eq!(header_value(&resp, "content-type"), Some("application/json2"));
    assert_eq!(body_text(&resp), "100");

    let resp = openapi_core::respond::into_response(
        &ResponseValue {
            variant: 1,
            runtime_status: Some(502),
            payload: Some((0, PayloadData::JsonValue(openapi_core::value::Value::Int(200)))),
            header_values: vec![],
        },
        &decl,
    );
    assert_eq!(resp.status, 502);
    assert_eq!(header_value(&resp, "content-type"), Some("application/json3"));
    assert_eq!(body_text(&resp), "200");
}

#[test]
fn header_deprecated() {
    let decl = OperationResponses {
        responses: vec![
            ResponseVariant::with_status(200, String::new())
                .with_content(ContentAlt::json(i32_schema()))
                .with_header(HeaderDescriptor::new("A", string_schema()).mark_deprecated()),
        ],
    };
    assert_eq!(decl.responses[0].headers[0].deprecated, true);
}

#[test]
fn extra_headers_on_response() {
    let op = Operation::new("/".to_string(), HttpMethod::Get)
        .with_responses(OperationResponses {
            responses: vec![
                ResponseVariant::with_status(200, String::new())
                    .with_content(ContentAlt::json(i32_schema()))
                    .with_header(HeaderDescriptor::new("A", string_schema())),
            ],
        })
        .with_response_header(HeaderDescriptor::new("A1", string_schema()))
        .with_response_header(
            HeaderDescriptor::new("a2", i32_schema())
                .describe("abc".to_string())
                .mark_deprecated(),
        );
    let api = ApiDescription::new("test".to_string(), "1.0".to_string()).add_operation(op);

    let op = &api.operations[0];
    let headers = doc_response_headers(&op.responses.responses[0], op, &api);
    assert_eq!(headers.len(), 3);

    assert_eq!(headers[0].name, "A");
    assert_eq!(headers[0].deprecated, false);

    assert_eq!(headers[1].name, "A1");
    assert_eq!(headers[1].description, None);
    assert_eq!(headers[1].deprecated, false);
    assert!(schema_ref_eq(&headers[1].schema, &string_schema()));

    assert_eq!(headers[2].name, "A2");
    assert_eq!(headers[2].description.as_deref(), Some("abc"));
    assert_eq!(headers[2].deprecated, true);
    assert!(schema_ref_eq(&headers[2].schema, &i32_schema()));
}

#[test]
fn extra_headers_on_item() {
    let decl = OperationResponses {
        responses: vec![
            ResponseVariant::with_status(200, String::new())
                .with_content(ContentAlt::json(i32_schema()))
                .with_header(HeaderDescriptor::new("A", string_schema()))
                .with_header(HeaderDescriptor::new("A1", string_schema()))
                .with_header(
                    HeaderDescriptor::new("a2", i32_schema())
                        .describe("abc".to_string())
                        .mark_deprecated(),
                ),
        ],
    };

    let headers = &decl.responses[0].headers;
    assert_eq!(headers.len(), 3);

    assert_eq!(headers[0].name, "A");
    assert_eq!(headers[0].deprecated, false);

    assert_eq!(headers[1].name, "A1");
    assert_eq!(headers[1].description, None);
    assert_eq!(headers[1].deprecated, false);

    assert_eq!(headers[2].name, "A2");
    assert_eq!(headers[2].description.as_deref(), Some("abc"));
    assert_eq!(headers[2].deprecated, true);
}
