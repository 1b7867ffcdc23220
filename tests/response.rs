use linear_api::response::{is_success, reconcile, take_data, ClientError, Envelope, GraphQlError, PathSegment, Reply};

fn parse_envelope(body: &str) -> Result<Envelope<serde_json::Value>, String> {
    let v: serde_json::Value = serde_json::from_str(body).map_err(|e| e.to_string())?;
    let obj = v.as_object().ok_or_else(|| "not an object".to_string())?;
    let data = match obj.get("data") {
        None | Some(serde_json::Value::Null) => None,
        Some(d) => Some(d.clone()),
    };
    let errors = match obj.get("errors") {
        None | Some(serde_json::Value::Null) => None,
        Some(serde_json::Value::Array(items)) => {
            let mut out = Vec::new();
            for item in items {
                let message = item
                    .get("message")
                    .and_then(|m| m.as_str())
                    .ok_or_else(|| "error without message".to_string())?;
                let path = item.get("path").and_then(|p| p.as_array()).map(|p| {
                    p.iter()
                        .map(|s| match s.as_u64() {
                            Some(n) => PathSegment::Index(n as i64),
                            None => PathSegment::Field(s.as_str().unwrap_or_default().to_string()),
                        })
                        .collect()
                });
                out.push(GraphQlError { message: message.to_string(), path });
            }
            Some(out)
        }
        Some(_) => return Err("errors is not a list".to_string()),
    };
    Ok(Envelope { data, errors })
}

fn x1() -> serde_json::Value {
    let mut m = serde_json::Map::new();
    m.insert("x".to_string(), serde_json::Value::from(1));
    serde_json::Value::Object(m)
}

fn received(status: u16, body: &str) -> Reply<serde_json::Value> {
    Reply::Received { status, body: body.to_string(), parsed: parse_envelope(body) }
}

#[test]
fn success_with_data_only() {
    let r = reconcile(received(200, r#"{"data":{"x":1}}"#)).unwrap();
    assert_eq!(r.data, Some(x1()));
    assert!(r.errors.is_none());
}

#[test]
fn success_with_partial_errors_keeps_data() {
    let r = reconcile(received(200, r#"{"data":{"x":1},"errors":[{"message":"partial"}]}"#)).unwrap();
    assert_eq!(r.data, Some(x1()));
    let errors = r.errors.unwrap();
    assert_eq!(errors.len(), 1);
    assert_eq!(errors[0].message, "partial");
}

#[test]
fn error_status_with_envelope_is_decoded() {
    let r = reconcile(received(400, r#"{"data":null,"errors":[{"message":"bad"}]}"#)).unwrap();
    assert!(r.data.is_none());
    assert_eq!(r.errors.unwrap()[0].message, "bad");
}

#[test]
fn error_status_with_plain_text_is_http_error() {
    match reconcile(received(500, "Internal Server Error")) {
        Err(ClientError::Http { status, body }) => {
            assert_eq!(status, 500);
            assert_eq!(body, "Internal Server Error");
        }
        other => panic!("unexpected: {:?}", other.map(|e| e.data)),
    }
}

#[test]
fn connection_refused_is_transport_failure() {
    let reply: Reply<serde_json::Value> = Reply::Failed("connection refused".to_string());
    match reconcile(reply) {
        Err(ClientError::Transport(m)) => assert_eq!(m, "connection refused"),
        other => panic!("unexpected: {:?}", other.map(|e| e.data)),
    }
}

#[test]
fn success_status_with_bad_body_is_decode_failure() {
    match reconcile(received(200, "not json")) {
        Err(ClientError::Decode(_)) => {}
        other => panic!("unexpected: {:?}", other.map(|e| e.data)),
    }
}

#[test]
fn success_class_bounds() {
    assert!(!is_success(199));
    assert!(is_success(200));
    assert!(is_success(299));
    assert!(!is_success(300));
    assert!(!is_success(404));
}

#[test]
fn missing_data_is_an_error_even_without_errors() {
    let env: Envelope<u32> = Envelope { data: None, errors: None };
    assert!(matches!(take_data(env), Err(ClientError::NoData)));
    let env = Envelope { data: Some(7u32), errors: Some(vec![GraphQlError { message: "m".to_string(), path: None }]) };
    assert_eq!(take_data(env).unwrap(), 7);
}
