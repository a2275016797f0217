use oauth_relay::{
    body_text, relay_outcome, request_headers, response_headers, sort_by_name, value_text,
    RelayError,
};

fn pairs(items: &[(&str, &str)]) -> Vec<(String, String)> {
    items.iter().map(|(n, v)| (n.to_string(), v.to_string())).collect()
}

#[test]
fn form_post_echo_scenario() {
    let headers = pairs(&[("Content-Type", "application/x-www-form-urlencoded")]);
    let map = request_headers(&headers).unwrap().unwrap();
    assert_eq!(map.len(), 1);
    assert_eq!(
        map.get("content-type").unwrap().to_str().unwrap(),
        "application/x-www-form-urlencoded"
    );

    let received = vec![(
        "content-type".to_string(),
        b"application/x-www-form-urlencoded".to_vec(),
    )];
    let kept = response_headers(&received);
    let result = relay_outcome(200, kept, Ok("grant_type=refresh_token".to_string())).unwrap();
    assert_eq!(result.status, 200);
    assert_eq!(result.body, "grant_type=refresh_token");
    assert_eq!(
        result.headers,
        pairs(&[("content-type", "application/x-www-form-urlencoded")])
    );
}

#[test]
fn no_headers_attach_no_collection() {
    assert!(request_headers(&Vec::new()).unwrap().is_none());
}

#[test]
fn empty_value_still_attaches_collection() {
    let map = request_headers(&pairs(&[("X-Empty", "")])).unwrap().unwrap();
    assert_eq!(map.get("x-empty").unwrap().as_bytes(), b"");
}

#[test]
fn name_with_newline_is_rejected() {
    let err = request_headers(&pairs(&[("X-Bad\nName", "v")])).unwrap_err();
    assert!(matches!(err, RelayError::InvalidHeaderName { .. }));
    assert_eq!(
        err.message(),
        "invalid header name `X-Bad\nName`: invalid HTTP header name"
    );
}

#[test]
fn name_with_control_char_is_rejected() {
    let err = request_headers(&pairs(&[("Accept", "*/*"), ("X\u{7f}", "v")])).unwrap_err();
    match err {
        RelayError::InvalidHeaderName { name, .. } => assert_eq!(name, "X\u{7f}"),
        other => panic!("unexpected error {:?}", other),
    }
}

#[test]
fn value_with_newline_is_rejected() {
    let err = request_headers(&pairs(&[("X-Ok", "fine"), ("X-Token", "a\r\nb")])).unwrap_err();
    assert!(matches!(err, RelayError::InvalidHeaderValue { .. }));
    assert_eq!(
        err.message(),
        "invalid header value for `X-Token`: failed to parse header value"
    );
}

#[test]
fn first_bad_header_is_reported() {
    let err = request_headers(&pairs(&[("Bad Name", "v"), ("Other", "x\ny")])).unwrap_err();
    match err {
        RelayError::InvalidHeaderName { name, reason } => {
            assert_eq!(name, "Bad Name");
            assert_eq!(reason, "invalid HTTP header name");
        }
        other => panic!("unexpected error {:?}", other),
    }
}

#[test]
fn empty_name_is_rejected() {
    let err = request_headers(&pairs(&[("", "v")])).unwrap_err();
    assert!(matches!(err, RelayError::InvalidHeaderName { .. }));
}

#[test]
fn name_length_limit() {
    let longest = "a".repeat(65535);
    assert!(request_headers(&vec![(longest, "v".to_string())]).is_ok());
    let too_long = "a".repeat(65536);
    let err = request_headers(&vec![(too_long, "v".to_string())]).unwrap_err();
    assert!(matches!(err, RelayError::InvalidHeaderName { .. }));
}

#[test]
fn later_header_of_same_name_wins() {
    let map = request_headers(&pairs(&[("Accept", "text/plain"), ("accept", "text/html")]))
        .unwrap()
        .unwrap();
    assert_eq!(map.len(), 1);
    assert_eq!(map.get("accept").unwrap().to_str().unwrap(), "text/html");
}

#[test]
fn non_ascii_and_tab_values_are_legal() {
    let map = request_headers(&pairs(&[("X-Name", "caf\u{e9}\tbar")])).unwrap().unwrap();
    assert_eq!(map.get("x-name").unwrap().as_bytes(), "caf\u{e9}\tbar".as_bytes());
}

#[test]
fn token_punctuation_in_name_is_legal() {
    assert!(request_headers(&pairs(&[("x-a!#$%&'*+.^_`|~9", "v")])).is_ok());
    assert!(request_headers(&pairs(&[("x:y", "v")])).is_err());
}

#[test]
fn undecodable_response_header_is_dropped() {
    let received = vec![
        ("x-first".to_string(), b"one".to_vec()),
        ("x-binary".to_string(), vec![0xff, 0xfe, b'a']),
        ("x-last".to_string(), b"two\tthree".to_vec()),
    ];
    let kept = response_headers(&received);
    assert_eq!(kept, pairs(&[("x-first", "one"), ("x-last", "two\tthree")]));
    let result = relay_outcome(201, kept, Ok("done".to_string())).unwrap();
    assert_eq!(result.status, 201);
    assert_eq!(result.body, "done");
}

#[test]
fn value_text_rules() {
    assert_eq!(value_text(&b"plain".to_vec()), Some("plain".to_string()));
    assert_eq!(value_text(&Vec::new()), Some(String::new()));
    assert_eq!(value_text(&vec![b'a', 0x7f]), None);
    assert_eq!(value_text(&vec![b'a', 0x0a]), None);
    assert_eq!(value_text(&"caf\u{e9}".as_bytes().to_vec()), None);
}

#[test]
fn unreadable_body_fails_despite_ok_status() {
    let err = relay_outcome(200, Vec::new(), Err("error decoding response body".to_string()))
        .unwrap_err();
    assert!(matches!(err, RelayError::BodyRead { .. }));
    assert_eq!(
        err.message(),
        "failed to read response body: error decoding response body"
    );
}

#[test]
fn transport_and_size_messages() {
    let err = RelayError::Transport { reason: "connection refused".to_string() };
    assert_eq!(err.message(), "request failed: connection refused");
    let err = RelayError::TooManyHeaders { name: "X-A".to_string() };
    assert_eq!(err.message(), "too many headers to add `X-A`");
}

#[test]
fn body_text_is_strict_utf8() {
    assert_eq!(body_text(Ok(b"grant_type=refresh_token".to_vec())), Ok("grant_type=refresh_token".to_string()));
    assert_eq!(body_text(Ok("caf\u{e9}".as_bytes().to_vec())), Ok("caf\u{e9}".to_string()));
    assert_eq!(body_text(Ok(vec![0xff, 0xfe, 0x00])), Err("response body is not valid UTF-8".to_string()));
    assert_eq!(body_text(Err("connection reset".to_string())), Err("connection reset".to_string()));
}

#[test]
fn non_text_body_fails_with_status_200() {
    let err = relay_outcome(200, Vec::new(), body_text(Ok(vec![0xc3, 0x28]))).unwrap_err();
    assert_eq!(
        err.message(),
        "failed to read response body: response body is not valid UTF-8"
    );
}

#[test]
fn headers_sorted_by_name() {
    let sorted = sort_by_name(pairs(&[("b", "2"), ("accept", "x"), ("Accept", "y"), ("a", "1")]));
    assert_eq!(sorted, pairs(&[("Accept", "y"), ("a", "1"), ("accept", "x"), ("b", "2")]));
    assert!(sort_by_name(Vec::new()).is_empty());
}

#[test]
fn sorted_order_decides_reported_header_and_winner() {
    let sorted = sort_by_name(pairs(&[("Z\nbad", "v"), ("A bad", "v")]));
    match request_headers(&sorted).unwrap_err() {
        RelayError::InvalidHeaderName { name, .. } => assert_eq!(name, "A bad"),
        other => panic!("unexpected error {:?}", other),
    }
    let sorted = sort_by_name(pairs(&[("accept", "lower"), ("Accept", "upper")]));
    let map = request_headers(&sorted).unwrap().unwrap();
    assert_eq!(map.get("accept").unwrap().to_str().unwrap(), "lower");
}

#[test]
fn many_legal_headers_succeed() {
    let many: Vec<(String, String)> = (0..1023).map(|i| (format!("x-h{i}"), "v".to_string())).collect();
    let map = request_headers(&many).unwrap().unwrap();
    assert_eq!(map.len(), 1023);
}
