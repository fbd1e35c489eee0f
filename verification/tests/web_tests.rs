use lyrics_plus::web::{
    apply_mask, parse_http_request, route_request, server_password_matches, split_path_query,
    valid_http_client, valid_web_token, ws_control_frame, ws_extended_length_bytes, ws_frame_head,
    ws_frame_kind, ws_length_allowed, ws_payload_length, ws_text_frame, HttpRequest, HttpRoute,
    WsFrameKind,
};

fn request(method: &str, path: &str, headers: &[(&str, &str)]) -> HttpRequest {
    HttpRequest {
        method: method.into(),
        path: path.into(),
        headers: headers.iter().map(|(k, v)| (k.to_string(), v.to_string())).collect(),
    }
}

fn token() -> Option<String> {
    Some("secret".into())
}

#[test]
fn request_head_is_parsed() {
    let raw = b"GET /ws?token=a%20b HTTP/1.1\r\nHost: x\r\nX-Lyrics-Plus-Client:  app-1 \r\nbroken line\r\nhost: y\r\n\r\n";
    let parsed = parse_http_request(raw).unwrap();
    assert_eq!(parsed.method, "GET");
    assert_eq!(parsed.path, "/ws?token=a%20b");
    assert_eq!(
        parsed.headers,
        vec![
            ("host".to_string(), "x".to_string()),
            ("x-lyrics-plus-client".to_string(), "app-1".to_string()),
            ("host".to_string(), "y".to_string()),
        ]
    );
    assert_eq!(parse_http_request(b"GET\r\n\r\n").unwrap_err(), "HTTP 请求行无效");
    assert_eq!(parse_http_request(b"").unwrap_err(), "HTTP 请求行无效");
}

#[test]
fn targets_split_into_path_and_decoded_query() {
    let (path, query) = split_path_query("/theme/a%2Fb?token=x%20y&flag&k=1&k=2");
    assert_eq!(path, "/theme/a%2Fb");
    assert_eq!(
        query,
        vec![
            ("token".to_string(), "x y".to_string()),
            ("k".to_string(), "1".to_string()),
            ("k".to_string(), "2".to_string())
        ]
    );
    let (plain, none) = split_path_query("/themes");
    assert_eq!(plain, "/themes");
    assert!(none.is_empty());
}

#[test]
fn credentials_checks() {
    assert!(valid_web_token(&token(), "secret"));
    assert!(!valid_web_token(&token(), "other"));
    assert!(!valid_web_token(&Some(String::new()), ""));
    assert!(!valid_web_token(&None, ""));
    assert!(server_password_matches(&None, ""));
    assert!(!server_password_matches(&None, "x"));
    assert!(server_password_matches(&Some("pw".into()), "pw"));
    let headers = vec![("x-lyrics-plus-client".to_string(), " id ".to_string())];
    assert!(valid_http_client(&headers, &None));
    assert!(!valid_http_client(&headers, &Some("pw".into())));
    let with_password = vec![
        ("x-lyrics-plus-client".to_string(), "id".to_string()),
        ("x-lyrics-plus-password".to_string(), "pw".to_string()),
    ];
    assert!(valid_http_client(&with_password, &Some("pw".into())));
    assert!(!valid_http_client(&vec![("x-lyrics-plus-client".to_string(), "  ".to_string())], &None));
}

#[test]
fn routes() {
    let route = |req: &HttpRequest, web: bool| route_request(req, web, &token(), &None);
    assert!(matches!(route(&request("POST", "/", &[]), true), HttpRoute::Respond { status: 405, .. }));
    assert!(matches!(route(&request("GET", "/ws", &[]), false), HttpRoute::WebSocket { web: false }));
    assert!(matches!(route(&request("GET", "/ws?token=secret", &[]), true), HttpRoute::WebSocket { web: true }));
    assert!(matches!(
        route(&request("GET", "/ws?token=secret", &[]), false),
        HttpRoute::Respond { status: 404, body: "web service disabled", .. }
    ));
    assert!(matches!(
        route(&request("GET", "/ws?token=bad", &[]), true),
        HttpRoute::Respond { status: 401, body: "invalid token", .. }
    ));
    assert!(matches!(
        route(&request("GET", "/", &[]), true),
        HttpRoute::Respond { status: 401, body: "web access token required", .. }
    ));
    match route(&request("GET", "/?token=secret", &[]), true) {
        HttpRoute::Shell { token } => assert_eq!(token, "secret"),
        other => panic!("unexpected {:?}", other),
    }
    assert!(matches!(
        route(&request("GET", "/sdk.js", &[("referer", "http://h/?token=secret")]), true),
        HttpRoute::Sdk
    ));
    assert!(matches!(route(&request("GET", "/themes?token=secret", &[]), true), HttpRoute::Themes));
    match route(&request("GET", "/theme/my%20theme/css/a.css?token=secret", &[]), true) {
        HttpRoute::ThemeFile { theme_id, entry } => {
            assert_eq!(theme_id, "my theme");
            assert_eq!(entry, "css/a.css");
        }
        other => panic!("unexpected {:?}", other),
    }
    match route(&request("GET", "/artwork/x%2Fy", &[("x-lyrics-plus-client", "c")]), false) {
        HttpRoute::Artwork { artwork_id, raw_image } => {
            assert_eq!(artwork_id, "x/y");
            assert!(!raw_image);
        }
        other => panic!("unexpected {:?}", other),
    }
    match route(&request("GET", "/artwork/a?token=secret", &[]), true) {
        HttpRoute::Artwork { raw_image, .. } => assert!(raw_image),
        other => panic!("unexpected {:?}", other),
    }
    assert!(matches!(
        route(&request("GET", "/elsewhere?token=secret", &[]), true),
        HttpRoute::Respond { status: 404, body: "not found", .. }
    ));
}

#[test]
fn frames() {
    assert_eq!(ws_text_frame("hi", None), vec![0x81, 2, b'h', b'i']);
    let masked = ws_text_frame("hi", Some([1, 2, 3, 4]));
    assert_eq!(masked, vec![0x81, 0x82, 1, 2, 3, 4, b'h' ^ 1, b'i' ^ 2]);
    let long = "x".repeat(200);
    let frame = ws_text_frame(&long, None);
    assert_eq!(&frame[..4], &[0x81, 126, 0, 200]);
    assert_eq!(frame.len(), 204);
    let huge = "y".repeat(70000);
    let frame = ws_text_frame(&huge, None);
    assert_eq!(&frame[..10], &[0x81, 127, 0, 0, 0, 0, 0, 1, 0x11, 0x70]);
    assert_eq!(ws_control_frame(0xA, b"ping", None), vec![0x8A, 4, b'p', b'i', b'n', b'g']);
    let mask = [9, 8, 7, 6];
    assert_eq!(apply_mask(&apply_mask(b"payload", &mask), &mask), b"payload".to_vec());
}

#[test]
fn frame_heads() {
    assert_eq!(ws_frame_head(0x81, 0x85), (1, true, 5));
    assert_eq!(ws_extended_length_bytes(126), 2);
    assert_eq!(ws_extended_length_bytes(127), 8);
    assert_eq!(ws_extended_length_bytes(3), 0);
    assert_eq!(ws_payload_length(126, &[1, 0]), 256);
    assert_eq!(ws_payload_length(127, &[0, 0, 0, 0, 0, 1, 0, 0]), 65536);
    assert_eq!(ws_payload_length(5, &[]), 5);
    assert!(ws_length_allowed(1048576));
    assert!(!ws_length_allowed(1048577));
    assert_eq!(ws_frame_kind(1), WsFrameKind::Text);
    assert_eq!(ws_frame_kind(8), WsFrameKind::Close);
    assert_eq!(ws_frame_kind(9), WsFrameKind::Ping);
    assert_eq!(ws_frame_kind(2), WsFrameKind::Other);
}
