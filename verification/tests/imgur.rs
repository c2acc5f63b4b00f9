use linkshot::imgur::{
    authorization_header, interpret_response, unexpected_response, ImgurData, ImgurResp, UploadError,
    ENDPOINT,
};

/// Reads Imgur's JSON reply into the library's reply type, the way the
/// application's deserializer fills it.
fn resp_from_json(body: &str) -> ImgurResp {
    let v: serde_json::Value = serde_json::from_str(body).unwrap();
    let d = &v["data"];
    ImgurResp {
        success: v["success"].as_bool().unwrap(),
        status: v["status"].as_u64().unwrap() as u32,
        data: ImgurData {
            link: d.get("link").and_then(|x| x.as_str()).map(|s| s.to_string()),
            deletehash: d.get("deletehash").and_then(|x| x.as_str()).map(|s| s.to_string()),
            error: d.get("error").map(|e| e.to_string()),
        },
    }
}

#[test]
fn parses_success_response() {
    let body = r#"{"data":{"id":"abc123","link":"https://i.imgur.com/abc123.png",
            "deletehash":"XyZdelete"},"success":true,"status":200}"#;
    let r = resp_from_json(body);
    assert!(r.success && r.status == 200);
    assert_eq!(r.data.link.as_deref(), Some("https://i.imgur.com/abc123.png"));
    assert_eq!(r.data.deletehash.as_deref(), Some("XyZdelete"));
    let up = interpret_response(r).ok().unwrap();
    assert_eq!(up.link, "https://i.imgur.com/abc123.png");
    assert_eq!(up.deletehash.as_deref(), Some("XyZdelete"));
}

#[test]
fn parses_error_response() {
    let body = r#"{"data":{"error":"Invalid client_id"},"success":false,"status":403}"#;
    let r = resp_from_json(body);
    assert!(!r.success);
    assert!(r.data.link.is_none());
    assert!(r.data.error.is_some());
    match interpret_response(r) {
        Err(e) => assert_eq!(e.message(), "Imgur rejected the upload: \"Invalid client_id\""),
        Ok(_) => panic!("expected a rejection"),
    }
}

fn resp(success: bool, status: u32, link: Option<&str>, error: Option<&str>) -> ImgurResp {
    ImgurResp {
        success,
        status,
        data: ImgurData {
            link: link.map(|s| s.to_string()),
            deletehash: None,
            error: error.map(|s| s.to_string()),
        },
    }
}

#[test]
fn non_200_status_is_a_rejection() {
    let r = interpret_response(resp(true, 201, Some("https://x"), None));
    match r {
        Err(e) => assert_eq!(e.message(), "Imgur rejected the upload: unknown error"),
        Ok(_) => panic!("expected a rejection"),
    }
}

#[test]
fn accepted_reply_without_link() {
    match interpret_response(resp(true, 200, None, None)) {
        Err(e) => {
            assert!(matches!(e, UploadError::MissingLink));
            assert_eq!(e.message(), "Imgur response missing image link");
        }
        Ok(_) => panic!("expected a failure"),
    }
}

#[test]
fn unexpected_reply_is_quoted_briefly() {
    let body = "x".repeat(1000);
    let e = unexpected_response("502 Bad Gateway", &body);
    let m = e.message();
    assert_eq!(m, format!("unexpected Imgur response (HTTP 502 Bad Gateway): {}", "x".repeat(300)));
    let e = unexpected_response("200 OK", "<html>");
    assert_eq!(e.message(), "unexpected Imgur response (HTTP 200 OK): <html>");
}

#[test]
fn transport_messages_and_header() {
    assert_eq!(UploadError::RequestFailed.message(), "request to Imgur failed (check network/Client-ID)");
    assert_eq!(UploadError::Transport("boom".to_string()).message(), "boom");
    assert_eq!(authorization_header("abc"), "Client-ID abc");
    assert_eq!(ENDPOINT, "https://api.imgur.com/3/image");
}
