use mendimaru::asset_mirror::{
    asset_reply, mime_type, mirror_components, parse_request_line, reply_head, route_request,
    MirrorReply, MirrorRoute, MAX_ASSET_BYTES,
};

#[test]
fn accepts_only_direct_project_web_assets() {
    assert_eq!(
        mirror_components("/Data/Project/deployment/web/widgets/a.mjs"),
        Some(vec![
            "Project".to_string(),
            "deployment".to_string(),
            "web".to_string(),
            "widgets".to_string(),
            "a.mjs".to_string()
        ])
    );
    assert!(mirror_components("/Data/Project/other/web/a.mjs").is_none());
    assert!(mirror_components("/Data/Project/deployment/web/../../secret").is_none());
    assert!(mirror_components("/Data/Project/deployment/web/widgets/a.mjs?cache=1").is_none());
    assert!(mirror_components("/other/Project/deployment/web/a.mjs").is_none());
}

#[test]
fn decodes_percent_escapes_and_refuses_encoded_traversal() {
    assert_eq!(
        mirror_components("/Data/My%20App/deployment/web/a.js"),
        Some(vec![
            "My App".to_string(),
            "deployment".to_string(),
            "web".to_string(),
            "a.js".to_string()
        ])
    );
    assert!(mirror_components("/Data/P/deployment/web/%2e%2e/x").is_none());
    assert!(mirror_components("/Data/P/deployment/web/a%5Cb").is_none());
    assert!(mirror_components("/Data/P/deployment/web/a%00").is_none());
    assert!(mirror_components("/Data/P/deployment/web/%ff").is_none());
    assert_eq!(
        mirror_components("/Data//P/./deployment/web/x.css"),
        Some(vec![
            "P".to_string(),
            "deployment".to_string(),
            "web".to_string(),
            "x.css".to_string()
        ])
    );
    let long = format!("/Data/P/deployment/web/{}", "a".repeat(2048));
    assert!(mirror_components(&long).is_none());
    assert!(mirror_components("/Data/P/deployment/web").is_none());
}

#[test]
fn parses_request_lines_and_refuses_bodies() {
    assert_eq!(
        parse_request_line("GET /Data/x HTTP/1.1\r\nHost: a\r\n\r\n"),
        Ok(("GET".to_string(), "/Data/x".to_string()))
    );
    assert_eq!(
        parse_request_line("HEAD /a HTTP/1.1\r\nContent-Length: 0\r\n\r\n"),
        Ok(("HEAD".to_string(), "/a".to_string()))
    );
    assert_eq!(
        parse_request_line("POST /a HTTP/1.1\r\ncontent-length : 5\r\n\r\n"),
        Err("the asset mirror request has an unsupported body".to_string())
    );
    assert_eq!(
        parse_request_line("GET /a HTTP/1.0\r\n\r\n"),
        Err("the asset mirror request is malformed".to_string())
    );
    assert_eq!(
        parse_request_line("GET /a HTTP/1.1 extra\r\n\r\n"),
        Err("the asset mirror request is malformed".to_string())
    );
    assert_eq!(
        parse_request_line("GET /a HTTP/1.1\r\nno-colon\r\n\r\n"),
        Err("the asset mirror request is malformed".to_string())
    );
    assert_eq!(
        parse_request_line("GET /a HTTP/1.1\r\n"),
        Err("the asset mirror request is malformed".to_string())
    );
}

#[test]
fn serves_known_media_types_by_lower_case_extension() {
    assert_eq!(mime_type("a.MJS"), "text/javascript; charset=utf-8");
    assert_eq!(mime_type("style.css"), "text/css; charset=utf-8");
    assert_eq!(mime_type("font.woff2"), "font/woff2");
    assert_eq!(mime_type(".png"), "application/octet-stream");
    assert_eq!(mime_type("noext"), "application/octet-stream");
    assert_eq!(mime_type("archive.tar.json"), "application/json; charset=utf-8");
}

#[test]
fn routes_and_answers_requests() {
    assert!(matches!(route_request("POST", "/Data/P/deployment/web/a.js"), MirrorRoute::MethodNotAllowed));
    assert!(matches!(route_request("GET", "/Data/P/deployment/model/a"), MirrorRoute::NotFound));
    assert!(matches!(route_request("HEAD", "/Data/P/deployment/web/a.js"), MirrorRoute::Lookup(_)));
    assert_eq!(asset_reply("GET", "a.js", None), MirrorReply::NotFound);
    assert_eq!(asset_reply("GET", "a.js", Some(MAX_ASSET_BYTES + 1)), MirrorReply::NotFound);
    let reply = asset_reply("HEAD", "w.png", Some(26));
    assert_eq!(
        reply,
        MirrorReply::Asset { content_type: "image/png", length: 26, with_body: false }
    );
    assert_eq!(
        reply_head(&reply),
        "HTTP/1.1 200 OK\r\nContent-Type: image/png\r\nContent-Length: 26\r\nCache-Control: no-store\r\nAccess-Control-Allow-Origin: *\r\nCross-Origin-Resource-Policy: cross-origin\r\nConnection: close\r\n\r\n"
    );
    assert_eq!(
        reply_head(&MirrorReply::NotFound),
        "HTTP/1.1 404 Not Found\r\nContent-Type: text/plain; charset=utf-8\r\nContent-Length: 0\r\nCache-Control: no-store\r\nConnection: close\r\n\r\n"
    );
}
