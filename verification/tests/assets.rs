use cunzhi::web::static_files::{
    find, logical_path, respond, static_handler, AssetResponse, Assets, Found, HTML_CONTENT_TYPE,
    NOT_FOUND_BODY, ROOT_DOCUMENT,
};

fn bundle() -> Assets {
    let mut assets = Assets::new();
    assets.insert("index.html".to_string(), b"<html>shell</html>".to_vec());
    assets.insert("assets/app.js".to_string(), b"console.log(1)".to_vec());
    assets.insert("assets/app.css".to_string(), b"body{}".to_vec());
    assets.insert("logo.png".to_string(), vec![0x89, 0x50, 0x4e, 0x47]);
    assets.insert("LICENSE".to_string(), b"MIT".to_vec());
    assets
}

#[test]
fn empty_set_holds_nothing() {
    let assets = Assets::new();
    assert_eq!(assets.get("index.html"), None);
    assert_eq!(assets.get(""), None);
}

#[test]
fn insert_then_get() {
    let assets = bundle();
    assert_eq!(assets.get("logo.png"), Some(&vec![0x89, 0x50, 0x4e, 0x47]));
    assert_eq!(assets.get("assets/app.css"), Some(&b"body{}".to_vec()));
    assert_eq!(assets.get("assets/"), None);
    assert_eq!(assets.get("Logo.png"), None);
}

#[test]
fn insert_replaces_what_was_stored() {
    let mut assets = bundle();
    assets.insert("logo.png".to_string(), vec![1, 2]);
    assert_eq!(assets.get("logo.png"), Some(&vec![1, 2]));
    assert_eq!(assets.get("index.html"), Some(&b"<html>shell</html>".to_vec()));
    assert_eq!(assets.get("LICENSE"), Some(&b"MIT".to_vec()));
}

#[test]
fn logical_path_strips_leading_separators() {
    assert_eq!(logical_path("/assets/app.js"), "assets/app.js");
    assert_eq!(logical_path("///assets/app.js"), "assets/app.js");
    assert_eq!(logical_path("assets/app.js"), "assets/app.js");
    assert_eq!(logical_path("/a/"), "a/");
}

#[test]
fn empty_paths_ask_for_the_root_document() {
    assert_eq!(logical_path("/"), "index.html");
    assert_eq!(logical_path(""), "index.html");
    assert_eq!(logical_path("////"), "index.html");
    assert_eq!(logical_path("/index.html"), "index.html");
    assert_eq!(ROOT_DOCUMENT, "index.html");
}

#[test]
fn root_and_root_document_yield_identical_answers() {
    let assets = bundle();
    let root = static_handler(&assets, "/");
    let named = static_handler(&assets, "/index.html");
    assert_eq!(root.body, named.body);
    assert_eq!(root, named);
    assert_eq!(
        root,
        AssetResponse {
            status: 200,
            content_type: Some("text/html".to_string()),
            body: b"<html>shell</html>".to_vec(),
        }
    );
}

#[test]
fn found_asset_is_served_with_guessed_content_type() {
    let assets = bundle();
    let css = static_handler(&assets, "/assets/app.css");
    assert_eq!(
        css,
        AssetResponse {
            status: 200,
            content_type: Some("text/css".to_string()),
            body: b"body{}".to_vec(),
        }
    );
    let png = static_handler(&assets, "/logo.png");
    assert_eq!(png.status, 200);
    assert_eq!(png.content_type.as_deref(), Some("image/png"));
    assert_eq!(png.body, vec![0x89, 0x50, 0x4e, 0x47]);
}

#[test]
fn content_type_is_what_mime_guess_says() {
    let assets = bundle();
    for path in ["assets/app.js", "assets/app.css", "logo.png", "LICENSE", "index.html"] {
        let request = format!("/{}", path);
        let response = static_handler(&assets, &request);
        let expected = mime_guess::from_path(path).first_or_octet_stream();
        assert_eq!(response.content_type.as_deref(), Some(expected.as_ref()));
        assert_ne!(response.content_type.as_deref(), Some(path));
    }
}

#[test]
fn unknown_extension_is_generic_binary() {
    let assets = bundle();
    let response = static_handler(&assets, "/LICENSE");
    assert_eq!(response.status, 200);
    assert_eq!(response.content_type.as_deref(), Some("application/octet-stream"));
    assert_eq!(response.body, b"MIT".to_vec());
}

#[test]
fn absent_path_falls_back_to_the_root_document_as_html() {
    let assets = bundle();
    for request in ["/settings", "/deep/client/route", "/missing.png", "/api/unknown"] {
        let response = static_handler(&assets, request);
        assert_eq!(
            response,
            AssetResponse {
                status: 200,
                content_type: Some("text/html".to_string()),
                body: b"<html>shell</html>".to_vec(),
            },
            "request {:?}",
            request
        );
    }
    assert_eq!(HTML_CONTENT_TYPE, "text/html");
}

#[test]
fn without_root_document_absent_path_is_404() {
    let mut assets = Assets::new();
    assets.insert("app.js".to_string(), b"x".to_vec());
    for request in ["/", "/index.html", "/nothing", ""] {
        let response = static_handler(&assets, request);
        assert_eq!(
            response,
            AssetResponse { status: 404, content_type: None, body: b"404 Not Found".to_vec() }
        );
    }
    assert_eq!(static_handler(&assets, "/app.js").status, 200);
    assert_eq!(NOT_FOUND_BODY, "404 Not Found");
}

#[test]
fn find_tells_the_three_cases_apart() {
    let assets = bundle();
    assert!(matches!(find(&assets, "/logo.png"), Found::Asset("logo.png", _)));
    assert!(matches!(find(&assets, "/nope"), Found::Fallback(_)));
    let empty = Assets::new();
    assert!(matches!(find(&empty, "/nope"), Found::Missing));
}

#[test]
fn respond_uses_the_given_content_type_for_assets_only() {
    let data = b"abc".to_vec();
    let asset = respond(Found::Asset("a.bin", &data), "x/y".to_string());
    assert_eq!(
        asset,
        AssetResponse { status: 200, content_type: Some("x/y".to_string()), body: data.clone() }
    );
    let fallback = respond(Found::Fallback(&data), "x/y".to_string());
    assert_eq!(fallback.content_type.as_deref(), Some("text/html"));
    assert_eq!(fallback.body, data);
    let missing = respond(Found::Missing, "x/y".to_string());
    assert_eq!(missing.status, 404);
    assert_eq!(missing.content_type, None);
}

#[test]
fn extension_case_does_not_matter_for_the_content_type() {
    let mut assets = Assets::new();
    assets.insert("PAGE.HTML".to_string(), b"p".to_vec());
    let response = static_handler(&assets, "/PAGE.HTML");
    assert_eq!(response.content_type.as_deref(), Some("text/html"));
}
