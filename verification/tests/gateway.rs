use asset_gateway::bundle::{AssetBundle, AssetEntry};
use asset_gateway::content_type::resolve;
use asset_gateway::gateway::{AssetGateway, Request};
use asset_gateway::response::{build_found, build_not_found, Response};

fn files() -> Vec<(&'static str, &'static [u8], &'static str)> {
    vec![
        ("index.html", b"<html>home</html>", "text/html"),
        ("about.html", b"<html>about</html>", "text/html"),
        ("assets/site.css", b"body{margin:0}", "text/css"),
        ("assets/img/logo.png", &[0x89, 0x50, 0x4e, 0x47, 0x0d, 0x0a, 0x1a, 0x0a], "image/png"),
        ("data/items.json", b"[1,2,3]", "application/json"),
        ("LICENSE", b"free", "application/octet-stream"),
        ("blob.unknownext", &[0, 1, 2, 255], "application/octet-stream"),
        ("empty.txt", b"", "text/plain"),
    ]
}

fn gateway_over(files: &[(&'static str, &'static [u8], &'static str)]) -> AssetGateway {
    let entries = files
        .iter()
        .map(|(key, content, _)| AssetEntry { key: String::from(*key), content: content.to_vec() })
        .collect();
    AssetGateway::new(AssetBundle::from_entries(entries).unwrap())
}

fn gateway() -> AssetGateway {
    gateway_over(&files())
}

#[test]
fn every_bundled_file_is_served() {
    let gateway = gateway();
    for (key, content, mime) in files() {
        let response = gateway.handle(&format!("/{}", key));
        assert_eq!(response.status, 200, "{}", key);
        assert_eq!(response.body, content, "{}", key);
        assert_eq!(response.header("Content-Type"), Some(mime), "{}", key);
        assert_eq!(response.header("Access-Control-Allow-Origin"), Some("*"), "{}", key);
        assert_eq!(response.headers.len(), 2, "{}", key);
    }
}

#[test]
fn a_served_file_is_the_found_response_for_its_key() {
    let gateway = gateway();
    for (key, content, _) in files() {
        assert_eq!(gateway.handle(&format!("/{}", key)), build_found(content, &resolve(key)));
    }
}

#[test]
fn root_path_serves_the_index_document() {
    let gateway = gateway();
    let root = gateway.handle("/");
    assert_eq!(root.status, 200);
    assert_eq!(root.body, b"<html>home</html>".to_vec());
    assert_eq!(root.header("Content-Type"), Some("text/html"));
    assert_eq!(root, gateway.handle("/index.html"));
}

#[test]
fn root_without_an_index_document_is_not_found() {
    let gateway = gateway_over(&[("app.js", b"1", "text/javascript")]);
    assert_eq!(gateway.handle("/"), build_not_found());
    assert_eq!(gateway.handle("/"), gateway.handle("/index.html"));
}

#[test]
fn unknown_paths_are_not_found() {
    let gateway = gateway();
    let paths = [
        "/missing.html", "/assets", "/assets/", "/assets/site.CSS", "/INDEX.HTML", "", "//",
        "/index.html/", "/index.html?x=1", "/../index.html", "/assets/../index.html", "/%69ndex.html",
        "/ñ.html",
    ];
    for path in paths {
        let response = gateway.handle(path);
        assert_eq!(response.status, 404, "{:?}", path);
        assert_eq!(response.body, "Archivo no encontrado".as_bytes().to_vec(), "{:?}", path);
        assert_eq!(response.header("Content-Type"), Some("text/plain"), "{:?}", path);
        assert_eq!(response.headers.len(), 1, "{:?}", path);
        assert_eq!(response, build_not_found(), "{:?}", path);
    }
}

#[test]
fn a_second_leading_slash_stays_in_the_key() {
    let gateway = gateway();
    assert_eq!(gateway.handle("//index.html").status, 404);
    assert_eq!(gateway.handle("//").status, 404);
    let odd = gateway_over(&[("/x", b"odd", "application/octet-stream")]);
    assert_eq!(odd.handle("//x").status, 200);
    assert_eq!(odd.handle("//x").body, b"odd".to_vec());
    assert_eq!(odd.handle("/x").status, 404);
}

#[test]
fn a_path_without_leading_slash_is_looked_up_as_it_is() {
    let gateway = gateway();
    let response = gateway.handle("about.html");
    assert_eq!(response.status, 200);
    assert_eq!(response.body, b"<html>about</html>".to_vec());
}

#[test]
fn the_empty_key_is_not_reached_through_the_root() {
    let gateway = gateway_over(&[("", b"nameless", "application/octet-stream")]);
    assert_eq!(gateway.handle("/").status, 404);
    assert_eq!(gateway.handle("").status, 200);
    assert_eq!(gateway.handle("").body, b"nameless".to_vec());
    assert_eq!(gateway.handle("").header("Content-Type"), Some("application/octet-stream"));
}

#[test]
fn asking_again_gives_the_same_response() {
    let gateway = gateway();
    for path in ["/", "/index.html", "/assets/site.css", "/missing", "//x", ""] {
        let first = gateway.handle(path);
        for _ in 0..5 {
            assert_eq!(gateway.handle(path), first, "{:?}", path);
        }
    }
}

#[test]
fn requests_do_not_disturb_one_another() {
    let gateway = gateway();
    let files = files();
    let expected: Vec<Response> =
        files.iter().map(|(key, _, _)| gateway.handle(&format!("/{}", key))).collect();
    for round in 0..20 {
        for step in 0..files.len() {
            let at = (step * 3 + round) % files.len();
            let _ = gateway.handle("/missing");
            let response = gateway.handle(&format!("/{}", files[at].0));
            assert_eq!(response, expected[at]);
            assert_eq!(response.body, files[at].1);
        }
    }
}

fn shareable<T: Send + Sync>(_: &T) {}

#[test]
fn a_gateway_can_be_shared_between_threads() {
    let gateway = gateway();
    shareable(&gateway);
    shareable(gateway.bundle());
    shareable(&gateway.handle("/"));
}

#[test]
fn many_callers_may_hold_the_gateway_at_once() {
    let gateway = gateway();
    let callers: Vec<&AssetGateway> = (0..8).map(|_| &gateway).collect();
    let files = files();
    for (n, caller) in callers.iter().enumerate() {
        let (key, content, mime) = files[n % files.len()];
        let response = caller.handle(&format!("/{}", key));
        assert_eq!(response.status, 200);
        assert_eq!(response.body, content);
        assert_eq!(response.header("Content-Type"), Some(mime));
    }
}

#[test]
fn the_gateway_serves_the_bundle_it_was_given() {
    let gateway = gateway();
    assert_eq!(gateway.bundle().get("index.html"), Some(&b"<html>home</html>"[..]));
    assert_eq!(gateway.bundle().get("missing"), None);
}

#[test]
fn a_request_is_served_by_its_path() {
    let gateway = gateway();
    let request = Request { path: String::from("/assets/site.css") };
    assert_eq!(gateway.serve(&request), gateway.handle("/assets/site.css"));
    assert_eq!(gateway.serve(&request).status, 200);
    let missing = Request { path: String::from("/nope") };
    assert_eq!(gateway.serve(&missing), build_not_found());
    let root = Request { path: String::from("/") };
    assert_eq!(gateway.serve(&root).body, b"<html>home</html>".to_vec());
}

#[test]
fn an_empty_bundle_serves_nothing() {
    let gateway = AssetGateway::new(AssetBundle::from_entries(Vec::new()).unwrap());
    for path in ["/", "/index.html", "", "/a"] {
        assert_eq!(gateway.handle(path), build_not_found());
    }
}
