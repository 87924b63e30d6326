use athlete::error::{PullError, RegistryError};
use athlete::image::client::{
    check_status, index_from_reply, read_body, read_index, Request, Response, API_VERSION,
    API_VERSION_HEADER, TOKEN_ENDPOINT, TOKEN_SERVICE,
};
use athlete::image::{Client, OciImageIndex};
use athlete::json::Json;

fn pairs(items: &[(&str, &str)]) -> Vec<(String, String)> {
    items.iter().map(|(k, v)| (k.to_string(), v.to_string())).collect()
}

fn client() -> Client {
    Client::new("https://registry.example/v2/library/".to_string())
}

#[test]
fn new_client_has_no_credential_and_checks_certificates() {
    let c = client();
    assert_eq!(c.base(), "https://registry.example/v2/library/");
    assert_eq!(c.authorization(), "");
    assert!(!c.accepts_invalid_certs());
    let c = c.danger_accept_invalid_certs(true);
    assert!(c.accepts_invalid_certs());
    assert_eq!(c.base(), "https://registry.example/v2/library/");
    let c = c.danger_accept_invalid_certs(false);
    assert!(!c.accepts_invalid_certs());
}

#[test]
fn protocol_constants() {
    assert_eq!(API_VERSION_HEADER, "Docker-Distribution-Api-Version");
    assert_eq!(API_VERSION, "registry/2.0");
    assert_eq!(TOKEN_ENDPOINT, "https://auth.docker.io/token");
    assert_eq!(TOKEN_SERVICE, "registry.docker.io");
}

#[test]
fn token_request_carries_scope_and_service() {
    let r = Client::token_request("repository:library/alpine:pull");
    assert_eq!(
        r,
        Request {
            url: "https://auth.docker.io/token".to_string(),
            query: pairs(&[
                ("scope", "repository:library/alpine:pull"),
                ("service", "registry.docker.io"),
            ]),
            headers: Vec::new(),
        }
    );
}

#[test]
fn token_is_held_with_bearer_prefix() {
    let mut c = client();
    c.set_token("abc");
    assert_eq!(c.authorization(), "Bearer abc");
    let ok = Response { status: 200, body: b"{\"token\": \"xyz\", \"expires_in\": 300}".to_vec() };
    assert_eq!(c.token(&ok), Ok(()));
    assert_eq!(c.authorization(), "Bearer xyz");
    let empty = Response { status: 200, body: b"{\"token\": \"\"}".to_vec() };
    assert_eq!(c.token(&empty), Ok(()));
    assert_eq!(c.authorization(), "Bearer ");
}

#[test]
fn token_response_without_token_fails() {
    let mut c = client();
    c.set_token("old");
    for body in [&b"{}"[..], b"not json", b"", b"{\"token\": 5}", b"[\"token\"]", b"{\"token\": null}"] {
        let r = Response { status: 200, body: body.to_vec() };
        assert_eq!(c.token(&r), Err(PullError::Auth));
        assert_eq!(c.authorization(), "Bearer old");
    }
}

#[test]
fn token_response_with_error_status_fails() {
    let mut c = client();
    for status in [401, 403, 404, 500, 199, 300] {
        let r = Response { status, body: b"{\"token\": \"xyz\"}".to_vec() };
        assert_eq!(c.token(&r), Err(PullError::Auth));
        assert_eq!(c.authorization(), "");
    }
    assert_eq!(c.token_from_reply(401, &None), Err(PullError::Auth));
    let doc = Some(Json::Object(vec![("token".to_string(), Json::String("t".to_string()))]));
    assert_eq!(c.token_from_reply(401, &doc), Err(PullError::Auth));
    assert_eq!(c.token_from_reply(204, &doc), Ok(()));
    assert_eq!(c.authorization(), "Bearer t");
}

#[test]
fn index_request() {
    let mut c = client();
    c.set_token("t");
    assert_eq!(
        c.get_manifests("alpine", "latest"),
        Request {
            url: "https://registry.example/v2/library/alpine/manifests/latest".to_string(),
            query: Vec::new(),
            headers: pairs(&[
                ("Accept", "application/vnd.oci.image.index.v1+json"),
                ("Authorization", "Bearer t"),
            ]),
        }
    );
}

#[test]
fn manifest_request() {
    let mut c = client();
    c.set_token("t");
    assert_eq!(
        c.get_manifest_from_digest("alpine", "sha256:aa"),
        Request {
            url: "https://registry.example/v2/library/alpine/manifests/sha256:aa".to_string(),
            query: Vec::new(),
            headers: pairs(&[
                ("Accept", "application/vnd.oci.image.manifest.v1+json"),
                ("Authorization", "Bearer t"),
            ]),
        }
    );
}

#[test]
fn blob_request() {
    let mut c = client();
    c.set_token("t");
    assert_eq!(
        c.get_blob("alpine", "sha256:bb"),
        Request {
            url: "https://registry.example/v2/library/alpine/blobs/sha256:bb".to_string(),
            query: Vec::new(),
            headers: pairs(&[("Authorization", "Bearer t")]),
        }
    );
    assert_eq!(
        client().get_blob("", "").headers,
        pairs(&[("Authorization", "")])
    );
}

#[test]
fn status_classes() {
    for status in [200, 201, 204, 250, 299] {
        assert_eq!(check_status(status), Ok(()));
    }
    assert_eq!(check_status(404), Err(RegistryError::NotFound));
    for status in [0, 100, 199, 300, 301, 400, 401, 403, 405, 429, 500, 503, 65535] {
        assert_eq!(check_status(status), Err(RegistryError::Http { status }));
    }
}

#[test]
fn index_response() {
    let body = b"{\"schemaVersion\": 2, \"manifests\": []}".to_vec();
    let empty = OciImageIndex { manifests: vec![], annotations: vec![] };
    assert_eq!(read_index(&Response { status: 200, body: body.clone() }), Ok(empty));
    assert_eq!(
        read_index(&Response { status: 404, body: body.clone() }),
        Err(RegistryError::NotFound)
    );
    assert_eq!(
        read_index(&Response { status: 500, body: body.clone() }),
        Err(RegistryError::Http { status: 500 })
    );
    assert_eq!(
        read_index(&Response { status: 200, body: b"{\"schemaVersion\": 1, \"manifests\": []}".to_vec() }),
        Err(RegistryError::Decode)
    );
    assert_eq!(read_index(&Response { status: 200, body: b"<html>".to_vec() }), Err(RegistryError::Decode));
    assert_eq!(
        read_index(&Response { status: 503, body: b"<html>".to_vec() }),
        Err(RegistryError::Http { status: 503 })
    );
    assert_eq!(index_from_reply(200, &None), Err(RegistryError::Decode));
    assert_eq!(index_from_reply(200, &Some(Json::Null)), Err(RegistryError::Decode));
    assert_eq!(index_from_reply(404, &None), Err(RegistryError::NotFound));
}

#[test]
fn raw_body_is_handed_on_unchanged() {
    let body = vec![0u8, 159, 146, 150, 255];
    assert_eq!(read_body(Response { status: 200, body: body.clone() }), Ok(body.clone()));
    assert_eq!(read_body(Response { status: 200, body: Vec::new() }), Ok(Vec::new()));
    assert_eq!(read_body(Response { status: 404, body: body.clone() }), Err(RegistryError::NotFound));
    assert_eq!(read_body(Response { status: 302, body }), Err(RegistryError::Http { status: 302 }));
}
