use build_gateway::client::{parse_run_body, run_reply_error, Response as ClientResponse, RunResponse};
use build_gateway::codec::encode;
use build_gateway::config::Config;
use build_gateway::errors::{timeout_or_500, ApiError};
use build_gateway::outcome::Response;
use build_gateway::response::Bson;
use build_gateway::share::{is_create_ok, is_fetch_ok, FirestoreError, PasteDocument, PasteFields};
use build_gateway::ui_state::{ActionButtonState, ActionButtonStateReducible, Query};

#[test]
fn paste_fields_expose_their_content() {
    let fields = PasteFields::new(Some(String::from("fn main() {}")), None);
    assert_eq!(fields.content(), "fn main() {}");
    assert_eq!(fields.created_by(), None);
    assert_eq!(fields.into_content(), "fn main() {}");
}

#[test]
fn paste_fields_expose_their_creator() {
    let fields = PasteFields::new(
        Some(String::from("code")),
        Some(Some(String::from("someone"))),
    );
    assert_eq!(fields.created_by(), Some("someone"));
}

#[test]
fn document_id_strips_the_collection_path() {
    let doc = PasteDocument::new(
        String::from("projects/pastify-app/databases/(default)/documents/pastes/abc123"),
        PasteFields::new(Some(String::from("code")), None),
    );
    assert_eq!(doc.id(), "abc123");
    assert_eq!(doc.fields.content(), "code");
}

#[test]
fn document_id_of_a_foreign_name_is_unchanged() {
    let doc = PasteDocument::new(
        String::from("somewhere/else/xyz"),
        PasteFields::new(Some(String::from("code")), None),
    );
    assert_eq!(doc.id(), "somewhere/else/xyz");
}

#[test]
fn share_status_predicates() {
    assert!(is_fetch_ok(200));
    assert!(!is_fetch_ok(201));
    assert!(!is_fetch_ok(404));
    assert!(is_create_ok(200));
    assert!(is_create_ok(201));
    assert!(is_create_ok(299));
    assert!(!is_create_ok(300));
    assert!(!is_create_ok(199));
}

#[test]
fn firestore_error_carries_the_reported_fields() {
    let e = FirestoreError {
        code: 403,
        message: String::from("permission denied"),
        status: String::from("PERMISSION_DENIED"),
    };
    assert_eq!(e.code, 403);
    assert_eq!(e.message, "permission denied");
    assert_eq!(e.status, "PERMISSION_DENIED");
}

#[test]
fn client_parses_a_relayed_envelope() {
    let outcome = Response::Output {
        index_html: String::from("<html></html>"),
        js: String::from("init()"),
        wasm: vec![1, 2, 3],
    };
    let bytes = encode(&outcome).unwrap();
    match parse_run_body(&bytes).unwrap() {
        ClientResponse::Render { index_html, js, wasm } => {
            assert_eq!(index_html, "<html></html>");
            assert_eq!(js, "init()");
            assert_eq!(wasm, vec![1, 2, 3]);
        }
        other => panic!("expected artifacts, got {:?}", other),
    }
}

#[test]
fn client_passes_a_diagnostic_through() {
    let bytes = encode(&Response::CompileError(String::from("boom"))).unwrap();
    assert_eq!(
        parse_run_body(&bytes).unwrap(),
        ClientResponse::CompileError(String::from("boom"))
    );
}

#[test]
fn client_rejects_a_garbled_body() {
    assert!(matches!(parse_run_body(&vec![9u8, 9, 9]), Err(ApiError::CodecError)));
}

#[test]
fn client_error_text_carries_status_and_body() {
    assert_eq!(
        run_reply_error(500, &String::from("Unhandled internal error: x")),
        "500: Unhandled internal error: x"
    );
    assert_eq!(run_reply_error(404, &String::from("not found")), "404: not found");
}

#[test]
fn timeout_maps_to_408_and_anything_else_to_500() {
    let (status, text) = timeout_or_500(true, &String::from("ignored"));
    assert_eq!(status, 408);
    assert_eq!(text, "Request took too long");
    assert_eq!(ApiError::TimeoutExceeded.status_code(), 408);
    let (status, text) = timeout_or_500(false, &String::from("broken pipe"));
    assert_eq!(status, 500);
    assert_eq!(text, "Unhandled internal error: broken pipe");
}

#[test]
fn every_error_variant_has_its_status() {
    assert_eq!(ApiError::NoBody.status_code(), 400);
    assert_eq!(ApiError::IoError(String::from("x")).status_code(), 500);
    assert_eq!(ApiError::TimeoutExceeded.status_code(), 408);
    assert_eq!(ApiError::CodecError.status_code(), 500);
    assert_eq!(ApiError::TimeoutExceeded.message(), "Request took too long");
    assert_eq!(ApiError::IoError(String::from("disk full")).message(), "disk full");
}

#[test]
fn config_defaults_match_the_documented_values() {
    let c = Config::defaults();
    assert_eq!(c.trunk_bin, "trunk");
    assert_eq!(c.app_dir, "../app");
    assert_eq!(c.port, 3000);
    assert_eq!(c.capacity, 1);
    assert_eq!(c.timeout_secs, 10);
}

#[test]
fn bson_wrapper_hands_its_value_back() {
    let wrapped = Bson(vec![1u8, 2, 3]);
    assert_eq!(wrapped.into_inner(), vec![1u8, 2, 3]);
}

#[test]
fn run_response_carries_its_payloads() {
    let r = RunResponse {
        index_html: String::from("index_html"),
        js: String::from("js"),
        wasm: b"wasm".to_vec(),
    };
    let same = RunResponse {
        index_html: String::from("index_html"),
        js: String::from("js"),
        wasm: vec![119, 97, 115, 109],
    };
    assert_eq!(r, same);
    assert_eq!(r.wasm.len(), 4);
}

#[test]
fn action_buttons_toggle_with_dispatched_state() {
    let store = ActionButtonStateReducible::new(ActionButtonState::Enabled);
    assert!(!store.disabled());
    let store = store.reduce(ActionButtonState::Disabled);
    assert!(store.disabled());
    let store = store.reduce(ActionButtonState::Enabled);
    assert!(!store.disabled());
}

#[test]
fn query_carries_shared_id_or_inline_code() {
    let q = Query { shared: Some(String::from("abc123")), code: None };
    assert_eq!(q.shared.as_deref(), Some("abc123"));
    assert_eq!(q.code, None);
}
