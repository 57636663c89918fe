use build_gateway::codec::{decode, encode};
use build_gateway::errors::ApiError;
use build_gateway::outcome::Response;

fn round_trip(outcome: Response) {
    let bytes = encode(&outcome).expect("encodable outcome must encode");
    let back = decode(&bytes).expect("its envelope must decode");
    assert_eq!(back, outcome);
}

#[test]
fn round_trip_success_outcome() {
    round_trip(Response::Output {
        index_html: String::from("<html>page</html>"),
        js: String::from("console.log(1);"),
        wasm: vec![0, 159, 146, 150, 255],
    });
}

#[test]
fn round_trip_compile_error_outcome() {
    round_trip(Response::CompileError(String::from("error[E0308]: mismatched types")));
}

#[test]
fn round_trip_empty_payloads() {
    round_trip(Response::Output {
        index_html: String::new(),
        js: String::new(),
        wasm: Vec::new(),
    });
    round_trip(Response::CompileError(String::new()));
}

#[test]
fn round_trip_unicode_text() {
    round_trip(Response::CompileError(String::from("erreur: caract\u{e8}re \u{1F980} inattendu")));
    round_trip(Response::Output {
        index_html: String::from("\u{3053}\u{3093}\u{306b}\u{3061}\u{306f}"),
        js: String::from("\u{0}"),
        wasm: vec![1],
    });
}

#[test]
fn compile_error_envelope_layout() {
    let bytes = encode(&Response::CompileError(String::from("hi"))).unwrap();
    assert_eq!(
        bytes,
        vec![2u8, 2, 0, 0, 0, b'h', 0, 0, 0, b'i', 0, 0, 0],
    );
}

#[test]
fn success_envelope_layout() {
    let bytes = encode(&Response::Output {
        index_html: String::from("a"),
        js: String::new(),
        wasm: vec![7, 8],
    })
    .unwrap();
    assert_eq!(
        bytes,
        vec![1u8, 1, 0, 0, 0, b'a', 0, 0, 0, 0, 0, 0, 0, 2, 0, 0, 0, 7, 8],
    );
}

#[test]
fn decode_rejects_empty_input() {
    assert!(matches!(decode(&Vec::new()), Err(ApiError::CodecError)));
}

#[test]
fn decode_rejects_unknown_discriminant() {
    assert!(matches!(decode(&vec![3u8, 0, 0, 0, 0]), Err(ApiError::CodecError)));
}

#[test]
fn decode_rejects_truncated_text() {
    assert!(matches!(decode(&vec![2u8, 1, 0, 0, 0]), Err(ApiError::CodecError)));
    assert!(matches!(decode(&vec![2u8, 1, 0, 0, 0, b'h', 0, 0]), Err(ApiError::CodecError)));
}

#[test]
fn decode_rejects_trailing_bytes() {
    let mut bytes = encode(&Response::CompileError(String::from("x"))).unwrap();
    bytes.push(0);
    assert!(matches!(decode(&bytes), Err(ApiError::CodecError)));
}

#[test]
fn decode_rejects_surrogate_code_point() {
    assert!(matches!(
        decode(&vec![2u8, 1, 0, 0, 0, 0x00, 0xD8, 0, 0]),
        Err(ApiError::CodecError)
    ));
}

#[test]
fn decode_rejects_mangled_success_envelope() {
    let mut bytes = encode(&Response::Output {
        index_html: String::from("a"),
        js: String::from("b"),
        wasm: vec![1, 2, 3],
    })
    .unwrap();
    bytes.pop();
    assert!(matches!(decode(&bytes), Err(ApiError::CodecError)));
}
