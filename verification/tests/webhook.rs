use webhook_slash::auth::PublicKey;
use webhook_slash::auth::verify;
use webhook_slash::pipeline::handle_request;
use webhook_slash::pipeline::HttpResponse;
use webhook_slash::validate::Header;
use webhook_slash::validate::Validation;
use webhook_slash::validate::validate_request;
use webhook_slash::interaction::Interaction;
use webhook_slash::router::debug;
use webhook_slash::router::handler;
use webhook_slash::router::InteractionResponse;

const SECRET: [u8; 32] = [7u8; 32];
const OTHER_SECRET: [u8; 32] = [9u8; 32];

fn dalek_public(secret: &[u8; 32]) -> ed25519_dalek::PublicKey {
    let sk = ed25519_dalek::SecretKey::from_bytes(secret).unwrap();
    ed25519_dalek::PublicKey::from(&sk)
}

fn sign_with(secret: &[u8; 32], timestamp: &[u8], body: &[u8]) -> Vec<u8> {
    let sk = ed25519_dalek::SecretKey::from_bytes(secret).unwrap();
    let public = ed25519_dalek::PublicKey::from(&sk);
    let expanded = ed25519_dalek::ExpandedSecretKey::from(&sk);
    let mut msg = timestamp.to_vec();
    msg.extend_from_slice(body);
    expanded.sign(&msg, &public).to_bytes().to_vec()
}

fn lib_key() -> PublicKey {
    let hex_key = hex::encode(dalek_public(&SECRET).to_bytes());
    PublicKey::from_hex_bytes(hex_key.as_bytes()).unwrap()
}

fn header(name: &[u8], value: &[u8]) -> Header {
    Header {
        name: name.to_vec(),
        value: value.to_vec(),
    }
}

fn signed_headers(timestamp: &[u8], body: &[u8]) -> Vec<Header> {
    let sig_hex = hex::encode(sign_with(&SECRET, timestamp, body));
    vec![
        header(b"x-signature-timestamp", timestamp),
        header(b"x-signature-ed25519", sig_hex.as_bytes()),
    ]
}

fn post_signed(body: &[u8]) -> HttpResponse {
    let timestamp = b"1700000000";
    let headers = signed_headers(timestamp, body);
    handle_request(&lib_key(), b"POST", b"/", &headers, body)
}

#[test]
fn verify_accepts_a_correct_signature() {
    let timestamp = b"1700000000";
    let body = b"{\"type\":1}";
    let sig = sign_with(&SECRET, timestamp, body);
    assert!(verify(&lib_key(), timestamp, body, &sig));
}

#[test]
fn verify_rejects_any_single_bit_flip() {
    let timestamp = b"1700000000".to_vec();
    let body = b"{\"type\":1}".to_vec();
    let sig = sign_with(&SECRET, &timestamp, &body);
    let key = lib_key();

    let mut bad_body = body.clone();
    bad_body[3] ^= 0x01;
    assert!(!verify(&key, &timestamp, &bad_body, &sig));

    let mut bad_ts = timestamp.clone();
    bad_ts[0] ^= 0x02;
    assert!(!verify(&key, &bad_ts, &body, &sig));

    let mut bad_sig = sig.clone();
    bad_sig[10] ^= 0x04;
    assert!(!verify(&key, &timestamp, &body, &bad_sig));
}

#[test]
fn validator_rejects_before_any_verification() {
    let timestamp = b"1700000000";
    let body = b"{\"type\":1}";
    let headers = signed_headers(timestamp, body);
    match validate_request(b"GET", b"/", &headers) {
        Validation::Reject { status } => assert_eq!(status, 405),
        Validation::Proceed { .. } => panic!("a GET must not proceed"),
    }
    let no_headers: Vec<Header> = Vec::new();
    match validate_request(b"POST", b"/", &no_headers) {
        Validation::Reject { status } => assert_eq!(status, 400),
        Validation::Proceed { .. } => panic!("missing headers must not proceed"),
    }
}

#[test]
fn get_to_root_is_405_with_empty_body() {
    let headers = signed_headers(b"1700000000", b"{\"type\":1}");
    let r = handle_request(&lib_key(), b"GET", b"/", &headers, b"{\"type\":1}");
    assert_eq!(r.status, 405);
    assert!(r.body.is_empty());
}

#[test]
fn wrong_path_is_404() {
    let headers = signed_headers(b"1700000000", b"{\"type\":1}");
    let r = handle_request(&lib_key(), b"POST", b"/other", &headers, b"{\"type\":1}");
    assert_eq!(r.status, 404);
    assert!(r.body.is_empty());
}

#[test]
fn missing_timestamp_header_is_400() {
    let body = b"{\"type\":1}";
    let sig_hex = hex::encode(sign_with(&SECRET, b"1700000000", body));
    let headers = vec![header(b"x-signature-ed25519", sig_hex.as_bytes())];
    let r = handle_request(&lib_key(), b"POST", b"/", &headers, body);
    assert_eq!(r.status, 400);
    assert!(r.body.is_empty());
}

#[test]
fn missing_signature_header_is_400() {
    let headers = vec![header(b"x-signature-timestamp", b"1700000000")];
    let r = handle_request(&lib_key(), b"POST", b"/", &headers, b"{\"type\":1}");
    assert_eq!(r.status, 400);
    assert!(r.body.is_empty());
}

#[test]
fn malformed_signature_hex_is_400() {
    let body = b"{\"type\":1}";
    let headers = vec![
        header(b"x-signature-timestamp", b"1700000000"),
        header(b"x-signature-ed25519", b"zz not hex at all"),
    ];
    let r = handle_request(&lib_key(), b"POST", b"/", &headers, body);
    assert_eq!(r.status, 400);

    let short = vec![
        header(b"x-signature-timestamp", b"1700000000"),
        header(b"x-signature-ed25519", b"abcd"),
    ];
    let r = handle_request(&lib_key(), b"POST", b"/", &short, body);
    assert_eq!(r.status, 400);
}

#[test]
fn wrong_signature_is_403_with_empty_body() {
    let timestamp = b"1700000000";
    let body = b"{\"type\":1}";
    let sig_hex = hex::encode(sign_with(&OTHER_SECRET, timestamp, body));
    let headers = vec![
        header(b"x-signature-timestamp", timestamp),
        header(b"x-signature-ed25519", sig_hex.as_bytes()),
    ];
    let r = handle_request(&lib_key(), b"POST", b"/", &headers, body);
    assert_eq!(r.status, 403);
    assert!(r.body.is_empty());
}

#[test]
fn ping_round_trip() {
    let r = post_signed(b"{\"type\":1}");
    assert_eq!(r.status, 200);
    assert_eq!(r.body, b"{\"type\":1}".to_vec());
}

#[test]
fn ping_with_extra_members_still_pongs() {
    let r = post_signed(b"{\"id\":\"42\",\"type\":1,\"extra\":[1,{\"a\":false},1.5]}");
    assert_eq!(r.status, 200);
    assert_eq!(r.body, b"{\"type\":1}".to_vec());
}

#[test]
fn uppercase_signature_hex_is_accepted() {
    let timestamp = b"1700000000";
    let body = b"{\"type\":1}";
    let sig_hex = hex::encode(sign_with(&SECRET, timestamp, body)).to_uppercase();
    let headers = vec![
        header(b"x-signature-timestamp", timestamp),
        header(b"x-signature-ed25519", sig_hex.as_bytes()),
    ];
    let r = handle_request(&lib_key(), b"POST", b"/", &headers, body);
    assert_eq!(r.status, 200);
    assert_eq!(r.body, b"{\"type\":1}".to_vec());
}

#[test]
fn vroom_command_gets_the_fixed_reply() {
    let r = post_signed(b"{\"type\":2,\"data\":{\"name\":\"vroom\"}}");
    assert_eq!(r.status, 200);
    assert_eq!(
        r.body,
        b"{\"type\":4,\"data\":{\"content\":\"Vroom vroom\"}}".to_vec()
    );
}

#[test]
fn unknown_command_falls_back_to_echo() {
    let r = post_signed(b"{\"type\":2,\"data\":{\"name\":\"unknown-xyz\"}}");
    assert_eq!(r.status, 200);
    assert_eq!(
        r.body,
        b"{\"type\":4,\"data\":{\"content\":\"```rust\\u000aunknown-xyz\\u000a```\"}}".to_vec()
    );
}

#[test]
fn echoed_content_is_escaped() {
    let r = post_signed(b"{\"type\":2,\"data\":{\"name\":\"q\\\"w\\\\e\"}}");
    assert_eq!(r.status, 200);
    assert_eq!(
        r.body,
        b"{\"type\":4,\"data\":{\"content\":\"```rust\\u000aq\\\"w\\\\e\\u000a```\"}}".to_vec()
    );
}

#[test]
fn unhandled_interaction_kind_is_400() {
    let r = post_signed(b"{\"type\":3,\"data\":{\"name\":\"x\"}}");
    assert_eq!(r.status, 400);
    assert!(r.body.is_empty());
}

#[test]
fn undecodable_authentic_body_is_400() {
    let r = post_signed(b"{\"type\":1");
    assert_eq!(r.status, 400);
    let r = post_signed(b"[1,2,3]");
    assert_eq!(r.status, 400);
    let r = post_signed(b"{\"type\":\"1\"}");
    assert_eq!(r.status, 400);
    let r = post_signed(b"{\"type\":2}");
    assert_eq!(r.status, 400);
    let r = post_signed(b"{\"type\":2,\"data\":{}}");
    assert_eq!(r.status, 400);
}

#[test]
fn replaying_a_request_gives_identical_answers() {
    let body = b"{\"type\":2,\"data\":{\"name\":\"vroom\"}}";
    let timestamp = b"1700000000";
    let headers = signed_headers(timestamp, body);
    let key = lib_key();
    let first = handle_request(&key, b"POST", b"/", &headers, body);
    let second = handle_request(&key, b"POST", b"/", &headers, body);
    assert_eq!(first.status, 200);
    assert_eq!(second.status, 200);
    assert_eq!(first.status, second.status);
    assert_eq!(first.body, second.body);
}

#[test]
fn public_key_loading_checks_the_hex() {
    assert!(PublicKey::from_hex_bytes(b"not hex").is_none());
    assert!(PublicKey::from_hex_bytes(b"abcd").is_none());
    let hex_key = hex::encode(dalek_public(&SECRET).to_bytes());
    assert!(PublicKey::from_hex_bytes(hex_key.as_bytes()).is_some());
}

#[test]
fn router_refuses_what_is_not_a_command() {
    assert!(handler(&Interaction::Ping).is_err());
    assert!(handler(&Interaction::Other).is_err());
}

#[test]
fn fallback_handler_echoes_the_command_name() {
    let i = Interaction::ApplicationCommand {
        name: b"roll".to_vec(),
    };
    match debug(&i) {
        Ok(InteractionResponse::ChannelMessageWithSource { content }) => {
            assert_eq!(content, b"```rust\nroll\n```".to_vec());
        }
        _ => panic!("the fallback handler always replies with a message"),
    }
}
