//! Auth signer behaviour: the bearer and HMAC forms.

use speaky::client::AsrClient;

fn signed_headers() -> Vec<(String, String)> {
    vec![
        ("Host".to_string(), "openspeech.bytedance.com".to_string()),
        ("X-Api-Resource-Id".to_string(), "volc.bigasr.sauc.duration".to_string()),
    ]
}

#[test]
fn empty_secret_always_bearer_form() {
    let client = AsrClient::new("app".to_string(), "tok".to_string(), String::new());
    let header = client.build_auth_header("GET", "/api/v3/sauc/bigmodel", &signed_headers());
    assert_eq!(header, "Bearer; tok");
    let header2 = client.build_auth_header("POST", "/elsewhere", &Vec::new());
    assert_eq!(header2, "Bearer; tok");
}

#[test]
fn non_empty_secret_hmac_form_with_exact_mac() {
    let client = AsrClient::new("app".to_string(), "tok".to_string(), "secret".to_string());
    let header = client.build_auth_header("GET", "/api/v3/sauc/bigmodel", &signed_headers());
    assert_eq!(
        header,
        "HMAC256; access_token=\"tok\"; mac=\"BV2ZXM2q_hD8DbuGkTH9pkl6Tz0XZlfmS7vnk1eovxI\"; h=\"Host,X-Api-Resource-Id\""
    );
}

#[test]
fn hmac_header_names_match_signed_headers_in_order() {
    let client = AsrClient::new("app".to_string(), "tok".to_string(), "k".to_string());
    let headers = vec![
        ("B".to_string(), "2".to_string()),
        ("A".to_string(), "1".to_string()),
        ("C".to_string(), "3".to_string()),
    ];
    let header = client.build_auth_header("GET", "/p", &headers);
    assert!(header.starts_with("HMAC256; access_token=\"tok\"; mac=\""));
    assert!(header.ends_with("; h=\"B,A,C\""));
}

#[test]
fn signature_is_hmac_sha256_base64url_of_canonical_string() {
    let client = AsrClient::new("app".to_string(), "tok".to_string(), "secret".to_string());
    let canonical = "GET /api/v3/sauc/bigmodel HTTP/1.1\nHost: openspeech.bytedance.com\nX-Api-Resource-Id: volc.bigasr.sauc.duration\n";
    let mac = client.generate_signature(canonical);
    assert_eq!(mac, "BV2ZXM2q_hD8DbuGkTH9pkl6Tz0XZlfmS7vnk1eovxI");
}

#[test]
fn uuid_strings_are_hyphenated_hex() {
    let id = speaky::client::new_uuid_string();
    assert_eq!(id.len(), 36);
    for (i, c) in id.chars().enumerate() {
        if [8, 13, 18, 23].contains(&i) {
            assert_eq!(c, '-');
        } else {
            assert!(c.is_ascii_hexdigit() && !c.is_ascii_uppercase());
        }
    }
}
