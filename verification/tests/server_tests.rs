use ferrosonic::server::{hex16, random_salt, ServerAccess};
use ferrosonic::subsonic::SubsonicError;

fn access() -> ServerAccess {
    ServerAccess::new("https://music.example.com/", "alice", "sesame").unwrap()
}

fn md5_hex(s: &str) -> String {
    format!("{:x}", md5::compute(s.as_bytes()))
}

#[test]
fn invalid_server_address_is_a_url_error() {
    match ServerAccess::new("not a url", "u", "p") {
        Err(SubsonicError::Url(_)) => {}
        other => panic!("expected a URL error, got {:?}", other),
    }
    let a = ServerAccess::new("https://music.example.com", "u", "p").unwrap();
    assert_eq!(a.base_url, "https://music.example.com/");
    assert_eq!(a.username, "u");
}

#[test]
fn token_is_md5_of_password_and_salt() {
    let a = access();
    assert_eq!(a.token("abc"), md5_hex("sesameabc"));
    assert_eq!(a.token("abc").len(), 32);
}

#[test]
fn api_url_has_auth_then_extra_pairs() {
    let a = access();
    let extra = vec![("id".to_string(), "42 & more".to_string())];
    let url = a.api_url_salted("getAlbum", &extra, "abc").unwrap();
    let expected = format!(
        "https://music.example.com/rest/getAlbum?u=alice&t={}&s=abc&v=1.16.1&c=ferrosonic-rs&f=json&id=42+%26+more",
        md5_hex("sesameabc")
    );
    assert_eq!(url, expected);
}

#[test]
fn api_url_under_a_path() {
    let a = ServerAccess::new("https://example.com/music/", "u", "p").unwrap();
    let url = a.api_url_salted("ping", &Vec::new(), "s").unwrap();
    assert!(url.starts_with("https://example.com/music/rest/ping?u=u&t="));
}

#[test]
fn stream_url_puts_song_id_first() {
    let a = access();
    let url = a.stream_url_salted("12345", "abc").unwrap();
    let expected = format!(
        "https://music.example.com/rest/stream?id=12345&u=alice&t={}&s=abc&v=1.16.1&c=ferrosonic-rs",
        md5_hex("sesameabc")
    );
    assert_eq!(url, expected);
    let parsed = url::Url::parse(&a.stream_url("777").unwrap()).unwrap();
    let id = parsed.query_pairs().find(|(k, _)| k == "id").map(|(_, v)| v.to_string());
    assert_eq!(id, Some("777".to_string()));
    let salt = parsed.query_pairs().find(|(k, _)| k == "s").map(|(_, v)| v.to_string()).unwrap();
    let token = parsed.query_pairs().find(|(k, _)| k == "t").map(|(_, v)| v.to_string()).unwrap();
    assert_eq!(token, md5_hex(&format!("sesame{}", salt)));
}

#[test]
fn salts_are_sixteen_hex_digits() {
    assert_eq!(hex16(0), "0000000000000000");
    assert_eq!(hex16(0xdead_beef), "00000000deadbeef");
    assert_eq!(hex16(u64::MAX), "ffffffffffffffff");
    let s = random_salt().expect("the random source works here");
    assert_eq!(s.len(), 16);
    assert!(s.chars().all(|c| c.is_ascii_hexdigit() && !c.is_ascii_uppercase()));
}
