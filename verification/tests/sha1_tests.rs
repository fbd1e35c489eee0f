use lyrics_plus::sha1::sha1_digest;
use lyrics_plus::web::websocket_accept;

fn hex(bytes: &[u8]) -> String {
    bytes.iter().map(|b| format!("{:02x}", b)).collect()
}

#[test]
fn sha1_of_known_inputs() {
    assert_eq!(hex(&sha1_digest(b"abc")), "a9993e364706816aba3e25717850c26c9cd0d89d");
    assert_eq!(hex(&sha1_digest(b"")), "da39a3ee5e6b4b0d3255bfef95601890afd80709");
    let long = vec![b'a'; 1000];
    assert_eq!(hex(&sha1_digest(&long)), "291e9a6c66994949b57ba5e650361e98fc36b1ba");
}

#[test]
fn websocket_accept_matches_the_protocol_example() {
    assert_eq!(websocket_accept("dGhlIHNhbXBsZSBub25jZQ=="), "s3pPLMBiTxaQ9kYGzzhZRbK+xOo=");
}
