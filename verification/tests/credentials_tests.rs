use lyrics_plus::credentials::{random_id_from, random_token_from, ClientPasswords, LaboratoryCredentials};

fn credentials() -> LaboratoryCredentials {
    LaboratoryCredentials {
        server_id: " ".into(),
        client_id: "client-kept".into(),
        server_password: None,
        web_token: None,
        client_passwords: ClientPasswords::new(),
    }
}

#[test]
fn client_passwords_read_back() {
    let mut passwords = ClientPasswords::new();
    passwords.save("srv", "  secret ");
    assert_eq!(passwords.get("srv").as_deref(), Some("secret"));
    passwords.save("other", "x");
    passwords.save("srv", "again");
    assert_eq!(passwords.get("srv").as_deref(), Some("again"));
    assert_eq!(passwords.entries().len(), 2);
    passwords.save("srv", "   ");
    assert_eq!(passwords.get("srv"), None);
    assert_eq!(passwords.get("other").as_deref(), Some("x"));
}

#[test]
fn random_names_use_url_safe_base64() {
    assert_eq!(random_id_from("server", &[0xfb, 0xff]), "server--_8");
    assert_eq!(random_token_from(&[0, 0, 0]), "AAAA");
}

#[test]
fn missing_identifiers_and_tokens_are_filled() {
    let mut c = credentials();
    assert!(c.fill_missing_ids(&[1, 2, 3], &[4]));
    assert_eq!(c.server_id, "server-AQID");
    assert_eq!(c.client_id, "client-kept");
    assert!(!c.fill_missing_ids(&[9], &[9]));
    let (token, created) = c.ensure_web_token(&[0, 0, 0]);
    assert_eq!(token, "AAAA");
    assert!(created);
    let (again, created) = c.ensure_web_token(&[1, 1, 1]);
    assert_eq!(again, "AAAA");
    assert!(!created);
    assert_eq!(c.reset_web_token(&[255, 255, 255]), "____");
    c.set_server_password("  pw ");
    assert_eq!(c.server_password.as_deref(), Some("pw"));
    assert!(c.server_password_enabled());
    c.set_server_password("");
    assert!(!c.server_password_enabled());
}
