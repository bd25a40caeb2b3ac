use pgtypes::{SessionInfo, WasNull};

#[test]
fn parameter_lookup() {
    let params = vec![
        ("timezone".to_string(), "UTC".to_string()),
        ("server_version".to_string(), "9.5.1".to_string()),
        ("timezone".to_string(), "CET".to_string()),
    ];
    let ctx = SessionInfo::new(&params);
    assert_eq!(ctx.parameter("timezone"), Some("UTC"));
    assert_eq!(ctx.parameter("server_version"), Some("9.5.1"));
    assert_eq!(ctx.parameter("client_encoding"), None);
    assert_eq!(ctx.parameter(""), None);
}

#[test]
fn was_null_description() {
    assert_eq!(WasNull.description(), "a Postgres value was `NULL`");
}
