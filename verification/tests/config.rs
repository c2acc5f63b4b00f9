use linkshot::Config;

#[test]
fn env_value_takes_precedence() {
    let cfg = Config { imgur_client_id: Some("stored".to_string()) };
    assert_eq!(cfg.client_id(Some("  fromenv \n")), Some("fromenv".to_string()));
}

#[test]
fn blank_env_falls_back_to_stored() {
    let cfg = Config { imgur_client_id: Some("  stored ".to_string()) };
    assert_eq!(cfg.client_id(Some("   ")), Some("stored".to_string()));
    assert_eq!(cfg.client_id(None), Some("stored".to_string()));
}

#[test]
fn blank_or_missing_everywhere_is_none() {
    let cfg = Config { imgur_client_id: Some(" \t".to_string()) };
    assert_eq!(cfg.client_id(Some("")), None);
    assert_eq!(Config::default().client_id(None), None);
}

#[test]
fn saved_client_id_comes_back() {
    let mut cfg = Config::default();
    cfg.set_client_id("  abc123  ");
    assert_eq!(cfg.imgur_client_id, Some("abc123".to_string()));
    assert_eq!(cfg.client_id(None), Some("abc123".to_string()));
    cfg.set_client_id("   ");
    assert_eq!(cfg.imgur_client_id, Some(String::new()));
    assert_eq!(cfg.client_id(None), None);
}
