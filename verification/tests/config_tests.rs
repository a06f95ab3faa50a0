use rfd_render::config::{AppConfigError, AsymmetricKey, ServerLogFormat};

#[test]
fn log_format_labels_parse_exactly() {
    assert!(matches!(ServerLogFormat::parse("json"), Ok(ServerLogFormat::Json)));
    assert!(matches!(ServerLogFormat::parse("pretty"), Ok(ServerLogFormat::Pretty)));
    assert!(matches!(
        ServerLogFormat::parse("compact"),
        Err(AppConfigError::InvalidLogFormatVariant)
    ));
    assert!(matches!(
        ServerLogFormat::parse("JSON"),
        Err(AppConfigError::InvalidLogFormatVariant)
    ));
    assert!(matches!(
        ServerLogFormat::parse(""),
        Err(AppConfigError::InvalidLogFormatVariant)
    ));
}

#[test]
fn kid_is_returned_for_both_key_kinds() {
    let local = AsymmetricKey::Local {
        kid: String::from("local-key"),
        private: String::from("private-pem"),
        public: String::from("pub"),
    };
    assert_eq!(local.kid(), "local-key");

    let ckms = AsymmetricKey::Ckms {
        kid: String::from("cloud-key"),
        version: 2,
        key: String::from("k"),
        keyring: String::from("ring"),
        location: String::from("global"),
        project: String::from("proj"),
    };
    assert_eq!(ckms.kid(), "cloud-key");
}
