use nsq_client::config::{tls_verifier, Config, ConnConfig, NsqdConfig, TlsVerifier, VerifyServerCert};

#[test]
fn new_has_defaults() {
    let config: Config<String> = Config::new();
    assert_eq!(config.user_agent, config.hostname);
    assert!(config.feature_negotiation);
    assert_eq!(config.heartbeat_interval, 30000);
    assert_eq!(config.output_buffer_size, 16384);
    assert_eq!(config.output_buffer_timeout, 250);
    assert_eq!(config.deflate_level, 6);
    assert_eq!(config.sample_rate, 0);
    assert_eq!(config.message_timeout, 0);
    assert!(!config.tls_v1 && !config.snappy && !config.deflate);
    assert_eq!(config.verify_server, VerifyServerCert::PublicCA);
}

#[test]
fn new_equals_default() {
    let config: Config<String> = Config::new();
    assert_eq!(config, Config::default());
}

#[test]
fn client_id_builder() {
    let config: Config<String> = Config::new().client_id("consumer");
    assert_eq!(config.client_id, Some("consumer".to_owned()));
}

#[test]
fn hostname_builder() {
    let config: Config<String> = Config::new().hostname("node-1");
    assert_eq!(config.hostname, Some("node-1".to_owned()));
}

#[test]
fn user_agent_builder() {
    let config: Config<String> = Config::new().user_agent("consumer-1");
    assert_eq!(config.user_agent, Some("consumer-1".to_owned()));
    assert_eq!(config.heartbeat_interval, 30000);
}

#[test]
fn tls_turns_tls_on() {
    let mut config: Config<String> = Config::new();
    config.tls(VerifyServerCert::PrivateCA("ca.pem".to_owned()));
    assert!(config.tls_v1);
    assert_eq!(config.verify_server, VerifyServerCert::PrivateCA("ca.pem".to_owned()));
    assert_eq!(config.heartbeat_interval, 30000);
}

#[test]
fn verify_default_is_no_check() {
    let v: VerifyServerCert<String> = VerifyServerCert::default();
    assert_eq!(v, VerifyServerCert::NoCheck);
}

#[test]
fn conn_config_keeps_fields() {
    let c = ConnConfig::new(Some("s".to_owned()), "ch".to_owned(), "tp".to_owned());
    assert_eq!(c.secret, Some("s".to_owned()));
    assert_eq!(c.channel, "ch");
    assert_eq!(c.topic, "tp");
}

#[test]
fn nsqd_config_default() {
    let n = NsqdConfig::default();
    assert!(!n.auth_required && !n.tls_v1);
    assert_eq!(n.msg_timeout, 0);
}

#[test]
fn tls_verifier_prefers_a_private_ca() {
    assert_eq!(tls_verifier(false, "ca.pem"), TlsVerifier::PrivateCA);
    assert_eq!(tls_verifier(true, "ca.pem"), TlsVerifier::PrivateCA);
    assert_eq!(tls_verifier(false, ""), TlsVerifier::NoCheck);
    assert_eq!(tls_verifier(true, ""), TlsVerifier::PublicRoots);
}

#[test]
fn default_names_the_host_three_times() {
    let c: Config<String> = Config::default();
    assert_eq!(c.client_id, c.hostname);
    assert_eq!(c.user_agent, c.hostname);
    let h: Config<String> = Config::with_hostname(Some("box".to_owned()));
    assert_eq!(h.client_id, Some("box".to_owned()));
    assert_eq!(h.hostname, Some("box".to_owned()));
    assert_eq!(h.user_agent, Some("box".to_owned()));
    assert_eq!(h.verify_server, VerifyServerCert::PublicCA);
    assert_eq!(h.heartbeat_interval, 30000);
    let none: Config<String> = Config::with_hostname(None);
    assert!(none.client_id.is_none() && none.hostname.is_none() && none.user_agent.is_none());
}
