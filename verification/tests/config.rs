use tgwsproxy::config::{cf_settings, plan_start, ProxyConfig, DEFAULT_POOL_SZ, DEFAULT_PORT};
use tgwsproxy::secret::valid_secret;

#[test]
fn default_config_is_loopback_on_1443() {
    let cfg = ProxyConfig::default();
    assert_eq!(cfg.host, "127.0.0.1");
    assert_eq!(cfg.port, 1443);
    assert_eq!(DEFAULT_PORT, 1443);
    assert_eq!(cfg.secret, "");
    assert_eq!(cfg.dc_ips, "");
    assert!(cfg.cf_enabled);
    assert_eq!(cfg.cf_domain, "");
    assert_eq!(cfg.pool_size, 4);
    assert_eq!(DEFAULT_POOL_SZ, 4);
    assert!(!cfg.verbose);
    assert_eq!(cfg.cache_dir, "");
}

#[test]
fn cf_settings_trim_domain_and_cache_dir() {
    let mut cfg = ProxyConfig::default();
    cfg.cf_domain = "  example.workers.dev \t".to_string();
    cfg.cache_dir = "\n/tmp/cache ".to_string();
    let cf = cf_settings(&cfg);
    assert!(cf.enabled);
    assert_eq!(cf.cache_dir, "/tmp/cache");
    assert_eq!(cf.user_domain.as_deref(), Some("example.workers.dev"));
}

#[test]
fn cf_settings_blank_domain_means_automatic() {
    let mut cfg = ProxyConfig::default();
    cfg.cf_enabled = false;
    cfg.cf_domain = " \u{3000} ".to_string();
    let cf = cf_settings(&cfg);
    assert!(!cf.enabled);
    assert_eq!(cf.cache_dir, "");
    assert!(cf.user_domain.is_none());
}

#[test]
fn plan_start_keeps_a_valid_secret() {
    let mut cfg = ProxyConfig::default();
    cfg.secret = "00112233445566778899aabbccddeeff".to_string();
    cfg.port = 2443;
    cfg.pool_size = 8;
    cfg.dc_ips = "2:149.154.167.220".to_string();
    cfg.verbose = true;
    let plan = plan_start(cfg).expect("plan");
    assert_eq!(plan.config.secret, "00112233445566778899aabbccddeeff");
    assert_eq!(plan.config.port, 2443);
    assert_eq!(plan.config.pool_size, 8);
    assert_eq!(plan.config.dc_ips, "2:149.154.167.220");
    assert!(plan.config.verbose);
    assert_eq!(plan.listen_addr, "127.0.0.1:2443");
    assert!(plan.cf.user_domain.is_none());
}

#[test]
fn plan_start_mints_a_secret_when_none_is_given() {
    let plan = plan_start(ProxyConfig::default()).expect("plan");
    assert!(valid_secret(&plan.config.secret));
    assert_eq!(plan.config.host, "127.0.0.1");
    assert_eq!(plan.listen_addr, "127.0.0.1:1443");
}

#[test]
fn plan_start_replaces_a_malformed_secret() {
    let mut cfg = ProxyConfig::default();
    cfg.secret = "dd00112233445566778899aabbccddeeff".to_string();
    let plan = plan_start(cfg).expect("plan");
    assert_ne!(plan.config.secret, "dd00112233445566778899aabbccddeeff");
    assert!(valid_secret(&plan.config.secret));
}
