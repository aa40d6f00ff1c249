use tgwsproxy::form::{FormError, ProxyForm};
use tgwsproxy::secret::valid_secret;

fn form(port: &str) -> ProxyForm {
    let mut f = ProxyForm::with_secret("00112233445566778899aabbccddeeff".to_string());
    f.port = port.to_string();
    f
}

#[test]
fn new_form_has_defaults_and_a_fresh_secret() {
    let f = ProxyForm::new().expect("random source");
    assert_eq!(f.host, "127.0.0.1");
    assert_eq!(f.port, "1443");
    assert!(valid_secret(&f.secret));
    assert!(f.cf_enabled);
    assert_eq!(f.cf_domain, "");
    assert_eq!(f.pool_size, 4);
    assert!(!f.verbose);
}

#[test]
fn port_field_is_trimmed_and_read() {
    assert_eq!(form(" 2443 ").port_value(), Some(2443));
    assert_eq!(form("+80").port_value(), Some(80));
    assert_eq!(form("065535").port_value(), Some(65535));
}

#[test]
fn port_field_refuses_zero_overflow_and_text() {
    assert_eq!(form("0").port_value(), None);
    assert_eq!(form("65536").port_value(), None);
    assert_eq!(form("-1").port_value(), None);
    assert_eq!(form("").port_value(), None);
    assert_eq!(form("+").port_value(), None);
    assert_eq!(form("14 43").port_value(), None);
    assert_eq!(form("port").port_value(), None);
}

#[test]
fn invalid_port_stops_the_start() {
    assert_eq!(form("abc").to_config().err(), Some(FormError::InvalidPort));
    assert_eq!(FormError::InvalidPort.message(), "invalid port");
}

#[test]
fn to_config_trims_fields() {
    let mut f = form("1500");
    f.host = " 127.0.0.1\n".to_string();
    f.secret = " 00112233445566778899aabbccddeeff ".to_string();
    f.cf_domain = " d.example ".to_string();
    f.cf_enabled = false;
    f.pool_size = 9;
    f.verbose = true;
    let cfg = f.to_config().unwrap();
    assert_eq!(cfg.host, "127.0.0.1");
    assert_eq!(cfg.port, 1500);
    assert_eq!(cfg.secret, "00112233445566778899aabbccddeeff");
    assert_eq!(cfg.dc_ips, "");
    assert!(!cfg.cf_enabled);
    assert_eq!(cfg.cf_domain, "d.example");
    assert_eq!(cfg.pool_size, 9);
    assert!(cfg.verbose);
    assert_eq!(cfg.cache_dir, "");
}

#[test]
fn link_port_falls_back_to_default() {
    assert_eq!(form("abc").link_port(), 1443);
    assert_eq!(form(" 3000").link_port(), 3000);
    assert_eq!(form("0").link_port(), 0);
}

#[test]
fn form_links_use_trimmed_fields() {
    let mut f = form("x");
    f.host = " 10.0.0.1 ".to_string();
    assert_eq!(
        f.tg_link(),
        "tg://proxy?server=10.0.0.1&port=1443&secret=dd00112233445566778899aabbccddeeff"
    );
    assert_eq!(
        f.https_link(),
        "https://t.me/proxy?server=10.0.0.1&port=1443&secret=dd00112233445566778899aabbccddeeff"
    );
}

#[test]
fn written_port_reads_back() {
    for p in [1u16, 80, 1443, 65535] {
        let f = form(&tgwsproxy::text::port_text(p));
        assert_eq!(f.port_value(), Some(p));
        assert_eq!(f.link_port(), p);
    }
}

#[test]
fn reported_secret_is_reused_by_the_next_start() {
    let first = tgwsproxy::config::plan_start(form("1443").to_config().unwrap()).unwrap();
    let mut f = form("1443");
    f.secret = first.config.secret.clone();
    let second = tgwsproxy::config::plan_start(f.to_config().unwrap()).unwrap();
    assert_eq!(second.config.secret, first.config.secret);
}
