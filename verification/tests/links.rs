use tgwsproxy::links::{https_link, listen_addr, tg_link};
use tgwsproxy::text::port_text;

const SECRET: &str = "00112233445566778899aabbccddeeff";

#[test]
fn tg_link_has_server_port_and_dd_secret() {
    assert_eq!(
        tg_link("127.0.0.1", 1443, SECRET),
        "tg://proxy?server=127.0.0.1&port=1443&secret=dd00112233445566778899aabbccddeeff"
    );
}

#[test]
fn https_link_has_server_port_and_dd_secret() {
    assert_eq!(
        https_link("127.0.0.1", 2443, SECRET),
        "https://t.me/proxy?server=127.0.0.1&port=2443&secret=dd00112233445566778899aabbccddeeff"
    );
}

#[test]
fn https_link_is_tg_link_with_other_scheme() {
    let tg = tg_link("example.org", 65535, "abc");
    let https = https_link("example.org", 65535, "abc");
    assert_eq!(format!("https://t.me/{}", &tg["tg://".len()..]), https);
}

#[test]
fn links_with_port_zero_and_empty_parts() {
    assert_eq!(tg_link("", 0, ""), "tg://proxy?server=&port=0&secret=dd");
}

#[test]
fn listen_addr_joins_host_and_port() {
    assert_eq!(listen_addr("127.0.0.1", 1443), "127.0.0.1:1443");
    assert_eq!(listen_addr("::1", 7), "::1:7");
}

#[test]
fn port_text_is_plain_decimal() {
    assert_eq!(port_text(0), "0");
    assert_eq!(port_text(9), "9");
    assert_eq!(port_text(10), "10");
    assert_eq!(port_text(1443), "1443");
    assert_eq!(port_text(65535), "65535");
}

#[test]
fn port_text_matches_std_formatting() {
    for p in [1u16, 20, 305, 4096, 50000] {
        assert_eq!(port_text(p), p.to_string());
    }
}

#[test]
fn different_ports_or_secrets_give_different_links() {
    let a = tg_link("h", 1, "ff");
    assert_ne!(a, tg_link("h", 10, "ff"));
    assert_ne!(a, tg_link("h", 1, "f"));
    assert_ne!(tg_link("h", 12, "3"), tg_link("h", 1, "23"));
}
