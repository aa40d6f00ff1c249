//! The links a Telegram client opens to use the proxy, and its listen address.

use vstd::prelude::*;

use crate::text::{decimal, is_decimal_digit, lemma_decimal_facts, lemma_port_text_parses_back, parse_u16_text, port_text};

verus! {

/// The query that both links carry: host, port and, behind the `dd` prefix
/// that asks for the padded (secured) MTProto mode, the secret.
pub open spec fn proxy_query(host: Seq<char>, port: nat, secret: Seq<char>) -> Seq<char> {
    "proxy?server="@ + host + "&port="@ + decimal(port) + "&secret=dd"@ + secret
}

/// The `tg://proxy?...` deep link.
pub open spec fn tg_link_text(host: Seq<char>, port: nat, secret: Seq<char>) -> Seq<char> {
    "tg://"@ + proxy_query(host, port, secret)
}

/// The `https://t.me/proxy?...` shareable link.
pub open spec fn https_link_text(host: Seq<char>, port: nat, secret: Seq<char>) -> Seq<char> {
    "https://t.me/"@ + proxy_query(host, port, secret)
}

/// The `host:port` address the listener binds.
pub open spec fn listen_addr_text(host: Seq<char>, port: nat) -> Seq<char> {
    host + ":"@ + decimal(port)
}

fn append_query(out: &mut String, host: &str, port: u16, secret: &str)
    ensures
        final(out)@ == old(out)@ + proxy_query(host@, port as nat, secret@),
{
    out.append("proxy?server=");
    out.append(host);
    out.append("&port=");
    let p = port_text(port);
    out.append(p.as_str());
    out.append("&secret=dd");
    out.append(secret);
    assert(final(out)@ =~= old(out)@ + proxy_query(host@, port as nat, secret@));
}

/// Builds the `tg://proxy` deep link for a proxy at `host:port` with `secret`.
pub fn tg_link(host: &str, port: u16, secret: &str) -> (link: String)
    ensures
        link@ == tg_link_text(host@, port as nat, secret@),
{
    let mut link = "tg://".to_owned();
    append_query(&mut link, host, port, secret);
    link
}

/// Builds the shareable `https://t.me/proxy` link.
pub fn https_link(host: &str, port: u16, secret: &str) -> (link: String)
    ensures
        link@ == https_link_text(host@, port as nat, secret@),
{
    let mut link = "https://t.me/".to_owned();
    append_query(&mut link, host, port, secret);
    link
}

/// The address `host:port` that the proxy's listener binds.
pub fn listen_addr(host: &str, port: u16) -> (addr: String)
    ensures
        addr@ == listen_addr_text(host@, port as nat),
{
    let mut addr = host.to_owned();
    addr.append(":");
    let p = port_text(port);
    addr.append(p.as_str());
    addr
}

/// The shareable link is the deep link with its `tg://` scheme replaced by
/// `https://t.me/`: both carry the same host, port and secret.
pub proof fn lemma_links_share_query(host: Seq<char>, port: nat, secret: Seq<char>)
    ensures
        https_link_text(host, port, secret) == "https://t.me/"@ + tg_link_text(host, port, secret).skip(5),
{
    reveal_strlit("tg://");
    let t = tg_link_text(host, port, secret);
    assert(t.skip(5) =~= proxy_query(host, port, secret));
}

/// For one host, the deep link tells apart every port and every secret: two
/// links for the same host are equal only when port and secret are.
pub proof fn lemma_tg_link_determines_port_and_secret(
    host: Seq<char>,
    port1: u16,
    secret1: Seq<char>,
    port2: u16,
    secret2: Seq<char>,
)
    requires
        tg_link_text(host, port1 as nat, secret1) == tg_link_text(host, port2 as nat, secret2),
    ensures
        port1 == port2,
        secret1 == secret2,
{
    reveal_strlit("&secret=dd");
    let pre = "tg://"@ + "proxy?server="@ + host + "&port="@;
    let d1 = decimal(port1 as nat);
    let d2 = decimal(port2 as nat);
    let mid = "&secret=dd"@;
    let t1 = tg_link_text(host, port1 as nat, secret1);
    let t2 = tg_link_text(host, port2 as nat, secret2);
    assert(t1 =~= pre + (d1 + mid + secret1));
    assert(t2 =~= pre + (d2 + mid + secret2));
    let r1 = d1 + mid + secret1;
    let r2 = d2 + mid + secret2;
    assert(r1 =~= t1.skip(pre.len() as int));
    assert(r2 =~= t2.skip(pre.len() as int));
    assert(r1 == r2);
    lemma_decimal_facts(port1 as nat);
    lemma_decimal_facts(port2 as nat);
    if d1.len() < d2.len() {
        assert(r1[d1.len() as int] == '&');
        assert(is_decimal_digit(d2[d1.len() as int]));
        assert(r2[d1.len() as int] == d2[d1.len() as int]);
        assert(false);
    } else if d2.len() < d1.len() {
        assert(r2[d2.len() as int] == '&');
        assert(is_decimal_digit(d1[d2.len() as int]));
        assert(r1[d2.len() as int] == d1[d2.len() as int]);
        assert(false);
    }
    assert(d1 =~= r1.take(d1.len() as int));
    assert(d2 =~= r2.take(d2.len() as int));
    assert(d1 == d2);
    lemma_port_text_parses_back(port1);
    lemma_port_text_parses_back(port2);
    assert(parse_u16_text(d1) == Some(port1));
    assert(secret1 =~= r1.skip((d1.len() + mid.len()) as int));
    assert(secret2 =~= r2.skip((d2.len() + mid.len()) as int));
}

} // verus!
