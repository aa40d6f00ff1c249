//! The settings form of the desktop front-end: what the user typed, and how
//! it becomes a proxy configuration and links.

use vstd::prelude::*;

use crate::config::{ProxyConfig, DEFAULT_POOL_SZ, DEFAULT_PORT};
use crate::links::{https_link, https_link_text, tg_link, tg_link_text};
use crate::hexcode::is_hex_digit;
use crate::secret::{gen_secret, is_generated_secret, is_valid_secret};
use crate::text::{all_whitespace, decimal, lemma_decimal_is_trimmed, lemma_trimmed_idempotent, lemma_trimmed_ignores_surrounding_whitespace, lemma_port_text_parses_back, parse_u16, parse_u16_text, port_text, trim, trimmed};

verus! {

/// The port a form field denotes: trimmed decimal text of a port other than 0.
pub open spec fn port_field_value(text: Seq<char>) -> Option<u16> {
    match parse_u16_text(trimmed(text)) {
        Some(p) => if p > 0 { Some(p) } else { None },
        None => None,
    }
}

/// The port shown in links: the field's number when it reads as one, the
/// default port otherwise.
pub open spec fn link_port_value(text: Seq<char>) -> u16 {
    match parse_u16_text(trimmed(text)) {
        Some(p) => p,
        None => DEFAULT_PORT,
    }
}

/// Why a form cannot start a proxy.
#[derive(Clone, Copy, Debug, PartialEq, Eq, Structural)]
pub enum FormError {
    /// The port field is not a number from 1 to 65535.
    InvalidPort,
}

impl FormError {
    /// The status line shown for this error.
    pub fn message(&self) -> (m: String)
        ensures
            m@ == "invalid port"@,
    {
        match self {
            FormError::InvalidPort => "invalid port".to_owned(),
        }
    }
}

/// The editable proxy settings, as text fields and toggles.
pub struct ProxyForm {
    pub host: String,
    pub port: String,
    pub secret: String,
    pub cf_enabled: bool,
    pub cf_domain: String,
    pub pool_size: i32,
    pub verbose: bool,
}

impl ProxyForm {
    /// A form with the default settings and the given secret.
    pub fn with_secret(secret: String) -> (form: Self)
        ensures
            form.host@ == "127.0.0.1"@,
            form.port@ == decimal(DEFAULT_PORT as nat),
            form.secret@ == secret@,
            form.cf_enabled,
            form.cf_domain@.len() == 0,
            form.pool_size == DEFAULT_POOL_SZ,
            !form.verbose,
    {
        ProxyForm {
            host: "127.0.0.1".to_owned(),
            port: port_text(DEFAULT_PORT),
            secret,
            cf_enabled: true,
            cf_domain: String::new(),
            pool_size: DEFAULT_POOL_SZ,
            verbose: false,
        }
    }

    /// A form with the default settings and a freshly generated secret, or
    /// `None` when the random source fails.
    pub fn new() -> (r: Option<Self>)
        ensures
            r matches Some(form) ==> {
                &&& form.host@ == "127.0.0.1"@
                &&& form.port@ == decimal(DEFAULT_PORT as nat)
                &&& is_valid_secret(form.secret@)
                &&& is_generated_secret(form.secret@)
                &&& form.cf_enabled
                &&& form.cf_domain@.len() == 0
                &&& form.pool_size == DEFAULT_POOL_SZ
                &&& !form.verbose
            },
    {
        match gen_secret() {
            Some(secret) => Some(ProxyForm::with_secret(secret)),
            None => None,
        }
    }

    /// The port the port field denotes, if it denotes one that can be bound.
    pub fn port_value(&self) -> (p: Option<u16>)
        ensures
            p == port_field_value(self.port@),
    {
        match parse_u16(trim(self.port.as_str())) {
            Some(p) => if p > 0 {
                Some(p)
            } else {
                None
            },
            None => None,
        }
    }

    /// The port used in the links: the field's number, or the default port
    /// when the field does not read as a number.
    pub fn link_port(&self) -> (p: u16)
        ensures
            p == link_port_value(self.port@),
    {
        match parse_u16(trim(self.port.as_str())) {
            Some(p) => p,
            None => DEFAULT_PORT,
        }
    }

    /// The configuration the form asks for; host, secret and domain are
    /// trimmed, and no datacenter overrides or cache directory are set.
    pub fn to_config(&self) -> (r: Result<ProxyConfig, FormError>)
        ensures
            r is Err <==> port_field_value(self.port@) is None,
            r matches Err(e) ==> e == FormError::InvalidPort,
            r matches Ok(cfg) ==> {
                &&& Some(cfg.port) == port_field_value(self.port@)
                &&& cfg.host@ == trimmed(self.host@)
                &&& cfg.secret@ == trimmed(self.secret@)
                &&& cfg.dc_ips@.len() == 0
                &&& cfg.cf_enabled == self.cf_enabled
                &&& cfg.cf_domain@ == trimmed(self.cf_domain@)
                &&& cfg.pool_size == self.pool_size
                &&& cfg.verbose == self.verbose
                &&& cfg.cache_dir@.len() == 0
            },
    {
        let port = match self.port_value() {
            Some(p) => p,
            None => return Err(FormError::InvalidPort),
        };
        Ok(ProxyConfig {
            host: trim(self.host.as_str()).to_owned(),
            port,
            secret: trim(self.secret.as_str()).to_owned(),
            dc_ips: String::new(),
            cf_enabled: self.cf_enabled,
            cf_domain: trim(self.cf_domain.as_str()).to_owned(),
            pool_size: self.pool_size,
            verbose: self.verbose,
            cache_dir: String::new(),
        })
    }

    /// The `tg://proxy` link for the form's trimmed host and secret.
    pub fn tg_link(&self) -> (link: String)
        ensures
            link@ == tg_link_text(
                trimmed(self.host@),
                link_port_value(self.port@) as nat,
                trimmed(self.secret@),
            ),
    {
        let port = self.link_port();
        tg_link(trim(self.host.as_str()), port, trim(self.secret.as_str()))
    }

    /// The `https://t.me/proxy` link for the form's trimmed host and secret.
    pub fn https_link(&self) -> (link: String)
        ensures
            link@ == https_link_text(
                trimmed(self.host@),
                link_port_value(self.port@) as nat,
                trimmed(self.secret@),
            ),
    {
        let port = self.link_port();
        https_link(trim(self.host.as_str()), port, trim(self.secret.as_str()))
    }
}

/// A port field holding the decimal text of a nonzero port denotes that port,
/// both for starting the proxy and in the links.
pub proof fn lemma_port_field_round_trip(port: u16)
    requires
        port > 0,
    ensures
        port_field_value(decimal(port as nat)) == Some(port),
        link_port_value(decimal(port as nat)) == port,
{
    lemma_decimal_is_trimmed(port as nat);
    lemma_port_text_parses_back(port);
}

/// Whitespace typed around the port field never changes the port, neither
/// for starting the proxy nor in the links.
pub proof fn lemma_port_field_ignores_surrounding_whitespace(
    pre: Seq<char>,
    text: Seq<char>,
    post: Seq<char>,
)
    requires
        all_whitespace(pre),
        all_whitespace(post),
    ensures
        port_field_value(pre + text + post) == port_field_value(text),
        link_port_value(pre + text + post) == link_port_value(text),
{
    lemma_trimmed_ignores_surrounding_whitespace(pre, text, post);
}

/// The port field is read as its trimmed text.
pub proof fn lemma_port_field_reads_trimmed(text: Seq<char>)
    ensures
        port_field_value(text) == port_field_value(trimmed(text)),
        link_port_value(text) == link_port_value(trimmed(text)),
{
    lemma_trimmed_idempotent(text);
}

/// The links show the port the proxy starts on: whenever the field gives a
/// port to start with, the links carry that same port.
pub proof fn lemma_link_port_agrees_with_start_port(text: Seq<char>)
    ensures
        port_field_value(text) matches Some(p) ==> link_port_value(text) == p,
{
}

/// A port field holding the decimal text of a nonzero port, with any
/// whitespace around it, denotes that port, for starting and in the links.
pub proof fn lemma_padded_port_field_round_trip(pre: Seq<char>, port: u16, post: Seq<char>)
    requires
        port > 0,
        all_whitespace(pre),
        all_whitespace(post),
    ensures
        port_field_value(pre + decimal(port as nat) + post) == Some(port),
        link_port_value(pre + decimal(port as nat) + post) == port,
{
    lemma_port_field_ignores_surrounding_whitespace(pre, decimal(port as nat), post);
    lemma_port_field_round_trip(port);
}

/// A valid secret has nothing to trim, so the secret a start reports, put back
/// in the form, reaches the next start unchanged and is kept there.
pub proof fn lemma_valid_secret_is_trimmed(secret: Seq<char>)
    requires
        is_valid_secret(secret),
    ensures
        trimmed(secret) == secret,
{
    assert(is_hex_digit(secret[0]));
    assert(is_hex_digit(secret.last()));
}

} // verus!
