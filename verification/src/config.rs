//! What one proxy instance is started with, and the start-up decisions taken
//! on it before any socket is opened.

use vstd::prelude::*;

use crate::links::{listen_addr, listen_addr_text};
use crate::secret::{
    is_generated_secret, is_valid_secret, lemma_resolved_secret_is_valid, random_secret_bytes,
    resolve_secret_with, resolved_secret, valid_secret,
};
use crate::text::{trim, trimmed};

verus! {

/// The port a proxy listens on unless told otherwise.
pub const DEFAULT_PORT: u16 = 1443;

/// The WebSocket pool size per datacenter unless told otherwise.
pub const DEFAULT_POOL_SZ: i32 = 4;

/// Everything needed to bring one proxy instance up.
#[derive(Clone, Debug)]
pub struct ProxyConfig {
    /// Bind address. Loopback by default, so the proxy never touches system
    /// routing and cannot interfere with a VPN or expose itself to the LAN.
    pub host: String,
    pub port: u16,
    /// 32 hex digits (16 bytes). Anything else means a random one is generated.
    pub secret: String,
    /// Optional datacenter address overrides as a CIDR pool string.
    pub dc_ips: String,
    /// Cloudflare WebSocket transport toggle and optional user domain.
    pub cf_enabled: bool,
    pub cf_domain: String,
    /// WebSocket connection pool size per datacenter (the engine clamps it).
    pub pool_size: i32,
    pub verbose: bool,
    /// Directory for the Cloudflare domain cache (empty means the engine default).
    pub cache_dir: String,
}

impl Default for ProxyConfig {
    fn default() -> (cfg: Self)
        ensures
            cfg.host@ == "127.0.0.1"@,
            cfg.port == DEFAULT_PORT,
            cfg.secret@.len() == 0,
            cfg.dc_ips@.len() == 0,
            cfg.cf_enabled,
            cfg.cf_domain@.len() == 0,
            cfg.pool_size == DEFAULT_POOL_SZ,
            !cfg.verbose,
            cfg.cache_dir@.len() == 0,
    {
        ProxyConfig {
            host: "127.0.0.1".to_owned(),
            port: DEFAULT_PORT,
            secret: String::new(),
            dc_ips: String::new(),
            cf_enabled: true,
            cf_domain: String::new(),
            pool_size: DEFAULT_POOL_SZ,
            verbose: false,
            cache_dir: String::new(),
        }
    }
}

/// How the Cloudflare WebSocket transport is set up for one start.
pub struct CfSettings {
    pub enabled: bool,
    /// The domain cache directory, trimmed.
    pub cache_dir: String,
    /// The user's own domain, trimmed, when one was given; it then becomes the
    /// only domain in the rotation and the active one.
    pub user_domain: Option<String>,
}

/// The Cloudflare settings that a configuration asks for.
pub fn cf_settings(cfg: &ProxyConfig) -> (cf: CfSettings)
    ensures
        cf.enabled == cfg.cf_enabled,
        cf.cache_dir@ == trimmed(cfg.cache_dir@),
        cf.user_domain is Some <==> trimmed(cfg.cf_domain@).len() > 0,
        cf.user_domain matches Some(d) ==> d@ == trimmed(cfg.cf_domain@),
{
    let cache_dir = trim(cfg.cache_dir.as_str()).to_owned();
    let domain = trim(cfg.cf_domain.as_str());
    let user_domain = if !domain.is_empty() {
        Some(domain.to_owned())
    } else {
        None
    };
    CfSettings { enabled: cfg.cf_enabled, cache_dir, user_domain }
}

/// What a start does with a configuration before it opens any socket.
pub struct StartPlan {
    /// The configuration with the secret actually in use.
    pub config: ProxyConfig,
    pub cf: CfSettings,
    /// The `host:port` address to bind.
    pub listen_addr: String,
}

/// Plans a start from `cfg` and the outcome of a draw from the random source
/// (`None`: nothing drawn, or the draw failed): the secret is the caller's when
/// valid and the hex text of the drawn bytes otherwise; the Cloudflare settings
/// and the bind address are derived; everything else is carried over.
pub fn plan_start_with(cfg: ProxyConfig, draw: Option<[u8; 16]>) -> (r: Option<StartPlan>)
    ensures
        r is None <==> (!is_valid_secret(cfg.secret@) && draw is None),
        r matches Some(plan) ==> {
            &&& resolved_secret(cfg.secret@, draw) == Some(plan.config.secret@)
            &&& plan.config.host@ == cfg.host@
            &&& plan.config.port == cfg.port
            &&& plan.config.dc_ips@ == cfg.dc_ips@
            &&& plan.config.cf_enabled == cfg.cf_enabled
            &&& plan.config.cf_domain@ == cfg.cf_domain@
            &&& plan.config.pool_size == cfg.pool_size
            &&& plan.config.verbose == cfg.verbose
            &&& plan.config.cache_dir@ == cfg.cache_dir@
            &&& plan.cf.enabled == cfg.cf_enabled
            &&& plan.cf.cache_dir@ == trimmed(cfg.cache_dir@)
            &&& (plan.cf.user_domain is Some <==> trimmed(cfg.cf_domain@).len() > 0)
            &&& (plan.cf.user_domain matches Some(d) ==> d@ == trimmed(cfg.cf_domain@))
            &&& plan.listen_addr@ == listen_addr_text(cfg.host@, cfg.port as nat)
        },
{
    let mut cfg = cfg;
    let secret = match resolve_secret_with(cfg.secret.as_str(), draw) {
        Some(s) => s,
        None => return None,
    };
    cfg.secret = secret;
    let cf = cf_settings(&cfg);
    let addr = listen_addr(cfg.host.as_str(), cfg.port);
    Some(StartPlan { config: cfg, cf, listen_addr: addr })
}

/// Decides how to start a proxy from `cfg`: keeps the caller's secret when it
/// is valid and mints one otherwise, derives the Cloudflare settings and the
/// address to bind. Everything else is carried over unchanged. `None` when a
/// secret had to be minted and the random source failed; the random source
/// is asked only when the caller's secret is not valid.
pub fn plan_start(cfg: ProxyConfig) -> (r: Option<StartPlan>)
    ensures
        is_valid_secret(cfg.secret@) ==> r is Some,
        r matches Some(plan) ==> {
            &&& is_valid_secret(plan.config.secret@)
            &&& is_valid_secret(cfg.secret@) ==> plan.config.secret@ == cfg.secret@
            &&& !is_valid_secret(cfg.secret@) ==> is_generated_secret(plan.config.secret@)
            &&& exists|draw: Option<[u8; 16]>| resolved_secret(cfg.secret@, draw) == Some(plan.config.secret@)
            &&& plan.config.host@ == cfg.host@
            &&& plan.config.port == cfg.port
            &&& plan.config.dc_ips@ == cfg.dc_ips@
            &&& plan.config.cf_enabled == cfg.cf_enabled
            &&& plan.config.cf_domain@ == cfg.cf_domain@
            &&& plan.config.pool_size == cfg.pool_size
            &&& plan.config.verbose == cfg.verbose
            &&& plan.config.cache_dir@ == cfg.cache_dir@
            &&& plan.cf.enabled == cfg.cf_enabled
            &&& plan.cf.cache_dir@ == trimmed(cfg.cache_dir@)
            &&& (plan.cf.user_domain is Some <==> trimmed(cfg.cf_domain@).len() > 0)
            &&& (plan.cf.user_domain matches Some(d) ==> d@ == trimmed(cfg.cf_domain@))
            &&& plan.listen_addr@ == listen_addr_text(cfg.host@, cfg.port as nat)
        },
{
    let draw = if valid_secret(cfg.secret.as_str()) {
        None
    } else {
        random_secret_bytes()
    };
    let ghost given = cfg.secret@;
    let r = plan_start_with(cfg, draw);
    proof {
        lemma_resolved_secret_is_valid(given, draw);
        if r is Some && !is_valid_secret(given) {
            let b = draw->0;
            assert(b@.len() == 16 && r->0.config.secret@ == crate::hexcode::hex_text(b@));
        }
    }
    r
}

} // verus!
