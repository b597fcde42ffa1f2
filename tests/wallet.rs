use chainlist_rs::acquire::{
    cache_dir, initial_step, is_stale, resolve_fetch, AcquireConfig, AcquireError, CacheDir, Step,
    CACHE_TTL_MS,
};
use chainlist_rs::schema::{ChainRecord, Explorer, NativeCurrency};
use chainlist_rs::Chain;

fn explorer(url: &str, standard: &str) -> Explorer {
    Explorer { name: "x".to_string(), url: url.to_string(), standard: standard.to_string(), icon: None }
}

fn record_with(explorers: Vec<Explorer>, icon: Option<String>) -> ChainRecord {
    ChainRecord {
        name: "Test Chain".to_string(),
        title: None,
        chain: "TST".to_string(),
        icon,
        rpc: vec!["https://rpc.example".to_string()],
        features: vec![],
        faucets: vec![],
        native_currency: NativeCurrency { name: "Test".to_string(), symbol: "TST".to_string(), decimals: 9 },
        info_url: "https://example.org".to_string(),
        short_name: "tst".to_string(),
        chain_id: 255,
        network_id: 255,
        slip44: None,
        ens: None,
        explorers,
        parent: None,
        status: None,
        red_flags: vec![],
    }
}

#[test]
fn wallet_params_keep_only_wallet_explorers() {
    let r = record_with(
        vec![explorer("https://good.example", "EIP3091"), explorer("https://other.example", "none")],
        None,
    );
    let p = r.to_eip3085();
    assert_eq!(p.block_explorer_urls, vec!["https://good.example".to_string()]);
    assert_eq!(p.chain_id, "0xff");
    assert_eq!(p.chain_name, "Test Chain");
    assert_eq!(p.native_currency.decimals, 9);
    assert_eq!(p.rpc_urls, vec!["https://rpc.example".to_string()]);
    assert!(p.icon_urls.is_empty());
}

#[test]
fn wallet_params_accept_empty_standard_and_icon() {
    let r = record_with(
        vec![explorer("https://a.example", ""), explorer("https://b.example", "eip3091"), explorer("https://c.example", "EIP3091")],
        Some("icon".to_string()),
    );
    let p = r.to_eip3085();
    assert_eq!(
        p.block_explorer_urls,
        vec!["https://a.example".to_string(), "https://c.example".to_string()]
    );
    assert_eq!(p.icon_urls, vec!["icon".to_string()]);
}

#[test]
fn wallet_params_of_a_known_chain() {
    let p = Chain::Base.to_eip3085();
    assert_eq!(p.chain_id, "0x2105");
    assert_eq!(p.chain_name, "Base");
    assert_eq!(
        p.block_explorer_urls,
        vec!["https://base.blockscout.com".to_string(), "https://base.dex.guru".to_string()]
    );
    assert_eq!(p.icon_urls, vec!["base".to_string()]);
    let m = Chain::Mainnet.to_eip3085();
    assert_eq!(m.chain_id, "0x1");
    assert_eq!(m.block_explorer_urls.len(), 4);
}

fn config(cache_exists: bool, age: Option<u64>) -> AcquireConfig {
    AcquireConfig { has_override_path: false, offline: false, cache_exists, cache_age_ms: age }
}

#[test]
fn stale_cache_and_failed_fetch_fall_back_to_the_cache() {
    let c = config(true, Some(3 * 60 * 60 * 1000));
    assert_eq!(initial_step(&c), Step::Fetch);
    let cached = "[{\"chainId\":1}]".to_string();
    let a = resolve_fetch(None, Some(cached.clone())).expect("fallback");
    assert_eq!(a.text, cached);
    assert!(a.warn);
    assert!(!a.persist);
}

#[test]
fn acquisition_priorities() {
    let mut c = config(true, Some(0));
    assert_eq!(initial_step(&c), Step::ReadCache);
    c.has_override_path = true;
    assert_eq!(initial_step(&c), Step::ReadOverride);
    c.has_override_path = false;
    c.offline = true;
    assert_eq!(initial_step(&c), Step::ReadLocal);
    c.cache_exists = false;
    assert_eq!(initial_step(&c), Step::Fail(AcquireError::OfflineWithoutSnapshot));
    assert_eq!(initial_step(&config(false, None)), Step::Fetch);
    assert_eq!(initial_step(&config(true, None)), Step::Fetch);
    assert!(is_stale(Some(CACHE_TTL_MS), CACHE_TTL_MS));
    assert!(!is_stale(Some(CACHE_TTL_MS - 1), CACHE_TTL_MS));
    assert!(is_stale(None, CACHE_TTL_MS));
}

#[test]
fn fetch_outcomes() {
    let a = resolve_fetch(Some("new".to_string()), Some("old".to_string())).expect("fetched");
    assert_eq!(a.text, "new");
    assert!(a.persist);
    assert!(!a.warn);
    assert!(matches!(resolve_fetch(None, None), Err(AcquireError::FetchFailedWithoutSnapshot)));
    assert_eq!(cache_dir(true, true), CacheDir::Override);
    assert_eq!(cache_dir(false, true), CacheDir::DataDir);
    assert_eq!(cache_dir(false, false), CacheDir::ProjectRoot);
}
