use chainlist_rs::{all_chains, Chain};
use alloy_primitives::U256;
use std::collections::HashSet;

#[test]
fn test_chain_properties() {
    // Test for Mainnet
    let mainnet = Chain::Mainnet;
    assert_eq!(mainnet.id(), 1);
    assert!(mainnet.name().contains("Ethereum"));

    // Check native currency for a few chains
    let (_name, symbol, decimals) = mainnet.native_currency();
    assert_eq!(symbol.to_uppercase(), "ETH");
    assert_eq!(decimals, 18);

    // Test RPC URLs - should return non-empty list for mainnet
    assert!(!Chain::Mainnet.rpc_urls().is_empty());

    // Test info_url - should be valid URL
    assert!(Chain::Mainnet.info_url().starts_with("http"));

    // Test short name
    assert_eq!(Chain::Mainnet.short_name().to_uppercase(), "ETH");

    // Test SLIP44 value for Ethereum
    assert_eq!(Chain::Mainnet.slip44(), Some(60));
}

fn ratio(b: chainlist_rs::BlockCount) -> f64 {
    b.time_ms as f64 / b.block_time_ms as f64
}

#[test]
fn test_blocks_in() {
    const TARGET_AGE: u64 = 6 * 60 * 60 * 1000; // 6h in ms

    assert_eq!(ratio(Chain::Mainnet.blocks_in(TARGET_AGE)).round(), 1800.0);
    assert_eq!(ratio(Chain::Sepolia.blocks_in(TARGET_AGE)).round(), 1800.0);
}

#[test]
fn blocks_in_is_not_floored() {
    assert_eq!(ratio(Chain::Mainnet.blocks_in(21_600_000)), 1800.0);
    assert_eq!(ratio(Chain::Mainnet.blocks_in(18_000)), 1.5);
    assert_eq!(Chain::Gnosis.block_time_in_ms(), 5_000);
    assert_eq!(Chain::Base.block_time_in_ms(), 2_000);
    assert_eq!(Chain::Pol.block_time_in_ms(), 12_000);
    assert_eq!(ratio(Chain::Base.blocks_in(3_000)), 1.5);
}

#[test]
fn chains_sorted_and_unique() {
    let ids: Vec<u64> = Chain::all().iter().map(|c| c.id()).collect();
    assert!(!ids.is_empty(), "Chain list should not be empty");

    let mut sorted = ids.clone();
    sorted.sort_unstable();
    assert_eq!(ids, sorted, "Chain variants should stay ordered by chain id");

    let unique: HashSet<u64> = ids.iter().copied().collect();
    assert_eq!(ids.len(), unique.len(), "Chain ids should be unique across the enum");
}

#[test]
fn chain_records_have_basic_fields() {
    let mut short_names = HashSet::new();
    let chains = all_chains();

    for record in chains.iter() {
        assert!(
            Chain::try_from(record.chain_id).is_ok(),
            "Chain::try_from should cover chain_id {}",
            record.chain_id
        );
        assert!(record.chain_id > 0, "chain_id should be positive for {}", record.name);
        assert!(
            !record.name.trim().is_empty(),
            "name should not be empty for chain_id {}",
            record.chain_id
        );
        assert!(
            !record.chain.trim().is_empty(),
            "chain slug should not be empty for chain_id {}",
            record.chain_id
        );
        assert!(
            !record.short_name.trim().is_empty(),
            "short_name should not be empty for chain_id {}",
            record.chain_id
        );
        assert!(
            short_names.insert(record.short_name.as_str()),
            "short_name {} reused for chain_id {}",
            record.short_name,
            record.chain_id
        );
        assert!(
            !record.native_currency.name.trim().is_empty(),
            "native currency name missing for chain_id {}",
            record.chain_id
        );
        assert!(
            !record.native_currency.symbol.trim().is_empty(),
            "native currency symbol missing for chain_id {}",
            record.chain_id
        );
        assert!(
            record.native_currency.decimals > 0,
            "native currency decimals must be >0 for chain_id {}",
            record.chain_id
        );
    }
}

#[test]
fn store_and_table_agree_both_ways() {
    let records = all_chains();
    let variants = Chain::all();
    assert_eq!(records.len(), variants.len());
    for (record, chain) in records.iter().zip(variants.iter()) {
        assert_eq!(Chain::try_from(record.chain_id), Ok(*chain));
        assert_eq!(chain.id(), record.chain_id);
        assert_eq!(chain.name(), record.name);
    }
}

#[test]
fn try_from_unknown_id_fails() {
    assert!(Chain::try_from(0).is_err());
    assert!(Chain::try_from(2).is_err());
    assert!(Chain::try_from(u64::MAX).is_err());
    assert_eq!(Chain::try_from(11155111), Ok(Chain::Sepolia));
    assert_eq!(Chain::try_from(100), Ok(Chain::Gnosis));
}

#[test]
fn try_from_wide_ids() {
    let one = U256::from(1u64);
    assert_eq!(Chain::try_from_limbs(*one.as_limbs()), Ok(Chain::Mainnet));
    let sepolia = U256::from(11155111u64);
    assert_eq!(Chain::try_from_limbs(*sepolia.as_limbs()), Ok(Chain::Sepolia));
    let big = U256::from(u64::MAX) + U256::from(2u64);
    assert_eq!(big.as_limbs()[0], 1);
    assert!(Chain::try_from_limbs(*big.as_limbs()).is_err());
    let max = U256::from(u64::MAX);
    assert!(Chain::try_from_limbs(*max.as_limbs()).is_err());
}

#[test]
fn hex_ids() {
    assert_eq!(Chain::Mainnet.chain_id_hex(), "0x1");
    assert_eq!(Chain::Sepolia.chain_id_hex(), "0xaa36a7");
    assert_eq!(Chain::Gnosis.chain_id_hex(), "0x64");
    assert_eq!(chainlist_rs::hexfmt::format_hex_id(0), "0x0");
    assert_eq!(chainlist_rs::hexfmt::format_hex_id(u64::MAX), "0xffffffffffffffff");
    let records = all_chains();
    assert_eq!(records[0].chain_id_hex(), "0x1");
}

#[test]
fn chain_info_projects_record() {
    let info = Chain::Oeth.info();
    let record = Chain::Oeth.record();
    assert_eq!(info.id, 10);
    assert_eq!(info.name, "OP Mainnet");
    assert_eq!(info.rpc_urls, record.rpc);
    assert_eq!(info.features, vec!["EIP155".to_string(), "EIP1559".to_string()]);
    assert_eq!(info.explorers.len(), record.explorers.len());
    assert_eq!(info.block_time_ms, 12_000);
    let parent = record.parent().expect("parent");
    assert_eq!(parent.chain, "eip155-1");
    assert_eq!(parent.bridges().len(), 1);
    assert!(Chain::Mainnet.record().ens().is_some());
    assert!(Chain::Mainnet.record().parent().is_none());
}

#[test]
fn static_and_dynamic_wallet_params_agree() {
    let records = all_chains();
    for (record, chain) in records.iter().zip(Chain::all().iter()) {
        let a = chain.to_eip3085();
        let b = record.to_eip3085();
        assert_eq!(a.chain_id, b.chain_id);
        assert_eq!(a.chain_name, b.chain_name);
        assert_eq!(a.native_currency.symbol, b.native_currency.symbol);
        assert_eq!(a.native_currency.decimals, b.native_currency.decimals);
        assert_eq!(a.rpc_urls, b.rpc_urls);
        assert_eq!(a.block_explorer_urls, b.block_explorer_urls);
        assert_eq!(a.icon_urls, b.icon_urls);
        assert_eq!(chain.rpc_urls(), record.rpc_endpoints().to_vec());
        assert_eq!(chain.faucets(), record.faucets().to_vec());
        let names: Vec<String> = record.features().iter().map(|f| f.name.clone()).collect();
        assert_eq!(chain.features(), names);
    }
    assert_eq!(Chain::Base.to_eip3085().block_explorer_urls.len(), 2);
    assert!(!Chain::Mainnet.to_eip3085().rpc_urls.is_empty());
}
