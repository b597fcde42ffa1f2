use chainlist_rs::all_chains;
use chainlist_rs::sanitize::{default_name, sanitize_enum_name, symbolic_name};
use chainlist_rs::schema::{validate_records, ChainRecord, NativeCurrency, RecordProblem, SnapshotError};
use chainlist_rs::table::{generate_table, GenerateError};

fn record(id: u64, name: &str, short: &str) -> ChainRecord {
    ChainRecord {
        name: name.to_string(),
        title: None,
        chain: "ETH".to_string(),
        icon: None,
        rpc: vec![],
        features: vec![],
        faucets: vec![],
        native_currency: NativeCurrency { name: "Ether".to_string(), symbol: "ETH".to_string(), decimals: 18 },
        info_url: "https://example.org".to_string(),
        short_name: short.to_string(),
        chain_id: id,
        network_id: id,
        slip44: None,
        ens: None,
        explorers: vec![],
        parent: None,
        status: None,
        red_flags: vec![],
    }
}

#[test]
fn sanitizer_camel_cases_words() {
    assert_eq!(sanitize_enum_name("Arbitrum One", 42161), "ArbitrumOne");
    assert_eq!(symbolic_name("Arbitrum One", 42161), "ArbitrumOne");
    assert_eq!(sanitize_enum_name("arbitrum one", 42161), "ArbitrumOne");
    assert_eq!(sanitize_enum_name("arb1", 42161), "Arb1");
    assert_eq!(sanitize_enum_name("foo--bar__baz-", 7), "FooBarBaz");
    assert_eq!(sanitize_enum_name("zkSync-era", 324), "ZkSyncEra");
}

#[test]
fn sanitizer_overrides_and_fallback() {
    assert_eq!(symbolic_name("anything", 1), "Mainnet");
    assert_eq!(symbolic_name("eth", 1), "Mainnet");
    assert_eq!(symbolic_name("got", 31337), "Hardhat");
    assert_eq!(default_name(56), Some("Bnb"));
    assert_eq!(default_name(42161), None);
    assert_eq!(sanitize_enum_name("123", 999999), "Chain999999");
    assert_eq!(symbolic_name("123", 999999), "Chain999999");
    assert_eq!(sanitize_enum_name("", 31337), "Chain31337");
    assert_eq!(sanitize_enum_name("--", 0), "Chain0");
    assert_eq!(sanitize_enum_name("1inch", 5), "Chain5");
}

#[test]
fn bundled_snapshot_is_valid_and_generates_the_table() {
    let records = all_chains();
    assert_eq!(validate_records(&records), Ok(()));
    let table = match generate_table(&records) {
        Ok(t) => t,
        Err(e) => panic!("generation failed: {:?}", e),
    };
    let idents: Vec<&str> = table.iter().map(|e| e.ident.as_str()).collect();
    assert_eq!(
        idents,
        vec!["Mainnet", "Oeth", "Bnb", "Gnosis", "Pol", "Base", "Hardhat", "Arb1", "Sepolia"]
    );
    let ids: Vec<u64> = table.iter().map(|e| e.info.id).collect();
    assert_eq!(ids, vec![1, 10, 56, 100, 137, 8453, 31337, 42161, 11155111]);
}

#[test]
fn generation_sorts_by_chain_id() {
    let records = vec![record(42161, "Arbitrum One", "Arbitrum One"), record(1, "Ethereum", "eth"), record(123, "X", "123")];
    let table = generate_table(&records).expect("valid");
    let ids: Vec<u64> = table.iter().map(|e| e.info.id).collect();
    assert_eq!(ids, vec![1, 123, 42161]);
    let idents: Vec<&str> = table.iter().map(|e| e.ident.as_str()).collect();
    assert_eq!(idents, vec!["Mainnet", "Chain123", "ArbitrumOne"]);
    assert_eq!(table[2].info.block_time_ms, 12_000);
    assert_eq!(generate_table(&Vec::new()).map(|t| t.len()).ok(), Some(0));
}

#[test]
fn generation_rejects_identifier_collisions() {
    let records = vec![record(5, "A", "foo bar"), record(6, "B", "foo_bar")];
    match generate_table(&records) {
        Err(GenerateError::DuplicateIdentifier { ident }) => assert_eq!(ident, "FooBar"),
        other => panic!("unexpected {:?}", other),
    }
}

#[test]
fn generation_rejects_invalid_snapshots() {
    let records = vec![record(5, "A", "a"), record(5, "B", "b")];
    match generate_table(&records) {
        Err(GenerateError::Snapshot(e)) => {
            assert_eq!(e, SnapshotError { index: 1, problem: RecordProblem::DuplicateChainId })
        }
        other => panic!("unexpected {:?}", other),
    }
}

#[test]
fn validation_reports_each_problem() {
    let check = |records: Vec<ChainRecord>| validate_records(&records);
    assert_eq!(
        check(vec![record(0, "A", "a")]),
        Err(SnapshotError { index: 0, problem: RecordProblem::ZeroChainId })
    );
    assert_eq!(
        check(vec![record(1, "A", "a"), record(2, "  ", "b")]),
        Err(SnapshotError { index: 1, problem: RecordProblem::EmptyName })
    );
    assert_eq!(
        check(vec![record(1, "A", "\t")]),
        Err(SnapshotError { index: 0, problem: RecordProblem::EmptyShortName })
    );
    let mut r = record(1, "A", "a");
    r.native_currency.decimals = 0;
    assert_eq!(check(vec![r]), Err(SnapshotError { index: 0, problem: RecordProblem::ZeroDecimals }));
    assert_eq!(
        check(vec![record(1, "A", "a"), record(2, "B", "b"), record(1, "C", "c")]),
        Err(SnapshotError { index: 2, problem: RecordProblem::DuplicateChainId })
    );
    assert_eq!(
        check(vec![record(1, "A", "a"), record(2, "B", "a")]),
        Err(SnapshotError { index: 1, problem: RecordProblem::DuplicateShortName })
    );
    assert_eq!(check(vec![]), Ok(()));
    assert_eq!(check(vec![record(1, " A ", "a"), record(2, "B", "A")]), Ok(()));
}

#[test]
fn sanitizer_uses_full_upper_case_mapping() {
    assert_eq!(sanitize_enum_name("ßeta chain", 9), "SSetaChain");
    assert_eq!(sanitize_enum_name("évm-net", 9), "ÉvmNet");
}

#[test]
fn record_accessors_expose_fields() {
    let r = chainlist_rs::Chain::Gnosis.record();
    assert_eq!(r.rpc_endpoints().len(), r.rpc.len());
    assert_eq!(r.faucets().len(), 3);
    assert_eq!(r.features()[1].name, "EIP1559");
    assert_eq!(r.explorers()[0].url, "https://gnosisscan.io");
    assert!(r.red_flags().is_empty());
    assert_eq!(r.native_currency().symbol, "XDAI");
    assert!(r.ens().is_none());
    let info = chainlist_rs::Chain::Gnosis.info();
    let p = info.to_eip3085();
    assert_eq!(p.chain_id, "0x64");
    assert_eq!(p.icon_urls, vec!["gnosis".to_string()]);
}
