//! The static table: per-chain information projected from a record, and the
//! generation step that turns a registry snapshot into identifiers ordered by id.
use vstd::prelude::*;

use crate::sanitize::{symbol_name, symbolic_name};
use crate::schema::{
    clone_opt_string, lemma_valid_snapshot_fields, problem_at, valid_snapshot, validate_records,
    ChainRecord, Explorer, Feature, NativeCurrency, SnapshotError,
};

verus! {

/// The block time assumed for a chain without a known one.
pub const DEFAULT_BLOCK_TIME_MS: u64 = 12_000;

/// Nominal block time in milliseconds: a fixed table for known chains, else the
/// default.
pub open spec fn block_time_for(id: u64) -> u64 {
    if id == 1 || id == 11155111 {
        12_000
    } else if id == 100 {
        5_000
    } else if id == 8453 {
        2_000
    } else {
        DEFAULT_BLOCK_TIME_MS
    }
}

/// Nominal block time in milliseconds of a chain id.
pub fn block_time_ms_for(id: u64) -> (r: u64)
    ensures
        r == block_time_for(id),
{
    if id == 1 || id == 11155111 {
        12_000
    } else if id == 100 {
        5_000
    } else if id == 8453 {
        2_000
    } else {
        DEFAULT_BLOCK_TIME_MS
    }
}

/// How many blocks fit in a span of time: the exact quotient
/// `time_ms / block_time_ms`, left to the caller to round.
#[derive(Debug, Clone, Copy, PartialEq, Eq, Structural)]
pub struct BlockCount {
    pub time_ms: u64,
    pub block_time_ms: u64,
}

/// Chain metadata derived from a registry record.
#[derive(Debug)]
pub struct ChainInfo {
    pub id: u64,
    pub name: String,
    pub short_name: String,
    pub rpc_urls: Vec<String>,
    pub features: Vec<String>,
    pub faucets: Vec<String>,
    pub native_currency: NativeCurrency,
    pub info_url: String,
    pub slip44: Option<u64>,
    pub block_time_ms: u64,
    pub icon: Option<String>,
    pub explorers: Vec<Explorer>,
}

/// The names of a list of feature flags.
pub open spec fn names_of(fs: Seq<Feature>) -> Seq<String> {
    fs.map_values(|f: Feature| f.name)
}

/// `info` is the projection of `rec`, with the block time of its id.
pub open spec fn info_projects(info: ChainInfo, rec: ChainRecord) -> bool {
    &&& info.id == rec.chain_id
    &&& info.name == rec.name
    &&& info.short_name == rec.short_name
    &&& info.rpc_urls@ == rec.rpc@
    &&& info.features@ == names_of(rec.features@)
    &&& info.faucets@ == rec.faucets@
    &&& info.native_currency == rec.native_currency
    &&& info.info_url == rec.info_url
    &&& info.slip44 == rec.slip44
    &&& info.block_time_ms == block_time_for(rec.chain_id)
    &&& info.icon == rec.icon
    &&& info.explorers@ == rec.explorers@
}

/// A copy of a list of strings.
pub fn clone_strings(v: &Vec<String>) -> (r: Vec<String>)
    ensures
        r@ == v@,
{
    let mut r: Vec<String> = Vec::new();
    let mut i: usize = 0;
    while i < v.len()
        invariant
            i <= v@.len(),
            r@ == v@.subrange(0, i as int),
        decreases v@.len() - i,
    {
        r.push(v[i].clone());
        i = i + 1;
        assert(r@ =~= v@.subrange(0, i as int));
    }
    assert(v@ =~= v@.subrange(0, v@.len() as int));
    r
}

/// A copy of a list of explorers.
pub fn clone_explorers(v: &Vec<Explorer>) -> (r: Vec<Explorer>)
    ensures
        r@ == v@,
{
    let mut r: Vec<Explorer> = Vec::new();
    let mut i: usize = 0;
    while i < v.len()
        invariant
            i <= v@.len(),
            r@ == v@.subrange(0, i as int),
        decreases v@.len() - i,
    {
        r.push(v[i].clone());
        i = i + 1;
        assert(r@ =~= v@.subrange(0, i as int));
    }
    assert(v@ =~= v@.subrange(0, v@.len() as int));
    r
}

fn feature_names(v: &Vec<Feature>) -> (r: Vec<String>)
    ensures
        r@ == names_of(v@),
{
    let mut r: Vec<String> = Vec::new();
    let mut i: usize = 0;
    while i < v.len()
        invariant
            i <= v@.len(),
            r@ == names_of(v@.subrange(0, i as int)),
        decreases v@.len() - i,
    {
        r.push(v[i].name.clone());
        i = i + 1;
        assert(r@ =~= names_of(v@.subrange(0, i as int)));
    }
    assert(v@ =~= v@.subrange(0, v@.len() as int));
    r
}

impl ChainInfo {
    /// Projects a record, with the block time of its id.
    pub fn from_record(rec: &ChainRecord) -> (r: ChainInfo)
        ensures
            info_projects(r, *rec),
    {
        ChainInfo {
            id: rec.chain_id,
            name: rec.name.clone(),
            short_name: rec.short_name.clone(),
            rpc_urls: clone_strings(&rec.rpc),
            features: feature_names(&rec.features),
            faucets: clone_strings(&rec.faucets),
            native_currency: rec.native_currency.clone(),
            info_url: rec.info_url.clone(),
            slip44: rec.slip44,
            block_time_ms: block_time_ms_for(rec.chain_id),
            icon: clone_opt_string(&rec.icon),
            explorers: clone_explorers(&rec.explorers),
        }
    }

    /// The number of blocks that fit into `time_in_ms` milliseconds.
    pub fn blocks_in(&self, time_in_ms: u64) -> (r: BlockCount)
        ensures
            r.time_ms == time_in_ms,
            r.block_time_ms == self.block_time_ms,
    {
        BlockCount { time_ms: time_in_ms, block_time_ms: self.block_time_ms }
    }
}

} // verus!

verus! {

/// One line of the generated table: a chain's identifier and its information.
#[derive(Debug)]
pub struct TableEntry {
    pub ident: String,
    pub info: ChainInfo,
}

/// Why a snapshot cannot become a table.
#[derive(Debug)]
pub enum GenerateError {
    /// The snapshot itself is unacceptable.
    Snapshot(SnapshotError),
    /// Two records would receive this identifier.
    DuplicateIdentifier { ident: String },
}

/// The identifier that a record receives.
pub open spec fn record_symbol(rec: ChainRecord) -> Seq<char> {
    symbol_name(rec.short_name@, rec.chain_id)
}

/// Position `j` occurs in `idx`.
pub open spec fn taken(idx: Seq<int>, j: int) -> bool {
    exists|k: int| 0 <= k < idx.len() && idx[k] == j
}

/// `e` is the table line of `rec`.
pub open spec fn entry_matches(e: TableEntry, rec: ChainRecord) -> bool {
    e.ident@ == record_symbol(rec) && info_projects(e.info, rec)
}

/// No two records of `s` receive the same identifier.
pub open spec fn idents_distinct(s: Seq<ChainRecord>) -> bool {
    forall|i: int, j: int|
        0 <= i < s.len() && 0 <= j < s.len() && i != j ==> #[trigger] record_symbol(s[i])
            != #[trigger] record_symbol(s[j])
}

/// The chain ids of a table strictly ascend.
pub open spec fn ids_ascending(t: Seq<TableEntry>) -> bool {
    forall|i: int, j: int| 0 <= i < j < t.len() ==> (#[trigger] t[i]).info.id < (#[trigger] t[j]).info.id
}

/// Builds the table of a snapshot: every record, ordered by chain id, with its
/// identifier and information. Fails on an unacceptable snapshot, and where two
/// records would share an identifier.
pub fn generate_table(records: &Vec<ChainRecord>) -> (r: Result<Vec<TableEntry>, GenerateError>)
    ensures
        r is Ok <==> valid_snapshot(records@) && idents_distinct(records@),
        r matches Err(GenerateError::Snapshot(e)) <==> !valid_snapshot(records@),
        r matches Err(GenerateError::Snapshot(e)) ==> {
            &&& e.index < records@.len()
            &&& problem_at(records@, e.index as int) == Some(e.problem)
            &&& forall|j: int| 0 <= j < e.index ==> #[trigger] problem_at(records@, j) is None
        },
        r matches Err(GenerateError::DuplicateIdentifier { ident }) ==> exists|i: int, j: int|
            0 <= i < j < records@.len() && record_symbol(records@[i]) == ident@ && record_symbol(
                records@[j],
            ) == ident@,
        r matches Ok(t) ==> {
            &&& t@.len() == records@.len()
            &&& ids_ascending(t@)
            &&& forall|k: int|
                0 <= k < t@.len() ==> exists|j: int|
                    0 <= j < records@.len() && entry_matches(#[trigger] t@[k], records@[j])
            &&& forall|j: int|
                0 <= j < records@.len() ==> exists|k: int|
                    0 <= k < t@.len() && entry_matches(t@[k], #[trigger] records@[j])
        },
{
    match validate_records(records) {
        Err(e) => {
            return Err(GenerateError::Snapshot(e));
        },
        Ok(()) => {},
    }
    proof {
        lemma_valid_snapshot_fields(records@);
    }
    let n = records.len();
    let mut out: Vec<TableEntry> = Vec::new();
    let mut last: u64 = 0;
    let ghost mut idx: Seq<int> = Seq::empty();
    loop
        invariant
            n == records@.len(),
            valid_snapshot(records@),
            forall|i: int| 0 <= i < n ==> (#[trigger] records@[i]).chain_id > 0,
            forall|i: int, j: int|
                0 <= i < n && 0 <= j < n && i != j ==> (#[trigger] records@[i]).chain_id
                    != (#[trigger] records@[j]).chain_id,
            out@.len() == idx.len(),
            idx.len() <= n,
            idx.no_duplicates(),
            forall|k: int|
                0 <= k < idx.len() ==> 0 <= #[trigger] idx[k] < n && entry_matches(
                    out@[k],
                    records@[idx[k]],
                ),
            forall|k1: int, k2: int|
                0 <= k1 < k2 < idx.len() ==> records@[#[trigger] idx[k1]].chain_id
                    < records@[#[trigger] idx[k2]].chain_id,
            idx.len() == 0 ==> last == 0,
            idx.len() > 0 ==> last == records@[idx.last()].chain_id,
            forall|k: int| 0 <= k < idx.len() ==> records@[#[trigger] idx[k]].chain_id <= last,
            forall|j: int|
                0 <= j < n && (#[trigger] records@[j]).chain_id <= last ==> taken(idx, j),
        ensures
            out@.len() == idx.len(),
            idx.no_duplicates(),
            forall|k: int|
                0 <= k < idx.len() ==> 0 <= #[trigger] idx[k] < n && entry_matches(
                    out@[k],
                    records@[idx[k]],
                ),
            forall|k1: int, k2: int|
                0 <= k1 < k2 < idx.len() ==> records@[#[trigger] idx[k1]].chain_id
                    < records@[#[trigger] idx[k2]].chain_id,
            forall|j: int| 0 <= j < n ==> #[trigger] taken(idx, j),
        decreases n - idx.len(),
    {
        let mut best: usize = n;
        let mut j: usize = 0;
        while j < n
            invariant
                n == records@.len(),
                j <= n,
                best == n || (best < j && records@[best as int].chain_id > last),
                forall|m: int|
                    0 <= m < j && (#[trigger] records@[m]).chain_id > last ==> best < n
                        && records@[best as int].chain_id <= records@[m].chain_id,
            decreases n - j,
        {
            if records[j].chain_id > last && (best == n || records[j].chain_id
                < records[best].chain_id) {
                best = j;
            }
            j = j + 1;
        }
        if best == n {
            assert forall|m: int| 0 <= m < n implies #[trigger] taken(idx, m) by {
                assert(records@[m].chain_id <= last);
            }
            break;
        }
        let rec = &records[best];
        let ident = symbolic_name(rec.short_name.as_str(), rec.chain_id);
        let info = ChainInfo::from_record(rec);
        out.push(TableEntry { ident, info });
        let ghost old_idx = idx;
        proof {
            idx = idx.push(best as int);
            // the positions taken are distinct and below n
            assert forall|a: int, b: int| 0 <= a < b < idx.len() implies idx[a] != idx[b] by {
                if b < old_idx.len() {
                    assert(records@[old_idx[a]].chain_id < records@[old_idx[b]].chain_id);
                } else {
                    assert(records@[old_idx[a]].chain_id <= last);
                }
            }
            assert(idx.no_duplicates());
            idx.unique_seq_to_set();
            vstd::set_lib::lemma_int_range(0, n as int);
            assert(idx.to_set().subset_of(vstd::set_lib::set_int_range(0, n as int)));
            vstd::set_lib::lemma_len_subset(idx.to_set(), vstd::set_lib::set_int_range(0, n as int));
        }
        last = rec.chain_id;
        proof {
            assert forall|m: int|
                0 <= m < n && (#[trigger] records@[m]).chain_id <= last implies taken(idx, m) by {
                if m == best as int {
                    assert(idx[old_idx.len() as int] == m);
                } else if old_idx.len() > 0 && records@[m].chain_id <= records@[old_idx.last()].chain_id {
                    assert(taken(old_idx, m));
                    let k = choose|k: int| 0 <= k < old_idx.len() && old_idx[k] == m;
                    assert(idx[k] == m);
                } else if old_idx.len() == 0 && records@[m].chain_id == 0 {
                } else {
                    assert(records@[m].chain_id != records@[best as int].chain_id);
                }
            }
            assert forall|k: int| 0 <= k < idx.len() implies 0 <= #[trigger] idx[k] < n
                && entry_matches(out@[k], records@[idx[k]]) by {
                if k < old_idx.len() {
                    assert(idx[k] == old_idx[k]);
                }
            }
        }
    }
    let ghost pos = idx;
    proof {
        assert(pos.to_set() =~= vstd::set_lib::set_int_range(0, n as int)) by {
            assert forall|j: int| 0 <= j < n implies pos.to_set().contains(j) by {
                assert(taken(pos, j));
            }
        }
        pos.unique_seq_to_set();
        vstd::set_lib::lemma_int_range(0, n as int);
    }
    let m = out.len();
    let mut a: usize = 0;
    while a < m
        invariant
            m == out@.len(),
            m == pos.len(),
            n == records@.len(),
            pos.no_duplicates(),
            valid_snapshot(records@),
            a <= m,
            forall|k: int|
                0 <= k < pos.len() ==> 0 <= #[trigger] pos[k] < n && entry_matches(
                    out@[k],
                    records@[pos[k]],
                ),
            forall|x: int, y: int|
                0 <= x < y < a ==> (#[trigger] out@[x]).ident@ != (#[trigger] out@[y]).ident@,
        decreases m - a,
    {
        let mut b: usize = 0;
        while b < a
            invariant
                m == out@.len(),
                m == pos.len(),
                n == records@.len(),
                pos.no_duplicates(),
                valid_snapshot(records@),
                a < m,
                b <= a,
                forall|k: int|
                    0 <= k < pos.len() ==> 0 <= #[trigger] pos[k] < n && entry_matches(
                        out@[k],
                        records@[pos[k]],
                    ),
                forall|y: int| 0 <= y < b ==> (#[trigger] out@[y]).ident@ != out@[a as int].ident@,
            decreases a - b,
        {
            if out[b].ident == out[a].ident {
                let ident = out[a].ident.clone();
                proof {
                    let pb = pos[b as int];
                    let pa = pos[a as int];
                    assert(entry_matches(out@[b as int], records@[pb]));
                    assert(entry_matches(out@[a as int], records@[pa]));
                    assert(pb != pa);
                    if pb < pa {
                        assert(record_symbol(records@[pb]) == ident@ && record_symbol(records@[pa])
                            == ident@);
                    } else {
                        assert(record_symbol(records@[pa]) == ident@ && record_symbol(records@[pb])
                            == ident@);
                    }
                    assert(!idents_distinct(records@));
                }
                return Err(GenerateError::DuplicateIdentifier { ident });
            }
            b = b + 1;
        }
        a = a + 1;
    }
    proof {
        assert forall|i: int, j: int|
            0 <= i < n && 0 <= j < n && i != j implies #[trigger] record_symbol(records@[i])
            != #[trigger] record_symbol(records@[j]) by {
            assert(taken(pos, i));
            assert(taken(pos, j));
            let ki = choose|k: int| 0 <= k < pos.len() && pos[k] == i;
            let kj = choose|k: int| 0 <= k < pos.len() && pos[k] == j;
            assert(entry_matches(out@[ki], records@[pos[ki]]));
            assert(entry_matches(out@[kj], records@[pos[kj]]));
            if ki < kj {
                assert(out@[ki].ident@ != out@[kj].ident@);
            } else {
                assert(out@[kj].ident@ != out@[ki].ident@);
            }
        }
        assert forall|x: int, y: int| 0 <= x < y < out@.len() implies (#[trigger] out@[x]).info.id
            < (#[trigger] out@[y]).info.id by {
            assert(entry_matches(out@[x], records@[pos[x]]));
            assert(entry_matches(out@[y], records@[pos[y]]));
        }
        assert forall|k: int| 0 <= k < out@.len() implies exists|j: int|
            0 <= j < records@.len() && entry_matches(#[trigger] out@[k], records@[j]) by {
            assert(entry_matches(out@[k], records@[pos[k]]));
        }
        assert forall|j: int| 0 <= j < records@.len() implies exists|k: int|
            0 <= k < out@.len() && entry_matches(out@[k], #[trigger] records@[j]) by {
            assert(taken(pos, j));
            let k = choose|k: int| 0 <= k < pos.len() && pos[k] == j;
            assert(entry_matches(out@[k], records@[pos[k]]));
        }
    }
    Ok(out)
}

} // verus!
