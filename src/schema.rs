//! The registry's record model, field accessors and snapshot validation.
use vstd::prelude::*;

use crate::text::{trim_str, trimmed};

verus! {

/// One registry entry.
#[derive(Debug)]
pub struct ChainRecord {
    pub name: String,
    pub title: Option<String>,
    pub chain: String,
    pub icon: Option<String>,
    pub rpc: Vec<String>,
    pub features: Vec<Feature>,
    pub faucets: Vec<String>,
    pub native_currency: NativeCurrency,
    pub info_url: String,
    pub short_name: String,
    pub chain_id: u64,
    pub network_id: u64,
    pub slip44: Option<u64>,
    pub ens: Option<Ens>,
    pub explorers: Vec<Explorer>,
    pub parent: Option<Parent>,
    pub status: Option<String>,
    pub red_flags: Vec<String>,
}

impl ChainRecord {
    /// Access the nested native currency.
    pub fn native_currency(&self) -> (r: &NativeCurrency)
        ensures
            *r == self.native_currency,
    {
        &self.native_currency
    }

    /// Access RPC endpoints.
    pub fn rpc_endpoints(&self) -> (r: &[String])
        ensures
            r@ == self.rpc@,
    {
        self.rpc.as_slice()
    }

    /// Access faucet URLs.
    pub fn faucets(&self) -> (r: &[String])
        ensures
            r@ == self.faucets@,
    {
        self.faucets.as_slice()
    }

    /// Access feature flags.
    pub fn features(&self) -> (r: &[Feature])
        ensures
            r@ == self.features@,
    {
        self.features.as_slice()
    }

    /// Access explorers.
    pub fn explorers(&self) -> (r: &[Explorer])
        ensures
            r@ == self.explorers@,
    {
        self.explorers.as_slice()
    }

    /// Access red flags.
    pub fn red_flags(&self) -> (r: &[String])
        ensures
            r@ == self.red_flags@,
    {
        self.red_flags.as_slice()
    }

    /// Access parent network if present.
    pub fn parent(&self) -> (r: Option<&Parent>)
        ensures
            r is Some <==> self.parent is Some,
            r is Some ==> *r->0 == self.parent->0,
    {
        match &self.parent {
            Some(p) => Some(p),
            None => None,
        }
    }

    /// Access ENS registry if present.
    pub fn ens(&self) -> (r: Option<&Ens>)
        ensures
            r is Some <==> self.ens is Some,
            r is Some ==> *r->0 == self.ens->0,
    {
        match &self.ens {
            Some(e) => Some(e),
            None => None,
        }
    }
}

/// A named feature flag of a chain.
#[derive(Debug)]
pub struct Feature {
    pub name: String,
}

impl Clone for Feature {
    fn clone(&self) -> (r: Self)
        ensures
            r == *self,
    {
        Feature { name: self.name.clone() }
    }
}

/// The chain's native currency.
#[derive(Debug)]
pub struct NativeCurrency {
    pub name: String,
    pub symbol: String,
    pub decimals: u8,
}

impl Clone for NativeCurrency {
    fn clone(&self) -> (r: Self)
        ensures
            r == *self,
    {
        NativeCurrency { name: self.name.clone(), symbol: self.symbol.clone(), decimals: self.decimals }
    }
}

/// The address of an ENS registry.
#[derive(Debug)]
pub struct Ens {
    pub registry: String,
}

impl Clone for Ens {
    fn clone(&self) -> (r: Self)
        ensures
            r == *self,
    {
        Ens { registry: self.registry.clone() }
    }
}

/// A block explorer and the standard it follows.
#[derive(Debug)]
pub struct Explorer {
    pub name: String,
    pub url: String,
    pub standard: String,
    pub icon: Option<String>,
}

pub(crate) fn clone_opt_string(o: &Option<String>) -> (r: Option<String>)
    ensures
        r == *o,
{
    match o {
        Some(s) => Some(s.clone()),
        None => None,
    }
}

impl Clone for Explorer {
    fn clone(&self) -> (r: Self)
        ensures
            r == *self,
    {
        Explorer {
            name: self.name.clone(),
            url: self.url.clone(),
            standard: self.standard.clone(),
            icon: clone_opt_string(&self.icon),
        }
    }
}

/// The relation of a chain to the chain it settles on.
#[derive(Debug)]
pub struct Parent {
    pub type_field: String,
    pub chain: String,
    pub bridges: Vec<Bridge>,
}

impl Parent {
    /// Access bridges connecting this chain to its parent.
    pub fn bridges(&self) -> (r: &[Bridge])
        ensures
            r@ == self.bridges@,
    {
        self.bridges.as_slice()
    }
}

/// A bridge between a chain and its parent.
#[derive(Debug)]
pub struct Bridge {
    pub url: String,
}

impl Clone for Bridge {
    fn clone(&self) -> (r: Self)
        ensures
            r == *self,
    {
        Bridge { url: self.url.clone() }
    }
}

/// The characters of each string of a list.
pub open spec fn strs(s: Seq<String>) -> Seq<Seq<char>> {
    s.map_values(|x: String| x@)
}

/// The characters of an optional string.
pub open spec fn opt_view(o: Option<String>) -> Option<Seq<char>> {
    match o {
        Some(s) => Some(s@),
        None => None,
    }
}

/// An explorer as plain values: name, URL, standard and optional icon.
pub open spec fn explorer_view(e: Explorer) -> (Seq<char>, Seq<char>, Seq<char>, Option<Seq<char>>) {
    (e.name@, e.url@, e.standard@, opt_view(e.icon))
}

/// A list of explorers as plain values.
pub open spec fn explorer_views(s: Seq<Explorer>) -> Seq<(Seq<char>, Seq<char>, Seq<char>, Option<Seq<char>>)> {
    s.map_values(|e: Explorer| explorer_view(e))
}

/// What makes one record of a snapshot unacceptable.
#[derive(Debug, Clone, Copy, PartialEq, Eq, Structural)]
pub enum RecordProblem {
    ZeroChainId,
    EmptyName,
    EmptyShortName,
    ZeroDecimals,
    DuplicateChainId,
    DuplicateShortName,
}

/// The first unacceptable record of a snapshot, by position.
#[derive(Debug, Clone, Copy, PartialEq, Eq, Structural)]
pub struct SnapshotError {
    pub index: usize,
    pub problem: RecordProblem,
}

/// What is wrong with a record taken alone, checked in a fixed order.
pub open spec fn field_problem(r: ChainRecord) -> Option<RecordProblem> {
    if r.chain_id == 0 {
        Some(RecordProblem::ZeroChainId)
    } else if trimmed(r.name@).len() == 0 {
        Some(RecordProblem::EmptyName)
    } else if trimmed(r.short_name@).len() == 0 {
        Some(RecordProblem::EmptyShortName)
    } else if r.native_currency.decimals == 0 {
        Some(RecordProblem::ZeroDecimals)
    } else {
        None
    }
}

/// What is wrong with record `i` of `s`: its own fields first, then a clash with an
/// earlier record.
pub open spec fn problem_at(s: Seq<ChainRecord>, i: int) -> Option<RecordProblem> {
    match field_problem(s[i]) {
        Some(p) => Some(p),
        None => if exists|j: int| 0 <= j < i && s[j].chain_id == s[i].chain_id {
            Some(RecordProblem::DuplicateChainId)
        } else if exists|j: int| 0 <= j < i && s[j].short_name@ == s[i].short_name@ {
            Some(RecordProblem::DuplicateShortName)
        } else {
            None
        },
    }
}

/// A snapshot in which no record has a problem.
pub open spec fn valid_snapshot(s: Seq<ChainRecord>) -> bool {
    forall|i: int| 0 <= i < s.len() ==> #[trigger] problem_at(s, i) is None
}

/// Every record of a valid snapshot has a positive chain id, a name and a short name
/// that are not blank, and a currency with positive decimals; no two records share a
/// chain id or a short name.
pub proof fn lemma_valid_snapshot_fields(s: Seq<ChainRecord>)
    requires
        valid_snapshot(s),
    ensures
        forall|i: int|
            0 <= i < s.len() ==> {
                &&& (#[trigger] s[i]).chain_id > 0
                &&& trimmed(s[i].name@).len() > 0
                &&& trimmed(s[i].short_name@).len() > 0
                &&& s[i].native_currency.decimals > 0
            },
        forall|i: int, j: int|
            0 <= i < s.len() && 0 <= j < s.len() && i != j ==> {
                &&& (#[trigger] s[i]).chain_id != (#[trigger] s[j]).chain_id
                &&& s[i].short_name@ != s[j].short_name@
            },
{
    assert forall|i: int| 0 <= i < s.len() implies field_problem(#[trigger] s[i]) is None by {
        assert(problem_at(s, i) is None);
    }
    assert forall|i: int, j: int|
        0 <= i < s.len() && 0 <= j < s.len() && i != j implies {
            &&& (#[trigger] s[i]).chain_id != (#[trigger] s[j]).chain_id
            &&& s[i].short_name@ != s[j].short_name@
        } by {
        let (lo, hi) = if i < j { (i, j) } else { (j, i) };
        assert(problem_at(s, hi) is None);
        assert(field_problem(s[hi]) is None);
        assert(!(s[lo].chain_id == s[hi].chain_id));
    }
}

fn is_blank(s: &String) -> (r: bool)
    ensures
        r == (trimmed(s@).len() == 0),
{
    trim_str(s.as_str()).is_empty()
}

/// Checks every record of a snapshot, in order, and reports the first problem found.
pub fn validate_records(records: &Vec<ChainRecord>) -> (r: Result<(), SnapshotError>)
    ensures
        r is Ok <==> valid_snapshot(records@),
        r matches Err(e) ==> {
            &&& e.index < records@.len()
            &&& problem_at(records@, e.index as int) == Some(e.problem)
            &&& forall|j: int| 0 <= j < e.index ==> #[trigger] problem_at(records@, j) is None
        },
{
    let n = records.len();
    let mut i: usize = 0;
    while i < n
        invariant
            n == records@.len(),
            i <= n,
            forall|j: int| 0 <= j < i ==> #[trigger] problem_at(records@, j) is None,
        decreases n - i,
    {
        let rec = &records[i];
        let mut problem: Option<RecordProblem> = None;
        if rec.chain_id == 0 {
            problem = Some(RecordProblem::ZeroChainId);
        } else if is_blank(&rec.name) {
            problem = Some(RecordProblem::EmptyName);
        } else if is_blank(&rec.short_name) {
            problem = Some(RecordProblem::EmptyShortName);
        } else if rec.native_currency.decimals == 0 {
            problem = Some(RecordProblem::ZeroDecimals);
        } else {
            let mut dup_id = false;
            let mut dup_short = false;
            let mut j: usize = 0;
            while j < i
                invariant
                    n == records@.len(),
                    i < n,
                    j <= i,
                    *rec == records@[i as int],
                    dup_id <==> exists|k: int| 0 <= k < j && records@[k].chain_id == rec.chain_id,
                    dup_short <==> exists|k: int|
                        0 <= k < j && records@[k].short_name@ == rec.short_name@,
                decreases i - j,
            {
                if records[j].chain_id == rec.chain_id {
                    dup_id = true;
                }
                if records[j].short_name == rec.short_name {
                    dup_short = true;
                }
                j = j + 1;
            }
            if dup_id {
                problem = Some(RecordProblem::DuplicateChainId);
            } else if dup_short {
                problem = Some(RecordProblem::DuplicateShortName);
            }
        }
        assert(problem == problem_at(records@, i as int));
        match problem {
            Some(p) => {
                return Err(SnapshotError { index: i, problem: p });
            },
            None => {},
        }
        i = i + 1;
    }
    Ok(())
}

} // verus!
