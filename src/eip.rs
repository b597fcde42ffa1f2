//! EIP-3085 wallet parameters projected from a record or from the static table.
use vstd::prelude::*;

use crate::hexfmt::{format_hex_id, hex_id};
use crate::schema::{explorer_views, opt_view, strs, ChainRecord, Explorer, NativeCurrency};
use crate::table::{clone_strings, ChainInfo};
use crate::text::owned;

verus! {

/// EIP-3085 wallet addChain parameters.
#[derive(Debug)]
pub struct Eip3085Params {
    /// Hex string chain ID, e.g. "0x1".
    pub chain_id: String,
    pub chain_name: String,
    pub native_currency: NativeCurrency,
    pub rpc_urls: Vec<String>,
    pub block_explorer_urls: Vec<String>,
    pub icon_urls: Vec<String>,
}

/// An explorer that a wallet can use: its standard is `EIP3091` or empty.
pub open spec fn wallet_explorer(e: Explorer) -> bool {
    e.standard@ == "EIP3091"@ || e.standard@.len() == 0
}

/// The URLs of the explorers that a wallet can use, in their order.
pub open spec fn wallet_urls(es: Seq<Explorer>) -> Seq<String>
    decreases es.len(),
{
    if es.len() == 0 {
        Seq::empty()
    } else if wallet_explorer(es.last()) {
        wallet_urls(es.drop_last()).push(es.last().url)
    } else {
        wallet_urls(es.drop_last())
    }
}

/// The icon list: the icon alone if there is one, else empty.
pub open spec fn icon_list(icon: Option<String>) -> Seq<String> {
    match icon {
        Some(s) => seq![s],
        None => Seq::empty(),
    }
}

/// The URLs of the wallet-usable explorers among explorers given as plain values.
pub open spec fn wallet_url_views(
    es: Seq<(Seq<char>, Seq<char>, Seq<char>, Option<Seq<char>>)>,
) -> Seq<Seq<char>>
    decreases es.len(),
{
    if es.len() == 0 {
        Seq::empty()
    } else if es.last().2 == "EIP3091"@ || es.last().2.len() == 0 {
        wallet_url_views(es.drop_last()).push(es.last().1)
    } else {
        wallet_url_views(es.drop_last())
    }
}

/// The icon list of an optional icon given as plain characters.
pub open spec fn icon_views(icon: Option<Seq<char>>) -> Seq<Seq<char>> {
    match icon {
        Some(s) => seq![s],
        None => Seq::empty(),
    }
}

/// The explorer URLs chosen for a wallet, read as characters, are those chosen from
/// the explorers read as plain values.
pub proof fn lemma_wallet_url_views(es: Seq<Explorer>)
    ensures
        strs(wallet_urls(es)) == wallet_url_views(explorer_views(es)),
    decreases es.len(),
{
    if es.len() > 0 {
        lemma_wallet_url_views(es.drop_last());
        assert(explorer_views(es).drop_last() =~= explorer_views(es.drop_last()));
        if wallet_explorer(es.last()) {
            assert(strs(wallet_urls(es)) =~= strs(wallet_urls(es.drop_last())).push(es.last().url@));
        }
    } else {
        assert(strs(wallet_urls(es)) =~= wallet_url_views(explorer_views(es)));
    }
}

/// Wallet parameters read as characters: the RPC, explorer and icon lists follow from
/// the fields they were projected from.
pub proof fn lemma_params_views(
    p: Eip3085Params,
    id: u64,
    name: String,
    currency: NativeCurrency,
    rpc: Seq<String>,
    explorers: Seq<Explorer>,
    icon: Option<String>,
)
    requires
        params_of(p, id, name, currency, rpc, explorers, icon),
    ensures
        strs(p.rpc_urls@) == strs(rpc),
        strs(p.block_explorer_urls@) == wallet_url_views(explorer_views(explorers)),
        strs(p.icon_urls@) == icon_views(opt_view(icon)),
{
    lemma_wallet_url_views(explorers);
    assert(strs(p.icon_urls@) =~= icon_views(opt_view(icon)));
}

/// `p` holds the wallet parameters of a chain with these fields.
pub open spec fn params_of(
    p: Eip3085Params,
    id: u64,
    name: String,
    currency: NativeCurrency,
    rpc: Seq<String>,
    explorers: Seq<Explorer>,
    icon: Option<String>,
) -> bool {
    &&& p.chain_id@ == hex_id(id)
    &&& p.chain_name == name
    &&& p.native_currency == currency
    &&& p.rpc_urls@ == rpc
    &&& p.block_explorer_urls@ == wallet_urls(explorers)
    &&& p.icon_urls@ == icon_list(icon)
}

/// The URLs of the explorers that a wallet can use.
pub fn wallet_explorer_urls(es: &Vec<Explorer>) -> (r: Vec<String>)
    ensures
        r@ == wallet_urls(es@),
{
    let eip3091 = owned("EIP3091");
    let mut r: Vec<String> = Vec::new();
    let mut i: usize = 0;
    while i < es.len()
        invariant
            i <= es@.len(),
            eip3091@ == "EIP3091"@,
            r@ == wallet_urls(es@.subrange(0, i as int)),
        decreases es@.len() - i,
    {
        let e = &es[i];
        if e.standard == eip3091 || e.standard.as_str().is_empty() {
            r.push(e.url.clone());
        }
        proof {
            assert(es@.subrange(0, i + 1).drop_last() =~= es@.subrange(0, i as int));
        }
        i = i + 1;
    }
    assert(es@ =~= es@.subrange(0, es@.len() as int));
    r
}

fn icon_urls(icon: &Option<String>) -> (r: Vec<String>)
    ensures
        r@ == icon_list(*icon),
{
    let mut r: Vec<String> = Vec::new();
    match icon {
        Some(s) => r.push(s.clone()),
        None => {},
    }
    assert(r@ =~= icon_list(*icon));
    r
}

impl Eip3085Params {
    fn from_parts(
        chain_id: u64,
        chain_name: &String,
        native_currency: &NativeCurrency,
        rpc_urls: &Vec<String>,
        explorer_urls: Vec<String>,
        icon_urls: Vec<String>,
    ) -> (r: Self)
        ensures
            r.chain_id@ == hex_id(chain_id),
            r.chain_name == *chain_name,
            r.native_currency == *native_currency,
            r.rpc_urls@ == rpc_urls@,
            r.block_explorer_urls@ == explorer_urls@,
            r.icon_urls@ == icon_urls@,
    {
        Eip3085Params {
            chain_id: format_hex_id(chain_id),
            chain_name: chain_name.clone(),
            native_currency: native_currency.clone(),
            rpc_urls: clone_strings(rpc_urls),
            block_explorer_urls: explorer_urls,
            icon_urls,
        }
    }
}

impl ChainRecord {
    /// Hex chain ID string (usable for EIP-3085/3326).
    pub fn chain_id_hex(&self) -> (r: String)
        ensures
            r@ == hex_id(self.chain_id),
    {
        format_hex_id(self.chain_id)
    }

    /// Convert schema record to EIP-3085 wallet parameters.
    pub fn to_eip3085(&self) -> (r: Eip3085Params)
        ensures
            params_of(
                r,
                self.chain_id,
                self.name,
                self.native_currency,
                self.rpc@,
                self.explorers@,
                self.icon,
            ),
    {
        let explorer_urls = wallet_explorer_urls(&self.explorers);
        let icons = icon_urls(&self.icon);
        Eip3085Params::from_parts(
            self.chain_id,
            &self.name,
            &self.native_currency,
            &self.rpc,
            explorer_urls,
            icons,
        )
    }
}

impl ChainInfo {
    /// Convert to EIP-3085 wallet parameters.
    pub fn to_eip3085(&self) -> (r: Eip3085Params)
        ensures
            params_of(
                r,
                self.id,
                self.name,
                self.native_currency,
                self.rpc_urls@,
                self.explorers@,
                self.icon,
            ),
    {
        let explorer_urls = wallet_explorer_urls(&self.explorers);
        let icons = icon_urls(&self.icon);
        Eip3085Params::from_parts(
            self.id,
            &self.name,
            &self.native_currency,
            &self.rpc_urls,
            explorer_urls,
            icons,
        )
    }
}

} // verus!
