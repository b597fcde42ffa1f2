//! The closed set of known chains: their bundled records, the information the
//! static table holds for each, and lookups by chain id. The bundled set is a fixed
//! subset of the public registry.
use vstd::prelude::*;

use crate::eip::{icon_views, lemma_params_views, params_of, wallet_url_views, Eip3085Params};
use crate::hexfmt::{format_hex_id, hex_id};
use crate::sanitize::{override_name, sanitized};
use crate::schema::{
    explorer_views, opt_view, strs, Bridge, ChainRecord, Ens, Explorer, Feature, NativeCurrency,
    Parent,
};
use crate::table::{block_time_for, names_of, record_symbol, BlockCount, ChainInfo};
use crate::text::owned;

verus! {

/// The known blockchain networks, in ascending order of chain id.
#[derive(Debug, Clone, Copy, PartialEq, Eq, Hash, Structural)]
pub enum Chain {
    /// Ethereum Mainnet (Chain ID: 1)
    Mainnet,
    /// OP Mainnet (Chain ID: 10)
    Oeth,
    /// BNB Smart Chain Mainnet (Chain ID: 56)
    Bnb,
    /// Gnosis (Chain ID: 100)
    Gnosis,
    /// Polygon Mainnet (Chain ID: 137)
    Pol,
    /// Base (Chain ID: 8453)
    Base,
    /// GoChain Testnet (Chain ID: 31337)
    Hardhat,
    /// Arbitrum One (Chain ID: 42161)
    Arb1,
    /// Sepolia (Chain ID: 11155111)
    Sepolia,
}

/// Error indicating that a particular chain ID is not supported.
#[derive(Debug, Clone, Copy, PartialEq, Eq, Structural)]
pub struct ChainIdNotSupported;

/// Every known chain, in ascending order of chain id.
pub open spec fn all_variants() -> Seq<Chain> {
    seq![
        Chain::Mainnet, Chain::Oeth, Chain::Bnb, Chain::Gnosis, Chain::Pol, Chain::Base, Chain::Hardhat, Chain::Arb1, Chain::Sepolia,
    ]
}

/// The known chain with this id, if there is one.
pub open spec fn chain_of_id(id: u64) -> Option<Chain> {
    if id == 1 {
        Some(Chain::Mainnet)
    } else if id == 10 {
        Some(Chain::Oeth)
    } else if id == 56 {
        Some(Chain::Bnb)
    } else if id == 100 {
        Some(Chain::Gnosis)
    } else if id == 137 {
        Some(Chain::Pol)
    } else if id == 8453 {
        Some(Chain::Base)
    } else if id == 31337 {
        Some(Chain::Hardhat)
    } else if id == 42161 {
        Some(Chain::Arb1)
    } else if id == 11155111 {
        Some(Chain::Sepolia)
    } else {
        None
    }
}

/// The scalar fields of a bundled record, as the static table states them.
pub open spec fn record_summary(r: ChainRecord, c: Chain) -> bool {
    &&& r.chain_id == c.id_spec()
    &&& r.name@ == c.name_spec()@
    &&& r.short_name@ == c.short_name_spec()@
    &&& r.info_url@ == c.info_url_spec()@
    &&& r.slip44 == c.slip44_spec()
    &&& r.native_currency.name@ == c.currency_spec().0@
    &&& r.native_currency.symbol@ == c.currency_spec().1@
    &&& r.native_currency.decimals == c.currency_spec().2
    &&& strs(r.rpc@) == c.rpc_spec()
    &&& strs(names_of(r.features@)) == c.features_spec()
    &&& strs(r.faucets@) == c.faucets_spec()
    &&& explorer_views(r.explorers@) == c.explorers_spec()
    &&& opt_view(r.icon) == c.icon_spec()
}

/// The information the static table holds for a chain, read as plain values.
pub open spec fn info_summary(i: ChainInfo, c: Chain) -> bool {
    &&& i.id == c.id_spec()
    &&& i.name@ == c.name_spec()@
    &&& i.short_name@ == c.short_name_spec()@
    &&& i.info_url@ == c.info_url_spec()@
    &&& i.slip44 == c.slip44_spec()
    &&& i.native_currency.name@ == c.currency_spec().0@
    &&& i.native_currency.symbol@ == c.currency_spec().1@
    &&& i.native_currency.decimals == c.currency_spec().2
    &&& strs(i.rpc_urls@) == c.rpc_spec()
    &&& strs(i.features@) == c.features_spec()
    &&& strs(i.faucets@) == c.faucets_spec()
    &&& explorer_views(i.explorers@) == c.explorers_spec()
    &&& opt_view(i.icon) == c.icon_spec()
    &&& i.block_time_ms == block_time_for(c.id_spec())
}

/// The wallet parameters of a chain, read as plain values.
pub open spec fn chain_params(p: Eip3085Params, c: Chain) -> bool {
    &&& p.chain_id@ == hex_id(c.id_spec())
    &&& p.chain_name@ == c.name_spec()@
    &&& p.native_currency.name@ == c.currency_spec().0@
    &&& p.native_currency.symbol@ == c.currency_spec().1@
    &&& p.native_currency.decimals == c.currency_spec().2
    &&& strs(p.rpc_urls@) == c.rpc_spec()
    &&& strs(p.block_explorer_urls@) == wallet_url_views(c.explorers_spec())
    &&& strs(p.icon_urls@) == icon_views(c.icon_spec())
}

impl Chain {
    /// The chain id.
    pub open spec fn id_spec(self) -> u64 {
        match self {
            Chain::Mainnet => 1,
            Chain::Oeth => 10,
            Chain::Bnb => 56,
            Chain::Gnosis => 100,
            Chain::Pol => 137,
            Chain::Base => 8453,
            Chain::Hardhat => 31337,
            Chain::Arb1 => 42161,
            Chain::Sepolia => 11155111,
        }
    }

    /// The display name.
    pub open spec fn name_spec(self) -> &'static str {
        match self {
            Chain::Mainnet => "Ethereum Mainnet",
            Chain::Oeth => "OP Mainnet",
            Chain::Bnb => "BNB Smart Chain Mainnet",
            Chain::Gnosis => "Gnosis",
            Chain::Pol => "Polygon Mainnet",
            Chain::Base => "Base",
            Chain::Hardhat => "GoChain Testnet",
            Chain::Arb1 => "Arbitrum One",
            Chain::Sepolia => "Sepolia",
        }
    }

    /// The short name.
    pub open spec fn short_name_spec(self) -> &'static str {
        match self {
            Chain::Mainnet => "eth",
            Chain::Oeth => "oeth",
            Chain::Bnb => "bnb",
            Chain::Gnosis => "gno",
            Chain::Pol => "pol",
            Chain::Base => "base",
            Chain::Hardhat => "got",
            Chain::Arb1 => "arb1",
            Chain::Sepolia => "sep",
        }
    }

    /// The informational URL.
    pub open spec fn info_url_spec(self) -> &'static str {
        match self {
            Chain::Mainnet => "https://ethereum.org",
            Chain::Oeth => "https://optimism.io",
            Chain::Bnb => "https://www.bnbchain.org/en",
            Chain::Gnosis => "https://docs.gnosischain.com",
            Chain::Pol => "https://polygon.technology/",
            Chain::Base => "https://base.org",
            Chain::Hardhat => "https://gochain.io",
            Chain::Arb1 => "https://arbitrum.io",
            Chain::Sepolia => "https://sepolia.otterscan.io",
        }
    }

    /// The SLIP-44 coin type, if any.
    pub open spec fn slip44_spec(self) -> Option<u64> {
        match self {
            Chain::Mainnet => Some(60),
            Chain::Oeth => None,
            Chain::Bnb => Some(714),
            Chain::Gnosis => Some(700),
            Chain::Pol => Some(966),
            Chain::Base => None,
            Chain::Hardhat => Some(6060),
            Chain::Arb1 => None,
            Chain::Sepolia => Some(1),
        }
    }

    /// The RPC endpoints.
    pub open spec fn rpc_spec(self) -> Seq<Seq<char>> {
        match self {
            Chain::Mainnet => seq!["https://mainnet.infura.io/v3/${INFURA_API_KEY}"@, "wss://mainnet.infura.io/ws/v3/${INFURA_API_KEY}"@, "https://api.mycryptoapi.com/eth"@, "https://cloudflare-eth.com"@, "https://ethereum-rpc.publicnode.com"@, "wss://ethereum-rpc.publicnode.com"@, "https://mainnet.gateway.tenderly.co"@, "wss://mainnet.gateway.tenderly.co"@, "https://rpc.blocknative.com/boost"@, "https://rpc.flashbots.net"@, "https://rpc.flashbots.net/fast"@, "https://rpc.mevblocker.io"@],
            Chain::Oeth => seq!["https://mainnet.optimism.io"@, "https://optimism-rpc.publicnode.com"@, "wss://optimism-rpc.publicnode.com"@, "https://optimism.gateway.tenderly.co"@, "wss://optimism.gateway.tenderly.co"@, "https://optimism.drpc.org"@, "wss://optimism.drpc.org"@],
            Chain::Bnb => seq!["https://bsc-dataseed1.bnbchain.org"@, "https://bsc-dataseed2.bnbchain.org"@, "https://bsc-dataseed3.bnbchain.org"@, "https://bsc-dataseed4.bnbchain.org"@, "https://bsc-dataseed1.defibit.io"@, "https://bsc-dataseed1.ninicoin.io"@, "https://bsc-rpc.publicnode.com"@, "wss://bsc-rpc.publicnode.com"@, "wss://bsc-ws-node.nariox.org"@],
            Chain::Gnosis => seq!["https://rpc.gnosischain.com"@, "wss://rpc.gnosischain.com/wss"@, "https://gnosis-mainnet.public.blastapi.io"@, "https://gnosis.drpc.org"@, "https://gnosis-rpc.publicnode.com"@, "wss://gnosis-rpc.publicnode.com"@],
            Chain::Pol => seq!["https://polygon-rpc.com/"@, "https://rpc-mainnet.matic.network"@, "https://rpc-mainnet.maticvigil.com"@, "https://polygon-bor-rpc.publicnode.com"@, "wss://polygon-bor-rpc.publicnode.com"@, "https://polygon.gateway.tenderly.co"@, "wss://polygon.gateway.tenderly.co"@],
            Chain::Base => seq!["https://mainnet.base.org/"@, "https://developer-access-mainnet.base.org/"@, "https://base.gateway.tenderly.co"@, "wss://base.gateway.tenderly.co"@, "https://base-rpc.publicnode.com"@, "wss://base-rpc.publicnode.com"@],
            Chain::Hardhat => seq!["https://testnet-rpc.gochain.io"@],
            Chain::Arb1 => seq!["https://arbitrum-mainnet.infura.io/v3/${INFURA_API_KEY}"@, "https://arb-mainnet.g.alchemy.com/v2/${ALCHEMY_API_KEY}"@, "https://arb1.arbitrum.io/rpc"@, "https://arbitrum-one.publicnode.com"@, "wss://arbitrum-one.publicnode.com"@],
            Chain::Sepolia => seq!["https://rpc.sepolia.org"@, "https://rpc2.sepolia.org"@, "https://rpc.sepolia.online"@, "https://www.sepoliarpc.space"@, "https://rpc-sepolia.rockx.com"@, "https://rpc.bordel.wtf/sepolia"@, "https://ethereum-sepolia-rpc.publicnode.com"@, "wss://ethereum-sepolia-rpc.publicnode.com"@],
        }
    }

    /// The names of the feature flags.
    pub open spec fn features_spec(self) -> Seq<Seq<char>> {
        match self {
            Chain::Mainnet => seq!["EIP155"@, "EIP1559"@],
            Chain::Oeth => seq!["EIP155"@, "EIP1559"@],
            Chain::Bnb => seq!["EIP155"@],
            Chain::Gnosis => seq!["EIP155"@, "EIP1559"@],
            Chain::Pol => seq!["EIP155"@],
            Chain::Base => Seq::empty(),
            Chain::Hardhat => Seq::empty(),
            Chain::Arb1 => Seq::empty(),
            Chain::Sepolia => seq!["EIP155"@, "EIP1559"@],
        }
    }

    /// The faucet URLs.
    pub open spec fn faucets_spec(self) -> Seq<Seq<char>> {
        match self {
            Chain::Mainnet => Seq::empty(),
            Chain::Oeth => Seq::empty(),
            Chain::Bnb => Seq::empty(),
            Chain::Gnosis => seq!["https://gnosisfaucet.com"@, "https://stakely.io/faucet/gnosis-chain-xdai"@, "https://faucet.prussia.dev/xdai"@],
            Chain::Pol => Seq::empty(),
            Chain::Base => Seq::empty(),
            Chain::Hardhat => Seq::empty(),
            Chain::Arb1 => Seq::empty(),
            Chain::Sepolia => seq!["http://fauceth.komputing.org?chain=11155111&address=${ADDRESS}"@],
        }
    }

    /// The explorers: name, URL, standard, icon.
    pub open spec fn explorers_spec(self) -> Seq<(Seq<char>, Seq<char>, Seq<char>, Option<Seq<char>>)> {
        match self {
            Chain::Mainnet => seq![("etherscan"@, "https://etherscan.io"@, "EIP3091"@, None), ("blockscout"@, "https://eth.blockscout.com"@, "EIP3091"@, Some("blockscout"@)), ("dexguru"@, "https://ethereum.dex.guru"@, "EIP3091"@, Some("dexguru"@)), ("Routescan"@, "https://ethereum.routescan.io"@, "EIP3091"@, None)],
            Chain::Oeth => seq![("etherscan"@, "https://optimistic.etherscan.io"@, "EIP3091"@, None), ("blockscout"@, "https://optimism.blockscout.com"@, "EIP3091"@, Some("blockscout"@)), ("dexguru"@, "https://optimism.dex.guru"@, "EIP3091"@, Some("dexguru"@))],
            Chain::Bnb => seq![("bscscan"@, "https://bscscan.com"@, "EIP3091"@, None), ("dexguru"@, "https://bnb.dex.guru"@, "EIP3091"@, Some("dexguru"@))],
            Chain::Gnosis => seq![("gnosisscan"@, "https://gnosisscan.io"@, "EIP3091"@, None), ("blockscout"@, "https://gnosis.blockscout.com"@, "EIP3091"@, Some("blockscout"@)), ("dexguru"@, "https://gnosis.dex.guru"@, "EIP3091"@, Some("dexguru"@))],
            Chain::Pol => seq![("polygonscan"@, "https://polygonscan.com"@, "EIP3091"@, None), ("dexguru"@, "https://polygon.dex.guru"@, "EIP3091"@, Some("dexguru"@))],
            Chain::Base => seq![("basescan"@, "https://basescan.org"@, "none"@, None), ("basescout"@, "https://base.blockscout.com"@, "EIP3091"@, Some("blockscout"@)), ("dexguru"@, "https://base.dex.guru"@, "EIP3091"@, Some("dexguru"@))],
            Chain::Hardhat => seq![("GoChain Testnet Explorer"@, "https://testnet-explorer.gochain.io"@, "EIP3091"@, None)],
            Chain::Arb1 => seq![("Arbiscan"@, "https://arbiscan.io"@, "EIP3091"@, None), ("Arbitrum Explorer"@, "https://explorer.arbitrum.io"@, "EIP3091"@, None), ("dexguru"@, "https://arbitrum.dex.guru"@, "EIP3091"@, Some("dexguru"@))],
            Chain::Sepolia => seq![("etherscan-sepolia"@, "https://sepolia.etherscan.io"@, "EIP3091"@, None), ("otterscan-sepolia"@, "https://sepolia.otterscan.io"@, "EIP3091"@, None)],
        }
    }

    /// The icon, if any.
    pub open spec fn icon_spec(self) -> Option<Seq<char>> {
        match self {
            Chain::Mainnet => Some("ethereum"@),
            Chain::Oeth => Some("optimism"@),
            Chain::Bnb => None,
            Chain::Gnosis => Some("gnosis"@),
            Chain::Pol => Some("polygon"@),
            Chain::Base => Some("base"@),
            Chain::Hardhat => None,
            Chain::Arb1 => None,
            Chain::Sepolia => None,
        }
    }

    /// The name of the variant.
    pub open spec fn ident_spec(self) -> &'static str {
        match self {
            Chain::Mainnet => "Mainnet",
            Chain::Oeth => "Oeth",
            Chain::Bnb => "Bnb",
            Chain::Gnosis => "Gnosis",
            Chain::Pol => "Pol",
            Chain::Base => "Base",
            Chain::Hardhat => "Hardhat",
            Chain::Arb1 => "Arb1",
            Chain::Sepolia => "Sepolia",
        }
    }

    /// The native currency: name, symbol, decimals.
    pub open spec fn currency_spec(self) -> (&'static str, &'static str, u8) {
        match self {
            Chain::Mainnet => ("Ether", "ETH", 18),
            Chain::Oeth => ("Ether", "ETH", 18),
            Chain::Bnb => ("BNB Chain Native Token", "BNB", 18),
            Chain::Gnosis => ("xDAI", "XDAI", 18),
            Chain::Pol => ("POL", "POL", 18),
            Chain::Base => ("Ether", "ETH", 18),
            Chain::Hardhat => ("GoChain Coin", "GO", 18),
            Chain::Arb1 => ("Ether", "ETH", 18),
            Chain::Sepolia => ("Sepolia Ether", "ETH", 18),
        }
    }

    /// Every known chain, in ascending order of chain id.
    pub fn all() -> (r: Vec<Chain>)
        ensures
            r@ == all_variants(),
    {
        let r = vec![
            Chain::Mainnet, Chain::Oeth, Chain::Bnb, Chain::Gnosis, Chain::Pol, Chain::Base, Chain::Hardhat, Chain::Arb1, Chain::Sepolia,
        ];
        assert(r@ =~= all_variants());
        r
    }

    /// Returns the numerical ID of this chain.
    pub fn id(&self) -> (r: u64)
        ensures
            r == self.id_spec(),
    {
        match self {
            Chain::Mainnet => 1,
            Chain::Oeth => 10,
            Chain::Bnb => 56,
            Chain::Gnosis => 100,
            Chain::Pol => 137,
            Chain::Base => 8453,
            Chain::Hardhat => 31337,
            Chain::Arb1 => 42161,
            Chain::Sepolia => 11155111,
        }
    }

    /// The chain with this id, or an error for an id outside the known set.
    pub fn try_from(value: u64) -> (r: Result<Chain, ChainIdNotSupported>)
        ensures
            r == (match chain_of_id(value) {
                Some(c) => Ok(c),
                None => Err(ChainIdNotSupported),
            }),
    {
        if value == 1 {
            Ok(Chain::Mainnet)
        } else if value == 10 {
            Ok(Chain::Oeth)
        } else if value == 56 {
            Ok(Chain::Bnb)
        } else if value == 100 {
            Ok(Chain::Gnosis)
        } else if value == 137 {
            Ok(Chain::Pol)
        } else if value == 8453 {
            Ok(Chain::Base)
        } else if value == 31337 {
            Ok(Chain::Hardhat)
        } else if value == 42161 {
            Ok(Chain::Arb1)
        } else if value == 11155111 {
            Ok(Chain::Sepolia)
        } else {
            Err(ChainIdNotSupported)
        }
    }

    /// The chain with the id given as a 256-bit unsigned integer in four 64-bit limbs,
    /// least significant first; an id above the 64-bit range is not supported.
    pub fn try_from_limbs(limbs: [u64; 4]) -> (r: Result<Chain, ChainIdNotSupported>)
        ensures
            r == (if limbs@[1] == 0 && limbs@[2] == 0 && limbs@[3] == 0 {
                match chain_of_id(limbs@[0]) {
                    Some(c) => Ok(c),
                    None => Err(ChainIdNotSupported),
                }
            } else {
                Err(ChainIdNotSupported)
            }),
    {
        if limbs[1] != 0 || limbs[2] != 0 || limbs[3] != 0 {
            return Err(ChainIdNotSupported);
        }
        Chain::try_from(limbs[0])
    }

    /// The registry record of this chain.
    pub fn record(&self) -> (r: ChainRecord)
        ensures
            record_summary(r, *self),
    {
        match self {
            Chain::Mainnet => mainnet_record(),
            Chain::Oeth => oeth_record(),
            Chain::Bnb => bnb_record(),
            Chain::Gnosis => gnosis_record(),
            Chain::Pol => pol_record(),
            Chain::Base => base_record(),
            Chain::Hardhat => hardhat_record(),
            Chain::Arb1 => arb1_record(),
            Chain::Sepolia => sepolia_record(),
        }
    }

    /// Returns chain information: the projection of the chain's record.
    pub fn info(&self) -> (r: ChainInfo)
        ensures
            info_summary(r, *self),
    {
        let rec = self.record();
        ChainInfo::from_record(&rec)
    }

    /// Returns the canonical name of this chain.
    pub fn name(&self) -> (r: String)
        ensures
            r@ == self.name_spec()@,
    {
        self.info().name
    }

    /// Returns a list of RPC URLs for this chain.
    pub fn rpc_urls(&self) -> (r: Vec<String>)
        ensures
            strs(r@) == self.rpc_spec(),
    {
        self.info().rpc_urls
    }

    /// Returns the list of features supported by the chain
    pub fn features(&self) -> (r: Vec<String>)
        ensures
            strs(r@) == self.features_spec(),
    {
        self.info().features
    }

    /// Returns the list of faucet URLs for the chain
    pub fn faucets(&self) -> (r: Vec<String>)
        ensures
            strs(r@) == self.faucets_spec(),
    {
        self.info().faucets
    }

    /// Returns the native currency details (name, symbol, decimals) as a tuple
    pub fn native_currency(&self) -> (r: (String, String, u8))
        ensures
            r.0@ == self.currency_spec().0@,
            r.1@ == self.currency_spec().1@,
            r.2 == self.currency_spec().2,
    {
        let currency = self.native_currency_info();
        (currency.name, currency.symbol, currency.decimals)
    }

    /// Returns the native currency as a structured value
    pub fn native_currency_info(&self) -> (r: NativeCurrency)
        ensures
            r.name@ == self.currency_spec().0@,
            r.symbol@ == self.currency_spec().1@,
            r.decimals == self.currency_spec().2,
    {
        self.info().native_currency
    }

    /// Returns the information URL for the chain
    pub fn info_url(&self) -> (r: String)
        ensures
            r@ == self.info_url_spec()@,
    {
        self.info().info_url
    }

    /// Returns the short name of the chain
    pub fn short_name(&self) -> (r: String)
        ensures
            r@ == self.short_name_spec()@,
    {
        self.info().short_name
    }

    /// Returns the SLIP-44 coin type for the chain, if available
    pub fn slip44(&self) -> (r: Option<u64>)
        ensures
            r == self.slip44_spec(),
    {
        self.info().slip44
    }

    /// Returns the block time in milliseconds
    pub fn block_time_in_ms(&self) -> (r: u64)
        ensures
            r == block_time_for(self.id_spec()),
    {
        self.info().block_time_ms
    }

    /// Returns the number of blocks that fits into the given time (in milliseconds)
    pub fn blocks_in(&self, time_in_ms: u64) -> (r: BlockCount)
        ensures
            r.time_ms == time_in_ms,
            r.block_time_ms == block_time_for(self.id_spec()),
    {
        BlockCount { time_ms: time_in_ms, block_time_ms: self.block_time_in_ms() }
    }

    /// Hex chain ID string (usable for EIP-3085/3326).
    pub fn chain_id_hex(&self) -> (r: String)
        ensures
            r@ == hex_id(self.id_spec()),
    {
        format_hex_id(self.id())
    }

    /// Convert to EIP-3085 wallet parameters.
    pub fn to_eip3085(&self) -> (r: Eip3085Params)
        ensures
            chain_params(r, *self),
    {
        let info = self.info();
        let r = info.to_eip3085();
        proof {
            lemma_params_views(
                r,
                info.id,
                info.name,
                info.native_currency,
                info.rpc_urls@,
                info.explorers@,
                info.icon,
            );
        }
        r
    }

}

fn mainnet_record() -> (r: ChainRecord)
    ensures
        record_summary(r, Chain::Mainnet),
{
    let r = ChainRecord {
        name: owned("Ethereum Mainnet"),
        title: None,
        chain: owned("ETH"),
        icon: Some(owned("ethereum")),
        rpc: vec![
            owned("https://mainnet.infura.io/v3/${INFURA_API_KEY}"),
            owned("wss://mainnet.infura.io/ws/v3/${INFURA_API_KEY}"),
            owned("https://api.mycryptoapi.com/eth"),
            owned("https://cloudflare-eth.com"),
            owned("https://ethereum-rpc.publicnode.com"),
            owned("wss://ethereum-rpc.publicnode.com"),
            owned("https://mainnet.gateway.tenderly.co"),
            owned("wss://mainnet.gateway.tenderly.co"),
            owned("https://rpc.blocknative.com/boost"),
            owned("https://rpc.flashbots.net"),
            owned("https://rpc.flashbots.net/fast"),
            owned("https://rpc.mevblocker.io"),
        ],
        features: vec![
            Feature { name: owned("EIP155") },
            Feature { name: owned("EIP1559") },
        ],
        faucets: Vec::new(),
        native_currency: NativeCurrency { name: owned("Ether"), symbol: owned("ETH"), decimals: 18 },
        info_url: owned("https://ethereum.org"),
        short_name: owned("eth"),
        chain_id: 1,
        network_id: 1,
        slip44: Some(60),
        ens: Some(Ens { registry: owned("0x00000000000C2E074eC69A0dFb2997BA6C7d2e1e") }),
        explorers: vec![
            Explorer {
                name: owned("etherscan"),
                url: owned("https://etherscan.io"),
                standard: owned("EIP3091"),
                icon: None,
            },
            Explorer {
                name: owned("blockscout"),
                url: owned("https://eth.blockscout.com"),
                standard: owned("EIP3091"),
                icon: Some(owned("blockscout")),
            },
            Explorer {
                name: owned("dexguru"),
                url: owned("https://ethereum.dex.guru"),
                standard: owned("EIP3091"),
                icon: Some(owned("dexguru")),
            },
            Explorer {
                name: owned("Routescan"),
                url: owned("https://ethereum.routescan.io"),
                standard: owned("EIP3091"),
                icon: None,
            },
        ],
        parent: None,
        status: None,
        red_flags: Vec::new(),
    };
    assert(strs(r.rpc@) =~= Chain::Mainnet.rpc_spec());
    assert(strs(names_of(r.features@)) =~= Chain::Mainnet.features_spec());
    assert(strs(r.faucets@) =~= Chain::Mainnet.faucets_spec());
    assert(explorer_views(r.explorers@) =~= Chain::Mainnet.explorers_spec());
    r
}

fn oeth_record() -> (r: ChainRecord)
    ensures
        record_summary(r, Chain::Oeth),
{
    let r = ChainRecord {
        name: owned("OP Mainnet"),
        title: None,
        chain: owned("ETH"),
        icon: Some(owned("optimism")),
        rpc: vec![
            owned("https://mainnet.optimism.io"),
            owned("https://optimism-rpc.publicnode.com"),
            owned("wss://optimism-rpc.publicnode.com"),
            owned("https://optimism.gateway.tenderly.co"),
            owned("wss://optimism.gateway.tenderly.co"),
            owned("https://optimism.drpc.org"),
            owned("wss://optimism.drpc.org"),
        ],
        features: vec![
            Feature { name: owned("EIP155") },
            Feature { name: owned("EIP1559") },
        ],
        faucets: Vec::new(),
        native_currency: NativeCurrency { name: owned("Ether"), symbol: owned("ETH"), decimals: 18 },
        info_url: owned("https://optimism.io"),
        short_name: owned("oeth"),
        chain_id: 10,
        network_id: 10,
        slip44: None,
        ens: None,
        explorers: vec![
            Explorer {
                name: owned("etherscan"),
                url: owned("https://optimistic.etherscan.io"),
                standard: owned("EIP3091"),
                icon: None,
            },
            Explorer {
                name: owned("blockscout"),
                url: owned("https://optimism.blockscout.com"),
                standard: owned("EIP3091"),
                icon: Some(owned("blockscout")),
            },
            Explorer {
                name: owned("dexguru"),
                url: owned("https://optimism.dex.guru"),
                standard: owned("EIP3091"),
                icon: Some(owned("dexguru")),
            },
        ],
        parent: Some(
            Parent {
                type_field: owned("L2"),
                chain: owned("eip155-1"),
                bridges: vec![Bridge { url: owned("https://app.optimism.io/bridge") }],
            },
        ),
        status: None,
        red_flags: Vec::new(),
    };
    assert(strs(r.rpc@) =~= Chain::Oeth.rpc_spec());
    assert(strs(names_of(r.features@)) =~= Chain::Oeth.features_spec());
    assert(strs(r.faucets@) =~= Chain::Oeth.faucets_spec());
    assert(explorer_views(r.explorers@) =~= Chain::Oeth.explorers_spec());
    r
}

fn bnb_record() -> (r: ChainRecord)
    ensures
        record_summary(r, Chain::Bnb),
{
    let r = ChainRecord {
        name: owned("BNB Smart Chain Mainnet"),
        title: None,
        chain: owned("BSC"),
        icon: None,
        rpc: vec![
            owned("https://bsc-dataseed1.bnbchain.org"),
            owned("https://bsc-dataseed2.bnbchain.org"),
            owned("https://bsc-dataseed3.bnbchain.org"),
            owned("https://bsc-dataseed4.bnbchain.org"),
            owned("https://bsc-dataseed1.defibit.io"),
            owned("https://bsc-dataseed1.ninicoin.io"),
            owned("https://bsc-rpc.publicnode.com"),
            owned("wss://bsc-rpc.publicnode.com"),
            owned("wss://bsc-ws-node.nariox.org"),
        ],
        features: vec![
            Feature { name: owned("EIP155") },
        ],
        faucets: Vec::new(),
        native_currency: NativeCurrency { name: owned("BNB Chain Native Token"), symbol: owned("BNB"), decimals: 18 },
        info_url: owned("https://www.bnbchain.org/en"),
        short_name: owned("bnb"),
        chain_id: 56,
        network_id: 56,
        slip44: Some(714),
        ens: None,
        explorers: vec![
            Explorer {
                name: owned("bscscan"),
                url: owned("https://bscscan.com"),
                standard: owned("EIP3091"),
                icon: None,
            },
            Explorer {
                name: owned("dexguru"),
                url: owned("https://bnb.dex.guru"),
                standard: owned("EIP3091"),
                icon: Some(owned("dexguru")),
            },
        ],
        parent: None,
        status: None,
        red_flags: Vec::new(),
    };
    assert(strs(r.rpc@) =~= Chain::Bnb.rpc_spec());
    assert(strs(names_of(r.features@)) =~= Chain::Bnb.features_spec());
    assert(strs(r.faucets@) =~= Chain::Bnb.faucets_spec());
    assert(explorer_views(r.explorers@) =~= Chain::Bnb.explorers_spec());
    r
}

fn gnosis_record() -> (r: ChainRecord)
    ensures
        record_summary(r, Chain::Gnosis),
{
    let r = ChainRecord {
        name: owned("Gnosis"),
        title: None,
        chain: owned("GNO"),
        icon: Some(owned("gnosis")),
        rpc: vec![
            owned("https://rpc.gnosischain.com"),
            owned("wss://rpc.gnosischain.com/wss"),
            owned("https://gnosis-mainnet.public.blastapi.io"),
            owned("https://gnosis.drpc.org"),
            owned("https://gnosis-rpc.publicnode.com"),
            owned("wss://gnosis-rpc.publicnode.com"),
        ],
        features: vec![
            Feature { name: owned("EIP155") },
            Feature { name: owned("EIP1559") },
        ],
        faucets: vec![
            owned("https://gnosisfaucet.com"),
            owned("https://stakely.io/faucet/gnosis-chain-xdai"),
            owned("https://faucet.prussia.dev/xdai"),
        ],
        native_currency: NativeCurrency { name: owned("xDAI"), symbol: owned("XDAI"), decimals: 18 },
        info_url: owned("https://docs.gnosischain.com"),
        short_name: owned("gno"),
        chain_id: 100,
        network_id: 100,
        slip44: Some(700),
        ens: None,
        explorers: vec![
            Explorer {
                name: owned("gnosisscan"),
                url: owned("https://gnosisscan.io"),
                standard: owned("EIP3091"),
                icon: None,
            },
            Explorer {
                name: owned("blockscout"),
                url: owned("https://gnosis.blockscout.com"),
                standard: owned("EIP3091"),
                icon: Some(owned("blockscout")),
            },
            Explorer {
                name: owned("dexguru"),
                url: owned("https://gnosis.dex.guru"),
                standard: owned("EIP3091"),
                icon: Some(owned("dexguru")),
            },
        ],
        parent: None,
        status: None,
        red_flags: Vec::new(),
    };
    assert(strs(r.rpc@) =~= Chain::Gnosis.rpc_spec());
    assert(strs(names_of(r.features@)) =~= Chain::Gnosis.features_spec());
    assert(strs(r.faucets@) =~= Chain::Gnosis.faucets_spec());
    assert(explorer_views(r.explorers@) =~= Chain::Gnosis.explorers_spec());
    r
}

fn pol_record() -> (r: ChainRecord)
    ensures
        record_summary(r, Chain::Pol),
{
    let r = ChainRecord {
        name: owned("Polygon Mainnet"),
        title: None,
        chain: owned("Polygon"),
        icon: Some(owned("polygon")),
        rpc: vec![
            owned("https://polygon-rpc.com/"),
            owned("https://rpc-mainnet.matic.network"),
            owned("https://rpc-mainnet.maticvigil.com"),
            owned("https://polygon-bor-rpc.publicnode.com"),
            owned("wss://polygon-bor-rpc.publicnode.com"),
            owned("https://polygon.gateway.tenderly.co"),
            owned("wss://polygon.gateway.tenderly.co"),
        ],
        features: vec![
            Feature { name: owned("EIP155") },
        ],
        faucets: Vec::new(),
        native_currency: NativeCurrency { name: owned("POL"), symbol: owned("POL"), decimals: 18 },
        info_url: owned("https://polygon.technology/"),
        short_name: owned("pol"),
        chain_id: 137,
        network_id: 137,
        slip44: Some(966),
        ens: None,
        explorers: vec![
            Explorer {
                name: owned("polygonscan"),
                url: owned("https://polygonscan.com"),
                standard: owned("EIP3091"),
                icon: None,
            },
            Explorer {
                name: owned("dexguru"),
                url: owned("https://polygon.dex.guru"),
                standard: owned("EIP3091"),
                icon: Some(owned("dexguru")),
            },
        ],
        parent: None,
        status: None,
        red_flags: Vec::new(),
    };
    assert(strs(r.rpc@) =~= Chain::Pol.rpc_spec());
    assert(strs(names_of(r.features@)) =~= Chain::Pol.features_spec());
    assert(strs(r.faucets@) =~= Chain::Pol.faucets_spec());
    assert(explorer_views(r.explorers@) =~= Chain::Pol.explorers_spec());
    r
}

fn base_record() -> (r: ChainRecord)
    ensures
        record_summary(r, Chain::Base),
{
    let r = ChainRecord {
        name: owned("Base"),
        title: None,
        chain: owned("ETH"),
        icon: Some(owned("base")),
        rpc: vec![
            owned("https://mainnet.base.org/"),
            owned("https://developer-access-mainnet.base.org/"),
            owned("https://base.gateway.tenderly.co"),
            owned("wss://base.gateway.tenderly.co"),
            owned("https://base-rpc.publicnode.com"),
            owned("wss://base-rpc.publicnode.com"),
        ],
        features: Vec::new(),
        faucets: Vec::new(),
        native_currency: NativeCurrency { name: owned("Ether"), symbol: owned("ETH"), decimals: 18 },
        info_url: owned("https://base.org"),
        short_name: owned("base"),
        chain_id: 8453,
        network_id: 8453,
        slip44: None,
        ens: None,
        explorers: vec![
            Explorer {
                name: owned("basescan"),
                url: owned("https://basescan.org"),
                standard: owned("none"),
                icon: None,
            },
            Explorer {
                name: owned("basescout"),
                url: owned("https://base.blockscout.com"),
                standard: owned("EIP3091"),
                icon: Some(owned("blockscout")),
            },
            Explorer {
                name: owned("dexguru"),
                url: owned("https://base.dex.guru"),
                standard: owned("EIP3091"),
                icon: Some(owned("dexguru")),
            },
        ],
        parent: None,
        status: Some(owned("active")),
        red_flags: Vec::new(),
    };
    assert(strs(r.rpc@) =~= Chain::Base.rpc_spec());
    assert(strs(names_of(r.features@)) =~= Chain::Base.features_spec());
    assert(strs(r.faucets@) =~= Chain::Base.faucets_spec());
    assert(explorer_views(r.explorers@) =~= Chain::Base.explorers_spec());
    r
}

fn hardhat_record() -> (r: ChainRecord)
    ensures
        record_summary(r, Chain::Hardhat),
{
    let r = ChainRecord {
        name: owned("GoChain Testnet"),
        title: None,
        chain: owned("GO"),
        icon: None,
        rpc: vec![
            owned("https://testnet-rpc.gochain.io"),
        ],
        features: Vec::new(),
        faucets: Vec::new(),
        native_currency: NativeCurrency { name: owned("GoChain Coin"), symbol: owned("GO"), decimals: 18 },
        info_url: owned("https://gochain.io"),
        short_name: owned("got"),
        chain_id: 31337,
        network_id: 31337,
        slip44: Some(6060),
        ens: None,
        explorers: vec![
            Explorer {
                name: owned("GoChain Testnet Explorer"),
                url: owned("https://testnet-explorer.gochain.io"),
                standard: owned("EIP3091"),
                icon: None,
            },
        ],
        parent: None,
        status: Some(owned("deprecated")),
        red_flags: Vec::new(),
    };
    assert(strs(r.rpc@) =~= Chain::Hardhat.rpc_spec());
    assert(strs(names_of(r.features@)) =~= Chain::Hardhat.features_spec());
    assert(strs(r.faucets@) =~= Chain::Hardhat.faucets_spec());
    assert(explorer_views(r.explorers@) =~= Chain::Hardhat.explorers_spec());
    r
}

fn arb1_record() -> (r: ChainRecord)
    ensures
        record_summary(r, Chain::Arb1),
{
    let r = ChainRecord {
        name: owned("Arbitrum One"),
        title: None,
        chain: owned("ETH"),
        icon: None,
        rpc: vec![
            owned("https://arbitrum-mainnet.infura.io/v3/${INFURA_API_KEY}"),
            owned("https://arb-mainnet.g.alchemy.com/v2/${ALCHEMY_API_KEY}"),
            owned("https://arb1.arbitrum.io/rpc"),
            owned("https://arbitrum-one.publicnode.com"),
            owned("wss://arbitrum-one.publicnode.com"),
        ],
        features: Vec::new(),
        faucets: Vec::new(),
        native_currency: NativeCurrency { name: owned("Ether"), symbol: owned("ETH"), decimals: 18 },
        info_url: owned("https://arbitrum.io"),
        short_name: owned("arb1"),
        chain_id: 42161,
        network_id: 42161,
        slip44: None,
        ens: None,
        explorers: vec![
            Explorer {
                name: owned("Arbiscan"),
                url: owned("https://arbiscan.io"),
                standard: owned("EIP3091"),
                icon: None,
            },
            Explorer {
                name: owned("Arbitrum Explorer"),
                url: owned("https://explorer.arbitrum.io"),
                standard: owned("EIP3091"),
                icon: None,
            },
            Explorer {
                name: owned("dexguru"),
                url: owned("https://arbitrum.dex.guru"),
                standard: owned("EIP3091"),
                icon: Some(owned("dexguru")),
            },
        ],
        parent: Some(
            Parent {
                type_field: owned("L2"),
                chain: owned("eip155-1"),
                bridges: vec![Bridge { url: owned("https://bridge.arbitrum.io") }],
            },
        ),
        status: None,
        red_flags: Vec::new(),
    };
    assert(strs(r.rpc@) =~= Chain::Arb1.rpc_spec());
    assert(strs(names_of(r.features@)) =~= Chain::Arb1.features_spec());
    assert(strs(r.faucets@) =~= Chain::Arb1.faucets_spec());
    assert(explorer_views(r.explorers@) =~= Chain::Arb1.explorers_spec());
    r
}

fn sepolia_record() -> (r: ChainRecord)
    ensures
        record_summary(r, Chain::Sepolia),
{
    let r = ChainRecord {
        name: owned("Sepolia"),
        title: Some(owned("Ethereum Testnet Sepolia")),
        chain: owned("ETH"),
        icon: None,
        rpc: vec![
            owned("https://rpc.sepolia.org"),
            owned("https://rpc2.sepolia.org"),
            owned("https://rpc.sepolia.online"),
            owned("https://www.sepoliarpc.space"),
            owned("https://rpc-sepolia.rockx.com"),
            owned("https://rpc.bordel.wtf/sepolia"),
            owned("https://ethereum-sepolia-rpc.publicnode.com"),
            owned("wss://ethereum-sepolia-rpc.publicnode.com"),
        ],
        features: vec![
            Feature { name: owned("EIP155") },
            Feature { name: owned("EIP1559") },
        ],
        faucets: vec![
            owned("http://fauceth.komputing.org?chain=11155111&address=${ADDRESS}"),
        ],
        native_currency: NativeCurrency { name: owned("Sepolia Ether"), symbol: owned("ETH"), decimals: 18 },
        info_url: owned("https://sepolia.otterscan.io"),
        short_name: owned("sep"),
        chain_id: 11155111,
        network_id: 11155111,
        slip44: Some(1),
        ens: None,
        explorers: vec![
            Explorer {
                name: owned("etherscan-sepolia"),
                url: owned("https://sepolia.etherscan.io"),
                standard: owned("EIP3091"),
                icon: None,
            },
            Explorer {
                name: owned("otterscan-sepolia"),
                url: owned("https://sepolia.otterscan.io"),
                standard: owned("EIP3091"),
                icon: None,
            },
        ],
        parent: None,
        status: None,
        red_flags: Vec::new(),
    };
    assert(strs(r.rpc@) =~= Chain::Sepolia.rpc_spec());
    assert(strs(names_of(r.features@)) =~= Chain::Sepolia.features_spec());
    assert(strs(r.faucets@) =~= Chain::Sepolia.faucets_spec());
    assert(explorer_views(r.explorers@) =~= Chain::Sepolia.explorers_spec());
    r
}

/// The records of every known chain, in ascending order of chain id: the same
/// chains, in the same order, as the static table.
pub fn all_chains() -> (r: Vec<ChainRecord>)
    ensures
        r@.len() == all_variants().len(),
        forall|i: int| 0 <= i < r@.len() ==> record_summary(#[trigger] r@[i], all_variants()[i]),
{
    let variants = Chain::all();
    let mut r: Vec<ChainRecord> = Vec::new();
    let mut i: usize = 0;
    while i < variants.len()
        invariant
            variants@ == all_variants(),
            i <= variants@.len(),
            r@.len() == i,
            forall|k: int| 0 <= k < i ==> record_summary(#[trigger] r@[k], all_variants()[k]),
        decreases variants@.len() - i,
    {
        r.push(variants[i].record());
        i = i + 1;
    }
    r
}

/// Some record of `store` has chain id `id`.
pub open spec fn in_store(store: Seq<ChainRecord>, id: u64) -> bool {
    exists|i: int| 0 <= i < store.len() && store[i].chain_id == id
}

/// The known chains strictly ascend by chain id, so no id occurs twice.
pub proof fn lemma_variants_ascending()
    ensures
        forall|i: int, j: int|
            0 <= i < j < all_variants().len() ==> (#[trigger] all_variants()[i]).id_spec()
                < (#[trigger] all_variants()[j]).id_spec(),
{
}

/// The records of a store that holds the known chains in order, and the static
/// lookup by id, agree: every id in the store resolves to the chain at its position,
/// and every id that resolves is in the store.
pub proof fn lemma_store_matches_table(store: Seq<ChainRecord>)
    requires
        store.len() == all_variants().len(),
        forall|i: int| 0 <= i < store.len() ==> record_summary(#[trigger] store[i], all_variants()[i]),
    ensures
        forall|i: int|
            0 <= i < store.len() ==> chain_of_id((#[trigger] store[i]).chain_id) == Some(
                all_variants()[i],
            ),
        forall|id: u64| #[trigger] chain_of_id(id) is Some ==> in_store(store, id),
        forall|c: Chain| #[trigger] in_store(store, c.id_spec()),
{
    assert forall|i: int| 0 <= i < store.len() implies chain_of_id((#[trigger] store[i]).chain_id)
        == Some(all_variants()[i]) by {
        assert(record_summary(store[i], all_variants()[i]));
    }
    assert forall|c: Chain| #[trigger] in_store(store, c.id_spec()) by {
        let i: int = match c {
            Chain::Mainnet => 0,
            Chain::Oeth => 1,
            Chain::Bnb => 2,
            Chain::Gnosis => 3,
            Chain::Pol => 4,
            Chain::Base => 5,
            Chain::Hardhat => 6,
            Chain::Arb1 => 7,
            Chain::Sepolia => 8,
        };
        assert(all_variants()[i] == c);
        assert(record_summary(store[i], all_variants()[i]));
    }
    assert forall|id: u64| #[trigger] chain_of_id(id) is Some implies in_store(store, id) by {
        let c = chain_of_id(id)->0;
        assert(c.id_spec() == id);
        assert(in_store(store, c.id_spec()));
    }
}

/// The wallet parameters of a record from the store equal, read as plain values,
/// those the static table gives for the same chain.
pub proof fn lemma_record_params_match_table(rec: ChainRecord, c: Chain, p: Eip3085Params)
    requires
        record_summary(rec, c),
        params_of(p, rec.chain_id, rec.name, rec.native_currency, rec.rpc@, rec.explorers@, rec.icon),
    ensures
        chain_params(p, c),
{
    lemma_params_views(p, rec.chain_id, rec.name, rec.native_currency, rec.rpc@, rec.explorers@, rec.icon);
}

/// The identifier that the generation step gives each record of the store: the
/// variant's name where the chain has a stable name, else the sanitized short name.
pub proof fn lemma_store_identifiers(store: Seq<ChainRecord>)
    requires
        store.len() == all_variants().len(),
        forall|i: int| 0 <= i < store.len() ==> record_summary(#[trigger] store[i], all_variants()[i]),
    ensures
        forall|i: int|
            0 <= i < store.len() ==> #[trigger] record_symbol(store[i]) == (match override_name(
                all_variants()[i].id_spec(),
            ) {
                Some(n) => n@,
                None => sanitized(all_variants()[i].short_name_spec()@, all_variants()[i].id_spec()),
            }),
        forall|c: Chain|
            #[trigger] override_name(c.id_spec()) is Some ==> override_name(c.id_spec())->0
                == c.ident_spec(),
{
    assert forall|i: int| 0 <= i < store.len() implies #[trigger] record_symbol(store[i]) == (
    match override_name(all_variants()[i].id_spec()) {
        Some(n) => n@,
        None => sanitized(all_variants()[i].short_name_spec()@, all_variants()[i].id_spec()),
    }) by {
        assert(record_summary(store[i], all_variants()[i]));
    }
}


} // verus!
