//! Config resolution: raw configuration text plus CLI overrides become
//! typed values, before any network operation is attempted.

use vstd::prelude::*;

use crate::address::{
    parse_eth_address, parses_as_eth_address, eth_address_bytes_of, EthAddr,
};
use crate::errors::StartupError;
use crate::mode::{parse_relayer_mode, spec_parse_mode, RelayerMode};

verus! {

/// What the configuration provider supplies, already loaded, as plain text
/// and numbers. Gas multipliers are pass-through values the relay loop
/// consumes unread; they stay with the caller.
pub struct RawConfig {
    /// The relaying mode string (`relayer.mode`).
    pub mode: String,
    /// The Cosmos-side address-encoding prefix (`cosmos.prefix`).
    pub cosmos_prefix: String,
    /// The Cosmos-side gRPC endpoint (`cosmos.grpc`).
    pub cosmos_grpc: String,
    /// The Ethereum-side JSON-RPC endpoint (`ethereum.rpc`).
    pub eth_rpc: String,
    /// The bridge contract address (`gravity.contract`).
    pub contract_address: String,
    /// The fee payment address (`relayer.payment_address`); all zero means
    /// "use the signing address instead".
    pub payment_address: String,
    /// The contract filter entries (`relayer.ethereum_contracts`).
    pub ethereum_contracts: Vec<String>,
    /// The block-search window handed to the relay loop.
    pub blocks_to_search: u64,
}

/// The typed values the later stages run on.
#[derive(Debug)]
pub struct RelayPlan {
    /// The resolved relaying mode.
    pub mode: RelayerMode,
    /// The bridge contract address.
    pub contract_address: EthAddr,
    /// The configured payment address, zero sentinel not yet substituted.
    pub configured_payment_address: EthAddr,
    /// The contract filter: exactly the well-formed configured entries, in
    /// order. Empty means "relay everything", not "relay nothing".
    pub filter: Vec<EthAddr>,
    /// How many configured filter entries were malformed and skipped;
    /// worth a warning, never fatal.
    pub dropped_filter_entries: usize,
    /// The block-search window handed to the relay loop.
    pub blocks_to_search: u64,
}

/// The full result of config resolution: the plan plus the endpoints the
/// connection establisher needs.
pub struct ResolvedConfig {
    pub plan: RelayPlan,
    pub cosmos_prefix: String,
    pub cosmos_grpc: String,
    pub eth_rpc: String,
}

/// The mode string that counts: a CLI override wins over the configured one.
pub open spec fn effective_mode(cfg_mode: Seq<char>, cli_mode: Option<Seq<char>>) -> Seq<char> {
    match cli_mode {
        Some(m) => m,
        None => cfg_mode,
    }
}

/// The view of an optional CLI mode override.
pub open spec fn cli_mode_view(cli_mode: Option<String>) -> Option<Seq<char>> {
    match cli_mode {
        Some(m) => Some(m@),
        None => None,
    }
}

/// The filter a sequence of configured entries resolves to: the byte form
/// of each well-formed entry, in order, with malformed entries skipped.
pub open spec fn spec_resolved_filter(entries: Seq<Seq<char>>) -> Seq<Seq<u8>>
    decreases entries.len(),
{
    if entries.len() == 0 {
        Seq::empty()
    } else {
        let rest = spec_resolved_filter(entries.drop_last());
        if parses_as_eth_address(entries.last()) {
            rest.push(eth_address_bytes_of(entries.last()))
        } else {
            rest
        }
    }
}

/// The resolved filter holds exactly the well-formed entries: it equals
/// the subsequence of entries the address grammar accepts, each mapped to
/// its bytes, in their configured order — malformed entries leave no
/// trace, and no entry is invented.
pub proof fn lemma_resolved_filter_is_exactly_the_well_formed_entries(entries: Seq<Seq<char>>)
    ensures
        spec_resolved_filter(entries) == entries.filter(
            |s: Seq<char>| parses_as_eth_address(s),
        ).map_values(|s: Seq<char>| eth_address_bytes_of(s)),
    decreases entries.len(),
{
    reveal(Seq::filter);
    let pred = |s: Seq<char>| parses_as_eth_address(s);
    let to_bytes = |s: Seq<char>| eth_address_bytes_of(s);
    if entries.len() == 0 {
        assert(entries.filter(pred).map_values(to_bytes) =~= Seq::empty());
    } else {
        let sub = entries.drop_last();
        lemma_resolved_filter_is_exactly_the_well_formed_entries(sub);
        if pred(entries.last()) {
            assert(entries.filter(pred) == sub.filter(pred).push(entries.last()));
            assert(sub.filter(pred).push(entries.last()).map_values(to_bytes) =~= sub.filter(
                pred,
            ).map_values(to_bytes).push(to_bytes(entries.last())));
        } else {
            assert(entries.filter(pred) == sub.filter(pred));
        }
    }
}

/// The byte view of a parsed filter.
pub open spec fn filter_view(filter: Seq<EthAddr>) -> Seq<Seq<u8>> {
    filter.map_values(|a: EthAddr| a.bytes@)
}

/// The character view of configured filter entries.
pub open spec fn entries_view(entries: Seq<String>) -> Seq<Seq<char>> {
    entries.map_values(|s: String| s@)
}

/// Resolve the contract filter. Each entry is parsed independently; a
/// malformed entry is counted and skipped — it must never abort startup.
/// Returns the parsed filter and how many entries were dropped.
pub fn resolve_contract_filter(entries: &Vec<String>) -> (r: (Vec<EthAddr>, usize))
    ensures
        filter_view(r.0@) == spec_resolved_filter(entries_view(entries@)),
        r.0@.len() + r.1 == entries@.len(),
{
    let ghost views = entries_view(entries@);
    let mut kept: Vec<EthAddr> = Vec::new();
    let mut dropped: usize = 0;
    let mut i: usize = 0;
    while i < entries.len()
        invariant
            i <= entries@.len(),
            views == entries_view(entries@),
            filter_view(kept@) == spec_resolved_filter(views.take(i as int)),
            kept@.len() + dropped == i,
        decreases entries@.len() - i,
    {
        proof {
            assert(views.take(i + 1).drop_last() =~= views.take(i as int));
            assert(views.take(i + 1).last() == entries@[i as int]@);
        }
        match parse_eth_address(entries[i].as_str()) {
            Some(a) => {
                kept.push(a);
                proof {
                    assert(filter_view(kept@) =~= spec_resolved_filter(views.take(i + 1)));
                }
            },
            None => {
                dropped += 1;
                proof {
                    assert(filter_view(kept@) =~= spec_resolved_filter(views.take(i + 1)));
                }
            },
        }
        i += 1;
    }
    proof {
        assert(views.take(entries@.len() as int) =~= views);
    }
    (kept, dropped)
}

/// Resolve the whole configuration. Fatal exactly when the effective mode
/// string or either required address fails to parse, checked in that
/// order; malformed filter entries are skipped, never fatal.
pub fn resolve_startup_config(cfg: &RawConfig, cli_mode: &Option<String>) -> (r: Result<
    ResolvedConfig,
    StartupError,
>)
    ensures
        match r {
            Ok(rc) => {
                &&& spec_parse_mode(effective_mode(cfg.mode@, cli_mode_view(*cli_mode)))
                    == Some(rc.plan.mode)
                &&& parses_as_eth_address(cfg.contract_address@)
                &&& rc.plan.contract_address.bytes@ == eth_address_bytes_of(cfg.contract_address@)
                &&& parses_as_eth_address(cfg.payment_address@)
                &&& rc.plan.configured_payment_address.bytes@ == eth_address_bytes_of(
                    cfg.payment_address@,
                )
                &&& filter_view(rc.plan.filter@) == spec_resolved_filter(
                    entries_view(cfg.ethereum_contracts@),
                )
                &&& rc.plan.filter@.len() + rc.plan.dropped_filter_entries
                    == cfg.ethereum_contracts@.len()
                &&& rc.plan.blocks_to_search == cfg.blocks_to_search
                &&& rc.cosmos_prefix@ == cfg.cosmos_prefix@
                &&& rc.cosmos_grpc@ == cfg.cosmos_grpc@
                &&& rc.eth_rpc@ == cfg.eth_rpc@
            },
            Err(e) => {
                &&& (e == StartupError::UnparseableMode <==> spec_parse_mode(
                    effective_mode(cfg.mode@, cli_mode_view(*cli_mode)),
                ) is None)
                &&& (e == StartupError::UnparseableContractAddress <==> spec_parse_mode(
                    effective_mode(cfg.mode@, cli_mode_view(*cli_mode)),
                ) is Some && !parses_as_eth_address(cfg.contract_address@))
                &&& (e == StartupError::UnparseablePaymentAddress <==> spec_parse_mode(
                    effective_mode(cfg.mode@, cli_mode_view(*cli_mode)),
                ) is Some && parses_as_eth_address(cfg.contract_address@)
                    && !parses_as_eth_address(cfg.payment_address@))
                &&& (e == StartupError::UnparseableMode || e
                    == StartupError::UnparseableContractAddress || e
                    == StartupError::UnparseablePaymentAddress)
            },
        },
{
    let mode_str: &str = match cli_mode {
        Some(m) => m.as_str(),
        None => cfg.mode.as_str(),
    };
    let mode = match parse_relayer_mode(mode_str) {
        Some(m) => m,
        None => {
            return Err(StartupError::UnparseableMode);
        },
    };
    let contract_address = match parse_eth_address(cfg.contract_address.as_str()) {
        Some(a) => a,
        None => {
            return Err(StartupError::UnparseableContractAddress);
        },
    };
    let configured_payment_address = match parse_eth_address(cfg.payment_address.as_str()) {
        Some(a) => a,
        None => {
            return Err(StartupError::UnparseablePaymentAddress);
        },
    };
    let (filter, dropped_filter_entries) = resolve_contract_filter(&cfg.ethereum_contracts);
    Ok(
        ResolvedConfig {
            plan: RelayPlan {
                mode,
                contract_address,
                configured_payment_address,
                filter,
                dropped_filter_entries,
                blocks_to_search: cfg.blocks_to_search,
            },
            cosmos_prefix: cfg.cosmos_prefix.clone(),
            cosmos_grpc: cfg.cosmos_grpc.clone(),
            eth_rpc: cfg.eth_rpc.clone(),
        },
    )
}

} // verus!
