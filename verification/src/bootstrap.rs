//! The bootstrap protocol: a strictly ordered sequence of stages, each
//! completed by the outcome of one outside operation, that must all succeed
//! before the relay loop may run.
//!
//! The machine owns every decision: which operation to request next, which
//! outcome is fatal, and in which order the readiness gate runs. The caller
//! performs the requested [`Action`], reports the outcome as an [`Event`],
//! and feeds it back through [`step`]. Any fatal condition moves the
//! machine to [`Phase::Failed`], which is absorbing and only ever requests
//! an abort.

use vstd::prelude::*;

use crate::address::{eth_address_bytes_of, is_zero_addr, parses_as_eth_address, EthAddr};
use crate::chain_id::{downcast_chain_id, spec_downcast_chain_id, WideChainId};
use crate::config::{
    cli_mode_view, effective_mode, entries_view, filter_view, resolve_startup_config,
    spec_resolved_filter, RawConfig, RelayPlan, ResolvedConfig,
};
use crate::errors::StartupError;
use crate::mode::{spec_parse_mode, RelayerMode};

verus! {

/// The live network handles, all confirmed present: a Cosmos-side gRPC
/// channel, a Cosmos-side contact client, and an Ethereum-side provider,
/// each named by the caller-chosen handle number it was registered under.
#[derive(Clone, Copy, Debug, PartialEq, Eq, Structural)]
pub struct ConnectionBundle {
    pub grpc: u64,
    pub contact: u64,
    pub eth_provider: u64,
}

/// The chain-scoped signing identity: the address derived from the
/// operator's key, the chain it signs for, and the provider it signs
/// through. Immutable once built; shared read-only by every later stage.
#[derive(Clone, Copy, Debug)]
pub struct SigningContext {
    pub signing_address: EthAddr,
    pub chain_id: u64,
    pub eth_provider: u64,
}

/// Everything the continuous relay loop receives, exactly once, at
/// handoff. The payment address has the zero sentinel already substituted.
#[derive(Debug)]
pub struct HandoffContext {
    pub signing: SigningContext,
    pub grpc: u64,
    pub contract_address: EthAddr,
    pub payment_address: EthAddr,
    pub fee_mode: RelayerMode,
    pub blocks_to_search: u64,
    pub filter: Vec<EthAddr>,
}

/// Where the bootstrap stands. Each phase holds exactly the resolved
/// values the remaining stages still need.
#[derive(Debug)]
pub enum Phase {
    /// Connections requested, outcome pending.
    Connecting { plan: RelayPlan },
    /// All handles present; chain-id query pending.
    QueryingChainId { plan: RelayPlan, conns: ConnectionBundle },
    /// Chain id narrowed; key binding pending.
    BindingSigner { plan: RelayPlan, conns: ConnectionBundle, chain_id: u64 },
    /// Signing context built, payment address resolved; waiting for the
    /// Cosmos-side node to finish syncing.
    AwaitingCosmosReady {
        plan: RelayPlan,
        conns: ConnectionBundle,
        signing: SigningContext,
        payment_address: EthAddr,
    },
    /// Node synced; Ethereum-side liveness check pending. This phase is
    /// only ever entered by consuming [`Event::CosmosNodeReady`].
    CheckingEthLiveness {
        plan: RelayPlan,
        conns: ConnectionBundle,
        signing: SigningContext,
        payment_address: EthAddr,
    },
    /// Liveness confirmed; fee-manager construction pending.
    ConstructingFeeManager {
        plan: RelayPlan,
        conns: ConnectionBundle,
        signing: SigningContext,
        payment_address: EthAddr,
    },
    /// Context handed off; the relay loop owns it now.
    Relaying,
    /// The relay loop returned: the process is to shut down.
    ShutDown,
    /// A fatal condition ended startup. Absorbing.
    Failed { err: StartupError },
}

/// The outcome of one outside operation, reported back to the machine.
#[derive(Clone, Copy, Debug)]
pub enum Event {
    /// The connection factory returned; absent handles are reported as
    /// `None` and are fatal.
    ConnectionsEstablished { grpc: Option<u64>, contact: Option<u64>, eth_provider: Option<u64> },
    /// The provider reported its chain identifier.
    ChainIdRetrieved { chain_id: WideChainId },
    /// The provider could not report a chain identifier.
    ChainIdQueryFailed,
    /// The key material was bound; this is the derived signing address.
    SignerBound { signing_address: EthAddr },
    /// The key material was malformed.
    SignerRejectedKey,
    /// The Cosmos-side node reports it is no longer syncing.
    CosmosNodeReady,
    /// The Ethereum-side account is live and funded.
    EthLivenessConfirmed,
    /// The Ethereum-side liveness check failed.
    EthLivenessFailed,
    /// The fee-management strategy was constructed.
    FeeManagerConstructed,
    /// The fee-management strategy could not be constructed.
    FeeManagerConstructionFailed,
    /// The continuous relay loop returned.
    RelayLoopReturned,
}

/// What the machine asks the caller to do next.
#[derive(Debug)]
pub enum Action {
    /// Open both chains' connections, bounded by the caller's timeout.
    EstablishConnections { cosmos_prefix: String, cosmos_grpc: String, eth_rpc: String },
    /// Ask the Ethereum-side provider for its chain identifier.
    QueryChainId { eth_provider: u64 },
    /// Bind the operator's key and this chain id into a signing client.
    BindSigner { chain_id: u64, eth_provider: u64 },
    /// Block until the Cosmos-side node reports sync completion.
    WaitForCosmosReady { contact: u64 },
    /// Check the signing address for liveness. Only ever requested after
    /// [`Event::CosmosNodeReady`] was consumed.
    CheckEthLiveness { signing_address: EthAddr, eth_provider: u64 },
    /// Construct the fee-management strategy for this mode.
    ConstructFeeManager { mode: RelayerMode },
    /// Run the continuous relay loop with the assembled context.
    StartRelayLoop { handoff: HandoffContext },
    /// Abort the process with exit code 1 and this diagnostic.
    Abort { err: StartupError },
    /// Shut the process down gracefully.
    Stop,
}

/// The completeness check on what the connection factory returned: either
/// all three handles are present, or the first absent one is fatal.
pub open spec fn spec_check_bundle(
    grpc: Option<u64>,
    contact: Option<u64>,
    eth_provider: Option<u64>,
) -> Result<ConnectionBundle, StartupError> {
    if grpc is None {
        Err(StartupError::MissingGrpcHandle)
    } else if contact is None {
        Err(StartupError::MissingContactHandle)
    } else if eth_provider is None {
        Err(StartupError::MissingEthProviderHandle)
    } else {
        Ok(ConnectionBundle { grpc: grpc->0, contact: contact->0, eth_provider: eth_provider->0 })
    }
}

/// Confirm that every handle is present. No partial bundle is ever handed
/// downstream: a single absent handle fails the whole startup.
pub fn check_connection_bundle(
    grpc: Option<u64>,
    contact: Option<u64>,
    eth_provider: Option<u64>,
) -> (r: Result<ConnectionBundle, StartupError>)
    ensures
        r == spec_check_bundle(grpc, contact, eth_provider),
{
    match (grpc, contact, eth_provider) {
        (Some(g), Some(c), Some(p)) => Ok(ConnectionBundle { grpc: g, contact: c, eth_provider: p }),
        (None, _, _) => Err(StartupError::MissingGrpcHandle),
        (_, None, _) => Err(StartupError::MissingContactHandle),
        _ => Err(StartupError::MissingEthProviderHandle),
    }
}

/// The payment-address resolution rule: the zero sentinel means "use the
/// signing address instead"; any other configured value passes unchanged.
pub open spec fn spec_resolve_payment(configured: EthAddr, signing: EthAddr) -> EthAddr {
    if is_zero_addr(configured.bytes@) {
        signing
    } else {
        configured
    }
}

/// Substitute the zero sentinel. Happens exactly once, right after the
/// signing context is built, since it needs the derived signing address.
pub fn resolve_payment_address(configured: &EthAddr, signing: &EthAddr) -> (r: EthAddr)
    ensures
        r == spec_resolve_payment(*configured, *signing),
{
    if configured.is_zero() {
        *signing
    } else {
        *configured
    }
}

/// So long as keys never derive the zero address, the resolved payment
/// address is never the zero sentinel, whatever was configured.
pub proof fn lemma_resolved_payment_never_zero(configured: EthAddr, signing: EthAddr)
    requires
        !is_zero_addr(signing.bytes@),
    ensures
        !is_zero_addr(spec_resolve_payment(configured, signing).bytes@),
{
}

/// A fatal transition: the failed phase plus the abort request.
pub open spec fn spec_fail(err: StartupError) -> (Phase, Action) {
    (Phase::Failed { err }, Action::Abort { err })
}

/// The transition relation of the bootstrap protocol: from a phase and the
/// outcome of the operation it was waiting for, to the next phase and the
/// next requested operation. An outcome the phase cannot accept is fatal.
pub open spec fn spec_step(p: Phase, e: Event) -> (Phase, Action) {
    match (p, e) {
        (
            Phase::Connecting { plan },
            Event::ConnectionsEstablished { grpc, contact, eth_provider },
        ) => match spec_check_bundle(grpc, contact, eth_provider) {
            Ok(conns) => (
                Phase::QueryingChainId { plan, conns },
                Action::QueryChainId { eth_provider: conns.eth_provider },
            ),
            Err(err) => spec_fail(err),
        },
        (Phase::QueryingChainId { plan, conns }, Event::ChainIdRetrieved { chain_id }) => match
            spec_downcast_chain_id(chain_id) {
            Some(id) => (
                Phase::BindingSigner { plan, conns, chain_id: id },
                Action::BindSigner { chain_id: id, eth_provider: conns.eth_provider },
            ),
            None => spec_fail(StartupError::ChainIdOverflow),
        },
        (Phase::QueryingChainId { .. }, Event::ChainIdQueryFailed) => spec_fail(
            StartupError::ChainIdQueryFailed,
        ),
        (Phase::BindingSigner { plan, conns, chain_id }, Event::SignerBound { signing_address }) => {
            let signing = SigningContext { signing_address, chain_id, eth_provider: conns.eth_provider };
            let payment_address = spec_resolve_payment(
                plan.configured_payment_address,
                signing_address,
            );
            (
                Phase::AwaitingCosmosReady { plan, conns, signing, payment_address },
                Action::WaitForCosmosReady { contact: conns.contact },
            )
        },
        (Phase::BindingSigner { .. }, Event::SignerRejectedKey) => spec_fail(
            StartupError::InvalidKeyMaterial,
        ),
        (
            Phase::AwaitingCosmosReady { plan, conns, signing, payment_address },
            Event::CosmosNodeReady,
        ) => (
            Phase::CheckingEthLiveness { plan, conns, signing, payment_address },
            Action::CheckEthLiveness {
                signing_address: signing.signing_address,
                eth_provider: signing.eth_provider,
            },
        ),
        (
            Phase::CheckingEthLiveness { plan, conns, signing, payment_address },
            Event::EthLivenessConfirmed,
        ) => {
            let mode = plan.mode;
            (
                Phase::ConstructingFeeManager { plan, conns, signing, payment_address },
                Action::ConstructFeeManager { mode },
            )
        },
        (Phase::CheckingEthLiveness { .. }, Event::EthLivenessFailed) => spec_fail(
            StartupError::EthLivenessCheckFailed,
        ),
        (
            Phase::ConstructingFeeManager { plan, conns, signing, payment_address },
            Event::FeeManagerConstructed,
        ) => (
            Phase::Relaying,
            Action::StartRelayLoop {
                handoff: HandoffContext {
                    signing,
                    grpc: conns.grpc,
                    contract_address: plan.contract_address,
                    payment_address,
                    fee_mode: plan.mode,
                    blocks_to_search: plan.blocks_to_search,
                    filter: plan.filter,
                },
            },
        ),
        (Phase::ConstructingFeeManager { .. }, Event::FeeManagerConstructionFailed) => spec_fail(
            StartupError::FeeManagerConstructionFailed,
        ),
        (Phase::Relaying, Event::RelayLoopReturned) => (Phase::ShutDown, Action::Stop),
        (Phase::Failed { err }, _) => (Phase::Failed { err }, Action::Abort { err }),
        (_, _) => spec_fail(StartupError::UnexpectedEvent),
    }
}

/// Advance the bootstrap by one outcome.
pub fn step(p: Phase, e: Event) -> (r: (Phase, Action))
    ensures
        r == spec_step(p, e),
{
    match (p, e) {
        (
            Phase::Connecting { plan },
            Event::ConnectionsEstablished { grpc, contact, eth_provider },
        ) => match check_connection_bundle(grpc, contact, eth_provider) {
            Ok(conns) => (
                Phase::QueryingChainId { plan, conns },
                Action::QueryChainId { eth_provider: conns.eth_provider },
            ),
            Err(err) => (Phase::Failed { err }, Action::Abort { err }),
        },
        (Phase::QueryingChainId { plan, conns }, Event::ChainIdRetrieved { chain_id }) => match
            downcast_chain_id(&chain_id) {
            Some(id) => (
                Phase::BindingSigner { plan, conns, chain_id: id },
                Action::BindSigner { chain_id: id, eth_provider: conns.eth_provider },
            ),
            None => (
                Phase::Failed { err: StartupError::ChainIdOverflow },
                Action::Abort { err: StartupError::ChainIdOverflow },
            ),
        },
        (Phase::QueryingChainId { .. }, Event::ChainIdQueryFailed) => (
            Phase::Failed { err: StartupError::ChainIdQueryFailed },
            Action::Abort { err: StartupError::ChainIdQueryFailed },
        ),
        (Phase::BindingSigner { plan, conns, chain_id }, Event::SignerBound { signing_address }) => {
            let signing = SigningContext {
                signing_address,
                chain_id,
                eth_provider: conns.eth_provider,
            };
            let payment_address = resolve_payment_address(
                &plan.configured_payment_address,
                &signing_address,
            );
            (
                Phase::AwaitingCosmosReady { plan, conns, signing, payment_address },
                Action::WaitForCosmosReady { contact: conns.contact },
            )
        },
        (Phase::BindingSigner { .. }, Event::SignerRejectedKey) => (
            Phase::Failed { err: StartupError::InvalidKeyMaterial },
            Action::Abort { err: StartupError::InvalidKeyMaterial },
        ),
        (
            Phase::AwaitingCosmosReady { plan, conns, signing, payment_address },
            Event::CosmosNodeReady,
        ) => (
            Phase::CheckingEthLiveness { plan, conns, signing, payment_address },
            Action::CheckEthLiveness {
                signing_address: signing.signing_address,
                eth_provider: signing.eth_provider,
            },
        ),
        (
            Phase::CheckingEthLiveness { plan, conns, signing, payment_address },
            Event::EthLivenessConfirmed,
        ) => {
            let mode = plan.mode;
            (
                Phase::ConstructingFeeManager { plan, conns, signing, payment_address },
                Action::ConstructFeeManager { mode },
            )
        },
        (Phase::CheckingEthLiveness { .. }, Event::EthLivenessFailed) => (
            Phase::Failed { err: StartupError::EthLivenessCheckFailed },
            Action::Abort { err: StartupError::EthLivenessCheckFailed },
        ),
        (
            Phase::ConstructingFeeManager { plan, conns, signing, payment_address },
            Event::FeeManagerConstructed,
        ) => (
            Phase::Relaying,
            Action::StartRelayLoop {
                handoff: HandoffContext {
                    signing,
                    grpc: conns.grpc,
                    contract_address: plan.contract_address,
                    payment_address,
                    fee_mode: plan.mode,
                    blocks_to_search: plan.blocks_to_search,
                    filter: plan.filter,
                },
            },
        ),
        (Phase::ConstructingFeeManager { .. }, Event::FeeManagerConstructionFailed) => (
            Phase::Failed { err: StartupError::FeeManagerConstructionFailed },
            Action::Abort { err: StartupError::FeeManagerConstructionFailed },
        ),
        (Phase::Relaying, Event::RelayLoopReturned) => (Phase::ShutDown, Action::Stop),
        (Phase::Failed { err }, _) => (Phase::Failed { err }, Action::Abort { err }),
        (_, _) => (
            Phase::Failed { err: StartupError::UnexpectedEvent },
            Action::Abort { err: StartupError::UnexpectedEvent },
        ),
    }
}

/// Whether the payment address a phase carries is the one the resolution
/// rule yields from its own plan and signing context. Phases before the
/// signing context exists, and phases that carry no context, hold this
/// vacuously.
pub open spec fn phase_payment_resolved(p: Phase) -> bool {
    match p {
        Phase::AwaitingCosmosReady { plan, signing, payment_address, .. } => payment_address
            == spec_resolve_payment(plan.configured_payment_address, signing.signing_address),
        Phase::CheckingEthLiveness { plan, signing, payment_address, .. } => payment_address
            == spec_resolve_payment(plan.configured_payment_address, signing.signing_address),
        Phase::ConstructingFeeManager { plan, signing, payment_address, .. } => payment_address
            == spec_resolve_payment(plan.configured_payment_address, signing.signing_address),
        _ => true,
    }
}

/// The substitution happens exactly once and is never undone: every step
/// preserves the resolved payment address, and the context handed to the
/// relay loop carries exactly the resolution rule's result — the signing
/// address where the configured value was the zero sentinel, the
/// configured value unchanged otherwise.
pub proof fn lemma_handoff_payment_is_resolved(p: Phase, e: Event)
    requires
        phase_payment_resolved(p),
    ensures
        phase_payment_resolved(spec_step(p, e).0),
        spec_step(p, e).1 matches Action::StartRelayLoop { handoff } ==> (p matches
            Phase::ConstructingFeeManager { plan, signing, .. } && handoff.payment_address
            == spec_resolve_payment(plan.configured_payment_address, signing.signing_address)),
{
}

/// Whether an action reaches outside the process: it opens a connection,
/// queries a node, waits on one, checks an account, constructs a fee
/// strategy (which may prime itself from a fee API), or runs the relay
/// loop. Binding a key, aborting and stopping are local.
pub open spec fn attempts_network(a: Action) -> bool {
    ||| a is EstablishConnections
    ||| a is QueryChainId
    ||| a is WaitForCosmosReady
    ||| a is CheckEthLiveness
    ||| a is ConstructFeeManager
    ||| a is StartRelayLoop
}

/// The whole trace the machine produces from a phase and a sequence of
/// outcomes: the phase entered and the action requested after each one.
pub open spec fn spec_run(p: Phase, events: Seq<Event>) -> Seq<(Phase, Action)>
    decreases events.len(),
{
    if events.len() == 0 {
        Seq::empty()
    } else {
        let first = spec_step(p, events.first());
        seq![first] + spec_run(first.0, events.drop_first())
    }
}

/// A trace is as long as the outcomes that produced it.
pub proof fn lemma_spec_run_len(p: Phase, events: Seq<Event>)
    ensures
        spec_run(p, events).len() == events.len(),
    decreases events.len(),
{
    if events.len() > 0 {
        lemma_spec_run_len(spec_step(p, events.first()).0, events.drop_first());
    }
}

/// The failed phase is absorbing: whatever outcomes still arrive, the
/// machine stays failed and only ever requests the same abort.
pub proof fn lemma_failed_phase_is_absorbing(err: StartupError, events: Seq<Event>)
    ensures
        forall|i: int|
            0 <= i < events.len() ==> #[trigger] spec_run(Phase::Failed { err }, events)[i] == (
            Phase::Failed { err },
            Action::Abort { err },
            ),
    decreases events.len(),
{
    if events.len() > 0 {
        let first = spec_step(Phase::Failed { err }, events.first());
        let rest = spec_run(first.0, events.drop_first());
        assert(first == (Phase::Failed { err }, Action::Abort { err }));
        lemma_spec_run_len(first.0, events.drop_first());
        lemma_failed_phase_is_absorbing(err, events.drop_first());
        assert(spec_run(Phase::Failed { err }, events) == seq![first] + rest);
        assert forall|i: int| 0 <= i < events.len() implies #[trigger] spec_run(
            Phase::Failed { err },
            events,
        )[i] == (Phase::Failed { err }, Action::Abort { err }) by {
            if i > 0 {
                assert((seq![first] + rest)[i] == rest[i - 1]);
            }
        }
    }
}

/// A fatally ended bootstrap never reaches for the network again. In
/// particular, when mode resolution fails, `begin` leaves the machine in
/// the failed phase with only an abort requested, and by this lemma no
/// sequence of later outcomes makes it attempt a connection.
pub proof fn lemma_failed_bootstrap_attempts_no_network(err: StartupError, events: Seq<Event>)
    ensures
        forall|i: int|
            0 <= i < events.len() ==> !attempts_network(
                #[trigger] spec_run(Phase::Failed { err }, events)[i].1,
            ),
{
    lemma_failed_phase_is_absorbing(err, events);
}

/// The only step that requests the chain-id query is the one that consumed
/// a connection outcome with every handle present: an absent handle fails
/// the bootstrap before any chain-id query can be requested.
pub proof fn lemma_chain_id_query_needs_full_bundle(p: Phase, e: Event)
    ensures
        spec_step(p, e).1 is QueryChainId ==> p is Connecting && (e matches
            Event::ConnectionsEstablished { grpc, contact, eth_provider } && grpc is Some
            && contact is Some && eth_provider is Some),
{
}

/// The only step that requests the Ethereum-side liveness check is the one
/// that consumes the Cosmos-side readiness confirmation: the check can
/// never be requested before the sync wait has returned successfully.
pub proof fn lemma_eth_check_only_after_cosmos_ready(p: Phase, e: Event)
    ensures
        spec_step(p, e).1 is CheckEthLiveness ==> p is AwaitingCosmosReady
            && e is CosmosNodeReady,
{
}

/// Over a whole trace: wherever the machine requests the liveness check,
/// the outcome it just consumed is the Cosmos-side readiness confirmation,
/// so the readiness wait returned strictly before any liveness check is
/// performed.
pub proof fn lemma_liveness_check_never_precedes_sync(p: Phase, events: Seq<Event>)
    ensures
        forall|i: int|
            0 <= i < events.len() && #[trigger] spec_run(p, events)[i].1 is CheckEthLiveness
                ==> events[i] is CosmosNodeReady,
    decreases events.len(),
{
    if events.len() > 0 {
        let first = spec_step(p, events.first());
        let rest = spec_run(first.0, events.drop_first());
        lemma_spec_run_len(first.0, events.drop_first());
        lemma_eth_check_only_after_cosmos_ready(p, events.first());
        lemma_liveness_check_never_precedes_sync(first.0, events.drop_first());
        assert(spec_run(p, events) == seq![first] + rest);
        assert forall|i: int|
            0 <= i < events.len() && #[trigger] spec_run(p, events)[i].1 is CheckEthLiveness
        implies events[i] is CosmosNodeReady by {
            if i > 0 {
                assert((seq![first] + rest)[i] == rest[i - 1]);
                assert(events[i] == events.drop_first()[i - 1]);
            }
        }
    }
}

/// The operator-facing start command: the key material reference and the
/// optional mode override supplied on the command line.
#[derive(Debug)]
pub struct StartCommand {
    pub ethereum_key: String,
    pub mode: Option<String>,
}

impl StartCommand {
    /// Resolve the configuration and open the bootstrap: either the
    /// connecting phase with a connection request, or — on any
    /// configuration error, before any network operation — the failed
    /// phase with an abort request.
    pub fn begin(&self, cfg: &RawConfig) -> (r: (Phase, Action))
        ensures
            ({
                let eff = effective_mode(cfg.mode@, cli_mode_view(self.mode));
                &&& (r.0 is Connecting || r.0 is Failed)
                &&& (r.0 is Connecting <==> spec_parse_mode(eff) is Some && parses_as_eth_address(
                    cfg.contract_address@,
                ) && parses_as_eth_address(cfg.payment_address@))
                &&& (r.0 matches Phase::Connecting { plan } ==> {
                    &&& spec_parse_mode(eff) == Some(plan.mode)
                    &&& plan.contract_address.bytes@ == eth_address_bytes_of(cfg.contract_address@)
                    &&& plan.configured_payment_address.bytes@ == eth_address_bytes_of(
                        cfg.payment_address@,
                    )
                    &&& filter_view(plan.filter@) == spec_resolved_filter(
                        entries_view(cfg.ethereum_contracts@),
                    )
                    &&& plan.filter@.len() + plan.dropped_filter_entries
                        == cfg.ethereum_contracts@.len()
                    &&& plan.blocks_to_search == cfg.blocks_to_search
                    &&& (r.1 matches Action::EstablishConnections {
                        cosmos_prefix,
                        cosmos_grpc,
                        eth_rpc,
                    } && cosmos_prefix@ == cfg.cosmos_prefix@ && cosmos_grpc@ == cfg.cosmos_grpc@
                        && eth_rpc@ == cfg.eth_rpc@)
                })
                &&& (r.0 matches Phase::Failed { err } ==> {
                    &&& (err == StartupError::UnparseableMode <==> spec_parse_mode(eff) is None)
                    &&& (err == StartupError::UnparseableContractAddress <==> spec_parse_mode(eff)
                        is Some && !parses_as_eth_address(cfg.contract_address@))
                    &&& (err == StartupError::UnparseablePaymentAddress <==> spec_parse_mode(eff)
                        is Some && parses_as_eth_address(cfg.contract_address@)
                        && !parses_as_eth_address(cfg.payment_address@))
                    &&& r.1 == Action::Abort { err }
                })
            }),
    {
        match resolve_startup_config(cfg, &self.mode) {
            Ok(rc) => {
                let ResolvedConfig { plan, cosmos_prefix, cosmos_grpc, eth_rpc } = rc;
                (
                    Phase::Connecting { plan },
                    Action::EstablishConnections { cosmos_prefix, cosmos_grpc, eth_rpc },
                )
            },
            Err(e) => (Phase::Failed { err: e }, Action::Abort { err: e }),
        }
    }
}

} // verus!
