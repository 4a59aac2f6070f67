//! The proposal pipeline: one production cycle from trigger to import.
//!
//! A cycle is driven as a state machine. The driver performs one external
//! action at a time (query the chain selector, initialize a proposer, gather
//! inherent data, request a proposal, import the block) and feeds each
//! outcome back through [`pipeline_step`], which decides the next stage and
//! the next action. Every stage failure returns the machine to `Idle`: the
//! engine stays available for the next trigger, and no failure propagates
//! back to a trigger source.

use vstd::prelude::*;
use crate::types::{Header, ImportDirective, ProposedBlock, BlockOrigin, ForkChoiceStrategy};

verus! {

/// The fixed time budget, in seconds, a proposer is given to construct a
/// block before it must return whatever it has.
pub const MAX_PROPOSAL_DURATION_SECS: u64 = 5;

/// One request to produce a block. `force == true` permits proposing even
/// with zero ready transactions (an empty block).
#[derive(Clone, Copy, Debug, PartialEq, Eq, Structural)]
pub struct ProductionRequest {
    pub force: bool,
}

/// The external call on which one production cycle failed.
#[derive(Clone, Copy, Debug, PartialEq, Eq, Structural)]
pub enum StageKind {
    /// Querying the chain selector for the best header.
    ChainSelection,
    /// Initializing a proposer bound to the best header.
    ProposerInit,
    /// Gathering inherent data.
    InherentGathering,
    /// The bounded-time proposal itself.
    Proposal,
    /// Handing the proposed block to the importer.
    Import,
}

/// Where one production cycle currently stands.
#[derive(Clone, Copy, Debug, PartialEq, Eq, Structural)]
pub enum PipelineStage {
    /// No cycle is running; the next trigger starts one.
    Idle,
    /// Waiting for the chain selector to name the best header.
    SelectingChain,
    /// Waiting for a proposer bound to `parent` to initialize.
    InitializingProposer { parent: Header },
    /// Waiting for the inherent-data provider.
    GatheringInherents { parent: Header },
    /// Waiting for the bounded-time proposal on top of `parent`.
    Proposing { parent: Header },
    /// Waiting for the importer's verdict on the proposed block.
    Importing,
}

/// What the driver observed: the outcome of the action it last performed,
/// or a fresh trigger.
#[derive(Clone, Debug)]
pub enum PipelineEvent {
    /// A trigger fired (a pool notification or a manual command), with the
    /// pool's current number of ready transactions.
    TriggerFired { request: ProductionRequest, ready_count: usize },
    /// The chain selector answered, or failed (`None`).
    BestHeaderResolved { header: Option<Header> },
    /// Proposer initialization succeeded or failed.
    ProposerInitialized { ok: bool },
    /// Inherent-data gathering succeeded or failed.
    InherentDataResolved { ok: bool },
    /// The proposer returned a block — possibly partial, if the time budget
    /// ran out — or failed (`None`).
    ProposalResolved { block: Option<ProposedBlock> },
    /// The importer accepted (`true`) or rejected (`false`) the block.
    ImportResolved { ok: bool },
}

/// What the driver must do next.
#[derive(Clone, Debug)]
pub enum PipelineAction {
    /// The event did not belong to the current stage; nothing to do.
    Ignore,
    /// Readiness gate: no ready transactions and not forced. Not an error.
    SkipCycle,
    /// Ask the chain selector for the current best header.
    QueryBestHeader,
    /// Initialize a proposer bound to `parent`.
    InitProposer { parent: Header },
    /// Ask the inherent-data provider for current inherent data.
    GatherInherentData,
    /// Ask the proposer for a block, bounded by `max_duration_secs`.
    RequestProposal { max_duration_secs: u64 },
    /// Hand `block` to the importer, as an engine-authored, finalized block.
    ImportBlock { block: ProposedBlock },
    /// Log the failed stage at warning level; the cycle is over.
    ReportStageFailure { stage: StageKind },
    /// The block was imported; the cycle is over.
    CycleComplete,
}

/// Whether a trigger with this request, seen while the pool holds
/// `ready_count` ready transactions, must lead to a proposal attempt.
pub open spec fn production_due(request: ProductionRequest, ready_count: usize) -> bool {
    request.force || ready_count > 0
}

/// The readiness gate: a cycle runs if the request forces an (empty) block
/// or the pool has at least one ready transaction.
pub fn should_attempt_production(request: ProductionRequest, ready_count: usize) -> (due: bool)
    ensures
        due == production_due(request, ready_count),
{
    request.force || ready_count > 0
}

/// The transition relation of one production cycle: from the current stage
/// and the observed event to the next stage and the next action.
pub open spec fn pipeline_step_spec(
    stage: PipelineStage,
    event: PipelineEvent,
) -> (PipelineStage, PipelineAction) {
    match (stage, event) {
        (PipelineStage::Idle, PipelineEvent::TriggerFired { request, ready_count }) => {
            if production_due(request, ready_count) {
                (PipelineStage::SelectingChain, PipelineAction::QueryBestHeader)
            } else {
                (PipelineStage::Idle, PipelineAction::SkipCycle)
            }
        },
        (PipelineStage::SelectingChain, PipelineEvent::BestHeaderResolved { header }) => {
            match header {
                Some(parent) => (
                    PipelineStage::InitializingProposer { parent },
                    PipelineAction::InitProposer { parent },
                ),
                None => (
                    PipelineStage::Idle,
                    PipelineAction::ReportStageFailure { stage: StageKind::ChainSelection },
                ),
            }
        },
        (PipelineStage::InitializingProposer { parent }, PipelineEvent::ProposerInitialized { ok }) => {
            if ok {
                (PipelineStage::GatheringInherents { parent }, PipelineAction::GatherInherentData)
            } else {
                (
                    PipelineStage::Idle,
                    PipelineAction::ReportStageFailure { stage: StageKind::ProposerInit },
                )
            }
        },
        (PipelineStage::GatheringInherents { parent }, PipelineEvent::InherentDataResolved { ok }) => {
            if ok {
                (
                    PipelineStage::Proposing { parent },
                    PipelineAction::RequestProposal { max_duration_secs: MAX_PROPOSAL_DURATION_SECS },
                )
            } else {
                (
                    PipelineStage::Idle,
                    PipelineAction::ReportStageFailure { stage: StageKind::InherentGathering },
                )
            }
        },
        (PipelineStage::Proposing { parent: _ }, PipelineEvent::ProposalResolved { block }) => {
            match block {
                Some(block) => (PipelineStage::Importing, PipelineAction::ImportBlock { block }),
                None => (
                    PipelineStage::Idle,
                    PipelineAction::ReportStageFailure { stage: StageKind::Proposal },
                ),
            }
        },
        (PipelineStage::Importing, PipelineEvent::ImportResolved { ok }) => {
            if ok {
                (PipelineStage::Idle, PipelineAction::CycleComplete)
            } else {
                (
                    PipelineStage::Idle,
                    PipelineAction::ReportStageFailure { stage: StageKind::Import },
                )
            }
        },
        (stage, _) => (stage, PipelineAction::Ignore),
    }
}

/// Advances one production cycle by one observed event.
pub fn pipeline_step(stage: PipelineStage, event: PipelineEvent) -> (step: (
    PipelineStage,
    PipelineAction,
))
    ensures
        step == pipeline_step_spec(stage, event),
{
    match (stage, event) {
        (PipelineStage::Idle, PipelineEvent::TriggerFired { request, ready_count }) => {
            if should_attempt_production(request, ready_count) {
                (PipelineStage::SelectingChain, PipelineAction::QueryBestHeader)
            } else {
                (PipelineStage::Idle, PipelineAction::SkipCycle)
            }
        },
        (PipelineStage::SelectingChain, PipelineEvent::BestHeaderResolved { header }) => {
            match header {
                Some(parent) => (
                    PipelineStage::InitializingProposer { parent },
                    PipelineAction::InitProposer { parent },
                ),
                None => (
                    PipelineStage::Idle,
                    PipelineAction::ReportStageFailure { stage: StageKind::ChainSelection },
                ),
            }
        },
        (PipelineStage::InitializingProposer { parent }, PipelineEvent::ProposerInitialized { ok }) => {
            if ok {
                (PipelineStage::GatheringInherents { parent }, PipelineAction::GatherInherentData)
            } else {
                (
                    PipelineStage::Idle,
                    PipelineAction::ReportStageFailure { stage: StageKind::ProposerInit },
                )
            }
        },
        (PipelineStage::GatheringInherents { parent }, PipelineEvent::InherentDataResolved { ok }) => {
            if ok {
                (
                    PipelineStage::Proposing { parent },
                    PipelineAction::RequestProposal { max_duration_secs: MAX_PROPOSAL_DURATION_SECS },
                )
            } else {
                (
                    PipelineStage::Idle,
                    PipelineAction::ReportStageFailure { stage: StageKind::InherentGathering },
                )
            }
        },
        (PipelineStage::Proposing { parent: _ }, PipelineEvent::ProposalResolved { block }) => {
            match block {
                Some(block) => (PipelineStage::Importing, PipelineAction::ImportBlock { block }),
                None => (
                    PipelineStage::Idle,
                    PipelineAction::ReportStageFailure { stage: StageKind::Proposal },
                ),
            }
        },
        (PipelineStage::Importing, PipelineEvent::ImportResolved { ok }) => {
            if ok {
                (PipelineStage::Idle, PipelineAction::CycleComplete)
            } else {
                (
                    PipelineStage::Idle,
                    PipelineAction::ReportStageFailure { stage: StageKind::Import },
                )
            }
        },
        (stage, _) => (stage, PipelineAction::Ignore),
    }
}

/// What every directive built for an engine-authored block satisfies:
/// authored here, finalized immediately, extending the longest chain, and
/// carrying nothing beyond the proposed header and body.
pub open spec fn own_directive_wf(directive: ImportDirective) -> bool {
    &&& directive.origin is Own
    &&& directive.finalized
    &&& directive.fork_choice is LongestChain
    &&& !directive.allow_missing_state
    &&& directive.justification is None
    &&& directive.post_digests@.len() == 0
    &&& directive.auxiliary@.len() == 0
}

/// Builds the import directive for a block this engine just proposed:
/// `origin = Own`, `finalized = true`, fork choice `LongestChain`, no
/// justification, no post digests, no auxiliary data, and the proposed
/// header and body carried over unchanged.
pub fn build_own_import_directive(block: ProposedBlock) -> (directive: ImportDirective)
    ensures
        own_directive_wf(directive),
        directive.header == block.header,
        directive.body matches Some(body) && body@ == block.body@,
{
    ImportDirective {
        origin: BlockOrigin::Own,
        header: block.header,
        justification: None,
        post_digests: Vec::new(),
        body: Some(block.body),
        finalized: true,
        auxiliary: Vec::new(),
        fork_choice: ForkChoiceStrategy::LongestChain,
        allow_missing_state: false,
    }
}

/// The actions a driver performs when the given events arrive in order,
/// starting from `stage`: one action per event.
pub open spec fn pipeline_actions(stage: PipelineStage, events: Seq<PipelineEvent>) -> Seq<
    PipelineAction,
>
    decreases events.len(),
{
    if events.len() == 0 {
        Seq::empty()
    } else {
        let step = pipeline_step_spec(stage, events[0]);
        seq![step.1] + pipeline_actions(step.0, events.drop_first())
    }
}

/// A pool that never has a ready transaction causes no import: for any
/// sequence of unforced triggers seen with zero ready transactions, every
/// cycle is skipped, and in particular no import call ever occurs.
pub proof fn lemma_unready_triggers_never_import(events: Seq<PipelineEvent>)
    requires
        forall|n: int|
            0 <= n < events.len() ==> ((#[trigger] events[n]) matches
            PipelineEvent::TriggerFired { request, ready_count } && !request.force && ready_count
                == 0),
    ensures
        pipeline_actions(PipelineStage::Idle, events).len() == events.len(),
        forall|n: int|
            0 <= n < events.len() ==> (#[trigger] pipeline_actions(
                PipelineStage::Idle,
                events,
            )[n]) is SkipCycle,
        forall|n: int|
            0 <= n < events.len() ==> !((#[trigger] pipeline_actions(
                PipelineStage::Idle,
                events,
            )[n]) is ImportBlock),
    decreases events.len(),
{
    if events.len() > 0 {
        assert(events[0] matches PipelineEvent::TriggerFired { request, ready_count }
            && !request.force && ready_count == 0);
        assert(pipeline_step_spec(PipelineStage::Idle, events[0]) == (
            PipelineStage::Idle,
            PipelineAction::SkipCycle,
        ));
        assert(forall|n: int|
            0 <= n < events.drop_first().len() ==> #[trigger] events.drop_first()[n] == events[n
                + 1]);
        lemma_unready_triggers_never_import(events.drop_first());
    }
}

/// A forced seal command always leads to a proposal attempt, whatever the
/// pool's ready count — even zero.
pub proof fn lemma_forced_trigger_attempts_proposal(ready_count: usize)
    ensures
        pipeline_step_spec(
            PipelineStage::Idle,
            PipelineEvent::TriggerFired { request: ProductionRequest { force: true }, ready_count },
        ) == (PipelineStage::SelectingChain, PipelineAction::QueryBestHeader),
{
}

/// An import action arises only from a successful proposal, and carries
/// exactly the block the proposer returned; together with the contract of
/// [`build_own_import_directive`], every block this engine authors is
/// imported finalized, under the longest-chain rule, whatever the pool held.
pub proof fn lemma_import_only_carries_proposed_block(stage: PipelineStage, event: PipelineEvent)
    ensures
        pipeline_step_spec(stage, event).1 matches PipelineAction::ImportBlock { block } ==> (
        stage matches PipelineStage::Proposing { .. } && event == (PipelineEvent::ProposalResolved {
            block: Some(block),
        })),
{
}

/// No single cycle's failure stalls the engine: every stage failure returns
/// the machine to `Idle`, ready for the next trigger; the proposer's time
/// budget is always the fixed five seconds; and whatever block the proposer
/// returns within that budget — partial or not — is forwarded to import.
pub proof fn lemma_cycle_failure_recovers(stage: PipelineStage, event: PipelineEvent)
    ensures
        pipeline_step_spec(stage, event).1 is ReportStageFailure ==> pipeline_step_spec(
            stage,
            event,
        ).0 is Idle,
        pipeline_step_spec(stage, event).1 matches PipelineAction::RequestProposal {
            max_duration_secs,
        } ==> max_duration_secs == MAX_PROPOSAL_DURATION_SECS,
        event matches PipelineEvent::ProposalResolved { block: Some(block) } ==> (stage matches
            PipelineStage::Proposing { .. } ==> pipeline_step_spec(stage, event).1 == (
        PipelineAction::ImportBlock { block })),
{
}

} // verus!
