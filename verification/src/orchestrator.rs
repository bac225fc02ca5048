//! The rebalance orchestrator.
//!
//! A rebalance is one atomic transaction: fetch the market price, stop at
//! once if it lies inside the configured band, and otherwise close the
//! current position, collect its accrued reward and trading fees, and open
//! a replacement over freshly computed bounds.  The collaborator calls
//! themselves (the liquidity pool, the price oracle) run outside this
//! crate; the [`RebalanceOrchestrator`] decides, from its state and each
//! reported outcome, which call comes next, and accounts for the effects.
//!
//! Effects are *staged* as the caller acknowledges each step; they count as
//! committed only when the pipeline reaches its end.  Any failure aborts
//! the whole transaction with nothing committed — the substrate executing
//! the calls rolls their side effects back together — and an aborted
//! pipeline stays aborted: no later event resurrects it.

use vstd::prelude::*;

use crate::errors::CustomError;
use crate::policy::{
    determine_tick_lower, determine_tick_upper, in_range, is_in_range, spec_tick_lower,
    spec_tick_upper,
};

verus! {

/// The single reward slot the harvest step collects.
pub const REWARD_SLOT: u8 = 0;

/// The stages of one rebalance transaction.
#[derive(Clone, Copy, Debug, PartialEq, Eq, Structural)]
pub enum RebalanceState {
    /// Waiting for the oracle's price.
    Evaluating,
    /// Waiting for the current position to be closed.
    ClosingPosition,
    /// Waiting for the reward slot to be collected.
    HarvestingReward,
    /// Waiting for the trading fees of both pair sides to be collected.
    HarvestingFees,
    /// Waiting for the replacement position to be opened.
    OpeningPosition,
    /// Finished: the staged effects are committed.
    Done,
    /// A step failed: the transaction is void and nothing is committed.
    Aborted,
}

/// One instruction to a collaborator.
#[derive(Clone, Copy, Debug, PartialEq, Eq, Structural)]
pub enum PipelineAction {
    /// Ask the price oracle for the pool's current price.
    FetchPrice,
    /// Ask the liquidity pool to close the current position, returning its
    /// holdings to the designated receiver.
    ClosePosition,
    /// Ask the liquidity pool to collect the accrued incentive reward of
    /// one slot into the vault's reward account.
    CollectReward {
        /// The reward slot to collect.
        reward_index: u8,
    },
    /// Ask the liquidity pool to collect the accrued trading fees of both
    /// pair sides into the vault's owner accounts.
    CollectFees,
    /// Ask the liquidity pool to open the replacement position over the
    /// computed bounds.
    OpenPosition {
        /// Lower tick bound of the new position.
        tick_lower_index: i32,
        /// Upper tick bound of the new position.
        tick_upper_index: i32,
    },
}

/// A collaborator call whose completion the caller has reported.
#[derive(Clone, Copy, Debug, PartialEq, Eq, Structural)]
pub enum PipelineEffect {
    /// The position was closed.
    PositionClosed,
    /// One reward slot was collected.
    RewardCollected {
        /// The reward slot that was collected.
        reward_index: u8,
    },
    /// The trading fees of both pair sides were collected.
    FeesCollected,
    /// A replacement position was opened.
    PositionOpened {
        /// Lower tick bound of the opened position.
        tick_lower_index: i32,
        /// Upper tick bound of the opened position.
        tick_upper_index: i32,
    },
}

/// What the caller reports back to the pipeline.
#[derive(Clone, Copy, Debug, PartialEq, Eq, Structural)]
pub enum RebalanceEvent {
    /// The price oracle answered.
    PriceFetched {
        /// The pool's current price.
        price: u64,
    },
    /// The collaborator call of the current stage succeeded.
    StepSucceeded,
    /// The collaborator call of the current stage failed; its error is
    /// carried through unchanged.
    StepFailed {
        /// The collaborator's reported error.
        error: CustomError,
    },
}

/// The orchestrator's mathematical model: its fields with the staged
/// effects as a sequence.
#[verifier::ext_equal]
pub struct OrchestratorModel {
    /// Current stage.
    pub state: RebalanceState,
    /// Lower edge of the configured price band.
    pub min_price: u64,
    /// Upper edge of the configured price band.
    pub max_price: u64,
    /// The price the oracle reported; meaningful from the evaluation on.
    pub current_price: u64,
    /// Lower bound for the replacement position, once computed.
    pub tick_lower_index: i32,
    /// Upper bound for the replacement position, once computed.
    pub tick_upper_index: i32,
    /// The error that aborted the transaction, if one did.
    pub error: Option<CustomError>,
    /// The effects acknowledged so far, in order, none of them committed.
    pub staged: Seq<PipelineEffect>,
}

/// The four collaborator effects of a completed rebalance, in pipeline
/// order.
pub open spec fn full_pipeline(tick_lower_index: i32, tick_upper_index: i32) -> Seq<
    PipelineEffect,
> {
    seq![
        PipelineEffect::PositionClosed,
        PipelineEffect::RewardCollected { reward_index: REWARD_SLOT },
        PipelineEffect::FeesCollected,
        PipelineEffect::PositionOpened {
            tick_lower_index: tick_lower_index,
            tick_upper_index: tick_upper_index,
        },
    ]
}

impl OrchestratorModel {
    /// The effects the transaction has made observable: the staged
    /// sequence once the pipeline is done, nothing in every other state.
    pub open spec fn committed(self) -> Seq<PipelineEffect> {
        if self.state == RebalanceState::Done {
            self.staged
        } else {
            Seq::<PipelineEffect>::empty()
        }
    }

    /// The pipeline's invariant: each stage holds exactly the effects of
    /// the stages before it, an out-of-band price is what drove it past
    /// evaluation, computed bounds agree with the range policy, a finished
    /// pipeline committed either nothing (the in-band short-circuit) or
    /// the whole pipeline, and an aborted one recorded its error and holds
    /// nothing.
    pub open spec fn wf(self) -> bool {
        match self.state {
            RebalanceState::Evaluating => self.staged == Seq::<PipelineEffect>::empty(),
            RebalanceState::ClosingPosition => !in_range(
                self.current_price,
                self.min_price,
                self.max_price,
            ) && self.staged == Seq::<PipelineEffect>::empty(),
            RebalanceState::HarvestingReward => !in_range(
                self.current_price,
                self.min_price,
                self.max_price,
            ) && self.staged == seq![PipelineEffect::PositionClosed],
            RebalanceState::HarvestingFees => !in_range(
                self.current_price,
                self.min_price,
                self.max_price,
            ) && self.staged == seq![
                PipelineEffect::PositionClosed,
                PipelineEffect::RewardCollected { reward_index: REWARD_SLOT },
            ],
            RebalanceState::OpeningPosition => spec_tick_lower(self.current_price, self.min_price)
                == Ok::<i32, CustomError>(self.tick_lower_index) && spec_tick_upper(
                self.current_price,
                self.max_price,
            ) == Ok::<i32, CustomError>(self.tick_upper_index) && self.staged == seq![
                PipelineEffect::PositionClosed,
                PipelineEffect::RewardCollected { reward_index: REWARD_SLOT },
                PipelineEffect::FeesCollected,
            ],
            RebalanceState::Done => (self.staged == Seq::<PipelineEffect>::empty() && in_range(
                self.current_price,
                self.min_price,
                self.max_price,
            )) || self.staged == full_pipeline(self.tick_lower_index, self.tick_upper_index),
            RebalanceState::Aborted => self.error is Some && self.staged == Seq::<
                PipelineEffect,
            >::empty(),
        }
    }
}

/// A freshly started pipeline, waiting for the oracle.
pub open spec fn spec_start(min_price: u64, max_price: u64) -> OrchestratorModel {
    OrchestratorModel {
        state: RebalanceState::Evaluating,
        min_price: min_price,
        max_price: max_price,
        current_price: 0,
        tick_lower_index: 0,
        tick_upper_index: 0,
        error: None,
        staged: Seq::<PipelineEffect>::empty(),
    }
}

/// The aborted pipeline: the error recorded, every staged effect
/// discarded.
pub open spec fn spec_abort(m: OrchestratorModel, e: CustomError) -> OrchestratorModel {
    OrchestratorModel {
        state: RebalanceState::Aborted,
        error: Some(e),
        staged: Seq::<PipelineEffect>::empty(),
        ..m
    }
}

/// The pipeline's transition relation, one event at a time.
///
/// An in-band price finishes the transaction at once with nothing staged;
/// an out-of-band one starts the close/harvest/reopen sequence.  Each
/// acknowledged step stages its effect and hands control to the next
/// stage; after the fee harvest the replacement bounds are computed, and a
/// failed bound — like any reported failure — aborts the whole
/// transaction.  Events that do not belong to the current stage, and any
/// event after the pipeline has finished or aborted, change nothing.
pub open spec fn spec_step(m: OrchestratorModel, ev: RebalanceEvent) -> OrchestratorModel {
    match (m.state, ev) {
        (RebalanceState::Evaluating, RebalanceEvent::PriceFetched { price }) => {
            if in_range(price, m.min_price, m.max_price) {
                OrchestratorModel { state: RebalanceState::Done, current_price: price, ..m }
            } else {
                OrchestratorModel {
                    state: RebalanceState::ClosingPosition,
                    current_price: price,
                    ..m
                }
            }
        },
        (RebalanceState::ClosingPosition, RebalanceEvent::StepSucceeded) => {
            OrchestratorModel {
                state: RebalanceState::HarvestingReward,
                staged: m.staged.push(PipelineEffect::PositionClosed),
                ..m
            }
        },
        (RebalanceState::HarvestingReward, RebalanceEvent::StepSucceeded) => {
            OrchestratorModel {
                state: RebalanceState::HarvestingFees,
                staged: m.staged.push(
                    PipelineEffect::RewardCollected { reward_index: REWARD_SLOT },
                ),
                ..m
            }
        },
        (RebalanceState::HarvestingFees, RebalanceEvent::StepSucceeded) => {
            match spec_tick_lower(m.current_price, m.min_price) {
                Err(e) => spec_abort(m, e),
                Ok(lo) => match spec_tick_upper(m.current_price, m.max_price) {
                    Err(e) => spec_abort(m, e),
                    Ok(hi) => OrchestratorModel {
                        state: RebalanceState::OpeningPosition,
                        tick_lower_index: lo,
                        tick_upper_index: hi,
                        staged: m.staged.push(PipelineEffect::FeesCollected),
                        ..m
                    },
                },
            }
        },
        (RebalanceState::OpeningPosition, RebalanceEvent::StepSucceeded) => {
            OrchestratorModel {
                state: RebalanceState::Done,
                staged: m.staged.push(
                    PipelineEffect::PositionOpened {
                        tick_lower_index: m.tick_lower_index,
                        tick_upper_index: m.tick_upper_index,
                    },
                ),
                ..m
            }
        },
        (RebalanceState::Evaluating, RebalanceEvent::StepFailed { error }) => spec_abort(m, error),
        (RebalanceState::ClosingPosition, RebalanceEvent::StepFailed { error }) => spec_abort(
            m,
            error,
        ),
        (RebalanceState::HarvestingReward, RebalanceEvent::StepFailed { error }) => spec_abort(
            m,
            error,
        ),
        (RebalanceState::HarvestingFees, RebalanceEvent::StepFailed { error }) => spec_abort(
            m,
            error,
        ),
        (RebalanceState::OpeningPosition, RebalanceEvent::StepFailed { error }) => spec_abort(
            m,
            error,
        ),
        _ => m,
    }
}

/// The collaborator call each stage waits on.
pub open spec fn spec_next_action(m: OrchestratorModel) -> Option<PipelineAction> {
    match m.state {
        RebalanceState::Evaluating => Some(PipelineAction::FetchPrice),
        RebalanceState::ClosingPosition => Some(PipelineAction::ClosePosition),
        RebalanceState::HarvestingReward => Some(
            PipelineAction::CollectReward { reward_index: REWARD_SLOT },
        ),
        RebalanceState::HarvestingFees => Some(PipelineAction::CollectFees),
        RebalanceState::OpeningPosition => Some(
            PipelineAction::OpenPosition {
                tick_lower_index: m.tick_lower_index,
                tick_upper_index: m.tick_upper_index,
            },
        ),
        RebalanceState::Done => None,
        RebalanceState::Aborted => None,
    }
}

/// The pipeline after a whole sequence of events, applied in order.
pub open spec fn spec_run(m: OrchestratorModel, evs: Seq<RebalanceEvent>) -> OrchestratorModel
    decreases evs.len(),
{
    if evs.len() == 0 {
        m
    } else {
        spec_run(spec_step(m, evs[0]), evs.drop_first())
    }
}

/// Every event keeps the pipeline's invariant.
pub proof fn lemma_step_preserves_wf(m: OrchestratorModel, ev: RebalanceEvent)
    requires
        m.wf(),
    ensures
        spec_step(m, ev).wf(),
{
    if m.state == RebalanceState::ClosingPosition && ev == RebalanceEvent::StepSucceeded {
        assert(m.staged.push(PipelineEffect::PositionClosed) =~= seq![
            PipelineEffect::PositionClosed,
        ]);
    }
    if m.state == RebalanceState::HarvestingReward && ev == RebalanceEvent::StepSucceeded {
        assert(m.staged.push(PipelineEffect::RewardCollected { reward_index: REWARD_SLOT }) =~= seq![
            PipelineEffect::PositionClosed,
            PipelineEffect::RewardCollected { reward_index: REWARD_SLOT },
        ]);
    }
    if m.state == RebalanceState::HarvestingFees && ev == RebalanceEvent::StepSucceeded {
        assert(m.staged.push(PipelineEffect::FeesCollected) =~= seq![
            PipelineEffect::PositionClosed,
            PipelineEffect::RewardCollected { reward_index: REWARD_SLOT },
            PipelineEffect::FeesCollected,
        ]);
    }
    if m.state == RebalanceState::OpeningPosition && ev == RebalanceEvent::StepSucceeded {
        assert(m.staged.push(
            PipelineEffect::PositionOpened {
                tick_lower_index: m.tick_lower_index,
                tick_upper_index: m.tick_upper_index,
            },
        ) =~= full_pipeline(m.tick_lower_index, m.tick_upper_index));
    }
}

/// Rebalance atomicity: once a step has failed the transaction is void —
/// whatever events arrive afterwards, the pipeline stays aborted and
/// commits nothing.
pub proof fn lemma_rebalance_atomicity(m: OrchestratorModel, evs: Seq<RebalanceEvent>)
    requires
        m.state == RebalanceState::Aborted,
    ensures
        spec_run(m, evs).state == RebalanceState::Aborted,
        spec_run(m, evs).committed() == Seq::<PipelineEffect>::empty(),
    decreases evs.len(),
{
    if evs.len() > 0 {
        lemma_rebalance_atomicity(spec_step(m, evs[0]), evs.drop_first());
    }
}

/// Drives one rebalance transaction.
///
/// Built by [`RebalanceOrchestrator::start`] or [`rebalance`]; the caller
/// then alternates [`RebalanceOrchestrator::next_action`] — performing the
/// returned collaborator call — with [`RebalanceOrchestrator::step`],
/// reporting the call's outcome, until no action is left.
pub struct RebalanceOrchestrator {
    /// Current stage.
    pub state: RebalanceState,
    /// Lower edge of the configured price band.
    pub min_price: u64,
    /// Upper edge of the configured price band.
    pub max_price: u64,
    /// The price the oracle reported; meaningful from the evaluation on.
    pub current_price: u64,
    /// Lower bound for the replacement position, once computed.
    pub tick_lower_index: i32,
    /// Upper bound for the replacement position, once computed.
    pub tick_upper_index: i32,
    /// The error that aborted the transaction, if one did.
    pub error: Option<CustomError>,
    /// The effects acknowledged so far, in order, none of them committed.
    pub staged: Vec<PipelineEffect>,
}

impl RebalanceOrchestrator {
    /// The orchestrator's model: the same record with the staged effects
    /// as a sequence.
    pub open spec fn model(self) -> OrchestratorModel {
        OrchestratorModel {
            state: self.state,
            min_price: self.min_price,
            max_price: self.max_price,
            current_price: self.current_price,
            tick_lower_index: self.tick_lower_index,
            tick_upper_index: self.tick_upper_index,
            error: self.error,
            staged: self.staged@,
        }
    }

    /// Begins a rebalance transaction over the band
    /// `[min_price, max_price]`, waiting for the oracle's price.
    pub fn start(min_price: u64, max_price: u64) -> (m: Self)
        ensures
            m.model() == spec_start(min_price, max_price),
            m.model().wf(),
    {
        let m = RebalanceOrchestrator {
            state: RebalanceState::Evaluating,
            min_price: min_price,
            max_price: max_price,
            current_price: 0,
            tick_lower_index: 0,
            tick_upper_index: 0,
            error: None,
            staged: Vec::new(),
        };
        proof {
            assert(m.model() =~= spec_start(min_price, max_price));
        }
        m
    }

    /// The collaborator call the pipeline is waiting on, or `None` once it
    /// has finished or aborted.
    pub fn next_action(&self) -> (a: Option<PipelineAction>)
        ensures
            a == spec_next_action(self.model()),
    {
        match self.state {
            RebalanceState::Evaluating => Some(PipelineAction::FetchPrice),
            RebalanceState::ClosingPosition => Some(PipelineAction::ClosePosition),
            RebalanceState::HarvestingReward => Some(
                PipelineAction::CollectReward { reward_index: REWARD_SLOT },
            ),
            RebalanceState::HarvestingFees => Some(PipelineAction::CollectFees),
            RebalanceState::OpeningPosition => Some(
                PipelineAction::OpenPosition {
                    tick_lower_index: self.tick_lower_index,
                    tick_upper_index: self.tick_upper_index,
                },
            ),
            RebalanceState::Done => None,
            RebalanceState::Aborted => None,
        }
    }

    /// Voids the transaction: records the error, discards every staged
    /// effect.
    fn abort(&mut self, e: CustomError)
        ensures
            final(self).model() == spec_abort(old(self).model(), e),
    {
        self.state = RebalanceState::Aborted;
        self.error = Some(e);
        self.staged = Vec::new();
        proof {
            assert(self.model() =~= spec_abort(old(self).model(), e));
        }
    }

    /// Advances the pipeline by one event: the oracle's answer, or the
    /// current stage's success or failure.  An event that does not belong
    /// to the current stage leaves the pipeline unchanged.
    pub fn step(&mut self, ev: RebalanceEvent)
        requires
            old(self).model().wf(),
        ensures
            final(self).model() == spec_step(old(self).model(), ev),
            final(self).model().wf(),
    {
        proof {
            lemma_step_preserves_wf(old(self).model(), ev);
        }
        match ev {
            RebalanceEvent::PriceFetched { price } => {
                if self.state == RebalanceState::Evaluating {
                    self.current_price = price;
                    if is_in_range(price, self.min_price, self.max_price) {
                        self.state = RebalanceState::Done;
                    } else {
                        self.state = RebalanceState::ClosingPosition;
                    }
                }
            },
            RebalanceEvent::StepSucceeded => {
                if self.state == RebalanceState::ClosingPosition {
                    self.staged.push(PipelineEffect::PositionClosed);
                    self.state = RebalanceState::HarvestingReward;
                } else if self.state == RebalanceState::HarvestingReward {
                    self.staged.push(PipelineEffect::RewardCollected { reward_index: REWARD_SLOT });
                    self.state = RebalanceState::HarvestingFees;
                } else if self.state == RebalanceState::HarvestingFees {
                    self.staged.push(PipelineEffect::FeesCollected);
                    match determine_tick_lower(self.current_price, self.min_price) {
                        Err(e) => {
                            self.abort(e);
                        },
                        Ok(lo) => {
                            match determine_tick_upper(self.current_price, self.max_price) {
                                Err(e) => {
                                    self.abort(e);
                                },
                                Ok(hi) => {
                                    self.tick_lower_index = lo;
                                    self.tick_upper_index = hi;
                                    self.state = RebalanceState::OpeningPosition;
                                },
                            }
                        },
                    }
                } else if self.state == RebalanceState::OpeningPosition {
                    let lo: i32 = self.tick_lower_index;
                    let hi: i32 = self.tick_upper_index;
                    self.staged.push(
                        PipelineEffect::PositionOpened {
                            tick_lower_index: lo,
                            tick_upper_index: hi,
                        },
                    );
                    self.state = RebalanceState::Done;
                }
            },
            RebalanceEvent::StepFailed { error } => {
                if !(self.state == RebalanceState::Done || self.state == RebalanceState::Aborted) {
                    self.abort(error);
                }
            },
        }
    }

    /// The effects this transaction has made observable: the whole staged
    /// sequence once the pipeline is done, nothing in every other state.
    pub fn committed_effects(&self) -> (r: Vec<PipelineEffect>)
        ensures
            r@ == self.model().committed(),
    {
        let mut r: Vec<PipelineEffect> = Vec::new();
        if self.state == RebalanceState::Done {
            let mut i: usize = 0;
            while i < self.staged.len()
                invariant
                    i <= self.staged.len(),
                    r@ == self.staged@.subrange(0, i as int),
                decreases self.staged.len() - i,
            {
                r.push(self.staged[i]);
                proof {
                    assert(r@ =~= self.staged@.subrange(0, i + 1));
                }
                i = i + 1;
            }
            proof {
                assert(r@ =~= self.staged@);
            }
        }
        r
    }
}

/// The unique-claim ownership test on a position.
///
/// A position is represented by exactly one unit of its own claim token:
/// whoever asks to close or harvest it must hold an account of that very
/// mint whose balance is exactly one.  Any other holding — zero units,
/// several, or units of some other mint — is `UnauthorizedPosition`.
pub fn check_position_claim(
    claim_token_amount: u64,
    claim_mint: [u8; 32],
    position_mint: [u8; 32],
) -> (r: Result<(), CustomError>)
    ensures
        r is Ok <==> (claim_token_amount == 1 && claim_mint@ == position_mint@),
        r is Err ==> r == Err::<(), CustomError>(CustomError::UnauthorizedPosition),
{
    let mut same: bool = true;
    let mut i: usize = 0;
    while i < 32
        invariant
            i <= 32,
            same <==> (forall|j: int| 0 <= j < i ==> claim_mint@[j] == position_mint@[j]),
        decreases 32 - i,
    {
        if claim_mint[i] != position_mint[i] {
            same = false;
        }
        i = i + 1;
    }
    proof {
        if same {
            assert(claim_mint@ =~= position_mint@);
        }
    }
    if claim_token_amount == 1 && same {
        Ok(())
    } else {
        Err(CustomError::UnauthorizedPosition)
    }
}

/// The rebalance entry step: takes the price the oracle reported and the
/// configured band, and decides the whole transaction.
///
/// An in-band price is a no-op — the pipeline finishes at once, commits
/// nothing and asks for no collaborator call.  An out-of-band price leaves
/// the pipeline waiting to close the current position.
pub fn rebalance(current_price: u64, min_price: u64, max_price: u64) -> (m: RebalanceOrchestrator)
    ensures
        m.model() == spec_step(
            spec_start(min_price, max_price),
            RebalanceEvent::PriceFetched { price: current_price },
        ),
        m.model().wf(),
        in_range(current_price, min_price, max_price) ==> m.state == RebalanceState::Done
            && m.model().committed() == Seq::<PipelineEffect>::empty() && spec_next_action(
            m.model(),
        ) is None,
        !in_range(current_price, min_price, max_price) ==> m.state
            == RebalanceState::ClosingPosition,
{
    let mut m = RebalanceOrchestrator::start(min_price, max_price);
    m.step(RebalanceEvent::PriceFetched { price: current_price });
    m
}

} // verus!
