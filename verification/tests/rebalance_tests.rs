use liquidity_vault::errors::CustomError;
use liquidity_vault::orchestrator::{
    check_position_claim, rebalance, PipelineAction, PipelineEffect, RebalanceEvent,
    RebalanceOrchestrator, RebalanceState, REWARD_SLOT,
};
use liquidity_vault::policy::{determine_tick_lower, determine_tick_upper, is_in_range};

fn succeed(m: &mut RebalanceOrchestrator, times: usize) {
    let mut i: usize = 0;
    while i < times {
        m.step(RebalanceEvent::StepSucceeded);
        i += 1;
    }
}

#[test]
fn range_check_is_inclusive_on_both_edges() {
    assert!(is_in_range(90, 90, 110));
    assert!(is_in_range(100, 90, 110));
    assert!(is_in_range(110, 90, 110));
    assert!(!is_in_range(89, 90, 110));
    assert!(!is_in_range(111, 90, 110));
}

#[test]
fn tick_lower_is_the_offset_above_the_target() {
    assert_eq!(determine_tick_lower(100, 40), Ok(60));
    assert_eq!(determine_tick_lower(40, 40), Ok(0));
    assert_eq!(determine_tick_lower(i32::MAX as u64, 0), Ok(i32::MAX));
}

#[test]
fn tick_lower_fails_when_the_offset_is_negative() {
    assert_eq!(
        determine_tick_lower(39, 40),
        Err(CustomError::PositionOutOfRangeCheckFailed)
    );
}

#[test]
fn tick_lower_fails_beyond_the_tick_width() {
    assert_eq!(
        determine_tick_lower(i32::MAX as u64 + 1, 0),
        Err(CustomError::ArithmeticOverflow)
    );
    assert_eq!(
        determine_tick_lower(u64::MAX, 0),
        Err(CustomError::ArithmeticOverflow)
    );
}

#[test]
fn tick_upper_is_the_offset_below_the_target() {
    assert_eq!(determine_tick_upper(100, 160), Ok(60));
    assert_eq!(determine_tick_upper(160, 160), Ok(0));
    assert_eq!(determine_tick_upper(0, i32::MAX as u64), Ok(i32::MAX));
}

#[test]
fn tick_upper_fails_when_the_offset_is_negative() {
    assert_eq!(
        determine_tick_upper(161, 160),
        Err(CustomError::PositionOutOfRangeCheckFailed)
    );
}

#[test]
fn tick_upper_fails_beyond_the_tick_width() {
    assert_eq!(
        determine_tick_upper(0, i32::MAX as u64 + 1),
        Err(CustomError::ArithmeticOverflow)
    );
}

#[test]
fn position_claim_needs_exactly_one_unit_of_the_right_mint() {
    let mint_a = [3u8; 32];
    let mut mint_b = [3u8; 32];
    mint_b[31] = 4;
    assert_eq!(check_position_claim(1, mint_a, mint_a), Ok(()));
    assert_eq!(
        check_position_claim(0, mint_a, mint_a),
        Err(CustomError::UnauthorizedPosition)
    );
    assert_eq!(
        check_position_claim(2, mint_a, mint_a),
        Err(CustomError::UnauthorizedPosition)
    );
    assert_eq!(
        check_position_claim(1, mint_a, mint_b),
        Err(CustomError::UnauthorizedPosition)
    );
}

#[test]
fn in_band_price_is_a_noop() {
    let m = rebalance(100, 90, 110);
    assert_eq!(m.state, RebalanceState::Done);
    assert_eq!(m.next_action(), None);
    assert!(m.committed_effects().is_empty());
    assert_eq!(m.error, None);
}

#[test]
fn band_edges_are_still_in_band() {
    assert_eq!(rebalance(90, 90, 110).state, RebalanceState::Done);
    assert_eq!(rebalance(110, 90, 110).state, RebalanceState::Done);
}

#[test]
fn out_of_band_price_starts_the_pipeline() {
    let m = rebalance(150, 90, 110);
    assert_eq!(m.state, RebalanceState::ClosingPosition);
    assert_eq!(m.next_action(), Some(PipelineAction::ClosePosition));
    assert!(m.committed_effects().is_empty());
}

#[test]
fn pipeline_asks_close_then_reward_then_fees() {
    let mut m = rebalance(150, 90, 110);
    assert_eq!(m.next_action(), Some(PipelineAction::ClosePosition));
    m.step(RebalanceEvent::StepSucceeded);
    assert_eq!(m.state, RebalanceState::HarvestingReward);
    assert_eq!(
        m.next_action(),
        Some(PipelineAction::CollectReward {
            reward_index: REWARD_SLOT
        })
    );
    m.step(RebalanceEvent::StepSucceeded);
    assert_eq!(m.state, RebalanceState::HarvestingFees);
    assert_eq!(m.next_action(), Some(PipelineAction::CollectFees));
}

#[test]
fn offset_bound_rule_aborts_after_the_fee_harvest() {
    // The price sits above the band, so the upper offset comes out
    // negative once the bounds are computed: the transaction aborts and
    // commits none of the three successful steps.
    let mut m = rebalance(150, 90, 110);
    succeed(&mut m, 3);
    assert_eq!(m.state, RebalanceState::Aborted);
    assert_eq!(m.error, Some(CustomError::PositionOutOfRangeCheckFailed));
    assert!(m.committed_effects().is_empty());
    assert_eq!(m.next_action(), None);
}

#[test]
fn low_price_aborts_on_the_negative_lower_offset() {
    let mut m = rebalance(50, 90, 110);
    succeed(&mut m, 3);
    assert_eq!(m.state, RebalanceState::Aborted);
    assert_eq!(m.error, Some(CustomError::PositionOutOfRangeCheckFailed));
    assert!(m.committed_effects().is_empty());
}

#[test]
fn huge_price_aborts_on_the_tick_width() {
    let mut m = rebalance(5_000_000_000, 90, 110);
    succeed(&mut m, 3);
    assert_eq!(m.state, RebalanceState::Aborted);
    assert_eq!(m.error, Some(CustomError::ArithmeticOverflow));
    assert!(m.committed_effects().is_empty());
}

#[test]
fn failure_at_any_stage_commits_nothing() {
    let mut stage: usize = 0;
    while stage < 3 {
        let mut m = rebalance(150, 90, 110);
        succeed(&mut m, stage);
        m.step(RebalanceEvent::StepFailed {
            error: CustomError::InsufficientBalance,
        });
        assert_eq!(m.state, RebalanceState::Aborted);
        assert_eq!(m.error, Some(CustomError::InsufficientBalance));
        assert!(m.committed_effects().is_empty());
        assert_eq!(m.next_action(), None);
        stage += 1;
    }
}

#[test]
fn unauthorized_close_aborts_the_whole_transaction() {
    let mut m = rebalance(150, 90, 110);
    m.step(RebalanceEvent::StepFailed {
        error: CustomError::UnauthorizedPosition,
    });
    assert_eq!(m.state, RebalanceState::Aborted);
    assert_eq!(m.error, Some(CustomError::UnauthorizedPosition));
    assert!(m.committed_effects().is_empty());
}

#[test]
fn aborted_pipeline_ignores_later_events() {
    let mut m = rebalance(150, 90, 110);
    m.step(RebalanceEvent::StepFailed {
        error: CustomError::InsufficientBalance,
    });
    m.step(RebalanceEvent::StepSucceeded);
    m.step(RebalanceEvent::PriceFetched { price: 100 });
    assert_eq!(m.state, RebalanceState::Aborted);
    assert!(m.committed_effects().is_empty());
    assert_eq!(m.next_action(), None);
}

#[test]
fn committed_effects_surface_only_once_done() {
    // A finished transaction makes its whole staged sequence observable;
    // the same sequence counts for nothing while a stage is still pending.
    let staged = vec![
        PipelineEffect::PositionClosed,
        PipelineEffect::RewardCollected {
            reward_index: REWARD_SLOT,
        },
        PipelineEffect::FeesCollected,
        PipelineEffect::PositionOpened {
            tick_lower_index: 60,
            tick_upper_index: 0,
        },
    ];
    let done = RebalanceOrchestrator {
        state: RebalanceState::Done,
        min_price: 90,
        max_price: 110,
        current_price: 150,
        tick_lower_index: 60,
        tick_upper_index: 0,
        error: None,
        staged: staged.clone(),
    };
    assert_eq!(done.committed_effects(), staged);
    let pending = RebalanceOrchestrator {
        state: RebalanceState::OpeningPosition,
        staged,
        ..done
    };
    assert!(pending.committed_effects().is_empty());
}

#[test]
fn mismatched_events_leave_the_pipeline_unchanged() {
    let mut m = rebalance(150, 90, 110);
    m.step(RebalanceEvent::PriceFetched { price: 100 });
    assert_eq!(m.state, RebalanceState::ClosingPosition);
    let mut done = rebalance(100, 90, 110);
    done.step(RebalanceEvent::StepSucceeded);
    assert_eq!(done.state, RebalanceState::Done);
    assert!(done.committed_effects().is_empty());
}
