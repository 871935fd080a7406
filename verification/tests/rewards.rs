use game_cs::economy::rewards::RoundRewardCalculator;
use game_cs::game::types::{CTWinReason, RoundMoneyRewards, RoundResult, TWinReason, Team};

#[test]
fn test_ct_win_rewards() {
    let calc = RoundRewardCalculator::default();
    let (ct, t) = calc.compute(RoundResult::CTWin(CTWinReason::TerrorsEliminated), 0, 3);
    assert_eq!(ct.total_reward, 3250);
    // T team had 3 consecutive losses: base 1400 + 3*500 = 2900
    assert_eq!(t.total_reward, 2900);
}

#[test]
fn test_t_win_rewards() {
    let calc = RoundRewardCalculator::default();
    let (ct, t) = calc.compute(RoundResult::TWin(TWinReason::BombExploded), 2, 0);
    // CT had 2 consecutive losses: base 1400 + 2*500 = 2400
    assert_eq!(ct.total_reward, 2400);
    assert_eq!(t.total_reward, 3250);
}

#[test]
fn test_loss_bonus_cap() {
    let calc = RoundRewardCalculator::default();
    // 10 consecutive losses should be capped at max_loss_bonus (4)
    let (ct, _) = calc.compute(RoundResult::TWin(TWinReason::CTsEliminated), 10, 0);
    assert_eq!(ct.loss_bonus, 4 * 500);
}

#[test]
fn in_progress_round_pays_nothing() {
    let calc = RoundRewardCalculator::default();
    let (ct, t) = calc.compute(RoundResult::InProgress, 3, 3);
    assert_eq!(ct.total_reward, 0);
    assert_eq!(t.total_reward, 0);
    assert_eq!(ct.team, Team::CT);
    assert_eq!(t.team, Team::T);
}

#[test]
fn winner_gets_no_loss_bonus_and_zero_losses_give_no_bonus() {
    let calc = RoundRewardCalculator::default();
    let (ct, t) = calc.compute(RoundResult::CTWin(CTWinReason::BombDefused), 7, 0);
    assert_eq!(ct.loss_bonus, 0);
    assert_eq!(ct.base_reward, 3250);
    assert_eq!(t.loss_bonus, 0);
    assert_eq!(t.total_reward, 1400);
}

#[test]
fn custom_reward_table_is_used() {
    let mut rewards = RoundMoneyRewards::default();
    rewards.loss_bonus_increment = 100;
    rewards.max_loss_bonus = 2;
    rewards.t_loss_base = 1000;
    let calc = RoundRewardCalculator::new(rewards);
    let (_, t) = calc.compute(RoundResult::CTWin(CTWinReason::TimeExpired), 0, 5);
    assert_eq!(t.loss_bonus, 200);
    assert_eq!(t.total_reward, 1200);
}

#[test]
fn loss_bonus_does_not_depend_on_the_base_award() {
    let calc = RoundRewardCalculator::default();
    assert_eq!(calc.loss_bonus(0, u32::MAX), 0);
    assert_eq!(calc.loss_bonus(2, u32::MAX), 1000);
    assert_eq!(calc.loss_bonus(9, 0), 2000);
}
