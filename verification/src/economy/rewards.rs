use vstd::prelude::*;
use crate::game::types::{RoundMoneyRewards, RoundResult, Team};

verus! {

/// Money reward summary for a team after a round.
#[derive(Debug, Clone)]
pub struct TeamRewardSummary {
    pub team: Team,
    pub base_reward: u32,
    pub loss_bonus: u32,
    pub total_reward: u32,
}

/// Calculator for end-of-round money distribution.
#[derive(Debug, Clone)]
pub struct RoundRewardCalculator {
    pub rewards: RoundMoneyRewards,
}

/// The loss bonus owed after `losses` consecutive lost rounds: one increment
/// per lost round, counting at most `max_loss_bonus` rounds.
pub open spec fn loss_bonus_of(rewards: RoundMoneyRewards, losses: int) -> int {
    if losses <= 0 {
        0
    } else if losses <= rewards.max_loss_bonus {
        rewards.loss_bonus_increment * losses
    } else {
        rewards.loss_bonus_increment * rewards.max_loss_bonus
    }
}

/// The summary of a team that won the round.
pub open spec fn winner_summary(team: Team, reward: u32) -> TeamRewardSummary {
    TeamRewardSummary { team, base_reward: reward, loss_bonus: 0, total_reward: reward }
}

/// The summary of a team that lost the round with `losses` consecutive losses.
pub open spec fn loser_summary(
    rewards: RoundMoneyRewards,
    team: Team,
    base: u32,
    losses: u32,
) -> TeamRewardSummary {
    TeamRewardSummary {
        team,
        base_reward: base,
        loss_bonus: loss_bonus_of(rewards, losses as int) as u32,
        total_reward: (base + loss_bonus_of(rewards, losses as int)) as u32,
    }
}

/// The summary of a team when no reward is due.
pub open spec fn empty_summary(team: Team) -> TeamRewardSummary {
    TeamRewardSummary { team, base_reward: 0, loss_bonus: 0, total_reward: 0 }
}

/// The (CT, T) rewards owed for a round that ended with `result`.
pub open spec fn round_rewards(
    rewards: RoundMoneyRewards,
    result: RoundResult,
    ct_losses: u32,
    t_losses: u32,
) -> (TeamRewardSummary, TeamRewardSummary) {
    match result {
        RoundResult::CTWin(_) => (
            winner_summary(Team::CT, rewards.ct_win),
            loser_summary(rewards, Team::T, rewards.t_loss_base, t_losses),
        ),
        RoundResult::TWin(_) => (
            loser_summary(rewards, Team::CT, rewards.ct_loss, ct_losses),
            winner_summary(Team::T, rewards.t_win),
        ),
        RoundResult::InProgress => (empty_summary(Team::CT), empty_summary(Team::T)),
    }
}

/// The rewards of the losing side fit in a `u32`.
pub open spec fn rewards_fit(
    rewards: RoundMoneyRewards,
    result: RoundResult,
    ct_losses: u32,
    t_losses: u32,
) -> bool {
    match result {
        RoundResult::CTWin(_) => rewards.t_loss_base + loss_bonus_of(rewards, t_losses as int)
            <= u32::MAX,
        RoundResult::TWin(_) => rewards.ct_loss + loss_bonus_of(rewards, ct_losses as int)
            <= u32::MAX,
        RoundResult::InProgress => true,
    }
}

/// The loss bonus never exceeds the bonus for `max_loss_bonus` losses,
/// however long the losing streak.
pub proof fn lemma_loss_bonus_capped(rewards: RoundMoneyRewards, losses: int)
    ensures
        0 <= loss_bonus_of(rewards, losses) <= rewards.loss_bonus_increment * rewards.max_loss_bonus,
{
    if 0 < losses <= rewards.max_loss_bonus {
        assert(rewards.loss_bonus_increment * losses <= rewards.loss_bonus_increment
            * rewards.max_loss_bonus) by (nonlinear_arith)
            requires
                losses <= rewards.max_loss_bonus,
                0 <= rewards.loss_bonus_increment,
        ;
        assert(0 <= rewards.loss_bonus_increment * losses) by (nonlinear_arith)
            requires
                0 < losses,
                0 <= rewards.loss_bonus_increment,
        ;
    }
    assert(0 <= rewards.loss_bonus_increment * rewards.max_loss_bonus) by (nonlinear_arith)
        requires
            0 <= rewards.loss_bonus_increment,
            0 <= rewards.max_loss_bonus,
    ;
}

/// A longer losing streak never earns a smaller loss bonus.
pub proof fn lemma_loss_bonus_monotone(rewards: RoundMoneyRewards, a: int, b: int)
    requires
        a <= b,
    ensures
        loss_bonus_of(rewards, a) <= loss_bonus_of(rewards, b),
{
    lemma_loss_bonus_capped(rewards, a);
    lemma_loss_bonus_capped(rewards, b);
    if 0 < a && b <= rewards.max_loss_bonus {
        assert(rewards.loss_bonus_increment * a <= rewards.loss_bonus_increment * b)
            by (nonlinear_arith)
            requires
                a <= b,
                0 <= rewards.loss_bonus_increment,
        ;
    }
}

/// Each side's total reward is its base reward plus its loss bonus, and
/// the winner of a round gets no loss bonus.
pub proof fn lemma_reward_totals(
    rewards: RoundMoneyRewards,
    result: RoundResult,
    ct_losses: u32,
    t_losses: u32,
)
    requires
        rewards_fit(rewards, result, ct_losses, t_losses),
    ensures
        ({
            let (ct, t) = round_rewards(rewards, result, ct_losses, t_losses);
            &&& ct.total_reward == ct.base_reward + ct.loss_bonus
            &&& t.total_reward == t.base_reward + t.loss_bonus
            &&& result is CTWin ==> ct.loss_bonus == 0 && ct.total_reward == rewards.ct_win
            &&& result is TWin ==> t.loss_bonus == 0 && t.total_reward == rewards.t_win
        }),
{
    lemma_loss_bonus_capped(rewards, ct_losses as int);
    lemma_loss_bonus_capped(rewards, t_losses as int);
}

/// As `compute` pays it, the loss bonus of the losing side never shrinks as
/// its losing streak grows, and once the streak reaches `max_loss_bonus`
/// (at least one loss) it is the capped bonus; the other side's streak
/// plays no part. Stated for the CT side after a T win and for the T side
/// after a CT win.
pub proof fn lemma_round_loss_bonus_monotone_capped(
    rewards: RoundMoneyRewards,
    ct_win: RoundResult,
    t_win: RoundResult,
    n1: u32,
    n2: u32,
    k: u32,
)
    requires
        ct_win is CTWin,
        t_win is TWin,
        n1 <= n2,
        rewards.loss_bonus_increment * rewards.max_loss_bonus <= u32::MAX,
    ensures
        round_rewards(rewards, t_win, n1, k).0.loss_bonus <= round_rewards(
            rewards,
            t_win,
            n2,
            k,
        ).0.loss_bonus,
        round_rewards(rewards, ct_win, k, n1).1.loss_bonus <= round_rewards(
            rewards,
            ct_win,
            k,
            n2,
        ).1.loss_bonus,
        n1 >= rewards.max_loss_bonus && n1 >= 1 ==> round_rewards(rewards, t_win, n1, k).0.loss_bonus
            == rewards.loss_bonus_increment * rewards.max_loss_bonus,
        n1 >= rewards.max_loss_bonus && n1 >= 1 ==> round_rewards(rewards, ct_win, k, n1).1.loss_bonus
            == rewards.loss_bonus_increment * rewards.max_loss_bonus,
{
    lemma_loss_bonus_capped(rewards, n1 as int);
    lemma_loss_bonus_capped(rewards, n2 as int);
    lemma_loss_bonus_monotone(rewards, n1 as int, n2 as int);
    if n1 >= rewards.max_loss_bonus && n1 >= 1 && n1 == rewards.max_loss_bonus {
        assert(loss_bonus_of(rewards, n1 as int) == rewards.loss_bonus_increment * rewards.max_loss_bonus);
    }
}

impl RoundRewardCalculator {
    pub fn new(rewards: RoundMoneyRewards) -> (c: Self)
        ensures
            c.rewards == rewards,
    {
        RoundRewardCalculator { rewards }
    }

    /// Compute end-of-round money rewards for each team, as (CT, T).
    ///
    /// `ct_consecutive_losses` / `t_consecutive_losses`: how many consecutive
    /// rounds that team has lost going into this round.
    pub fn compute(
        &self,
        result: RoundResult,
        ct_consecutive_losses: u32,
        t_consecutive_losses: u32,
    ) -> (r: (TeamRewardSummary, TeamRewardSummary))
        requires
            rewards_fit(self.rewards, result, ct_consecutive_losses, t_consecutive_losses),
        ensures
            r == round_rewards(self.rewards, result, ct_consecutive_losses, t_consecutive_losses),
    {
        proof {
            lemma_loss_bonus_capped(self.rewards, ct_consecutive_losses as int);
            lemma_loss_bonus_capped(self.rewards, t_consecutive_losses as int);
        }
        match result {
            RoundResult::CTWin(_) => {
                let ct = TeamRewardSummary {
                    team: Team::CT,
                    base_reward: self.rewards.ct_win,
                    loss_bonus: 0,
                    total_reward: self.rewards.ct_win,
                };
                let t_bonus = self.loss_bonus(t_consecutive_losses, self.rewards.t_loss_base);
                let t = TeamRewardSummary {
                    team: Team::T,
                    base_reward: self.rewards.t_loss_base,
                    loss_bonus: t_bonus,
                    total_reward: self.rewards.t_loss_base + t_bonus,
                };
                (ct, t)
            },
            RoundResult::TWin(_) => {
                let ct_bonus = self.loss_bonus(ct_consecutive_losses, self.rewards.ct_loss);
                let ct = TeamRewardSummary {
                    team: Team::CT,
                    base_reward: self.rewards.ct_loss,
                    loss_bonus: ct_bonus,
                    total_reward: self.rewards.ct_loss + ct_bonus,
                };
                let t = TeamRewardSummary {
                    team: Team::T,
                    base_reward: self.rewards.t_win,
                    loss_bonus: 0,
                    total_reward: self.rewards.t_win,
                };
                (ct, t)
            },
            RoundResult::InProgress => {
                // No reward mid-round
                (
                    TeamRewardSummary { team: Team::CT, base_reward: 0, loss_bonus: 0, total_reward: 0 },
                    TeamRewardSummary { team: Team::T, base_reward: 0, loss_bonus: 0, total_reward: 0 },
                )
            },
        }
    }

    /// The loss bonus for `consecutive_losses` consecutive losses.
    pub fn loss_bonus(&self, consecutive_losses: u32, _base_loss_award: u32) -> (b: u32)
        requires
            loss_bonus_of(self.rewards, consecutive_losses as int) <= u32::MAX,
        ensures
            b == loss_bonus_of(self.rewards, consecutive_losses as int),
    {
        if consecutive_losses == 0 {
            return 0;
        }
        let bonus_tiers = if consecutive_losses <= self.rewards.max_loss_bonus {
            consecutive_losses
        } else {
            self.rewards.max_loss_bonus
        };
        self.rewards.loss_bonus_increment * bonus_tiers
    }
}

impl Default for RoundRewardCalculator {
    fn default() -> (c: Self)
        ensures
            c.rewards == RoundMoneyRewards::spec_default(),
    {
        RoundRewardCalculator::new(RoundMoneyRewards::default())
    }
}

} // verus!
