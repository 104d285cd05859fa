//! The learning agent: action choice, reward, value update, mastery and
//! task evolution.
use rand::rngs::StdRng;
use vstd::prelude::*;

use crate::random::draw_in;
use crate::value_table::{ValueTable, ACTION_COUNT, ONE, VALUE_LIMIT};

verus! {

/// Step size of the value update (0.1).
pub const LEARNING_RATE: i64 = 100_000;

/// Weight on the looked-ahead estimate (0.9).
pub const DISCOUNT_FACTOR: i64 = 900_000;

/// Mean reward that must be strictly exceeded to show mastery (0.9).
pub const MASTERY_THRESHOLD: i64 = 900_000;

/// Exploration rate while learning addition (0.3).
pub const ADDITION_EXPLORATION: i64 = 300_000;

/// Exploration rate while learning multiplication (0.5).
pub const MULTIPLICATION_EXPLORATION: i64 = 500_000;

/// Reward for a correct answer (1.0).
pub const CORRECT_REWARD: i64 = 1_000_000;

/// Reward for a wrong answer (-0.1).
pub const WRONG_REWARD: i64 = -100_000;

/// Bound on the magnitude of a reward handed to the value update.
pub const REWARD_LIMIT: i64 = 100_000_000_000_000;

/// Largest number of rewards that one mastery check takes.
pub const MASTERY_INPUT_LIMIT: usize = 4_294_967_295;

/// The arithmetic task being learned.
#[derive(Clone, Copy, Debug, PartialEq, Eq, Structural)]
pub enum Task {
    Addition,
    Multiplication,
}

/// The task that evolution moves to from `t`.
pub open spec fn next_task(t: Task) -> Task {
    match t {
        Task::Addition => Task::Multiplication,
        Task::Multiplication => Task::Addition,
    }
}

/// The exploration rate that goes with a task.
pub open spec fn exploration_for(t: Task) -> int {
    match t {
        Task::Addition => ADDITION_EXPLORATION as int,
        Task::Multiplication => MULTIPLICATION_EXPLORATION as int,
    }
}

/// `action` is the right answer to (a, b) under task `t`.
pub open spec fn is_correct(t: Task, a: i32, b: i32, action: i32) -> bool {
    match t {
        Task::Addition => action == a + b,
        Task::Multiplication => action == a * b,
    }
}

/// The reward for answering (a, b) with `action` under task `t`.
pub open spec fn reward_for(t: Task, a: i32, b: i32, action: i32) -> int {
    if is_correct(t, a, b, action) {
        CORRECT_REWARD as int
    } else {
        WRONG_REWARD as int
    }
}

/// `n / d` rounded to the nearest integer, halves upward.
pub open spec fn round_div(n: int, d: int) -> int {
    (n + d / 2) / d
}

/// The estimate after one temporal-difference step:
/// `old + lr * (reward + gamma * next_max - old)`, rounded once to the unit.
pub open spec fn td_value(old: int, reward: int, next_max: int) -> int {
    round_div(
        ONE * ONE * old + LEARNING_RATE * (ONE * reward + DISCOUNT_FACTOR * next_max - ONE * old),
        ONE * ONE,
    )
}

/// The sum of a sequence of rewards.
pub open spec fn reward_sum(s: Seq<i64>) -> int
    decreases s.len(),
{
    if s.len() == 0 {
        0
    } else {
        reward_sum(s.drop_last()) + s.last()
    }
}

/// The mean of `s` strictly exceeds the mastery threshold.
pub open spec fn is_mastered(s: Seq<i64>) -> bool {
    reward_sum(s) > MASTERY_THRESHOLD * s.len()
}

/// A value-table learner for one arithmetic task at a time.
pub struct Agent {
    table: ValueTable,
    exploration_rate: i64,
    task: Task,
}

impl Agent {
    /// The learned estimates.
    pub closed spec fn spec_table(&self) -> ValueTable {
        self.table
    }

    /// The probability, in units of `ONE`, of a random action.
    pub closed spec fn spec_exploration_rate(&self) -> int {
        self.exploration_rate as int
    }

    /// The task whose answers are rewarded.
    pub closed spec fn spec_task(&self) -> Task {
        self.task
    }

    /// The table is well formed and the exploration rate is a probability.
    pub closed spec fn wf(&self) -> bool {
        &&& self.table.wf()
        &&& 0 <= self.exploration_rate <= ONE
    }

    /// A fresh agent: addition, exploration 0.3, nothing learned.
    pub fn new() -> (r: Agent)
        ensures
            r.wf(),
            r.spec_task() == Task::Addition,
            r.spec_exploration_rate() == ADDITION_EXPLORATION,
            r.spec_table().is_blank(),
    {
        Agent { table: ValueTable::new(), exploration_rate: ADDITION_EXPLORATION, task: Task::Addition }
    }

    /// The task whose answers are rewarded.
    pub fn task(&self) -> (r: Task)
        ensures
            r == self.spec_task(),
    {
        self.task
    }

    /// The exploration rate, in units of `ONE`.
    pub fn exploration_rate(&self) -> (r: i64)
        ensures
            r == self.spec_exploration_rate(),
    {
        self.exploration_rate
    }

    /// Overrides the exploration rate (a probability in units of `ONE`).
    pub fn set_exploration_rate(&mut self, rate: i64)
        requires
            old(self).wf(),
            0 <= rate <= ONE,
        ensures
            final(self).wf(),
            final(self).spec_exploration_rate() == rate,
            final(self).spec_task() == old(self).spec_task(),
            final(self).spec_table() == old(self).spec_table(),
    {
        self.exploration_rate = rate;
    }

    /// The estimate stored for one cell (zero if never written).
    pub fn value(&self, a: i32, b: i32, action: i32) -> (v: i64)
        requires
            self.wf(),
        ensures
            v == self.spec_table().value(a, b, action),
    {
        self.table.get(a, b, action)
    }

    /// The largest estimate over all actions for operands (a, b).
    pub fn best_value(&self, a: i32, b: i32) -> (v: i64)
        requires
            self.wf(),
        ensures
            v == self.spec_table().best(a, b),
    {
        self.table.best_value(a, b)
    }

    /// The lowest action with the largest estimate for operands (a, b).
    pub fn greedy_action(&self, a: i32, b: i32) -> (r: i32)
        requires
            self.wf(),
        ensures
            self.spec_table().is_greedy(a, b, r),
    {
        self.table.greedy_action(a, b)
    }

    /// Picks an action given the two random draws: `draw`, uniform in
    /// `0..ONE`, decides whether to explore, in which case `random_action` is
    /// taken; otherwise the lowest action with the largest estimate is.
    pub fn choose_action_from(&self, a: i32, b: i32, draw: i32, random_action: i32) -> (r: i32)
        requires
            self.wf(),
        ensures
            draw < self.spec_exploration_rate() ==> r == random_action,
            draw >= self.spec_exploration_rate() ==> self.spec_table().is_greedy(a, b, r),
    {
        if (draw as i64) < self.exploration_rate {
            random_action
        } else {
            self.table.greedy_action(a, b)
        }
    }

    /// Picks an action: with probability equal to the exploration rate a
    /// uniformly random one, else the greedy one.
    pub fn choose_action(&self, rng: &mut StdRng, a: i32, b: i32) -> (r: i32)
        requires
            self.wf(),
        ensures
            0 <= r < ACTION_COUNT,
            self.spec_exploration_rate() == 0 ==> self.spec_table().is_greedy(a, b, r),
    {
        let draw = draw_in(rng, 0, ONE as i32);
        if (draw as i64) < self.exploration_rate {
            let random_action = draw_in(rng, 0, ACTION_COUNT);
            self.choose_action_from(a, b, draw, random_action)
        } else {
            self.choose_action_from(a, b, draw, 0)
        }
    }

    /// The reward for answering (a, b) with `action` under the current task.
    pub fn get_reward(&self, a: i32, b: i32, action: i32) -> (r: i64)
        ensures
            r == reward_for(self.spec_task(), a, b, action),
    {
        let x = a as i64;
        let y = b as i64;
        assert(-0x4000_0000_0000_0000 <= x * y <= 0x4000_0000_0000_0000) by (nonlinear_arith)
            requires
                -0x8000_0000 <= x <= 0x7fff_ffff,
                -0x8000_0000 <= y <= 0x7fff_ffff,
        ;
        let correct = match self.task {
            Task::Addition => action as i64 == x + y,
            Task::Multiplication => action as i64 == x * y,
        };
        if correct {
            CORRECT_REWARD
        } else {
            WRONG_REWARD
        }
    }

    /// One temporal-difference step on cell (a, b, action): the looked-ahead
    /// best estimate of (next_a, next_b) is read before the cell is written.
    pub fn update(&mut self, a: i32, b: i32, action: i32, reward: i64, next_a: i32, next_b: i32)
        requires
            old(self).wf(),
            -REWARD_LIMIT <= reward <= REWARD_LIMIT,
        ensures
            final(self).wf(),
            final(self).spec_task() == old(self).spec_task(),
            final(self).spec_exploration_rate() == old(self).spec_exploration_rate(),
            forall|a2: i32, b2: i32, c2: i32| #[trigger]
                final(self).spec_table().value(a2, b2, c2) == if a2 == a && b2 == b && c2 == action {
                    td_value(
                        old(self).spec_table().value(a, b, action),
                        reward as int,
                        old(self).spec_table().best(next_a, next_b),
                    )
                } else {
                    old(self).spec_table().value(a2, b2, c2)
                },
    {
        let old_value = self.table.get(a, b, action);
        let next_max = self.table.best_value(next_a, next_b);
        proof {
            self.table.lemma_value_bounded(a, b, action);
            self.table.lemma_max_upto(next_a, next_b, ACTION_COUNT as int);
            let j = choose|j: i32| 0 <= j < ACTION_COUNT
                && #[trigger] self.table.value(next_a, next_b, j) == self.table.best(next_a, next_b);
            self.table.lemma_value_bounded(next_a, next_b, j);
        }
        let new_value = Self::td_step(old_value, reward, next_max);
        self.table.set(a, b, action, new_value);
    }

    fn td_step(old_value: i64, reward: i64, next_max: i64) -> (r: i64)
        requires
            -VALUE_LIMIT <= old_value <= VALUE_LIMIT,
            -VALUE_LIMIT <= next_max <= VALUE_LIMIT,
            -REWARD_LIMIT <= reward <= REWARD_LIMIT,
        ensures
            r == td_value(old_value as int, reward as int, next_max as int),
            -VALUE_LIMIT <= r <= VALUE_LIMIT,
    {
        let one = ONE as i128;
        let scaled = one * one * (old_value as i128) + (LEARNING_RATE as i128) * (one
            * (reward as i128) + (DISCOUNT_FACTOR as i128) * (next_max as i128) - one
            * (old_value as i128));
        let denom = one * one;
        let shift = (VALUE_LIMIT as i128) + 1;
        let shifted = (scaled + denom / 2 + shift * denom) as u128;
        let q = (shifted / (denom as u128)) as i128 - shift;
        proof {
            let n = scaled + denom / 2;
            let d = denom as int;
            vstd::arithmetic::div_mod::lemma_fundamental_div_mod(n, d);
            vstd::arithmetic::div_mod::lemma_fundamental_div_mod_converse(
                n + shift * d,
                d,
                n / d + shift,
                n % d,
            );
        }
        q as i64
    }

    /// The mean of `rewards` strictly exceeds the mastery threshold.
    pub fn check_mastery(&self, rewards: &[i64]) -> (r: bool)
        requires
            0 < rewards@.len() <= MASTERY_INPUT_LIMIT,
        ensures
            r == is_mastered(rewards@),
    {
        let mut sum: i128 = 0;
        let mut i: usize = 0;
        while i < rewards.len()
            invariant
                i <= rewards@.len() <= MASTERY_INPUT_LIMIT,
                sum == reward_sum(rewards@.subrange(0, i as int)),
                -0x8000_0000_0000_0000 * i <= sum <= 0x7fff_ffff_ffff_ffff * i,
            decreases rewards@.len() - i,
        {
            proof {
                let next = rewards@.subrange(0, i + 1);
                assert(next.drop_last() =~= rewards@.subrange(0, i as int));
            }
            sum = sum + rewards[i] as i128;
            i = i + 1;
        }
        assert(rewards@.subrange(0, i as int) =~= rewards@);
        assert(-0x8000_0000_0000_0000_0000_0000 <= sum <= 0x8000_0000_0000_0000_0000_0000) by (nonlinear_arith)
            requires
                -0x8000_0000_0000_0000 * i <= sum <= 0x7fff_ffff_ffff_ffff * i,
                i <= MASTERY_INPUT_LIMIT,
        ;
        sum > (MASTERY_THRESHOLD as i128) * (rewards.len() as i128)
    }

    /// Moves to the other task, forgets everything learned, and takes the
    /// exploration rate that goes with the new task.
    pub fn evolve(&mut self)
        requires
            old(self).wf(),
        ensures
            final(self).wf(),
            final(self).spec_task() == next_task(old(self).spec_task()),
            final(self).spec_exploration_rate() == exploration_for(final(self).spec_task()),
            final(self).spec_table().is_blank(),
    {
        match self.task {
            Task::Addition => {
                self.task = Task::Multiplication;
                self.table.clear();
                self.exploration_rate = MULTIPLICATION_EXPLORATION;
            },
            Task::Multiplication => {
                self.task = Task::Addition;
                self.table.clear();
                self.exploration_rate = ADDITION_EXPLORATION;
            },
        }
    }
}

/// Before any update, every pair of operands has best estimate zero, and the
/// only greedy action is the lowest one, 0.
pub proof fn lemma_untrained_greedy_is_lowest(agent: Agent, a: i32, b: i32)
    requires
        agent.spec_table().is_blank(),
    ensures
        agent.spec_table().best(a, b) == 0,
        forall|action: i32| #[trigger] agent.spec_table().is_greedy(a, b, action) <==> action == 0,
{
    agent.spec_table().lemma_blank_greedy(a, b);
}

/// On untouched operands, a correct answer rewarded 1.0 and looking ahead to
/// the same operands is stored as `learning_rate * reward`, that is 0.1.
pub proof fn lemma_first_correct_update(t: ValueTable, a: i32, b: i32, action: i32)
    requires
        t.is_blank(),
    ensures
        td_value(t.value(a, b, action), CORRECT_REWARD as int, t.best(a, b))
            == LEARNING_RATE * CORRECT_REWARD / (ONE as int),
        LEARNING_RATE * CORRECT_REWARD / (ONE as int) == 100_000,
{
    t.lemma_blank_greedy(a, b);
    assert(t.value(a, b, action) == 0);
}

/// A reward is 1.0 exactly for the active task's right answer and -0.1
/// otherwise; where the two tasks disagree on whether an answer is right,
/// switching task changes its reward.
pub proof fn lemma_reward_follows_task(a: i32, b: i32, action: i32)
    ensures
        reward_for(Task::Addition, a, b, action) == if action == a + b {
            CORRECT_REWARD
        } else {
            WRONG_REWARD
        },
        reward_for(Task::Multiplication, a, b, action) == if action == a * b {
            CORRECT_REWARD
        } else {
            WRONG_REWARD
        },
        (action == a + b) != (action == a * b) ==> reward_for(Task::Addition, a, b, action)
            != reward_for(Task::Multiplication, a, b, action),
{
}

/// A mean exactly at the threshold is not mastery: the comparison is strict.
pub proof fn lemma_mastery_is_strict(s: Seq<i64>)
    requires
        s.len() > 0,
        reward_sum(s) == MASTERY_THRESHOLD * s.len(),
    ensures
        !is_mastered(s),
{
}

/// Evolution is a cycle of two: from addition it goes to multiplication with
/// exploration 0.5, and a second step comes back to addition with 0.3.
pub proof fn lemma_evolve_round_trip(t: Task)
    ensures
        next_task(next_task(t)) == t,
        next_task(Task::Addition) == Task::Multiplication,
        exploration_for(Task::Multiplication) == 500_000,
        next_task(Task::Multiplication) == Task::Addition,
        exploration_for(Task::Addition) == 300_000,
{
}

} // verus!
