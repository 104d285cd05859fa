//! The training driver: it supplies operands, lets the agent act and learn,
//! keeps the window of recent rewards and triggers evolution on mastery.
use rand::rngs::StdRng;
use vstd::prelude::*;

use crate::agent::{is_mastered, next_task, exploration_for, reward_for, td_value, Agent, Task};
use crate::random::{draw_in, seeded_rng};
use crate::value_table::ACTION_COUNT;

verus! {

/// Number of recent rewards over which mastery is judged.
pub const WINDOW_SIZE: usize = 50;

/// Smallest operand handed to the agent.
pub const OPERAND_LOW: i32 = 1;

/// Largest operand handed to the agent.
pub const OPERAND_HIGH: i32 = 10;

/// The window after `reward` arrives: appended, and the oldest reward
/// dropped once more than `WINDOW_SIZE` are held.
pub open spec fn slide(window: Seq<i64>, reward: i64) -> Seq<i64> {
    let s = window.push(reward);
    if s.len() > WINDOW_SIZE {
        s.drop_first()
    } else {
        s
    }
}

/// What happened in one interaction.
#[derive(Clone, Copy, Debug, PartialEq, Eq, Structural)]
pub struct StepReport {
    pub a: i32,
    pub b: i32,
    pub action: i32,
    pub reward: i64,
    pub evolved: bool,
}

/// What one interaction `r` does to a simulation, from `pre` to `post`: the
/// reward is the current task's, the window slides, and evolution happens
/// exactly when the slid window is full and shows mastery; evolution switches
/// task and forgets everything, otherwise the answered cell takes one
/// temporal-difference step looking ahead to the same operands.
pub open spec fn interaction_effect(pre: Simulation, post: Simulation, r: StepReport) -> bool {
    let before = pre.spec_agent();
    let after = post.spec_agent();
    let slid = slide(pre.spec_window(), r.reward);
    &&& r.reward == reward_for(before.spec_task(), r.a, r.b, r.action)
    &&& r.evolved == (slid.len() == WINDOW_SIZE && is_mastered(slid))
    &&& r.evolved ==> {
        &&& after.spec_task() == next_task(before.spec_task())
        &&& after.spec_exploration_rate() == exploration_for(after.spec_task())
        &&& after.spec_table().is_blank()
        &&& post.spec_window().len() == 0
    }
    &&& !r.evolved ==> {
        &&& after.spec_task() == before.spec_task()
        &&& after.spec_exploration_rate() == before.spec_exploration_rate()
        &&& post.spec_window() == slid
        &&& forall|a: i32, b: i32, c: i32| #[trigger]
            after.spec_table().value(a, b, c) == if a == r.a && b == r.b && c == r.action {
                td_value(before.spec_table().value(a, b, c), r.reward as int, before.spec_table().best(a, b))
            } else {
                before.spec_table().value(a, b, c)
            }
    }
}

/// An agent together with its reward window and random source.
pub struct Simulation {
    agent: Agent,
    window: Vec<i64>,
    rng: StdRng,
}

impl Simulation {
    /// The agent being trained.
    pub closed spec fn spec_agent(&self) -> Agent {
        self.agent
    }

    /// The most recent rewards, oldest first.
    pub closed spec fn spec_window(&self) -> Seq<i64> {
        self.window@
    }

    /// The agent is well formed and the window holds at most `WINDOW_SIZE`.
    pub closed spec fn wf(&self) -> bool {
        &&& self.agent.wf()
        &&& self.window@.len() <= WINDOW_SIZE
    }

    /// A fresh agent, an empty window and a generator seeded with `seed`.
    pub fn new(seed: u64) -> (s: Simulation)
        ensures
            s.wf(),
            s.spec_agent().spec_task() == Task::Addition,
            s.spec_agent().spec_table().is_blank(),
            s.spec_window().len() == 0,
    {
        Simulation { agent: Agent::new(), window: Vec::new(), rng: seeded_rng(seed) }
    }

    /// The agent being trained.
    pub fn agent(&self) -> (r: &Agent)
        ensures
            *r == self.spec_agent(),
    {
        &self.agent
    }

    /// The most recent rewards, oldest first.
    pub fn recent_rewards(&self) -> (r: &[i64])
        ensures
            r@ == self.spec_window(),
    {
        self.window.as_slice()
    }

    /// Lets the agent answer (a, b) with `action`: the reward is computed and
    /// learned from, the window slides, and a full window whose mean shows
    /// mastery makes the agent evolve and empties the window.
    pub fn interact(&mut self, a: i32, b: i32, action: i32) -> (r: StepReport)
        requires
            old(self).wf(),
        ensures
            final(self).wf(),
            r.a == a && r.b == b && r.action == action,
            interaction_effect(*old(self), *final(self), r),
    {
        let reward = self.agent.get_reward(a, b, action);
        self.agent.update(a, b, action, reward, a, b);
        self.window.push(reward);
        if self.window.len() > WINDOW_SIZE {
            self.window.remove(0);
        }
        assert(self.window@ == slide(old(self).window@, reward));
        let evolved = self.window.len() == WINDOW_SIZE && self.agent.check_mastery(self.window.as_slice());
        if evolved {
            self.agent.evolve();
            self.window.clear();
        }
        StepReport { a, b, action, reward, evolved }
    }

    /// One full interaction: two operands drawn uniformly from
    /// `OPERAND_LOW..=OPERAND_HIGH`, an action chosen by the agent, then
    /// `interact`.
    pub fn step(&mut self) -> (r: StepReport)
        requires
            old(self).wf(),
        ensures
            final(self).wf(),
            OPERAND_LOW <= r.a <= OPERAND_HIGH,
            OPERAND_LOW <= r.b <= OPERAND_HIGH,
            0 <= r.action < ACTION_COUNT,
            old(self).spec_agent().spec_exploration_rate() == 0 ==> old(
                self,
            ).spec_agent().spec_table().is_greedy(r.a, r.b, r.action),
            interaction_effect(*old(self), *final(self), r),
    {
        let a = draw_in(&mut self.rng, OPERAND_LOW, OPERAND_HIGH + 1);
        let b = draw_in(&mut self.rng, OPERAND_LOW, OPERAND_HIGH + 1);
        let action = self.agent.choose_action(&mut self.rng, a, b);
        self.interact(a, b, action)
    }
}

} // verus!
