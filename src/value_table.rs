//! A sparse map from (operand a, operand b, action) to a fixed-point estimate.
use std::collections::HashMap;
use vstd::arithmetic::div_mod::lemma_fundamental_div_mod_converse;
use vstd::prelude::*;

verus! {

broadcast use vstd::std_specs::hash::group_hash_axioms;

/// Fixed-point unit: a stored integer `v` stands for `v / ONE`.
pub const ONE: i64 = 1_000_000;

/// Number of candidate actions; actions range over `0..ACTION_COUNT`.
pub const ACTION_COUNT: i32 = 21;

/// Bound on the magnitude of every estimate held in a table.
pub const VALUE_LIMIT: i64 = 1_000_000_000_000_000;

/// Shift that makes an `i32` coordinate non-negative.
pub const KEY_OFFSET: i64 = 2_147_483_648;

/// Radix in which the three shifted coordinates form a cell key.
pub const KEY_BASE: u128 = 4_294_967_296;

/// The hash-map key of a cell: the three coordinates, shifted to be
/// non-negative, as digits in base 2^32.
pub open spec fn cell_key(a: i32, b: i32, action: i32) -> int {
    ((a + KEY_OFFSET) * KEY_BASE + (b + KEY_OFFSET)) * KEY_BASE + (action + KEY_OFFSET)
}

proof fn lemma_cell_key_injective(a1: i32, b1: i32, c1: i32, a2: i32, b2: i32, c2: i32)
    requires
        cell_key(a1, b1, c1) == cell_key(a2, b2, c2),
    ensures
        a1 == a2 && b1 == b2 && c1 == c2,
{
    let w = KEY_BASE as int;
    let k = cell_key(a1, b1, c1);
    let q1 = (a1 + KEY_OFFSET) * w + (b1 + KEY_OFFSET);
    let q2 = (a2 + KEY_OFFSET) * w + (b2 + KEY_OFFSET);
    lemma_fundamental_div_mod_converse(k, w, q1, c1 + KEY_OFFSET);
    lemma_fundamental_div_mod_converse(k, w, q2, c2 + KEY_OFFSET);
    lemma_fundamental_div_mod_converse(q1, w, a1 + KEY_OFFSET, b1 + KEY_OFFSET);
    lemma_fundamental_div_mod_converse(q1, w, a2 + KEY_OFFSET, b2 + KEY_OFFSET);
}

/// Estimates for (a, b, action) cells; a cell never written reads as zero.
pub struct ValueTable {
    cells: HashMap<u128, i64>,
}

impl ValueTable {
    /// The estimate stored for a cell, or zero where none is stored.
    pub closed spec fn value(&self, a: i32, b: i32, action: i32) -> int {
        let k = cell_key(a, b, action) as u128;
        if self.cells@.contains_key(k) {
            self.cells@[k] as int
        } else {
            0
        }
    }

    /// Every stored estimate lies within `VALUE_LIMIT` of zero.
    pub closed spec fn wf(&self) -> bool {
        forall|k: u128| #[trigger]
            self.cells@.contains_key(k) ==> -VALUE_LIMIT <= self.cells@[k] <= VALUE_LIMIT
    }

    /// No cell holds anything but zero.
    pub open spec fn is_blank(&self) -> bool {
        forall|a: i32, b: i32, action: i32| #[trigger] self.value(a, b, action) == 0
    }

    pub proof fn lemma_value_bounded(&self, a: i32, b: i32, action: i32)
        requires
            self.wf(),
        ensures
            -VALUE_LIMIT <= self.value(a, b, action) <= VALUE_LIMIT,
    {
    }

    fn key(a: i32, b: i32, action: i32) -> (k: u128)
        ensures
            k as int == cell_key(a, b, action),
    {
        let x = (a as i64 + KEY_OFFSET) as u128;
        let y = (b as i64 + KEY_OFFSET) as u128;
        let z = (action as i64 + KEY_OFFSET) as u128;
        assert(x * KEY_BASE + y < KEY_BASE * KEY_BASE) by (nonlinear_arith)
            requires
                x < KEY_BASE,
                y < KEY_BASE,
        ;
        assert((x * KEY_BASE + y) * KEY_BASE + z < KEY_BASE * KEY_BASE * KEY_BASE)
            by (nonlinear_arith)
            requires
                x * KEY_BASE + y < KEY_BASE * KEY_BASE,
                z < KEY_BASE,
        ;
        (x * KEY_BASE + y) * KEY_BASE + z
    }

    /// The largest estimate among actions `0..n` for operands (a, b).
    pub open spec fn max_upto(&self, a: i32, b: i32, n: int) -> int
        decreases n,
    {
        if n <= 1 {
            self.value(a, b, 0)
        } else {
            let m = self.max_upto(a, b, n - 1);
            let v = self.value(a, b, (n - 1) as i32);
            if v > m {
                v
            } else {
                m
            }
        }
    }

    /// The largest estimate over every action for operands (a, b).
    pub open spec fn best(&self, a: i32, b: i32) -> int {
        self.max_upto(a, b, ACTION_COUNT as int)
    }

    /// `action` is the lowest action whose estimate is the largest.
    pub open spec fn is_greedy(&self, a: i32, b: i32, action: i32) -> bool {
        &&& 0 <= action < ACTION_COUNT
        &&& self.value(a, b, action) == self.best(a, b)
        &&& forall|j: i32| 0 <= j < action ==> #[trigger] self.value(a, b, j) < self.value(a, b, action)
    }

    /// The maximum bounds every estimate it ranges over, and is one of them.
    pub proof fn lemma_max_upto(&self, a: i32, b: i32, n: int)
        requires
            1 <= n <= ACTION_COUNT,
        ensures
            forall|j: i32| 0 <= j < n ==> #[trigger] self.value(a, b, j) <= self.max_upto(a, b, n),
            exists|j: i32| 0 <= j < n && #[trigger] self.value(a, b, j) == self.max_upto(a, b, n),
        decreases n,
    {
        if n > 1 {
            self.lemma_max_upto(a, b, n - 1);
            let j0 = choose|j: i32| 0 <= j < n - 1 && #[trigger] self.value(a, b, j) == self.max_upto(a, b, n - 1);
            let last = (n - 1) as i32;
            if self.value(a, b, last) > self.max_upto(a, b, n - 1) {
                assert(self.value(a, b, last) == self.max_upto(a, b, n));
            } else {
                assert(self.value(a, b, j0) == self.max_upto(a, b, n));
            }
        } else {
            assert(self.value(a, b, 0) == self.max_upto(a, b, n));
        }
    }

    /// At most one action is greedy for a given pair of operands.
    pub proof fn lemma_greedy_unique(&self, a: i32, b: i32, x: i32, y: i32)
        requires
            self.is_greedy(a, b, x),
            self.is_greedy(a, b, y),
        ensures
            x == y,
    {
        if x < y {
            assert(self.value(a, b, x) < self.value(a, b, y));
        } else if y < x {
            assert(self.value(a, b, y) < self.value(a, b, x));
        }
    }

    /// On a blank table every action is worth zero, so action 0 is greedy.
    pub proof fn lemma_blank_greedy(&self, a: i32, b: i32)
        requires
            self.is_blank(),
        ensures
            self.best(a, b) == 0,
            self.is_greedy(a, b, 0),
            forall|action: i32| #[trigger] self.is_greedy(a, b, action) <==> action == 0,
    {
        self.lemma_max_upto(a, b, ACTION_COUNT as int);
        assert(self.value(a, b, 0) == 0);
        let j0 = choose|j: i32| 0 <= j < ACTION_COUNT && #[trigger] self.value(a, b, j) == self.max_upto(a, b, ACTION_COUNT as int);
        assert(self.value(a, b, j0) == 0);
        assert forall|action: i32| #[trigger] self.is_greedy(a, b, action) implies action == 0 by {
            self.lemma_greedy_unique(a, b, action, 0);
        }
    }

    /// The largest estimate over all actions for operands (a, b).
    pub fn best_value(&self, a: i32, b: i32) -> (v: i64)
        requires
            self.wf(),
        ensures
            v as int == self.best(a, b),
    {
        let mut best = self.get(a, b, 0);
        let mut action: i32 = 1;
        while action < ACTION_COUNT
            invariant
                self.wf(),
                1 <= action <= ACTION_COUNT,
                best as int == self.max_upto(a, b, action as int),
            decreases ACTION_COUNT - action,
        {
            let v = self.get(a, b, action);
            if v > best {
                best = v;
            }
            action = action + 1;
        }
        best
    }

    /// The lowest action with the largest estimate for operands (a, b).
    pub fn greedy_action(&self, a: i32, b: i32) -> (r: i32)
        requires
            self.wf(),
        ensures
            self.is_greedy(a, b, r),
    {
        let mut best = self.get(a, b, 0);
        let mut best_action: i32 = 0;
        let mut action: i32 = 1;
        while action < ACTION_COUNT
            invariant
                self.wf(),
                1 <= action <= ACTION_COUNT,
                0 <= best_action < action,
                best as int == self.max_upto(a, b, action as int),
                best as int == self.value(a, b, best_action),
                forall|j: i32| 0 <= j < best_action ==> #[trigger] self.value(a, b, j) < best,
            decreases ACTION_COUNT - action,
        {
            let v = self.get(a, b, action);
            if v > best {
                proof {
                    self.lemma_max_upto(a, b, action as int);
                }
                best = v;
                best_action = action;
            }
            action = action + 1;
        }
        best_action
    }

    /// An empty table: every cell reads as zero.
    pub fn new() -> (t: ValueTable)
        ensures
            t.wf(),
            t.is_blank(),
    {
        ValueTable { cells: HashMap::new() }
    }

    /// The estimate of one cell.
    pub fn get(&self, a: i32, b: i32, action: i32) -> (v: i64)
        requires
            self.wf(),
        ensures
            v as int == self.value(a, b, action),
    {
        let k = Self::key(a, b, action);
        match self.cells.get(&k) {
            Some(v) => *v,
            None => 0,
        }
    }

    /// Writes one cell and leaves every other cell as it was.
    pub fn set(&mut self, a: i32, b: i32, action: i32, v: i64)
        requires
            old(self).wf(),
            -VALUE_LIMIT <= v <= VALUE_LIMIT,
        ensures
            final(self).wf(),
            forall|a2: i32, b2: i32, c2: i32| #[trigger]
                final(self).value(a2, b2, c2) == if a2 == a && b2 == b && c2 == action {
                    v as int
                } else {
                    old(self).value(a2, b2, c2)
                },
    {
        let k = Self::key(a, b, action);
        self.cells.insert(k, v);
        assert forall|a2: i32, b2: i32, c2: i32| #[trigger]
            self.value(a2, b2, c2) == if a2 == a && b2 == b && c2 == action {
                v as int
            } else {
                old(self).value(a2, b2, c2)
            } by {
            if cell_key(a2, b2, c2) == cell_key(a, b, action) {
                lemma_cell_key_injective(a2, b2, c2, a, b, action);
            }
        }
    }

    /// Forgets every estimate.
    pub fn clear(&mut self)
        ensures
            final(self).wf(),
            final(self).is_blank(),
    {
        self.cells.clear();
    }
}

} // verus!
