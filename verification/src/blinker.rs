//! The toggle state machine of the application loop, and its timing laws.
//!
//! The loop keeps one boolean pin state, initially low. Each cycle it
//! drives the pin to the current state, waits 250 ms, and flips the state.
//! The pin therefore alternates every 250 ms: a 500 ms period at 50% duty,
//! first level low.

use vstd::prelude::*;

verus! {

/// Milliseconds the loop waits between two writes of the pin.
pub const TOGGLE_DELAY_MS: u32 = 250;

/// One cycle of the loop: the level to drive the pin to, then the time to
/// wait before the next cycle.
#[derive(Clone, Copy, Debug, PartialEq, Eq, Structural)]
pub struct ToggleStep {
    /// The output level to write (true = high).
    pub level: bool,
    /// Milliseconds to wait after the write.
    pub delay_ms: u32,
}

/// The pin state the loop maintains: one boolean, initially low.
pub struct Blinker {
    state: bool,
}

/// The level the loop drives during cycle `n` (counting from 0): low on
/// every even cycle, high on every odd one.
pub open spec fn spec_level_at(n: nat) -> bool
    decreases n,
{
    if n == 0 {
        false
    } else {
        !spec_level_at((n - 1) as nat)
    }
}

impl Blinker {
    /// The boolean pin state.
    pub closed spec fn spec_state(&self) -> bool {
        self.state
    }

    /// A fresh loop state: the first level driven will be low.
    pub fn new() -> (b: Self)
        ensures
            !b.spec_state(),
    {
        Blinker { state: false }
    }

    /// One cycle of the loop: hands out the level to drive and the wait,
    /// and flips the state for the next cycle.
    pub fn step(&mut self) -> (s: ToggleStep)
        ensures
            s.level == old(self).spec_state(),
            s.delay_ms == TOGGLE_DELAY_MS,
            final(self).spec_state() == !old(self).spec_state(),
    {
        let level = self.state;
        self.state = self.state ^ true;
        ToggleStep { level, delay_ms: TOGGLE_DELAY_MS }
    }
}

/// The levels the loop drives over its first `n` cycles, in order.
pub fn levels(n: usize) -> (v: Vec<bool>)
    ensures
        v@.len() == n,
        forall|i: int| 0 <= i < n ==> v@[i] == spec_level_at(i as nat),
{
    let mut b = Blinker::new();
    let mut v: Vec<bool> = Vec::new();
    let mut k: usize = 0;
    while k < n
        invariant
            k <= n,
            v@.len() == k,
            b.spec_state() == spec_level_at(k as nat),
            forall|i: int| 0 <= i < k ==> v@[i] == spec_level_at(i as nat),
        decreases n - k,
    {
        let s = b.step();
        v.push(s.level);
        k = k + 1;
        proof {
            assert(spec_level_at(k as nat) == !spec_level_at((k - 1) as nat));
        }
    }
    v
}

/// The first level driven after configuration is low.
pub proof fn lemma_first_level_low()
    ensures
        !spec_level_at(0),
{
}

/// Consecutive cycles drive opposite levels: with one 250 ms wait per
/// cycle, the pin transitions every 250 ms (50% duty).
pub proof fn lemma_levels_alternate(n: nat)
    ensures
        spec_level_at(n + 1) == !spec_level_at(n),
{
}

/// Two cycles on, the level repeats: with 250 ms per cycle the oscillation
/// period is 500 ms.
pub proof fn lemma_level_period(n: nat)
    ensures
        spec_level_at(n + 2) == spec_level_at(n),
{
    lemma_levels_alternate(n);
    lemma_levels_alternate(n + 1);
}

/// The level at cycle `n` is just the parity of `n`.
pub proof fn lemma_level_parity(n: nat)
    ensures
        spec_level_at(n) == (n % 2 == 1),
    decreases n,
{
    if n > 0 {
        lemma_level_parity((n - 1) as nat);
    }
}

/// How many rising edges (a cycle driving high right after one driving
/// low) occur within the first `n` cycles.
pub open spec fn spec_rising_edges(n: nat) -> nat
    decreases n,
{
    if n < 2 {
        0
    } else {
        spec_rising_edges((n - 1) as nat) + (if spec_level_at((n - 1) as nat) && !spec_level_at(
            (n - 2) as nat,
        ) {
            1nat
        } else {
            0nat
        })
    }
}

/// One rising edge per two cycles: over `n` cycles of 250 ms each the pin
/// rises `n / 2` times, so a 5-second window (20 cycles) sees 10 rising
/// edges.
pub proof fn lemma_rising_edge_count(n: nat)
    ensures
        spec_rising_edges(n) == n / 2,
    decreases n,
{
    if n >= 2 {
        lemma_rising_edge_count((n - 1) as nat);
        lemma_level_parity((n - 1) as nat);
        lemma_level_parity((n - 2) as nat);
    }
}

/// Runs the loop for `n` cycles and counts the rising edges it drives.
pub fn rising_edges_in(n: usize) -> (c: usize)
    ensures
        c == spec_rising_edges(n as nat),
{
    let mut b = Blinker::new();
    let mut c: usize = 0;
    let mut prev: bool = false;
    let mut k: usize = 0;
    while k < n
        invariant
            k <= n,
            c == spec_rising_edges(k as nat),
            c <= k,
            b.spec_state() == spec_level_at(k as nat),
            k > 0 ==> prev == spec_level_at((k - 1) as nat),
        decreases n - k,
    {
        let s = b.step();
        if k > 0 && s.level && !prev {
            c = c + 1;
        }
        prev = s.level;
        k = k + 1;
        proof {
            assert(spec_level_at(k as nat) == !spec_level_at((k - 1) as nat));
            assert(spec_rising_edges(k as nat) == spec_rising_edges((k - 1) as nat) + (
            if k >= 2 && spec_level_at((k - 1) as nat) && !spec_level_at((k - 2) as nat) {
                1nat
            } else {
                0nat
            }));
        }
    }
    c
}

} // verus!
