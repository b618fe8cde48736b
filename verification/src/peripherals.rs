//! The peripheral singletons and the startup decision.
//!
//! Two register-block singletons exist: the Cortex-M core peripheral set
//! (holding SysTick) and the vendor device peripheral set (holding the
//! GPIO aggregate). Each may be acquired at most once per program
//! instance; a second attempt yields nothing. [`PeripheralSingleton`] models
//! that protocol, and [`startup_plan`] is the decision the entry point
//! makes once both acquisitions have been attempted.

use vstd::prelude::*;

use crate::gpio::{spec_cfg_rest, spec_drive_mode0, CFG_RESET, DRIVE_MODE_STRONG, led_cfg_value};

verus! {

/// The assumed core clock, in Hz, that the busy-wait delay is scaled by.
/// It is the reset-default clock of the part, not one this firmware
/// configures; if the actual clock differs, delays scale accordingly.
pub const CORE_CLOCK_HZ: u32 = 100_000_000;

/// The at-most-once acquisition protocol of a peripheral singleton: the
/// first take is granted and every later one is refused.
pub struct PeripheralSingleton {
    taken: bool,
}

/// The effect of one acquisition attempt: it is granted exactly when no
/// earlier attempt was made, and the singleton counts as taken afterwards
/// whether or not the attempt was granted.
pub open spec fn take_post(pre: PeripheralSingleton, post: PeripheralSingleton, granted: bool) -> bool {
    &&& granted == !pre.is_taken()
    &&& post.is_taken()
}

impl PeripheralSingleton {
    /// Whether the singleton handle has already been handed out.
    pub closed spec fn is_taken(&self) -> bool {
        self.taken
    }

    /// The state at reset: nothing taken yet.
    pub fn new() -> (g: Self)
        ensures
            !g.is_taken(),
    {
        PeripheralSingleton { taken: false }
    }

    /// One acquisition attempt: granted exactly when no earlier attempt
    /// was, and never granted again afterwards.
    pub fn take(&mut self) -> (granted: bool)
        ensures
            take_post(*old(self), *final(self), granted),
    {
        let granted = !self.taken;
        self.taken = true;
        granted
    }
}

/// A second acquisition attempt on either peripheral singleton is always
/// refused, whatever came of the first.
pub proof fn lemma_second_take_refused(
    g0: PeripheralSingleton,
    g1: PeripheralSingleton,
    first: bool,
    g2: PeripheralSingleton,
    second: bool,
)
    requires
        take_post(g0, g1, first),
        take_post(g1, g2, second),
    ensures
        !second,
{
}

/// What the entry point sets up when both peripheral sets were acquired:
/// the configuration-register value for the LED port and the clock the
/// delay primitive is constructed with.
pub struct StartupPlan {
    /// Value for the LED port's configuration register: pin 0 strong
    /// push-pull, everything else at reset.
    pub cfg_value: u32,
    /// Core-clock frequency handed to the delay primitive.
    pub clock_hz: u32,
}

/// The decision the entry point makes after attempting both acquisitions:
/// proceed, with the register value and clock pinned down, exactly when
/// both singletons were granted. On a correct reset path they always are;
/// anything else is an invariant violation and the program halts.
pub fn startup_plan(core_granted: bool, device_granted: bool) -> (r: Option<StartupPlan>)
    ensures
        r is Some <==> core_granted && device_granted,
        r is Some ==> spec_drive_mode0(r->Some_0.cfg_value) == DRIVE_MODE_STRONG,
        r is Some ==> spec_cfg_rest(r->Some_0.cfg_value) == spec_cfg_rest(CFG_RESET),
        r is Some ==> r->Some_0.clock_hz == CORE_CLOCK_HZ,
{
    if core_granted && device_granted {
        Some(StartupPlan { cfg_value: led_cfg_value(), clock_hz: CORE_CLOCK_HZ })
    } else {
        None
    }
}

/// The pre-main hook the runtime calls between the reset vector and the
/// entry point. Deliberately empty: it is an extension point for early
/// hardware initialization, and it must not touch memory the runtime has
/// not initialized yet, which doing nothing trivially honors.
pub fn before_main() {
}

} // verus!
