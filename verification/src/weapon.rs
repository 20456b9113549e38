//! Weapon timers and automatic fire.
use vstd::prelude::*;

verus! {

/// Registers the weapon update with the game loop.
pub struct WeaponPlugin;

/// How a weapon fires.
#[derive(Clone, Copy, Debug, PartialEq, Eq, Structural)]
pub enum FireMode {
    /// Fires whenever the reload timer allows.
    Automatic,
    /// Fires only on the player's input.
    Manual,
}

/// What a weapon does on one frame.
#[derive(Clone, Copy, Debug, PartialEq, Eq, Structural)]
pub enum WeaponUpdate {
    /// A disabled weapon does nothing.
    Idle,
    /// The initial delay is still running: only it is ticked.
    TickInitialTimer,
    /// The reload timer is ticked; `fire` tells whether the weapon then tries
    /// to fire (automatic weapons do).
    TickReloadTimer { fire: bool },
}

/// What a weapon does on one frame, from whether it is enabled, whether its
/// initial delay is over, and its fire mode.
pub open spec fn weapon_plan(is_enabled: bool, initial_timer_finished: bool, fire_mode: FireMode) -> WeaponUpdate {
    if !is_enabled {
        WeaponUpdate::Idle
    } else if !initial_timer_finished {
        WeaponUpdate::TickInitialTimer
    } else {
        WeaponUpdate::TickReloadTimer { fire: fire_mode == FireMode::Automatic }
    }
}

/// Whether a plan tries to fire the weapon.
pub open spec fn plan_fires(plan: WeaponUpdate) -> bool {
    plan matches WeaponUpdate::TickReloadTimer { fire } && fire
}

/// What a weapon does on one frame, from whether it is enabled, whether its
/// initial delay is over, and its fire mode.
pub fn weapon_update_plan(is_enabled: bool, initial_timer_finished: bool, fire_mode: FireMode) -> (r:
    WeaponUpdate)
    ensures
        r == weapon_plan(is_enabled, initial_timer_finished, fire_mode),
        !is_enabled ==> r == WeaponUpdate::Idle,
        is_enabled && !initial_timer_finished ==> r == WeaponUpdate::TickInitialTimer,
        is_enabled && initial_timer_finished ==> r == (WeaponUpdate::TickReloadTimer {
            fire: fire_mode == FireMode::Automatic,
        }),
{
    if is_enabled {
        if !initial_timer_finished {
            WeaponUpdate::TickInitialTimer
        } else {
            match fire_mode {
                FireMode::Automatic => WeaponUpdate::TickReloadTimer { fire: true },
                FireMode::Manual => WeaponUpdate::TickReloadTimer { fire: false },
            }
        }
    } else {
        WeaponUpdate::Idle
    }
}

/// Law: the update only tries to fire an enabled automatic weapon whose
/// initial delay is over; a disabled weapon's timers do not run.
pub proof fn law_only_ready_automatic_weapons_fire(
    is_enabled: bool,
    initial_timer_finished: bool,
    fire_mode: FireMode,
)
    ensures
        plan_fires(weapon_plan(is_enabled, initial_timer_finished, fire_mode)) <==> (is_enabled
            && initial_timer_finished && fire_mode == FireMode::Automatic),
        !is_enabled ==> weapon_plan(is_enabled, initial_timer_finished, fire_mode)
            == WeaponUpdate::Idle,
{
}

/// Law: while the initial delay of an enabled weapon runs, only that delay is
/// ticked, whatever the fire mode; the reload timer starts once it is over.
pub proof fn law_initial_delay_comes_first(initial_timer_finished: bool, fire_mode: FireMode)
    ensures
        !initial_timer_finished ==> weapon_plan(true, initial_timer_finished, fire_mode)
            == WeaponUpdate::TickInitialTimer,
        initial_timer_finished ==> weapon_plan(true, initial_timer_finished, fire_mode)
            is TickReloadTimer,
{
}

} // verus!
