//! The in-game frame around the arena: the phase panel at the top, the text
//! in the center, and the colored gradients at the border.
use vstd::prelude::*;

verus! {

/// Tags the text node in the center of the arena.
pub struct CenterTextUi;

/// Which gradient flashes at the bottom border.
#[derive(Clone, Copy, Debug, PartialEq, Eq, Structural)]
pub enum BorderGradientType {
    /// Red: the defense was damaged.
    Warning,
    /// Blue: the defense was healed.
    Defense,
}

/// What a mob did when it reached the bottom gate.
#[derive(Clone, Copy, Debug, PartialEq, Eq, Structural)]
pub enum DefenseInteraction {
    /// A friendly mob (a cargo hauler) healed the defense.
    Heal,
    /// An enemy damaged the defense.
    Damage,
}

/// The gradient that a mob reaching the bottom gate triggers: a heal flashes
/// the defense gradient, damage flashes the warning gradient.
pub fn gradient_for_gate_interaction(interaction: DefenseInteraction) -> (r: BorderGradientType)
    ensures
        r == (match interaction {
            DefenseInteraction::Heal => BorderGradientType::Defense,
            DefenseInteraction::Damage => BorderGradientType::Warning,
        }),
{
    match interaction {
        DefenseInteraction::Heal => BorderGradientType::Defense,
        DefenseInteraction::Damage => BorderGradientType::Warning,
    }
}

/// The lessons of the tutorial level.
#[derive(Clone, Copy, Debug, PartialEq, Eq, Structural)]
pub enum TutorialLessonKind {
    Movement,
    AbilitySlotOne,
    AbilitySlotTwo,
}

/// The kind of the current phase of a level.
#[derive(Clone, Copy, Debug, PartialEq, Eq, Structural)]
pub enum LevelPhaseKind {
    FormationSpawn,
    Break,
    Boss,
    Tutorial(TutorialLessonKind),
}

/// Which list of objectives a tutorial lesson shows.
#[derive(Clone, Copy, Debug, PartialEq, Eq, Structural)]
pub enum TutorialObjectives {
    /// The movement timers (one per direction).
    MovementTimers,
    /// The progress of firing the main weapon.
    AttackProgress,
    /// The progress of using the special ability.
    AbilityProgress,
}

/// What the phase panel shows next to the phase's name.
#[derive(Clone, Copy, Debug, PartialEq, Eq, Structural)]
pub enum PhaseDataDisplay {
    /// The seconds left in the phase.
    RemainingTime,
    /// The boss's health bar.
    BossHealth,
    /// The objectives of the tutorial lesson.
    Objectives(TutorialObjectives),
    /// Nothing.
    Empty,
}

/// What the phase panel shows for a phase; `boss_found` tells whether exactly
/// one boss with health was found.
pub open spec fn phase_display_of(phase: LevelPhaseKind, boss_found: bool) -> PhaseDataDisplay {
    match phase {
        LevelPhaseKind::FormationSpawn => PhaseDataDisplay::RemainingTime,
        LevelPhaseKind::Break => PhaseDataDisplay::RemainingTime,
        LevelPhaseKind::Boss => if boss_found {
            PhaseDataDisplay::BossHealth
        } else {
            PhaseDataDisplay::Empty
        },
        LevelPhaseKind::Tutorial(TutorialLessonKind::Movement) => PhaseDataDisplay::Objectives(
            TutorialObjectives::MovementTimers,
        ),
        LevelPhaseKind::Tutorial(TutorialLessonKind::AbilitySlotOne) => PhaseDataDisplay::Objectives(
            TutorialObjectives::AttackProgress,
        ),
        LevelPhaseKind::Tutorial(TutorialLessonKind::AbilitySlotTwo) => PhaseDataDisplay::Objectives(
            TutorialObjectives::AbilityProgress,
        ),
    }
}

/// What the phase panel shows for a phase.
pub fn phase_data_display(phase: LevelPhaseKind, boss_found: bool) -> (r: PhaseDataDisplay)
    ensures
        r == phase_display_of(phase, boss_found),
{
    match phase {
        LevelPhaseKind::FormationSpawn | LevelPhaseKind::Break => PhaseDataDisplay::RemainingTime,
        LevelPhaseKind::Boss => if boss_found {
            PhaseDataDisplay::BossHealth
        } else {
            PhaseDataDisplay::Empty
        },
        LevelPhaseKind::Tutorial(lesson) => match lesson {
            TutorialLessonKind::Movement => PhaseDataDisplay::Objectives(
                TutorialObjectives::MovementTimers,
            ),
            TutorialLessonKind::AbilitySlotOne => PhaseDataDisplay::Objectives(
                TutorialObjectives::AttackProgress,
            ),
            TutorialLessonKind::AbilitySlotTwo => PhaseDataDisplay::Objectives(
                TutorialObjectives::AbilityProgress,
            ),
        },
    }
}

/// The color of a tutorial objective's text.
#[derive(Clone, Copy, Debug, PartialEq, Eq, Structural)]
pub enum ObjectiveTextColor {
    /// Green: the objective is met.
    Completed,
    /// White: the objective is still open.
    Normal,
}

/// The color of a tutorial objective's text.
pub fn objective_text_color(completed: bool) -> (r: ObjectiveTextColor)
    ensures
        r == (if completed {
            ObjectiveTextColor::Completed
        } else {
            ObjectiveTextColor::Normal
        }),
{
    if completed {
        ObjectiveTextColor::Completed
    } else {
        ObjectiveTextColor::Normal
    }
}

/// The text the center of the arena shows after this frame, if it changes:
/// when the phase has just cycled and the new phase has an intro text, that
/// text is shown (and its fade-out starts over).
pub fn center_text_update(phase_cycled: bool, intro_text: Option<String>) -> (r: Option<String>)
    ensures
        r == (if phase_cycled {
            intro_text
        } else {
            None::<String>
        }),
{
    if phase_cycled {
        intro_text
    } else {
        None
    }
}

} // verus!
