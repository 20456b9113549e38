use thetawave::game_ui::{
    center_text_update, gradient_for_gate_interaction, objective_text_color, phase_data_display,
    BorderGradientType, DefenseInteraction, LevelPhaseKind, ObjectiveTextColor, PhaseDataDisplay,
    TutorialLessonKind, TutorialObjectives,
};

#[test]
fn gate_interactions_flash_gradients() {
    assert_eq!(gradient_for_gate_interaction(DefenseInteraction::Heal), BorderGradientType::Defense);
    assert_eq!(gradient_for_gate_interaction(DefenseInteraction::Damage), BorderGradientType::Warning);
}

#[test]
fn phase_panel_contents() {
    assert_eq!(phase_data_display(LevelPhaseKind::FormationSpawn, false), PhaseDataDisplay::RemainingTime);
    assert_eq!(phase_data_display(LevelPhaseKind::Break, true), PhaseDataDisplay::RemainingTime);
    assert_eq!(phase_data_display(LevelPhaseKind::Boss, true), PhaseDataDisplay::BossHealth);
    assert_eq!(phase_data_display(LevelPhaseKind::Boss, false), PhaseDataDisplay::Empty);
    assert_eq!(
        phase_data_display(LevelPhaseKind::Tutorial(TutorialLessonKind::Movement), false),
        PhaseDataDisplay::Objectives(TutorialObjectives::MovementTimers)
    );
    assert_eq!(
        phase_data_display(LevelPhaseKind::Tutorial(TutorialLessonKind::AbilitySlotOne), false),
        PhaseDataDisplay::Objectives(TutorialObjectives::AttackProgress)
    );
    assert_eq!(
        phase_data_display(LevelPhaseKind::Tutorial(TutorialLessonKind::AbilitySlotTwo), true),
        PhaseDataDisplay::Objectives(TutorialObjectives::AbilityProgress)
    );
    assert_eq!(objective_text_color(true), ObjectiveTextColor::Completed);
    assert_eq!(objective_text_color(false), ObjectiveTextColor::Normal);
}

#[test]
fn center_text_changes_only_on_phase_cycle() {
    assert_eq!(center_text_update(true, Some("Wave 2".to_string())), Some("Wave 2".to_string()));
    assert_eq!(center_text_update(true, None), None);
    assert_eq!(center_text_update(false, Some("Wave 2".to_string())), None);
}
