use niri_float::plan::{
    center_anchor, plan_remediation, Command, LogicalSize, OutputGeometry, RemediationError,
};

#[test]
fn centering_anchor_for_1920_by_1080() {
    let anchor = center_anchor(LogicalSize { width: 1920, height: 1080 });
    assert_eq!(anchor, (768, 270));
}

#[test]
fn denied_focused_output_aborts_with_no_commands() {
    let result = plan_remediation(42, None);
    assert_eq!(result, Err(RemediationError::FocusedOutputUnavailable));
}

#[test]
fn full_plan_floats_resizes_centers_and_focuses() {
    let output = OutputGeometry { logical: Some(LogicalSize { width: 1920, height: 1080 }) };
    let commands = plan_remediation(42, Some(output)).unwrap();
    assert_eq!(
        commands,
        vec![
            Command::MoveWindowToFloating { id: 42 },
            Command::SetWindowWidth { id: 42, percent: 20 },
            Command::SetWindowHeight { id: 42, percent: 50 },
            Command::MoveFloatingWindow { id: 42, x: 768, y: 270 },
            Command::FocusWindow { id: 42 },
        ]
    );
}

#[test]
fn missing_logical_dimensions_skip_centering() {
    let output = OutputGeometry { logical: None };
    let commands = plan_remediation(42, Some(output)).unwrap();
    assert_eq!(
        commands,
        vec![
            Command::MoveWindowToFloating { id: 42 },
            Command::SetWindowWidth { id: 42, percent: 20 },
            Command::SetWindowHeight { id: 42, percent: 50 },
            Command::FocusWindow { id: 42 },
        ]
    );
}

#[test]
fn only_the_resizes_are_best_effort() {
    assert!(!Command::MoveWindowToFloating { id: 1 }.is_best_effort());
    assert!(Command::SetWindowWidth { id: 1, percent: 20 }.is_best_effort());
    assert!(Command::SetWindowHeight { id: 1, percent: 50 }.is_best_effort());
    assert!(!Command::MoveFloatingWindow { id: 1, x: 0, y: 0 }.is_best_effort());
    assert!(!Command::FocusWindow { id: 1 }.is_best_effort());
}

#[test]
fn error_carries_a_message() {
    let error = plan_remediation(1, None).unwrap_err();
    assert_eq!(error.message(), "Request for focused output denied");
}
