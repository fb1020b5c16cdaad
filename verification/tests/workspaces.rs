use forgebar::errors::BarError;
use forgebar::workspaces::WorkspacesWidget;

fn active_labels(w: &WorkspacesWidget) -> Vec<String> {
    w.widget().iter().filter(|b| b.active).map(|b| b.label.clone()).collect()
}

#[test]
fn fresh_widget_has_eight_buttons_labeled_one_through_eight() {
    let w = WorkspacesWidget::new();
    let buttons = w.widget();
    assert_eq!(buttons.len(), 8);
    for (i, b) in buttons.iter().enumerate() {
        assert_eq!(b.label, (i + 1).to_string());
    }
}

#[test]
fn fresh_widget_shows_button_one_active() {
    let w = WorkspacesWidget::new();
    assert_eq!(w.active_workspace, 1);
    assert_eq!(active_labels(&w), vec!["1".to_string()]);
}

#[test]
fn successful_refresh_moves_active_class() {
    let mut w = WorkspacesWidget::new();
    w.update(Ok(3));
    assert_eq!(w.active_workspace, 3);
    assert_eq!(active_labels(&w), vec!["3".to_string()]);
    assert!(!w.widget()[0].active);
}

#[test]
fn refresh_outside_range_clears_every_active_class() {
    let mut w = WorkspacesWidget::new();
    w.update(Ok(3));
    w.update(Ok(42));
    assert_eq!(w.active_workspace, 42);
    assert_eq!(active_labels(&w), Vec::<String>::new());
}

#[test]
fn refresh_back_into_range_restores_exactly_one_active() {
    let mut w = WorkspacesWidget::new();
    w.update(Ok(42));
    w.update(Ok(8));
    assert_eq!(w.active_workspace, 8);
    assert_eq!(active_labels(&w), vec!["8".to_string()]);
}

#[test]
fn failed_refresh_changes_nothing() {
    let mut w = WorkspacesWidget::new();
    w.update(Ok(3));
    w.update(Err(BarError::IoError));
    assert_eq!(w.active_workspace, 3);
    assert_eq!(active_labels(&w), vec!["3".to_string()]);
    w.update(Err(BarError::ConfigMissing));
    assert_eq!(w.active_workspace, 3);
    w.update(Err(BarError::ProtocolError));
    assert_eq!(w.active_workspace, 3);
}

#[test]
fn unconfigured_widget_stays_on_initial_workspace() {
    let mut w = WorkspacesWidget::new();
    for _ in 0..5 {
        w.update(Err(BarError::ConfigMissing));
    }
    assert_eq!(w.active_workspace, 1);
    assert_eq!(active_labels(&w), vec!["1".to_string()]);
}

#[test]
fn stylesheet_is_the_same_on_every_call() {
    let w = WorkspacesWidget::new();
    let first = w.setup_css();
    let second = w.setup_css();
    let third = w.setup_css();
    assert_eq!(first, second);
    assert_eq!(second, third);
    assert!(first.contains(".active-workspace"));
    assert!(first.contains("color: #ff0000"));
    assert!(first.contains("font-weight: bold"));
    assert!(first.contains("text-decoration: underline"));
    assert!(first.contains("color: #d8dee9"));
    assert!(first.contains("color: #eceff4"));
    assert!(first.contains("font-size: 16px"));
}
