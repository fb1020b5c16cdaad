use forgebar::client::{dispatch_command, parse_active_workspace, query_command, socket_path};
use forgebar::errors::BarError;
use forgebar::workspaces::WorkspacesWidget;

#[test]
fn query_request_is_the_json_active_workspace_command() {
    assert_eq!(query_command(), "j/activeworkspace");
}

#[test]
fn compositor_answer_with_id_parses() {
    assert_eq!(parse_active_workspace("{\"id\":3,\"name\":\"three\"}"), Ok(3));
}

#[test]
fn extra_fields_are_ignored() {
    assert_eq!(
        parse_active_workspace("{\"id\":7,\"name\":\"x\",\"monitor\":\"DP-1\",\"windows\":4}"),
        Ok(7)
    );
}

#[test]
fn negative_and_large_ids_parse() {
    assert_eq!(parse_active_workspace("{\"id\":-3}"), Ok(-3));
    assert_eq!(parse_active_workspace("{\"id\":42}"), Ok(42));
}

#[test]
fn garbage_is_a_protocol_error() {
    assert_eq!(parse_active_workspace("hello"), Err(BarError::ProtocolError));
}

#[test]
fn missing_id_is_a_protocol_error() {
    assert_eq!(parse_active_workspace("{\"name\":\"three\"}"), Err(BarError::ProtocolError));
}

#[test]
fn non_object_and_non_integer_ids_are_protocol_errors() {
    assert_eq!(parse_active_workspace("[1,2,3]"), Err(BarError::ProtocolError));
    assert_eq!(parse_active_workspace("{\"id\":\"3\"}"), Err(BarError::ProtocolError));
    assert_eq!(parse_active_workspace("{\"id\":3.5}"), Err(BarError::ProtocolError));
    assert_eq!(parse_active_workspace(""), Err(BarError::ProtocolError));
}

#[test]
fn garbage_refresh_is_a_no_op() {
    let mut w = WorkspacesWidget::new();
    w.update(Ok(3));
    let observed = parse_active_workspace("hello");
    w.update(observed);
    assert_eq!(w.active_workspace, 3);
    assert!(w.widget()[2].active);
}

#[test]
fn click_issues_the_exact_dispatch_bytes() {
    assert_eq!(dispatch_command(5), "dispatch workspace 5");
    assert_eq!(dispatch_command(1), "dispatch workspace 1");
    assert_eq!(dispatch_command(8), "dispatch workspace 8");
}

#[test]
fn dispatch_handles_any_signed_id() {
    assert_eq!(dispatch_command(0), "dispatch workspace 0");
    assert_eq!(dispatch_command(-7), "dispatch workspace -7");
    assert_eq!(dispatch_command(i64::MAX), format!("dispatch workspace {}", i64::MAX));
    assert_eq!(dispatch_command(i64::MIN), format!("dispatch workspace {}", i64::MIN));
}

#[test]
fn click_does_not_change_widget_state() {
    let mut w = WorkspacesWidget::new();
    w.update(Ok(42));
    let _request = dispatch_command(5);
    assert_eq!(w.active_workspace, 42);
    assert!(w.widget().iter().all(|b| !b.active));
}

#[test]
fn socket_path_composes_from_uid_and_signature() {
    let p = socket_path(1000, &Some("abc123".to_string()));
    assert_eq!(p, Ok("/run/user/1000/hypr/abc123/.socket.sock".to_string()));
}

#[test]
fn absent_signature_is_config_missing() {
    assert_eq!(socket_path(1000, &None), Err(BarError::ConfigMissing));
}
