use raspberry_dashboard::directory::WidgetDirectory;
use raspberry_dashboard::remote::{
    check_auth, set_blank, set_blank_body, switch_widget, BlankChange, RemoteError, RemoteState,
};

fn state_without_widgets() -> RemoteState {
    RemoteState { name_to_id: WidgetDirectory::new(), token: "secret".to_string() }
}

fn test_state() -> RemoteState {
    let mut name_to_id = WidgetDirectory::new();
    name_to_id.insert("clock".to_string(), 2);
    name_to_id.insert("weather".to_string(), 5);
    RemoteState { name_to_id, token: "secret".to_string() }
}

#[test]
fn check_auth_valid_token() {
    let state = state_without_widgets();
    assert!(check_auth(&state, Some("Bearer secret")).is_ok());
}

#[test]
fn check_auth_invalid_token() {
    let state = state_without_widgets();
    assert_eq!(check_auth(&state, Some("Bearer wrong")), Err(RemoteError::Unauthorized));
}

#[test]
fn check_auth_missing_header() {
    let state = state_without_widgets();
    assert_eq!(check_auth(&state, None), Err(RemoteError::Unauthorized));
}

#[test]
fn check_auth_wrong_scheme() {
    let state = state_without_widgets();
    assert_eq!(check_auth(&state, Some("Basic dXNlcjpwYXNz")), Err(RemoteError::Unauthorized));
}

#[test]
fn e2e_switch_widget_ok() {
    let state = test_state();
    assert_eq!(switch_widget(&state, Some("Bearer secret"), "clock"), Ok(2));
}

#[test]
fn e2e_switch_widget_unknown() {
    let state = test_state();
    let r = switch_widget(&state, Some("Bearer secret"), "unknown");
    assert_eq!(r, Err(RemoteError::NotFound));
    assert_eq!(r.unwrap_err().status_code(), 404);
}

#[test]
fn e2e_switch_widget_unauthorized() {
    let state = test_state();
    let r = switch_widget(&state, None, "clock");
    assert_eq!(r, Err(RemoteError::Unauthorized));
    assert_eq!(r.unwrap_err().status_code(), 401);
}

#[test]
fn e2e_blank_on() {
    let state = test_state();
    let change = set_blank(&state, Some("Bearer secret"), "on").unwrap();
    assert_eq!(change, BlankChange::To(true));
    assert!(change.apply(false));
}

#[test]
fn e2e_blank_off() {
    let state = test_state();
    let change = set_blank(&state, Some("Bearer secret"), "off").unwrap();
    assert!(!change.apply(true));
}

#[test]
fn e2e_blank_toggle() {
    let state = test_state();
    let change = set_blank(&state, Some("Bearer secret"), "toggle").unwrap();
    assert_eq!(change, BlankChange::Toggle);
    let blanked = change.apply(false);
    assert!(blanked);
    let change = set_blank(&state, Some("Bearer secret"), "toggle").unwrap();
    assert!(!change.apply(blanked));
}

#[test]
fn e2e_blank_unknown_action() {
    let state = test_state();
    assert_eq!(set_blank(&state, Some("Bearer secret"), "xyz"), Err(RemoteError::NotFound));
}

#[test]
fn e2e_blank_body_set() {
    let state = test_state();
    assert_eq!(set_blank_body(&state, Some("Bearer secret"), true), Ok(true));
}

// `GET /blank` answers with the blanked state read from the screen by the
// server; the library's part of that route is the authorization checked here.
#[test]
fn e2e_get_blank() {
    let state = test_state();
    assert_eq!(check_auth(&state, Some("Bearer secret")), Ok(()));
}

#[test]
fn e2e_get_blank_unauthorized() {
    let state = test_state();
    assert_eq!(check_auth(&state, None), Err(RemoteError::Unauthorized));
}

#[test]
fn refused_before_route_is_examined() {
    let state = test_state();
    // A bad token is refused even where the route would be unknown.
    assert_eq!(switch_widget(&state, Some("Bearer nope"), "unknown"), Err(RemoteError::Unauthorized));
    assert_eq!(set_blank(&state, Some("bearer secret"), "xyz"), Err(RemoteError::Unauthorized));
    assert_eq!(set_blank_body(&state, Some("Bearer secret "), false), Err(RemoteError::Unauthorized));
}

#[test]
fn token_must_match_exactly() {
    let state = test_state();
    assert!(check_auth(&state, Some("Bearer secret2")).is_err());
    assert!(check_auth(&state, Some("Bearer  secret")).is_err());
    assert!(check_auth(&state, Some("Bearer")).is_err());
    assert!(check_auth(&state, Some("")).is_err());
}

#[test]
fn toggle_twice_restores_state() {
    for start in [false, true] {
        assert_eq!(BlankChange::Toggle.apply(BlankChange::Toggle.apply(start)), start);
    }
}

#[test]
fn directory_later_insert_wins() {
    let mut d = WidgetDirectory::new();
    d.insert("clock".to_string(), 2);
    d.insert("quotes".to_string(), 4);
    d.insert("clock".to_string(), 7);
    assert_eq!(d.get("clock"), Some(7));
    assert_eq!(d.get("quotes"), Some(4));
    assert_eq!(d.get("weather"), None);
}
