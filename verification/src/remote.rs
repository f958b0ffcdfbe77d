//! Decisions of the remote-control HTTP interface.
//!
//! Every request must carry `Authorization: Bearer <token>`; the server
//! answers `401` otherwise, whatever the route.  The functions here decide
//! the answer and the change to make to the dashboard; the server performs
//! it.

use vstd::prelude::*;
use crate::directory::WidgetDirectory;
use crate::text::{concat2, str_eq};

verus! {

/// Why a remote-control request is refused.
#[derive(Debug, PartialEq, Eq, Structural, Clone, Copy)]
pub enum RemoteError {
    /// Missing or wrong bearer token (HTTP 401).
    Unauthorized,
    /// Unknown widget name or blank action (HTTP 404).
    NotFound,
}

impl RemoteError {
    /// The HTTP status code of the refusal.
    pub fn status_code(&self) -> (code: u16)
        ensures
            code == match self {
                RemoteError::Unauthorized => 401u16,
                RemoteError::NotFound => 404u16,
            },
    {
        match self {
            RemoteError::Unauthorized => 401,
            RemoteError::NotFound => 404,
        }
    }
}

/// What the server knows: widget names and the shared token.
pub struct RemoteState {
    pub name_to_id: WidgetDirectory,
    pub token: String,
}

/// The header value `authorization` grants access for `token`.
pub open spec fn header_grants(token: Seq<char>, authorization: Option<&str>) -> bool {
    match authorization {
        Some(h) => h@ == "Bearer "@ + token,
        None => false,
    }
}

/// Accept the request exactly when its `Authorization` header value is
/// `Bearer <token>`.
pub fn check_auth(state: &RemoteState, authorization: Option<&str>) -> (r: Result<(), RemoteError>)
    ensures
        r == (if header_grants(state.token@, authorization) {
            Ok::<(), RemoteError>(())
        } else {
            Err(RemoteError::Unauthorized)
        }),
{
    match authorization {
        Some(h) => {
            let expected = concat2("Bearer ", state.token.as_str());
            if str_eq(h, expected.as_str()) {
                Ok(())
            } else {
                Err(RemoteError::Unauthorized)
            }
        },
        None => Err(RemoteError::Unauthorized),
    }
}

/// `POST /widget/<name>`: the identifier of the widget to switch to.
pub fn switch_widget(state: &RemoteState, authorization: Option<&str>, name: &str) -> (r: Result<
    i32,
    RemoteError,
>)
    ensures
        !header_grants(state.token@, authorization) ==> r == Err::<i32, RemoteError>(
            RemoteError::Unauthorized,
        ),
        header_grants(state.token@, authorization) ==> r == (if state.name_to_id@.dom().contains(
            name@,
        ) {
            Ok::<i32, RemoteError>(state.name_to_id@[name@])
        } else {
            Err(RemoteError::NotFound)
        }),
{
    check_auth(state, authorization)?;
    match state.name_to_id.get(name) {
        Some(id) => Ok(id),
        None => Err(RemoteError::NotFound),
    }
}

/// The change a blank request makes to the blanked state.
#[derive(Debug, PartialEq, Eq, Structural, Clone, Copy)]
pub enum BlankChange {
    /// Set the blanked state to the value.
    To(bool),
    /// Invert the current blanked state.
    Toggle,
}

/// The blanked state after applying `change` to `current`.
pub open spec fn blank_after(change: BlankChange, current: bool) -> bool {
    match change {
        BlankChange::To(v) => v,
        BlankChange::Toggle => !current,
    }
}

impl BlankChange {
    /// The blanked state to set, given the current one.
    pub fn apply(&self, current: bool) -> (r: bool)
        ensures
            r == blank_after(*self, current),
    {
        match self {
            BlankChange::To(v) => *v,
            BlankChange::Toggle => !current,
        }
    }
}

/// The change named by a `/blank/<action>` route.
pub open spec fn blank_action(action: Seq<char>) -> Option<BlankChange> {
    if action == "on"@ {
        Some(BlankChange::To(true))
    } else if action == "off"@ {
        Some(BlankChange::To(false))
    } else if action == "toggle"@ {
        Some(BlankChange::Toggle)
    } else {
        None
    }
}

/// `POST /blank/<action>`: `on`, `off` or `toggle`; any other action is
/// not found.
pub fn set_blank(state: &RemoteState, authorization: Option<&str>, action: &str) -> (r: Result<
    BlankChange,
    RemoteError,
>)
    ensures
        !header_grants(state.token@, authorization) ==> r == Err::<BlankChange, RemoteError>(
            RemoteError::Unauthorized,
        ),
        header_grants(state.token@, authorization) ==> r == match blank_action(action@) {
            Some(c) => Ok::<BlankChange, RemoteError>(c),
            None => Err(RemoteError::NotFound),
        },
{
    check_auth(state, authorization)?;
    if str_eq(action, "on") {
        Ok(BlankChange::To(true))
    } else if str_eq(action, "off") {
        Ok(BlankChange::To(false))
    } else if str_eq(action, "toggle") {
        Ok(BlankChange::Toggle)
    } else {
        Err(RemoteError::NotFound)
    }
}

/// `POST /blank` with a body `{"blanked": value}`: the state to set.
pub fn set_blank_body(state: &RemoteState, authorization: Option<&str>, blanked: bool) -> (r:
    Result<bool, RemoteError>)
    ensures
        r == (if header_grants(state.token@, authorization) {
            Ok::<bool, RemoteError>(blanked)
        } else {
            Err(RemoteError::Unauthorized)
        }),
{
    check_auth(state, authorization)?;
    Ok(blanked)
}

/// Toggling twice restores the blanked state.
pub proof fn lemma_toggle_twice(current: bool)
    ensures
        blank_after(BlankChange::Toggle, blank_after(BlankChange::Toggle, current)) == current,
{
}

/// `on` and `off` set the state whatever it was, and `toggle` always changes
/// it.
pub proof fn lemma_blank_actions(current: bool)
    ensures
        blank_after(blank_action("on"@).unwrap(), current),
        !blank_after(blank_action("off"@).unwrap(), current),
        blank_after(blank_action("toggle"@).unwrap(), current) != current,
{
    reveal_strlit("on");
    reveal_strlit("off");
    reveal_strlit("toggle");
    assert("off"@.len() != "on"@.len());
    assert("toggle"@.len() != "on"@.len());
    assert("toggle"@.len() != "off"@.len());
}

} // verus!
