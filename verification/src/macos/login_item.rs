//! Whether the program starts at login.

use vstd::prelude::*;

verus! {

/// Registration of the program as a login item.
#[derive(Debug, Clone, Copy, PartialEq, Eq, Structural)]
pub enum LoginItemState {
    Enabled,
    NotRegistered,
    /// The user still has to approve it in the system settings.
    RequiresApproval,
    /// Not running from a bundle, or the system refused.
    Unavailable,
}

/// What to ask of the system.
#[derive(Debug, Clone, Copy, PartialEq, Eq, Structural)]
pub enum LoginItemRequest {
    Register,
    Unregister,
}

/// What a toggle asks for: the program is taken out of the login items where it is registered and
/// approved, and registered otherwise.
#[must_use]
pub fn toggle(state: LoginItemState) -> (r: LoginItemRequest)
    ensures
        r == (if state is Enabled {
            LoginItemRequest::Unregister
        } else {
            LoginItemRequest::Register
        }),
{
    match state {
        LoginItemState::Enabled => LoginItemRequest::Unregister,
        _ => LoginItemRequest::Register,
    }
}

} // verus!
