//! What the menu bar shows.

use vstd::prelude::*;
use vstd::string::*;

use crate::macos::login_item::LoginItemState;

verus! {

/// Title in the menu bar while the engine is on.
pub const TITLE_ENABLED: &'static str = "あ";

/// Title in the menu bar while the engine is off.
pub const TITLE_DISABLED: &'static str = "A";

/// What the menu bar item and its menu show.
#[derive(Debug)]
pub struct SystemTray {
    enabled: bool,
    layout_name: String,
    login_item: LoginItemState,
}

pub ghost struct TrayView {
    pub enabled: bool,
    pub layout_name: Seq<char>,
    pub login_item: LoginItemState,
}

impl View for SystemTray {
    type V = TrayView;

    closed spec fn view(&self) -> TrayView {
        TrayView {
            enabled: self.enabled,
            layout_name: self.layout_name@,
            login_item: self.login_item,
        }
    }
}

impl SystemTray {
    /// The item as it is put up: the engine is on and the layout has no name yet.
    #[must_use]
    pub fn new(login_item: LoginItemState) -> (r: Self)
        ensures
            r@ == (TrayView { enabled: true, layout_name: "-"@, login_item }),
    {
        SystemTray { enabled: true, layout_name: "-".to_owned(), login_item }
    }

    pub fn set_enabled(&mut self, enabled: bool)
        ensures
            final(self)@ == (TrayView { enabled, ..old(self)@ }),
    {
        self.enabled = enabled;
    }

    pub fn set_layout_name(&mut self, name: &str)
        ensures
            final(self)@ == (TrayView { layout_name: name@, ..old(self)@ }),
    {
        self.layout_name = name.to_owned();
    }

    /// Takes over how the program is registered.
    pub fn sync_login_item(&mut self, state: LoginItemState)
        ensures
            final(self)@ == (TrayView { login_item: state, ..old(self)@ }),
    {
        self.login_item = state;
    }

    /// Title in the menu bar.
    #[must_use]
    pub fn title(&self) -> (r: &'static str)
        ensures
            r@ == (if self@.enabled {
                TITLE_ENABLED@
            } else {
                TITLE_DISABLED@
            }),
    {
        if self.enabled {
            TITLE_ENABLED
        } else {
            TITLE_DISABLED
        }
    }

    /// Whether the engine's entry has a check mark.
    #[must_use]
    pub fn engine_checked(&self) -> (r: bool)
        ensures
            r == self@.enabled,
    {
        self.enabled
    }

    /// Text of the layout's entry.
    #[must_use]
    pub fn layout_title(&self) -> (r: String)
        ensures
            r@ == "配列: "@ + self@.layout_name,
    {
        let mut s = "配列: ".to_owned();
        s.append(self.layout_name.as_str());
        s
    }

    /// Whether the login item's entry has a check mark.
    #[must_use]
    pub fn login_checked(&self) -> (r: bool)
        ensures
            r == (self@.login_item is Enabled),
    {
        matches!(self.login_item, LoginItemState::Enabled)
    }

    /// Whether the login item's entry can be chosen: a program outside a bundle cannot be
    /// registered.
    #[must_use]
    pub fn login_selectable(&self) -> (r: bool)
        ensures
            r == !(self@.login_item is Unavailable),
    {
        !matches!(self.login_item, LoginItemState::Unavailable)
    }
}

} // verus!
