//! The bar of top-level destinations at the bottom of the display.

use vstd::prelude::*;

use crate::text::owned;
use crate::widget::{button, ButtonState, Rect, TouchPoint, SCREEN_HEIGHT, SCREEN_WIDTH};
#[allow(unused_imports)]
use crate::widget::{clicked, touched};

verus! {

/// Height of the bar. A screen that shows it keeps this much free.
pub const TAB_BAR_HEIGHT: i32 = 60;

/// A top-level destination. The conversations have no cell in the bar.
#[derive(Copy, Clone, Debug, PartialEq, Eq, Structural)]
pub enum TopLevel {
    Home,
    Search,
    Notifications,
    Profile,
    Messages,
}

/// The word that stands for a destination.
pub open spec fn tab_label(t: TopLevel) -> Seq<char> {
    match t {
        TopLevel::Home => "Home"@,
        TopLevel::Search => "Search"@,
        TopLevel::Notifications => "Notifs"@,
        TopLevel::Profile => "Profile"@,
        TopLevel::Messages => "DMs"@,
    }
}

/// The destination of the `i`-th cell.
pub open spec fn tab_at(i: int) -> TopLevel {
    if i == 0 {
        TopLevel::Home
    } else if i == 1 {
        TopLevel::Search
    } else if i == 2 {
        TopLevel::Notifications
    } else {
        TopLevel::Profile
    }
}

/// The place of the `i`-th cell.
pub open spec fn tab_rect(i: int) -> Rect {
    Rect { x: (i * 240) as i32, y: 484, w: 240, h: 60 }
}

impl TopLevel {
    /// The word that stands for a destination.
    pub fn label(self) -> (r: String)
        ensures
            r@ == tab_label(self),
    {
        match self {
            TopLevel::Home => owned("Home"),
            TopLevel::Search => owned("Search"),
            TopLevel::Notifications => owned("Notifs"),
            TopLevel::Profile => owned("Profile"),
            TopLevel::Messages => owned("DMs"),
        }
    }

    /// The destinations of the cells, from left to right.
    pub fn all() -> (r: [TopLevel; 4])
        ensures
            forall|i: int| 0 <= i < 4 ==> #[trigger] r@[i] == tab_at(i),
    {
        [TopLevel::Home, TopLevel::Search, TopLevel::Notifications, TopLevel::Profile]
    }
}

/// The bar: which destination is shown, and the press state of each cell.
pub struct TabBar {
    pub active: TopLevel,
    pub home: ButtonState,
    pub search: ButtonState,
    pub notifications: ButtonState,
    pub profile: ButtonState,
}

impl TabBar {
    /// The press state of the `i`-th cell.
    pub open spec fn pressed(&self, i: int) -> bool {
        if i == 0 {
            self.home.pressed_last
        } else if i == 1 {
            self.search.pressed_last
        } else if i == 2 {
            self.notifications.pressed_last
        } else {
            self.profile.pressed_last
        }
    }

    /// Cell `i` fires in this frame: a click on a destination that is not
    /// already shown.
    pub open spec fn fires(&self, touches: Seq<TouchPoint>, i: int) -> bool {
        clicked(true, self.pressed(i), touched(touches, tab_rect(i)), touches.len() > 0) && tab_at(
            i,
        ) != self.active
    }

    /// A bar with nothing pressed.
    pub open spec fn fresh(&self, active: TopLevel) -> bool {
        &&& self.active == active
        &&& forall|i: int| 0 <= i < 4 ==> !#[trigger] self.pressed(i)
    }

    /// A bar with nothing pressed.
    pub fn new(active: TopLevel) -> (r: TabBar)
        ensures
            r.fresh(active),
    {
        TabBar {
            active,
            home: ButtonState::default(),
            search: ButtonState::default(),
            notifications: ButtonState::default(),
            profile: ButtonState::default(),
        }
    }

    /// One frame of the bar: the destination that was tapped. Tapping the one
    /// that is shown does nothing; of several, the rightmost counts.
    pub fn render(&mut self, touches: &Vec<TouchPoint>) -> (r: Option<TopLevel>)
        ensures
            final(self).active == old(self).active,
            forall|i: int|
                0 <= i < 4 ==> #[trigger] final(self).pressed(i) == touched(
                    touches@,
                    tab_rect(i),
                ),
            r == (if old(self).fires(touches@, 3) {
                Some(tab_at(3))
            } else if old(self).fires(touches@, 2) {
                Some(tab_at(2))
            } else if old(self).fires(touches@, 1) {
                Some(tab_at(1))
            } else if old(self).fires(touches@, 0) {
                Some(tab_at(0))
            } else {
                None
            }),
    {
        let y: i32 = SCREEN_HEIGHT - TAB_BAR_HEIGHT;
        let w: i32 = SCREEN_WIDTH / 4;
        let mut r: Option<TopLevel> = None;
        if button(Rect::new(0, y, w, TAB_BAR_HEIGHT), &mut self.home, touches, true)
            && self.active != TopLevel::Home {
            r = Some(TopLevel::Home);
        }
        if button(Rect::new(w, y, w, TAB_BAR_HEIGHT), &mut self.search, touches, true)
            && self.active != TopLevel::Search {
            r = Some(TopLevel::Search);
        }
        if button(Rect::new(2 * w, y, w, TAB_BAR_HEIGHT), &mut self.notifications, touches, true)
            && self.active != TopLevel::Notifications {
            r = Some(TopLevel::Notifications);
        }
        if button(Rect::new(3 * w, y, w, TAB_BAR_HEIGHT), &mut self.profile, touches, true)
            && self.active != TopLevel::Profile {
            r = Some(TopLevel::Profile);
        }
        r
    }
}

/// Tapping the destination that is shown is no navigation.
pub proof fn lemma_active_tab_never_fires(bar: TabBar, touches: Seq<TouchPoint>, i: int)
    requires
        tab_at(i) == bar.active,
    ensures
        !bar.fires(touches, i),
{
}

} // verus!
