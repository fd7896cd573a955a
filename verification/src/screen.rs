//! Where a frame leads.

use vstd::prelude::*;

use crate::embeds::ViewerImage;
use crate::model::ConvoView;
use crate::requests::ReplyTarget;
#[allow(unused_imports)]
use crate::tabbar::{tab_at, tab_rect};
use crate::tabbar::{TabBar, TopLevel};
use crate::widget::TouchPoint;
#[allow(unused_imports)]
use crate::widget::touched;

verus! {

/// A screen to be put on top of the current one.
#[derive(Debug)]
pub enum NextScreen {
    /// A profile; the reader's own where `actor` is absent.
    Profile { actor: Option<String> },
    /// The thread around a post.
    Thread { uri: String },
    /// A new post, or a reply to someone.
    Compose { reply: Option<ReplyTarget>, handle: Option<String> },
    /// A video.
    Video { did: String, cid: String },
    /// Pictures, starting with one of them.
    Images { images: Vec<ViewerImage>, index: usize },
    /// A conversation.
    Conversation { convo: ConvoView },
    /// A custom feed.
    Feed { uri: String },
}

/// What a frame asks of the navigation.
#[derive(Debug)]
pub enum ScreenAction {
    /// Nothing changes.
    Stay,
    /// Put a screen on top.
    Push(NextScreen),
    /// Go back to the screen below.
    Pop,
    /// Go to a top-level destination.
    SwitchTab(TopLevel),
    /// The reader is logged in.
    AuthComplete,
    /// Forget the session.
    Logout,
}

/// What becomes of a screen that is to be opened, if any is.
pub open spec fn pushed(next: Option<NextScreen>) -> ScreenAction {
    match next {
        Some(n) => ScreenAction::Push(n),
        None => ScreenAction::Stay,
    }
}

/// Opens a screen, if any is to be opened.
pub fn push_screen(next: Option<NextScreen>) -> (r: ScreenAction)
    ensures
        r == pushed(next),
{
    match next {
        Some(n) => ScreenAction::Push(n),
        None => ScreenAction::Stay,
    }
}

/// One frame of the bar at the bottom: a click goes to its destination, the
/// rightmost one where there are several.
pub open spec fn bar_followed(
    a: TabBar,
    b: TabBar,
    touches: Seq<TouchPoint>,
    action: ScreenAction,
) -> bool {
    &&& b.active == a.active
    &&& forall|i: int| 0 <= i < 4 ==> #[trigger] b.pressed(i) == touched(touches, tab_rect(i))
    &&& action == (if a.fires(touches, 3) {
        ScreenAction::SwitchTab(tab_at(3))
    } else if a.fires(touches, 2) {
        ScreenAction::SwitchTab(tab_at(2))
    } else if a.fires(touches, 1) {
        ScreenAction::SwitchTab(tab_at(1))
    } else if a.fires(touches, 0) {
        ScreenAction::SwitchTab(tab_at(0))
    } else {
        ScreenAction::Stay
    })
}

/// One frame of the bar at the bottom.
pub fn follow_bar(bar: &mut TabBar, touches: &Vec<TouchPoint>) -> (r: ScreenAction)
    ensures
        bar_followed(*old(bar), *final(bar), touches@, r),
{
    match bar.render(touches) {
        Some(t) => ScreenAction::SwitchTab(t),
        None => ScreenAction::Stay,
    }
}

} // verus!
