//! The sub-tabs of a profile: four lists of posts, and three lists of other
//! things. Each keeps its own place, so that coming back to one is instant.

use vstd::prelude::*;

use crate::engagement::EngagementKind;
#[allow(unused_imports)]
use crate::engagement::all_confirmed;
use crate::model::{clone_text, FeedPost, FeedReason, GeneratorView, ListView, StarterPackView};
use crate::post_list::PostList;
use crate::requests::{
    ActorFeedsBatch, ActorListsBatch, ActorStarterPacksBatch, FeedSource, TimelineBatch,
    WorkRequest, WorkResponse,
};
use crate::rows::step_selection;
#[allow(unused_imports)]
use crate::rows::{stepped, MAX_CONTENT_H};
use crate::text::{contains, is_text, owned, same_text};
#[allow(unused_imports)]
use crate::text::{contains_text, opt_view};

verus! {

/// Height of a row that is no post.
pub const ITEM_ROW_H: i32 = 80;

/// A sub-tab.
#[derive(Copy, Clone, Debug, PartialEq, Eq, Structural)]
pub enum ProfileTab {
    Posts,
    Replies,
    Media,
    Likes,
    Feeds,
    Lists,
    Packs,
}

/// The word on a sub-tab.
pub open spec fn tab_word(t: ProfileTab) -> Seq<char> {
    match t {
        ProfileTab::Posts => "Posts"@,
        ProfileTab::Replies => "Replies"@,
        ProfileTab::Media => "Media"@,
        ProfileTab::Likes => "Likes"@,
        ProfileTab::Feeds => "Feeds"@,
        ProfileTab::Lists => "Lists"@,
        ProfileTab::Packs => "Packs"@,
    }
}

/// The sub-tabs of a profile, from left to right. Likes show on the reader's
/// own profile only.
pub open spec fn tabs_shown(own: bool) -> Seq<ProfileTab> {
    if own {
        seq![
            ProfileTab::Posts,
            ProfileTab::Replies,
            ProfileTab::Media,
            ProfileTab::Likes,
            ProfileTab::Feeds,
            ProfileTab::Lists,
            ProfileTab::Packs,
        ]
    } else {
        seq![
            ProfileTab::Posts,
            ProfileTab::Replies,
            ProfileTab::Media,
            ProfileTab::Feeds,
            ProfileTab::Lists,
            ProfileTab::Packs,
        ]
    }
}

/// The place of a sub-tab among those shown; their number where it is none.
pub open spec fn tab_place(t: ProfileTab, own: bool) -> int {
    match t {
        ProfileTab::Posts => 0,
        ProfileTab::Replies => 1,
        ProfileTab::Media => 2,
        ProfileTab::Likes => if own {
            3
        } else {
            6
        },
        ProfileTab::Feeds => if own {
            4
        } else {
            3
        },
        ProfileTab::Lists => if own {
            5
        } else {
            4
        },
        ProfileTab::Packs => if own {
            6
        } else {
            5
        },
    }
}

/// One sub-tab to the left, from the first to the last.
pub open spec fn tab_left(t: ProfileTab, own: bool) -> ProfileTab {
    let tabs = tabs_shown(own);
    let n = tabs.len() as int;
    let p = tab_place(t, own);
    if p < n {
        tabs[if p == 0 {
            n - 1
        } else {
            p - 1
        }]
    } else {
        t
    }
}

/// One sub-tab to the right, from the last to the first.
pub open spec fn tab_right(t: ProfileTab, own: bool) -> ProfileTab {
    let tabs = tabs_shown(own);
    let n = tabs.len() as int;
    let p = tab_place(t, own);
    if p < n {
        tabs[if p == n - 1 {
            0
        } else {
            p + 1
        }]
    } else {
        t
    }
}

impl ProfileTab {
    /// The word on a sub-tab.
    pub fn label(self) -> (r: String)
        ensures
            r@ == tab_word(self),
    {
        match self {
            ProfileTab::Posts => owned("Posts"),
            ProfileTab::Replies => owned("Replies"),
            ProfileTab::Media => owned("Media"),
            ProfileTab::Likes => owned("Likes"),
            ProfileTab::Feeds => owned("Feeds"),
            ProfileTab::Lists => owned("Lists"),
            ProfileTab::Packs => owned("Packs"),
        }
    }
}

/// The sub-tabs of a profile, from left to right.
pub fn available_tabs(own: bool) -> (r: Vec<ProfileTab>)
    ensures
        r@ == tabs_shown(own),
{
    let mut r: Vec<ProfileTab> = Vec::new();
    r.push(ProfileTab::Posts);
    r.push(ProfileTab::Replies);
    r.push(ProfileTab::Media);
    if own {
        r.push(ProfileTab::Likes);
    }
    r.push(ProfileTab::Feeds);
    r.push(ProfileTab::Lists);
    r.push(ProfileTab::Packs);
    assert(r@ =~= tabs_shown(own));
    r
}

/// The sub-tab after the left and right buttons.
pub fn cycle_tab(active: ProfileTab, left: bool, right: bool, own: bool) -> (r: ProfileTab)
    ensures
        r == ({
            let a = if left {
                tab_left(active, own)
            } else {
                active
            };
            if right {
                tab_right(a, own)
            } else {
                a
            }
        }),
{
    let tabs = available_tabs(own);
    let n: usize = tabs.len();
    let mut a = active;
    if left {
        match find_tab(&tabs, a, own) {
            Some(p) => {
                a = if p == 0 {
                    tabs[n - 1]
                } else {
                    tabs[p - 1]
                };
            },
            None => {},
        }
    }
    if right {
        match find_tab(&tabs, a, own) {
            Some(p) => {
                a = if p == n - 1 {
                    tabs[0]
                } else {
                    tabs[p + 1]
                };
            },
            None => {},
        }
    }
    a
}

fn find_tab(tabs: &Vec<ProfileTab>, t: ProfileTab, own: bool) -> (r: Option<usize>)
    requires
        tabs@ == tabs_shown(own),
    ensures
        match r {
            Some(i) => i < tabs@.len() && i == tab_place(t, own),
            None => tab_place(t, own) >= tabs@.len(),
        },
{
    let mut i: usize = 0;
    while i < tabs.len()
        invariant
            i <= tabs@.len(),
            tabs@ == tabs_shown(own),
            forall|k: int| 0 <= k < i ==> #[trigger] tabs@[k] != t,
        decreases tabs@.len() - i,
    {
        if tabs[i] == t {
            return Some(i);
        }
        i += 1;
    }
    proof {
        let p = tab_place(t, own);
        if p < tabs@.len() {
            assert(tabs@[p] == t);
        }
    }
    None
}

// ── Posts ──────────────────────────────────────────────────────────────

/// A sub-tab with posts.
pub struct TabFeedState {
    pub list: PostList,
    /// Where the pinned post stands.
    pub pinned_idx: Option<usize>,
    pub next_cursor: Option<String>,
    pub fetching: bool,
    pub dispatched: bool,
    pub error: Option<String>,
}

/// The first pinned post from `from` on.
pub open spec fn first_pin(posts: Seq<FeedPost>, from: int) -> Option<usize>
    decreases posts.len() - from,
{
    if from >= posts.len() {
        None
    } else if posts[from].reason matches Some(FeedReason::Pin) {
        Some(from as usize)
    } else {
        first_pin(posts, from + 1)
    }
}

/// What an error of a sub-tab is shown as: likes that are kept private read
/// better.
pub open spec fn tab_error(tab: ProfileTab, e: Seq<char>) -> Seq<char> {
    if tab == ProfileTab::Likes && contains_text(e, "Profile not found"@) {
        "This user's likes aren't visible."@
    } else {
        e
    }
}

/// What a page makes of a sub-tab with posts. The pinned post is looked for on
/// the first page of the posts alone.
pub open spec fn feed_tab_after(
    a: TabFeedState,
    b: TabFeedState,
    tab: ProfileTab,
    batch: Result<TimelineBatch, String>,
) -> bool {
    match batch {
        Ok(page) => {
            &&& b.list.posts@ == a.list.posts@ + page.posts@
            &&& b.list == (PostList { posts: b.list.posts, ..a.list })
            &&& b == (TabFeedState {
                list: b.list,
                next_cursor: page.cursor,
                error: None,
                fetching: false,
                pinned_idx: if a.list.posts@.len() == 0 && tab == ProfileTab::Posts && first_pin(
                    page.posts@,
                    0,
                ) is Some {
                    first_pin(page.posts@, 0)
                } else {
                    a.pinned_idx
                },
                ..a
            })
        },
        Err(e) => {
            &&& opt_view(b.error) == Some(tab_error(tab, e@))
            &&& b == (TabFeedState { fetching: false, error: b.error, ..a })
        },
    }
}

impl TabFeedState {
    /// The list of posts is well formed.
    pub open spec fn wf(&self) -> bool {
        self.list.wf()
    }

    /// It holds no post, nothing was asked for, and nothing went wrong.
    pub open spec fn fresh(&self) -> bool {
        &&& self.list.posts@.len() == 0
        &&& self.list.row_heights@.len() == 0
        &&& self.list.text_heights@.len() == 0
        &&& self.list.selected_idx == 0
        &&& self.pinned_idx is None
        &&& self.next_cursor is None
        &&& !self.fetching
        &&& !self.dispatched
        &&& self.error is None
    }

    /// A sub-tab that has not been loaded.
    pub fn new() -> (r: TabFeedState)
        ensures
            r.wf(),
            r.fresh(),
    {
        TabFeedState {
            list: PostList::new(Vec::new(), 0),
            pinned_idx: None,
            next_cursor: None,
            fetching: false,
            dispatched: false,
            error: None,
        }
    }

    /// Takes a page, or the error in its place.
    pub fn take_page(&mut self, tab: ProfileTab, batch: Result<TimelineBatch, String>)
        requires
            old(self).wf(),
        ensures
            final(self).wf(),
            feed_tab_after(*old(self), *final(self), tab, batch),
    {
        self.fetching = false;
        match batch {
            Ok(page) => {
                let first = self.list.posts.len() == 0;
                self.list.append(page.posts);
                self.next_cursor = page.cursor;
                self.error = None;
                if first && tab == ProfileTab::Posts {
                    assert(self.list.posts@ =~= page.posts@);
                    let mut i: usize = 0;
                    let mut found = false;
                    while i < self.list.posts.len() && !found
                        invariant
                            i <= self.list.posts@.len(),
                            self.wf(),
                            self.list.posts@ == page.posts@,
                            *self == (TabFeedState {
                                list: self.list,
                                next_cursor: page.cursor,
                                error: None,
                                fetching: false,
                                pinned_idx: self.pinned_idx,
                                ..*old(self)
                            }),
                            self.list == (PostList { posts: self.list.posts, ..old(self).list }),
                            !found ==> first_pin(page.posts@, 0) == first_pin(
                                page.posts@,
                                i as int,
                            ) && self.pinned_idx == old(self).pinned_idx,
                            found ==> first_pin(page.posts@, 0) is Some && self.pinned_idx
                                == first_pin(page.posts@, 0),
                        decreases self.list.posts@.len() - i + (if found {
                            0int
                        } else {
                            1
                        }),
                    {
                        if matches!(&self.list.posts[i].reason, Some(FeedReason::Pin)) {
                            self.pinned_idx = Some(i);
                            found = true;
                        } else {
                            i += 1;
                        }
                    }
                }
            },
            Err(e) => {
                let private = tab == ProfileTab::Likes && contains(e.as_str(), "Profile not found");
                self.error = Some(
                    if private {
                        owned("This user's likes aren't visible.")
                    } else {
                        e
                    },
                );
            },
        }
    }
}

// ── Other things ───────────────────────────────────────────────────────

/// A sub-tab with other things.
pub struct ItemsTab<T> {
    pub items: Vec<T>,
    pub next_cursor: Option<String>,
    pub selected_idx: usize,
    pub fetching: bool,
    pub dispatched: bool,
    pub error: Option<String>,
}

/// What a page makes of a sub-tab with other things.
pub open spec fn items_tab_after<T>(
    a: ItemsTab<T>,
    b: ItemsTab<T>,
    page: Result<(Vec<T>, Option<String>), String>,
) -> bool {
    match page {
        Ok(p) => {
            &&& b.items@ == a.items@ + p.0@
            &&& b == (ItemsTab {
                items: b.items,
                next_cursor: p.1,
                error: None,
                fetching: false,
                ..a
            })
        },
        Err(e) => b == (ItemsTab { fetching: false, error: Some(e), ..a }),
    }
}

impl<T> ItemsTab<T> {
    /// The selection is one of the things, or 0, and their rows fit.
    pub open spec fn wf(&self) -> bool {
        &&& self.selected_idx == 0 || self.selected_idx < self.items@.len()
        &&& ITEM_ROW_H * self.items@.len() <= MAX_CONTENT_H
    }

    /// The rows fit with a page behind them.
    pub open spec fn page_fits(&self, page: Result<(Vec<T>, Option<String>), String>) -> bool {
        page matches Ok(p) ==> ITEM_ROW_H * (self.items@.len() + p.0@.len()) <= MAX_CONTENT_H
    }

    /// It holds nothing, nothing was asked for, and nothing went wrong.
    pub open spec fn fresh(&self) -> bool {
        &&& self.items@.len() == 0
        &&& self.next_cursor is None
        &&& self.selected_idx == 0
        &&& !self.fetching
        &&& !self.dispatched
        &&& self.error is None
    }

    /// A sub-tab that has not been loaded.
    pub fn new() -> (r: ItemsTab<T>)
        ensures
            r.wf(),
            r.fresh(),
    {
        ItemsTab {
            items: Vec::new(),
            next_cursor: None,
            selected_idx: 0,
            fetching: false,
            dispatched: false,
            error: None,
        }
    }

    /// Takes a page, or the error in its place.
    pub fn take_page(&mut self, page: Result<(Vec<T>, Option<String>), String>)
        requires
            old(self).wf(),
            old(self).page_fits(page),
        ensures
            final(self).wf(),
            items_tab_after(*old(self), *final(self), page),
    {
        self.fetching = false;
        match page {
            Ok((items, cursor)) => {
                let mut items = items;
                self.items.append(&mut items);
                self.next_cursor = cursor;
                self.error = None;
            },
            Err(e) => {
                self.error = Some(e);
            },
        }
    }

    /// Moves the selection by the up and down buttons.
    pub fn step(&mut self, up: bool, down: bool)
        requires
            old(self).wf(),
        ensures
            final(self).wf(),
            *final(self) == (ItemsTab {
                selected_idx: if old(self).items@.len() > 0 {
                    stepped(
                        old(self).selected_idx as int,
                        up,
                        down,
                        old(self).items@.len() as int,
                    ) as usize
                } else {
                    old(self).selected_idx
                },
                ..*old(self)
            }),
    {
        let n: usize = self.items.len();
        if n > 0 {
            let (s, _) = step_selection(self.selected_idx, up, down, n);
            self.selected_idx = s;
        }
    }
}

// ── All of them ────────────────────────────────────────────────────────

/// The sub-tabs of a profile and the active one.
pub struct ProfileTabs {
    pub active: ProfileTab,
    pub posts: TabFeedState,
    pub replies: TabFeedState,
    pub media: TabFeedState,
    pub likes: TabFeedState,
    pub feeds: ItemsTab<GeneratorView>,
    pub lists: ItemsTab<ListView>,
    pub packs: ItemsTab<StarterPackView>,
}

/// What a page of a sub-tab is asked for with.
pub open spec fn tab_request_is(
    r: WorkRequest,
    tab: ProfileTab,
    did: Seq<char>,
    cursor: Option<String>,
) -> bool {
    match tab {
        ProfileTab::Posts => r matches WorkRequest::FetchFeed {
            source: FeedSource::AuthorPosts { actor },
            cursor: c,
        } && actor@ == did && c == cursor,
        ProfileTab::Replies => r matches WorkRequest::FetchFeed {
            source: FeedSource::AuthorReplies { actor },
            cursor: c,
        } && actor@ == did && c == cursor,
        ProfileTab::Media => r matches WorkRequest::FetchFeed {
            source: FeedSource::AuthorMedia { actor },
            cursor: c,
        } && actor@ == did && c == cursor,
        ProfileTab::Likes => r matches WorkRequest::FetchFeed {
            source: FeedSource::AuthorLikes { actor },
            cursor: c,
        } && actor@ == did && c == cursor,
        ProfileTab::Feeds => r matches WorkRequest::FetchActorFeeds { actor, cursor: c } && actor@
            == did && c == cursor,
        ProfileTab::Lists => r matches WorkRequest::FetchActorLists { actor, cursor: c } && actor@
            == did && c == cursor,
        ProfileTab::Packs => r matches WorkRequest::FetchActorStarterPacks { actor, cursor: c }
            && actor@ == did && c == cursor,
    }
}

fn tab_request(tab: ProfileTab, did: &str, cursor: Option<String>) -> (r: WorkRequest)
    ensures
        tab_request_is(r, tab, did@, cursor),
{
    let actor = owned(did);
    match tab {
        ProfileTab::Posts => WorkRequest::FetchFeed {
            source: FeedSource::AuthorPosts { actor },
            cursor,
        },
        ProfileTab::Replies => WorkRequest::FetchFeed {
            source: FeedSource::AuthorReplies { actor },
            cursor,
        },
        ProfileTab::Media => WorkRequest::FetchFeed {
            source: FeedSource::AuthorMedia { actor },
            cursor,
        },
        ProfileTab::Likes => WorkRequest::FetchFeed {
            source: FeedSource::AuthorLikes { actor },
            cursor,
        },
        ProfileTab::Feeds => WorkRequest::FetchActorFeeds { actor, cursor },
        ProfileTab::Lists => WorkRequest::FetchActorLists { actor, cursor },
        ProfileTab::Packs => WorkRequest::FetchActorStarterPacks { actor, cursor },
    }
}

/// The sub-tab that a feed belongs to, and the account it is of.
pub open spec fn source_tab(s: FeedSource) -> Option<(ProfileTab, Seq<char>)> {
    match s {
        FeedSource::AuthorPosts { actor } => Some((ProfileTab::Posts, actor@)),
        FeedSource::AuthorReplies { actor } => Some((ProfileTab::Replies, actor@)),
        FeedSource::AuthorMedia { actor } => Some((ProfileTab::Media, actor@)),
        FeedSource::AuthorLikes { actor } => Some((ProfileTab::Likes, actor@)),
        _ => None,
    }
}

/// What a page of a feed makes of the sub-tabs. A page of another account, or
/// of a feed that is no sub-tab, is dropped.
pub open spec fn tabs_fed(
    a: ProfileTabs,
    b: ProfileTabs,
    source: FeedSource,
    batch: Result<TimelineBatch, String>,
    did: Option<Seq<char>>,
) -> bool {
    match source_tab(source) {
        None => b == a,
        Some(t) => if did != Some(t.1) {
            b == a
        } else {
            match t.0 {
                ProfileTab::Posts => feed_tab_after(a.posts, b.posts, t.0, batch) && b == (
                ProfileTabs { posts: b.posts, ..a }),
                ProfileTab::Replies => feed_tab_after(a.replies, b.replies, t.0, batch) && b == (
                ProfileTabs { replies: b.replies, ..a }),
                ProfileTab::Media => feed_tab_after(a.media, b.media, t.0, batch) && b == (
                ProfileTabs { media: b.media, ..a }),
                _ => feed_tab_after(a.likes, b.likes, t.0, batch) && b == (ProfileTabs {
                    likes: b.likes,
                    ..a
                }),
            }
        },
    }
}

/// What a page of custom feeds makes of the sub-tabs. A page of another account is
/// dropped.
pub open spec fn feeds_fed(
    a: ProfileTabs,
    b: ProfileTabs,
    actor: Seq<char>,
    batch: Result<ActorFeedsBatch, String>,
    did: Option<Seq<char>>,
) -> bool {
    &&& b == (ProfileTabs { feeds: b.feeds, ..a })
    &&& if did == Some(actor) {
        items_tab_after(
            a.feeds,
            b.feeds,
            match batch {
                Ok(p) => Ok((p.feeds, p.cursor)),
                Err(e) => Err(e),
            },
        )
    } else {
        b.feeds == a.feeds
    }
}

/// What a page of lists makes of the sub-tabs. A page of another account is
/// dropped.
pub open spec fn lists_fed(
    a: ProfileTabs,
    b: ProfileTabs,
    actor: Seq<char>,
    batch: Result<ActorListsBatch, String>,
    did: Option<Seq<char>>,
) -> bool {
    &&& b == (ProfileTabs { lists: b.lists, ..a })
    &&& if did == Some(actor) {
        items_tab_after(
            a.lists,
            b.lists,
            match batch {
                Ok(p) => Ok((p.lists, p.cursor)),
                Err(e) => Err(e),
            },
        )
    } else {
        b.lists == a.lists
    }
}

/// What a page of starter packs makes of the sub-tabs. A page of another account is
/// dropped.
pub open spec fn packs_fed(
    a: ProfileTabs,
    b: ProfileTabs,
    actor: Seq<char>,
    batch: Result<ActorStarterPacksBatch, String>,
    did: Option<Seq<char>>,
) -> bool {
    &&& b == (ProfileTabs { packs: b.packs, ..a })
    &&& if did == Some(actor) {
        items_tab_after(
            a.packs,
            b.packs,
            match batch {
                Ok(p) => Ok((p.starter_packs, p.cursor)),
                Err(e) => Err(e),
            },
        )
    } else {
        b.packs == a.packs
    }
}

/// Whether so many rows of a sub-tab, and more behind them, can be drawn.
fn item_rows_hold(have: usize, more: usize) -> (r: bool)
    ensures
        r == (ITEM_ROW_H * (have + more) <= MAX_CONTENT_H),
{
    (have as u128 + more as u128) * ITEM_ROW_H as u128 <= MAX_CONTENT_H as u128
}

/// The pages of an answer fit behind what is there.
pub open spec fn answer_fits(a: ProfileTabs, resp: WorkResponse) -> bool {
    match resp {
        WorkResponse::ActorFeeds { batch: Ok(p), .. } => ITEM_ROW_H * (a.feeds.items@.len()
            + p.feeds@.len()) <= MAX_CONTENT_H,
        WorkResponse::ActorLists { batch: Ok(p), .. } => ITEM_ROW_H * (a.lists.items@.len()
            + p.lists@.len()) <= MAX_CONTENT_H,
        WorkResponse::ActorStarterPacks { batch: Ok(p), .. } => ITEM_ROW_H * (a.packs.items@.len()
            + p.starter_packs@.len()) <= MAX_CONTENT_H,
        _ => true,
    }
}

/// What an answer makes of the sub-tabs. `did` is the account that is shown.
#[verifier::opaque]
pub open spec fn tabs_responded(
    a: ProfileTabs,
    b: ProfileTabs,
    resp: WorkResponse,
    did: Option<Seq<char>>,
) -> bool {
    match resp {
        WorkResponse::FeedPage { source, batch } => tabs_fed(a, b, source, batch, did),
        WorkResponse::LikeChanged(Ok(Some(uri))) => tabs_confirmed(
            a,
            b,
            EngagementKind::Like,
            uri@,
        ),
        WorkResponse::RepostChanged(Ok(Some(uri))) => tabs_confirmed(
            a,
            b,
            EngagementKind::Repost,
            uri@,
        ),
        WorkResponse::ActorFeeds { actor, batch } => feeds_fed(a, b, actor@, batch, did),
        WorkResponse::ActorLists { actor, batch } => lists_fed(a, b, actor@, batch, did),
        WorkResponse::ActorStarterPacks { actor, batch } => packs_fed(a, b, actor@, batch, did),
        _ => b == a,
    }
}

impl ProfileTabs {
    /// Every sub-tab is well formed.
    pub open spec fn wf(&self) -> bool {
        &&& self.posts.wf()
        &&& self.replies.wf()
        &&& self.media.wf()
        &&& self.likes.wf()
        &&& self.feeds.wf()
        &&& self.lists.wf()
        &&& self.packs.wf()
    }

    /// No sub-tab has been loaded, and the posts are active.
    pub open spec fn fresh(&self) -> bool {
        &&& self.active == ProfileTab::Posts
        &&& self.posts.fresh()
        &&& self.replies.fresh()
        &&& self.media.fresh()
        &&& self.likes.fresh()
        &&& self.feeds.fresh()
        &&& self.lists.fresh()
        &&& self.packs.fresh()
    }

    /// Sub-tabs that have not been loaded; the posts are active.
    pub fn new() -> (r: ProfileTabs)
        ensures
            r.wf(),
            r.fresh(),
            forall|t: ProfileTab| !#[trigger] r.was_asked(t) && !r.is_fetching(t) && r.cursor_of(
                t,
            ) is None,
    {
        ProfileTabs {
            active: ProfileTab::Posts,
            posts: TabFeedState::new(),
            replies: TabFeedState::new(),
            media: TabFeedState::new(),
            likes: TabFeedState::new(),
            feeds: ItemsTab::new(),
            lists: ItemsTab::new(),
            packs: ItemsTab::new(),
        }
    }

    /// Whether the pages of an answer fit behind what is there.
    pub fn answer_room(&self, resp: &WorkResponse) -> (r: bool)
        ensures
            r == answer_fits(*self, *resp),
    {
        match resp {
            WorkResponse::ActorFeeds { batch: Ok(p), .. } => item_rows_hold(
                self.feeds.items.len(),
                p.feeds.len(),
            ),
            WorkResponse::ActorLists { batch: Ok(p), .. } => item_rows_hold(
                self.lists.items.len(),
                p.lists.len(),
            ),
            WorkResponse::ActorStarterPacks { batch: Ok(p), .. } => item_rows_hold(
                self.packs.items.len(),
                p.starter_packs.len(),
            ),
            _ => true,
        }
    }

    /// A sub-tab was asked for already.
    pub open spec fn was_asked(&self, t: ProfileTab) -> bool {
        match t {
            ProfileTab::Posts => self.posts.dispatched,
            ProfileTab::Replies => self.replies.dispatched,
            ProfileTab::Media => self.media.dispatched,
            ProfileTab::Likes => self.likes.dispatched,
            ProfileTab::Feeds => self.feeds.dispatched,
            ProfileTab::Lists => self.lists.dispatched,
            ProfileTab::Packs => self.packs.dispatched,
        }
    }

    /// A page of a sub-tab is under way.
    pub open spec fn is_fetching(&self, t: ProfileTab) -> bool {
        match t {
            ProfileTab::Posts => self.posts.fetching,
            ProfileTab::Replies => self.replies.fetching,
            ProfileTab::Media => self.media.fetching,
            ProfileTab::Likes => self.likes.fetching,
            ProfileTab::Feeds => self.feeds.fetching,
            ProfileTab::Lists => self.lists.fetching,
            ProfileTab::Packs => self.packs.fetching,
        }
    }

    /// Where the next page of a sub-tab starts.
    pub open spec fn cursor_of(&self, t: ProfileTab) -> Option<String> {
        match t {
            ProfileTab::Posts => self.posts.next_cursor,
            ProfileTab::Replies => self.replies.next_cursor,
            ProfileTab::Media => self.media.next_cursor,
            ProfileTab::Likes => self.likes.next_cursor,
            ProfileTab::Feeds => self.feeds.next_cursor,
            ProfileTab::Lists => self.lists.next_cursor,
            ProfileTab::Packs => self.packs.next_cursor,
        }
    }

    /// The same sub-tabs, with the given one asked for and under way.
    pub open spec fn with_flags(&self, t: ProfileTab, asked: bool, fetching: bool) -> ProfileTabs {
        match t {
            ProfileTab::Posts => ProfileTabs {
                posts: TabFeedState { dispatched: asked, fetching, ..self.posts },
                ..*self
            },
            ProfileTab::Replies => ProfileTabs {
                replies: TabFeedState { dispatched: asked, fetching, ..self.replies },
                ..*self
            },
            ProfileTab::Media => ProfileTabs {
                media: TabFeedState { dispatched: asked, fetching, ..self.media },
                ..*self
            },
            ProfileTab::Likes => ProfileTabs {
                likes: TabFeedState { dispatched: asked, fetching, ..self.likes },
                ..*self
            },
            ProfileTab::Feeds => ProfileTabs {
                feeds: ItemsTab { dispatched: asked, fetching, ..self.feeds },
                ..*self
            },
            ProfileTab::Lists => ProfileTabs {
                lists: ItemsTab { dispatched: asked, fetching, ..self.lists },
                ..*self
            },
            ProfileTab::Packs => ProfileTabs {
                packs: ItemsTab { dispatched: asked, fetching, ..self.packs },
                ..*self
            },
        }
    }

    /// Asks for the first page of the active sub-tab, once.
    pub fn first_fetch(&mut self, did: &str) -> (r: Option<WorkRequest>)
        requires
            old(self).wf(),
        ensures
            final(self).wf(),
            r is Some == !old(self).was_asked(old(self).active),
            r matches Some(q) ==> tab_request_is(q, old(self).active, did@, None),
            *final(self) == (if r is Some {
                old(self).with_flags(old(self).active, true, true)
            } else {
                *old(self)
            }),
    {
        let t = self.active;
        let asked = match t {
            ProfileTab::Posts => self.posts.dispatched,
            ProfileTab::Replies => self.replies.dispatched,
            ProfileTab::Media => self.media.dispatched,
            ProfileTab::Likes => self.likes.dispatched,
            ProfileTab::Feeds => self.feeds.dispatched,
            ProfileTab::Lists => self.lists.dispatched,
            ProfileTab::Packs => self.packs.dispatched,
        };
        if asked {
            return None;
        }
        match t {
            ProfileTab::Posts => {
                self.posts.dispatched = true;
                self.posts.fetching = true;
            },
            ProfileTab::Replies => {
                self.replies.dispatched = true;
                self.replies.fetching = true;
            },
            ProfileTab::Media => {
                self.media.dispatched = true;
                self.media.fetching = true;
            },
            ProfileTab::Likes => {
                self.likes.dispatched = true;
                self.likes.fetching = true;
            },
            ProfileTab::Feeds => {
                self.feeds.dispatched = true;
                self.feeds.fetching = true;
            },
            ProfileTab::Lists => {
                self.lists.dispatched = true;
                self.lists.fetching = true;
            },
            ProfileTab::Packs => {
                self.packs.dispatched = true;
                self.packs.fetching = true;
            },
        }
        Some(tab_request(t, did, None))
    }

    /// Asks for the next page of the active sub-tab, where there is one and
    /// none is under way.
    pub fn next_page(&mut self, did: &str) -> (r: Option<WorkRequest>)
        requires
            old(self).wf(),
        ensures
            final(self).wf(),
            ({
                let t = old(self).active;
                &&& r is Some == (!old(self).is_fetching(t) && old(self).cursor_of(t) is Some)
                &&& r matches Some(q) ==> tab_request_is(q, t, did@, old(self).cursor_of(t))
                &&& *final(self) == (if r is Some {
                    old(self).with_flags(t, old(self).was_asked(t), true)
                } else {
                    *old(self)
                })
            }),
    {
        let t = self.active;
        let (fetching, cursor) = match t {
            ProfileTab::Posts => (self.posts.fetching, clone_text(&self.posts.next_cursor)),
            ProfileTab::Replies => (self.replies.fetching, clone_text(&self.replies.next_cursor)),
            ProfileTab::Media => (self.media.fetching, clone_text(&self.media.next_cursor)),
            ProfileTab::Likes => (self.likes.fetching, clone_text(&self.likes.next_cursor)),
            ProfileTab::Feeds => (self.feeds.fetching, clone_text(&self.feeds.next_cursor)),
            ProfileTab::Lists => (self.lists.fetching, clone_text(&self.lists.next_cursor)),
            ProfileTab::Packs => (self.packs.fetching, clone_text(&self.packs.next_cursor)),
        };
        if fetching || cursor.is_none() {
            return None;
        }
        match t {
            ProfileTab::Posts => {
                self.posts.fetching = true;
            },
            ProfileTab::Replies => {
                self.replies.fetching = true;
            },
            ProfileTab::Media => {
                self.media.fetching = true;
            },
            ProfileTab::Likes => {
                self.likes.fetching = true;
            },
            ProfileTab::Feeds => {
                self.feeds.fetching = true;
            },
            ProfileTab::Lists => {
                self.lists.fetching = true;
            },
            ProfileTab::Packs => {
                self.packs.fetching = true;
            },
        }
        Some(tab_request(t, did, cursor))
    }

    /// Takes a page of a feed. `did` is the account that is shown.
    pub fn feed_page(
        &mut self,
        source: FeedSource,
        batch: Result<TimelineBatch, String>,
        did: &Option<String>,
    )
        requires
            old(self).wf(),
        ensures
            final(self).wf(),
            tabs_fed(*old(self), *final(self), source, batch, opt_view(*did)),
    {
        let (tab, actor) = match source {
            FeedSource::AuthorPosts { actor } => (ProfileTab::Posts, actor),
            FeedSource::AuthorReplies { actor } => (ProfileTab::Replies, actor),
            FeedSource::AuthorMedia { actor } => (ProfileTab::Media, actor),
            FeedSource::AuthorLikes { actor } => (ProfileTab::Likes, actor),
            _ => {
                return;
            },
        };
        let ours = match did {
            Some(d) => same_text(d.as_str(), actor.as_str()),
            None => false,
        };
        if !ours {
            return;
        }
        match tab {
            ProfileTab::Posts => self.posts.take_page(tab, batch),
            ProfileTab::Replies => self.replies.take_page(tab, batch),
            ProfileTab::Media => self.media.take_page(tab, batch),
            _ => self.likes.take_page(tab, batch),
        }
    }

    /// Takes a page of custom feeds. `did` is the account that is shown.
    pub fn feeds_page(
        &mut self,
        actor: &str,
        batch: Result<ActorFeedsBatch, String>,
        did: &Option<String>,
    )
        requires
            old(self).wf(),
            batch matches Ok(p) ==> ITEM_ROW_H * (old(self).feeds.items@.len() + p.feeds@.len())
                <= MAX_CONTENT_H,
        ensures
            final(self).wf(),
            feeds_fed(*old(self), *final(self), actor@, batch, opt_view(*did)),
    {
        if is_text(did, actor) {
            let page = match batch {
                Ok(p) => Ok((p.feeds, p.cursor)),
                Err(e) => Err(e),
            };
            self.feeds.take_page(page);
        }
    }

    /// Takes a page of lists. `did` is the account that is shown.
    pub fn lists_page(
        &mut self,
        actor: &str,
        batch: Result<ActorListsBatch, String>,
        did: &Option<String>,
    )
        requires
            old(self).wf(),
            batch matches Ok(p) ==> ITEM_ROW_H * (old(self).lists.items@.len() + p.lists@.len())
                <= MAX_CONTENT_H,
        ensures
            final(self).wf(),
            lists_fed(*old(self), *final(self), actor@, batch, opt_view(*did)),
    {
        if is_text(did, actor) {
            let page = match batch {
                Ok(p) => Ok((p.lists, p.cursor)),
                Err(e) => Err(e),
            };
            self.lists.take_page(page);
        }
    }

    /// Takes a page of starter packs. `did` is the account that is shown.
    pub fn packs_page(
        &mut self,
        actor: &str,
        batch: Result<ActorStarterPacksBatch, String>,
        did: &Option<String>,
    )
        requires
            old(self).wf(),
            batch matches Ok(p) ==> ITEM_ROW_H * (old(self).packs.items@.len() + p.starter_packs@.len())
                <= MAX_CONTENT_H,
        ensures
            final(self).wf(),
            packs_fed(*old(self), *final(self), actor@, batch, opt_view(*did)),
    {
        if is_text(did, actor) {
            let page = match batch {
                Ok(p) => Ok((p.starter_packs, p.cursor)),
                Err(e) => Err(e),
            };
            self.packs.take_page(page);
        }
    }

    /// Confirms every mark that is still being made, on every sub-tab: the
    /// same post can stand on several.
    pub fn confirm_marks(&mut self, kind: EngagementKind, uri: &str)
        requires
            old(self).wf(),
        ensures
            final(self).wf(),
            tabs_confirmed(*old(self), *final(self), kind, uri@),
    {
        self.posts.list.confirm_every(kind, uri);
        self.replies.list.confirm_every(kind, uri);
        self.media.list.confirm_every(kind, uri);
        self.likes.list.confirm_every(kind, uri);
    }

    /// Takes an answer of the worker. `did` is the account that is shown.
    pub fn answer(&mut self, resp: WorkResponse, did: &Option<String>)
        requires
            old(self).wf(),
            answer_fits(*old(self), resp),
        ensures
            final(self).wf(),
            tabs_responded(*old(self), *final(self), resp, opt_view(*did)),
    {
        reveal(tabs_responded);
        match resp {
            WorkResponse::FeedPage { source, batch } => self.feed_page(source, batch, did),
            WorkResponse::LikeChanged(Ok(Some(uri))) => {
                self.confirm_marks(EngagementKind::Like, uri.as_str());
            },
            WorkResponse::RepostChanged(Ok(Some(uri))) => {
                self.confirm_marks(EngagementKind::Repost, uri.as_str());
            },
            WorkResponse::ActorFeeds { actor, batch } => {
                self.feeds_page(actor.as_str(), batch, did);
            },
            WorkResponse::ActorLists { actor, batch } => {
                self.lists_page(actor.as_str(), batch, did);
            },
            WorkResponse::ActorStarterPacks { actor, batch } => {
                self.packs_page(actor.as_str(), batch, did);
            },
            _ => {},
        }
    }

    /// The active list of posts.
    pub open spec fn active_list(&self) -> Option<PostList> {
        match self.active {
            ProfileTab::Posts => Some(self.posts.list),
            ProfileTab::Replies => Some(self.replies.list),
            ProfileTab::Media => Some(self.media.list),
            ProfileTab::Likes => Some(self.likes.list),
            _ => None,
        }
    }

    /// The same sub-tabs, with another list of posts on the active one.
    pub open spec fn with_list(&self, list: PostList) -> ProfileTabs {
        match self.active {
            ProfileTab::Posts => ProfileTabs {
                posts: TabFeedState { list, ..self.posts },
                ..*self
            },
            ProfileTab::Replies => ProfileTabs {
                replies: TabFeedState { list, ..self.replies },
                ..*self
            },
            ProfileTab::Media => ProfileTabs {
                media: TabFeedState { list, ..self.media },
                ..*self
            },
            ProfileTab::Likes => ProfileTabs {
                likes: TabFeedState { list, ..self.likes },
                ..*self
            },
            _ => *self,
        }
    }

    /// The active list of posts; nothing on the other sub-tabs.
    pub fn active_post_state(&self) -> (r: Option<&PostList>)
        requires
            self.wf(),
        ensures
            match r {
                Some(l) => self.active_list() == Some(*l) && l.wf(),
                None => self.active_list() is None,
            },
    {
        match self.active {
            ProfileTab::Posts => Some(&self.posts.list),
            ProfileTab::Replies => Some(&self.replies.list),
            ProfileTab::Media => Some(&self.media.list),
            ProfileTab::Likes => Some(&self.likes.list),
            _ => None,
        }
    }

    /// The active list of posts, to be changed in place.
    pub fn active_post_state_mut(&mut self) -> (r: Option<&mut PostList>)
        requires
            old(self).wf(),
        ensures
            match r {
                Some(l) => old(self).active_list() == Some(*l) && l.wf() && *final(self) == old(
                    self,
                ).with_list(*final(l)),
                None => old(self).active_list() is None && *final(self) == *old(self),
            },
    {
        match self.active {
            ProfileTab::Posts => Some(&mut self.posts.list),
            ProfileTab::Replies => Some(&mut self.replies.list),
            ProfileTab::Media => Some(&mut self.media.list),
            ProfileTab::Likes => Some(&mut self.likes.list),
            _ => None,
        }
    }

    /// Moves the selection of the other sub-tabs by the up and down buttons.
    pub fn step_items(&mut self, up: bool, down: bool)
        requires
            old(self).wf(),
        ensures
            final(self).wf(),
            match old(self).active {
                ProfileTab::Feeds => {
                    &&& *final(self) == (ProfileTabs { feeds: final(self).feeds, ..*old(self) })
                    &&& final(self).feeds == stepped_items(old(self).feeds, up, down)
                },
                ProfileTab::Lists => {
                    &&& *final(self) == (ProfileTabs { lists: final(self).lists, ..*old(self) })
                    &&& final(self).lists == stepped_items(old(self).lists, up, down)
                },
                ProfileTab::Packs => {
                    &&& *final(self) == (ProfileTabs { packs: final(self).packs, ..*old(self) })
                    &&& final(self).packs == stepped_items(old(self).packs, up, down)
                },
                _ => *final(self) == *old(self),
            },
    {
        match self.active {
            ProfileTab::Feeds => self.feeds.step(up, down),
            ProfileTab::Lists => self.lists.step(up, down),
            ProfileTab::Packs => self.packs.step(up, down),
            _ => {},
        }
    }
}

/// A sub-tab with other things after the up and down buttons.
pub open spec fn stepped_items<T>(a: ItemsTab<T>, up: bool, down: bool) -> ItemsTab<T> {
    ItemsTab {
        selected_idx: if a.items@.len() > 0 {
            stepped(a.selected_idx as int, up, down, a.items@.len() as int) as usize
        } else {
            a.selected_idx
        },
        ..a
    }
}

/// The list with its waiting marks confirmed, and nothing else changed.
pub open spec fn list_confirmed(
    a: TabFeedState,
    b: TabFeedState,
    kind: EngagementKind,
    uri: Seq<char>,
) -> bool {
    &&& all_confirmed(a.list.posts@, b.list.posts@, kind, uri)
    &&& b == (TabFeedState { list: PostList { posts: b.list.posts, ..a.list }, ..a })
}

/// The sub-tabs with their waiting marks confirmed, and nothing else changed.
pub open spec fn tabs_confirmed(
    a: ProfileTabs,
    b: ProfileTabs,
    kind: EngagementKind,
    uri: Seq<char>,
) -> bool {
    &&& list_confirmed(a.posts, b.posts, kind, uri)
    &&& list_confirmed(a.replies, b.replies, kind, uri)
    &&& list_confirmed(a.media, b.media, kind, uri)
    &&& list_confirmed(a.likes, b.likes, kind, uri)
    &&& b == (ProfileTabs {
        posts: b.posts,
        replies: b.replies,
        media: b.media,
        likes: b.likes,
        ..a
    })
}

/// Cycling never reaches a sub-tab that is not shown, and left undoes right.
pub proof fn lemma_cycle(t: ProfileTab, own: bool)
    requires
        tab_place(t, own) < tabs_shown(own).len(),
    ensures
        tabs_shown(own).contains(tab_left(t, own)),
        tabs_shown(own).contains(tab_right(t, own)),
        tab_left(tab_right(t, own), own) == t,
        tab_right(tab_left(t, own), own) == t,
{
    let tabs = tabs_shown(own);
    let n = tabs.len() as int;
    let p = tab_place(t, own);
    assert(forall|i: int| 0 <= i < n ==> tab_place(#[trigger] tabs[i], own) == i);
    assert(tabs[p] == t);
}

/// The likes of someone else are out of reach.
pub proof fn lemma_foreign_likes_hidden()
    ensures
        !tabs_shown(false).contains(ProfileTab::Likes),
        tabs_shown(true).contains(ProfileTab::Likes),
{
    assert(tabs_shown(true)[3] == ProfileTab::Likes);
}

/// A sub-tab is asked for once: coming back to one that was loaded asks for
/// nothing.
pub proof fn lemma_tab_asked_once(a: ProfileTabs)
    requires
        !a.was_asked(a.active),
    ensures
        a.with_flags(a.active, true, true).was_asked(a.active),
        a.with_flags(a.active, true, true).is_fetching(a.active),
{
}

} // verus!
