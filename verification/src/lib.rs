//! The logic of a Bluesky client for a small handheld: what each screen
//! shows, which request each input leads to, how every reply changes the
//! state, and how the worker turns requests into calls. Drawing, files and
//! the network stay outside; they hand plain values in and take plain
//! values back.

pub mod atproto;
pub mod camera;
pub mod cdn;
pub mod chat;
pub mod compose;
pub mod compose_draft;
pub mod compose_frame;
pub mod compose_laws;
pub mod conversation;
pub mod conversation_laws;
pub mod conversations;
pub mod dir_listing;
pub mod downloads;
pub mod embeds;
pub mod engagement;
pub mod failures;
pub mod feed_laws;
pub mod file_picker;
pub mod frame_laws;
pub mod hints;
pub mod identifiers;
pub mod image_viewer;
pub mod images;
pub mod interaction_laws;
pub mod list_laws;
pub mod login;
pub mod media_laws;
pub mod message_laws;
pub mod model;
pub mod notifications;
pub mod opening_laws;
pub mod picker_frame;
pub mod picker_laws;
pub mod post_laws;
pub mod post_list;
pub mod post_row;
pub mod posting;
pub mod posting_laws;
pub mod profile;
pub mod profile_frame;
pub mod profile_laws;
pub mod profile_tabs;
pub mod profile_text;
pub mod records;
pub mod requests;
pub mod rows;
pub mod saved_feeds;
pub mod screen;
pub mod tabbar;
pub mod text;
pub mod thread;
pub mod thread_tree;
pub mod timeline;
pub mod touch_laws;
pub mod video;
pub mod video_player;
pub mod widget;
pub mod wording_laws;
pub mod worker;
pub mod worker_laws;
