# bsky_vita

The logic of a Bluesky client for the PlayStation Vita, verified with Verus.

`src/` is the library. The decisions of the client stand there with their
contracts: what a frame of a screen does with the buttons and touches it is given,
what an answer of the server makes of a screen, which requests are made and in
which order, what is written to the reader's repository, and how pages, lists and
conversations grow. The laws that hold across calls are public proof functions
beside the functions they speak of.

`app/` is the unverified shell around it: the canvas, the keyboard, the decoder,
the network and the worker's thread, behind the traits of `app/platform.rs`.

## Modules

- `widget`, `rows`, `tabbar`, `screen`, `hints`: touches, buttons, lists of rows,
  and how one screen leads to another.
- `timeline`, `thread`, `notifications`, `conversations`, `conversation`,
  `profile`, `compose`, `login`, `video_player`, `image_viewer`: the screens.
  `profile_frame`, `compose_frame` and `picker_frame` put the steps of a frame in
  order; the other screens do so themselves.
- `post_list`, `post_row`, `embeds`, `engagement`, `images`, `cdn`: posts, their
  attachments and pictures, likes and reposts.
- `compose_draft`, `file_picker`, `dir_listing`, `camera`: a draft and what is
  attached to it.
- `worker`, `requests`, `records`, `identifiers`, `posting`, `saved_feeds`,
  `thread_tree`, `chat`, `downloads`, `failures`, `atproto`: what a request asks
  of the server, what an answer becomes, and what the log says of a failure.
- `video`: the decoder's frames, sound and memory.
- `model`, `text`, `profile_tabs`, `profile_text`: what the rest is made of.

What comes from outside crates is trusted: each such item says above it which
function it calls, and what is claimed of it.
