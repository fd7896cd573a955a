use bsky_vita::cdn::{avatar_thumbnail_jpeg, ensure_jpeg};

#[test]
fn transforms_standard_bsky_avatar() {
    let input = "https://cdn.bsky.app/img/avatar/plain/did:plc:abc/bafkrei123";
    let want = "https://cdn.bsky.app/img/avatar_thumbnail/plain/did:plc:abc/bafkrei123@jpeg";
    assert_eq!(avatar_thumbnail_jpeg(input), want);
}

#[test]
fn preserves_existing_jpeg_suffix() {
    let input = "https://cdn.bsky.app/img/avatar/plain/did:plc:abc/bafkrei123@jpeg";
    let want = "https://cdn.bsky.app/img/avatar_thumbnail/plain/did:plc:abc/bafkrei123@jpeg";
    assert_eq!(avatar_thumbnail_jpeg(input), want);
}

#[test]
fn unchanged_for_non_bsky_url() {
    let input = "https://example.com/foo.jpg";
    assert_eq!(avatar_thumbnail_jpeg(input), input);
}

#[test]
fn foreign_formats_are_replaced() {
    assert_eq!(ensure_jpeg("https://cdn.bsky.app/a@webp"), "https://cdn.bsky.app/a@jpeg");
    assert_eq!(ensure_jpeg("https://cdn.bsky.app/a@avif"), "https://cdn.bsky.app/a@jpeg");
    assert_eq!(ensure_jpeg("https://cdn.bsky.app/a@png"), "https://cdn.bsky.app/a@png");
    assert_eq!(ensure_jpeg("https://cdn.bsky.app/a"), "https://cdn.bsky.app/a@jpeg");
}

#[test]
fn both_coercions_are_idempotent() {
    let once = ensure_jpeg("https://cdn.bsky.app/x@webp");
    assert_eq!(ensure_jpeg(&once), once);
    let thumb = avatar_thumbnail_jpeg("https://cdn.bsky.app/img/avatar/plain/did:plc:z/q@webp");
    assert_eq!(thumb, "https://cdn.bsky.app/img/avatar_thumbnail/plain/did:plc:z/q@jpeg");
    assert_eq!(avatar_thumbnail_jpeg(&thumb), thumb);
}
