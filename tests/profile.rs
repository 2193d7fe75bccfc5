use skystreamer::profile::{parse_bsky_img_url, ProfileCache, ProfileView, User, PROFILE_TTL_SECONDS};

const CAPPY_PFP_URL: &str = "https://cdn.bsky.app/img/avatar/plain/did:plc:x4pssacf24wuotdl65zntnsr/bafkreihsq6kzrgb2jzyg3jowj4bfw5hwoh2dx7zagcplh5ooe2b5cdgche@jpeg";
const PUNIRU_CID: &str = "bafkreihsq6kzrgb2jzyg3jowj4bfw5hwoh2dx7zagcplh5ooe2b5cdgche";

#[test]
fn surreal_types_test_parse_bsky_img_url() {
    let blob = parse_bsky_img_url(CAPPY_PFP_URL).expect("blob");
    println!("{:#?}", blob);
    assert_eq!(blob.cid, PUNIRU_CID);
    assert_eq!(blob.mime_type, "image/jpeg");
}

#[test]
fn db_types_test_parse_bsky_img_url() {
    let blob = parse_bsky_img_url(CAPPY_PFP_URL).expect("blob");
    println!("{:#?}", blob);
    assert_eq!(blob.cid, PUNIRU_CID);
    assert_eq!(blob.mime_type, "image/jpeg");
    assert_eq!(blob.size, None);
}

#[test]
fn image_url_without_extension_gives_no_blob() {
    assert!(parse_bsky_img_url("https://cdn.bsky.app/img/avatar/plain/did:plc:x/bafkrei").is_none());
    assert!(parse_bsky_img_url("not a url").is_none());
}

fn user(handle: &str) -> User {
    let mut u = User::placeholder();
    u.handle = handle.to_string();
    u
}

#[test]
fn cached_profile_served_within_ttl() {
    let mut cache = ProfileCache::new();
    assert!(cache.get("did:plc:a", 0).is_none());
    cache.insert("did:plc:a", 1000, user("alice.test"));
    let hit = cache.get("did:plc:a", 1000 + PROFILE_TTL_SECONDS - 1).expect("hit");
    assert_eq!(hit.handle, "alice.test");
    assert_eq!(cache.get("did:plc:a", 1000 + 3600).expect("hit").handle, "alice.test");
}

#[test]
fn stale_profile_is_evicted() {
    let mut cache = ProfileCache::new();
    cache.insert("did:plc:a", 1000, user("alice.test"));
    assert!(cache.get("did:plc:a", 1000 + PROFILE_TTL_SECONDS).is_none());
    // evicted: still a miss at an earlier time
    assert!(cache.get("did:plc:a", 1000).is_none());
}

#[test]
fn refetched_profile_replaces_old_one() {
    let mut cache = ProfileCache::new();
    cache.insert("did:plc:a", 0, user("old.test"));
    cache.insert("did:plc:b", 0, user("bob.test"));
    cache.insert("did:plc:a", 10, user("new.test"));
    assert_eq!(cache.get("did:plc:a", 20).expect("hit").handle, "new.test");
    assert_eq!(cache.get("did:plc:b", 20).expect("hit").handle, "bob.test");
}

#[test]
fn profile_view_becomes_user() {
    let view = ProfileView {
        did: "did:plc:x4pssacf24wuotdl65zntnsr".to_string(),
        handle: "cappy.test".to_string(),
        display_name: Some("Cappy".to_string()),
        avatar: Some(CAPPY_PFP_URL.to_string()),
        banner: None,
        labels: Some(vec!["nsfw".to_string()]),
        created_at: Some("2024-01-01T00:00:00Z".to_string()),
        indexed_at: Some("bad".to_string()),
        description: None,
        followers_count: Some(12),
        follows_count: Some(-1),
        posts_count: None,
    };
    let u = User::from_profile_view(&view);
    assert_eq!(u.did.as_deref(), Some("did:plc:x4pssacf24wuotdl65zntnsr"));
    assert_eq!(u.avatar.expect("avatar").mime_type, "image/jpeg");
    assert!(u.banner.is_none());
    assert_eq!(u.labels, vec!["nsfw".to_string()]);
    assert_eq!(u.created_at.expect("time").unix_seconds, 1704067200);
    assert!(u.indexed_at.is_none());
    assert_eq!(u.followers, Some(12));
    assert_eq!(u.following, None);
}
