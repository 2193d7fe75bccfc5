use skystreamer::cid::Cid;
use skystreamer::metrics::{link_domain, next_post_total, normalise_domain, sorted_distinct, MediaKind, PostMetrics};
use skystreamer::time::Timestamp;
use skystreamer::types::{Blob, Embed, ExternalLink, Image, Post};
use skystreamer::window::RollingWindow;

fn post(langs: &[&str], embed: Option<Embed>) -> Post {
    Post {
        author: "did:plc:abc".to_string(),
        created_at: Timestamp::parse("2024-01-01T00:00:00Z").unwrap(),
        text: "hello".to_string(),
        id: Cid::parse("bafkreihsq6kzrgb2jzyg3jowj4bfw5hwoh2dx7zagcplh5ooe2b5cdgche").unwrap(),
        language: langs.iter().map(|s| s.to_string()).collect(),
        reply: None,
        tags: vec!["art".to_string()],
        labels: vec![],
        embed,
        media: vec![],
        quote: None,
    }
}

#[test]
fn grouped_language_counter() {
    let m = PostMetrics::of_post(&post(&["en", "ja"], None), true);
    assert_eq!(m.grouped_language, "en,ja");
    assert_eq!(m.languages, vec!["en".to_string(), "ja".to_string()]);
}

#[test]
fn grouped_language_is_sorted_and_distinct() {
    let m = PostMetrics::of_post(&post(&["ja", "en-US", "en", "jp"], None), true);
    assert_eq!(m.grouped_language, "en,ja");
    assert_eq!(m.languages.len(), 2);
}

#[test]
fn no_language_counts_as_null() {
    let m = PostMetrics::of_post(&post(&[], None), true);
    assert_eq!(m.grouped_language, "null");
    assert!(m.languages.is_empty());
}

#[test]
fn sorted_distinct_orders_by_code_point() {
    let v = vec!["b".to_string(), "a".to_string(), "B".to_string(), "a".to_string()];
    assert_eq!(sorted_distinct(&v), vec!["B".to_string(), "a".to_string(), "b".to_string()]);
}

#[test]
fn external_link_domain_is_normalised() {
    let link = ExternalLink {
        description: String::new(),
        thumb: None,
        title: String::new(),
        uri: "https://www.Example.com/path".to_string(),
    };
    let m = PostMetrics::of_post(&post(&[], Some(Embed::External(link))), true);
    assert_eq!(m.domain.as_deref(), Some("example.com"));
    assert_eq!(link_domain("not a url"), None);
    assert_eq!(normalise_domain("www.News.org"), "news.org");
    assert_eq!(normalise_domain("WWW.news.org"), "news.org");
    assert_eq!(normalise_domain("news.org"), "news.org");
}

#[test]
fn media_and_alt_text_are_counted() {
    let img = Image {
        alt: "a cat".to_string(),
        blob: Blob { cid: "x".to_string(), mime_type: "image/png".to_string(), size: Some(3) },
        aspect_ratio: None,
    };
    let m = PostMetrics::of_post(&post(&[], Some(Embed::Images(vec![img.clone()]))), false);
    assert_eq!(m.media_kind, Some(MediaKind::Image));
    assert!(m.has_alt_text);
    assert!(!m.is_quote);
    let mut bare = img;
    bare.alt = String::new();
    let m = PostMetrics::of_post(&post(&[], Some(Embed::Images(vec![bare]))), false);
    assert!(!m.has_alt_text);
    assert_eq!(MediaKind::Video.label(), "video");
}

#[test]
fn stale_label_is_pruned() {
    let mut w = RollingWindow::new();
    w.update("old", 0);
    w.update("old", 10);
    assert_eq!(w.published(), vec![("old".to_string(), 2)]);
    w.update("new", 10 + 1800 + 1);
    assert_eq!(w.published(), vec![("new".to_string(), 1)]);
}

#[test]
fn recent_labels_stay_published() {
    let mut w = RollingWindow::new();
    w.update("a", 100);
    w.update("b", 200);
    w.update("a", 1899);
    assert_eq!(w.published(), vec![("a".to_string(), 2), ("b".to_string(), 1)]);
    w.update("b", 2000);
    assert_eq!(w.published(), vec![("a".to_string(), 2), ("b".to_string(), 2)]);
    w.update("c", 3698);
    assert_eq!(w.published(), vec![("a".to_string(), 2), ("b".to_string(), 2), ("c".to_string(), 1)]);
    w.update("c", 3700);
    assert_eq!(w.published(), vec![("b".to_string(), 2), ("c".to_string(), 2)]);
}

#[test]
fn post_total_resets_past_sample_size() {
    assert_eq!(next_post_total(0, Some(10000)), 1);
    assert_eq!(next_post_total(9999, Some(10000)), 10000);
    assert_eq!(next_post_total(10000, Some(10000)), 0);
    assert_eq!(next_post_total(10000, None), 10001);
    assert_eq!(next_post_total(u64::MAX, None), u64::MAX);
}
