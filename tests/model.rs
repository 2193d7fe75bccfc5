use skystreamer::car::{find_block, Block};
use skystreamer::cid::{Cid, CidVersion, CidOld};
use skystreamer::config::{
    default_level_filter, AuthPlan, Config, ConfigError, ExporterType, FileExporterOptions, LogLevel,
    SinkPlan, SurrealAuthType, SurrealDbConn,
};
use skystreamer::events::{LikeEvent, SubjectRecord};
use skystreamer::export::{csv_escape, csv_fields, relations_for, user_key, EdgeKind, NodeId, SurrealPostRep};
use skystreamer::frame::{Frame, MessageFrame};
use skystreamer::operation::{collection_of, is_post_creation, Operation, RepoOp};
use skystreamer::record::{Commit, Record, RecordBody, RecordError};
use skystreamer::stream::{next_action, EventStream, StreamAction, StreamEvent};
use skystreamer::time::Timestamp;
use skystreamer::types::{
    get_media, project_embed, Embed, EmbedRecord, LabelSet, Media, MediaRecord, Post, PostRecord,
    ProjectionError, ReplyRef, Video,
};

const CID_A: &str = "bafkreihsq6kzrgb2jzyg3jowj4bfw5hwoh2dx7zagcplh5ooe2b5cdgche";
const CID_B: &str = "bafyreie5737gdxlw5i64vzichcalba3z2v5n6icifvx5xytvske7mr3hpm";

fn cid(s: &str) -> Cid {
    Cid::parse(s).expect("cid")
}

fn op(action: &str, path: &str, c: Option<Cid>) -> RepoOp {
    RepoOp { action: action.to_string(), path: path.to_string(), cid: c }
}

fn record(embed: Option<EmbedRecord>) -> PostRecord {
    PostRecord {
        created_at: "2024-03-01T12:00:00+09:00".to_string(),
        text: "hello, world".to_string(),
        langs: Some(vec!["en".to_string(), "ja".to_string()]),
        reply: None,
        tags: None,
        labels: Some(LabelSet::SelfLabels(vec!["porn".to_string()])),
        embed,
    }
}

#[test]
fn cid_text_round_trip() {
    let c = cid(CID_A);
    assert_eq!(c.version, CidVersion::V1);
    assert_eq!(c.codec, 0x55);
    assert_eq!(c.to_text().as_deref(), Some(CID_A));
    assert!(Cid::parse("not a cid").is_none());
}

#[test]
fn legacy_cid_round_trip_is_equal() {
    let c = cid(CID_B);
    let old: CidOld = c.to_legacy();
    let back = Cid::from_legacy(&old);
    assert!(back.same(&c));
    assert!(!back.same(&cid(CID_A)));
}

#[test]
fn operations_are_classified_by_collection() {
    assert_eq!(collection_of("app.bsky.feed.post/3k"), "app.bsky.feed.post");
    assert_eq!(collection_of("noslash"), "noslash");
    assert!(matches!(Operation::from_op(op("create", "app.bsky.feed.like/1", None)), Operation::Like(None, _)));
    assert!(matches!(Operation::from_op(op("create", "app.bsky.graph.follow/1", None)), Operation::Follow(..)));
    assert!(matches!(Operation::from_op(op("create", "app.bsky.graph.block/1", None)), Operation::Block(..)));
    assert!(matches!(Operation::from_op(op("create", "app.bsky.feed.repost/1", None)), Operation::Repost(..)));
    assert!(matches!(Operation::from_op(op("create", "app.bsky.graph.listitem/1", None)), Operation::ListItem(..)));
    assert!(matches!(Operation::from_op(op("update", "app.bsky.actor.profile/self", None)), Operation::Profile(..)));
    match Operation::from_op(op("create", "app.bsky.feed.generator/x", Some(cid(CID_A)))) {
        Operation::Other(name, c, _) => {
            assert_eq!(name, "app.bsky.feed.generator");
            assert!(c.expect("cid").same(&cid(CID_A)));
        }
        other => panic!("unexpected {:?}", other),
    }
    let post = Operation::from_op(op("create", "app.bsky.feed.post/3k", Some(cid(CID_A))));
    assert!(post.get_cid().expect("cid").same(&cid(CID_A)));
    assert_eq!(post.get_op().path, "app.bsky.feed.post/3k");
}

#[test]
fn post_creation_needs_create_action() {
    assert!(is_post_creation(&op("create", "app.bsky.feed.post/1", None)));
    assert!(!is_post_creation(&op("delete", "app.bsky.feed.post/1", None)));
    assert!(!is_post_creation(&op("create", "app.bsky.feed.like/1", None)));
    let commit = Commit::new(
        "did:plc:abc".to_string(),
        vec![
            op("create", "app.bsky.feed.like/1", None),
            op("create", "app.bsky.feed.post/2", None),
            op("update", "app.bsky.feed.post/3", None),
            op("create", "app.bsky.feed.post/4", None),
        ],
        vec![],
    );
    assert_eq!(commit.operations.len(), 4);
    let typed: Vec<bool> = commit.operations.iter().map(|o| o.wants_typed_body()).collect();
    assert_eq!(typed, vec![true, true, false, true]);
}

#[test]
fn updates_are_not_typed_events() {
    let update = Operation::from_op(op("update", "app.bsky.feed.like/1", Some(cid(CID_B))));
    assert!(!update.wants_typed_body());
    let body = RecordBody::Like(SubjectRecord { subject: cid(CID_A), created_at: "2024-01-01T00:00:00Z".to_string() });
    assert!(matches!(
        Record::from_decoded(update.clone(), "did:plc:abc".to_string(), body),
        Err(RecordError::Mismatch)
    ));
    assert!(matches!(
        Record::from_decoded(update, "did:plc:abc".to_string(), RecordBody::Raw(vec![0xa0])),
        Ok(Record::Other(Operation::Like(..), b)) if b == vec![0xa0]
    ));
}

#[test]
fn find_block_returns_first_match() {
    let blocks = vec![
        Block { cid: cid(CID_B), data: vec![1] },
        Block { cid: cid(CID_A), data: vec![2] },
        Block { cid: cid(CID_A), data: vec![3] },
    ];
    assert_eq!(find_block(&blocks, &Some(cid(CID_A))), Some(1));
    assert_eq!(find_block(&blocks, &None), None);
    assert_eq!(find_block(&blocks[..1].to_vec(), &Some(cid(CID_A))), None);
}

#[test]
fn post_projection() {
    let p = Post::from_record("did:plc:abc".to_string(), cid(CID_A), record(None)).expect("post");
    assert_eq!(p.language, vec!["en".to_string(), "ja".to_string()]);
    assert_eq!(p.labels, vec!["porn".to_string()]);
    assert!(p.tags.is_empty());
    assert_eq!(p.created_at.offset_seconds, 9 * 3600);
    assert_eq!(p.created_at.unix_seconds, 1709262000);
    let mut bad = record(None);
    bad.created_at = "yesterday".to_string();
    assert!(matches!(
        Post::from_record("did:plc:abc".to_string(), cid(CID_A), bad),
        Err(ProjectionError::InvalidTimestamp)
    ));
    let mut other_labels = record(None);
    other_labels.labels = Some(LabelSet::Other);
    let p = Post::from_record("did:plc:abc".to_string(), cid(CID_A), other_labels).expect("post");
    assert!(p.labels.is_empty());
}

#[test]
fn post_projection_is_deterministic() {
    let a = Post::from_record("did:plc:abc".to_string(), cid(CID_A), record(Some(EmbedRecord::Record(cid(CID_B))))).unwrap();
    let b = Post::from_record("did:plc:abc".to_string(), cid(CID_A), record(Some(EmbedRecord::Record(cid(CID_B))))).unwrap();
    assert_eq!(format!("{:?}", a), format!("{:?}", b));
}

fn video() -> Video {
    Video {
        alt: None,
        blob: skystreamer::types::Blob { cid: "v".to_string(), mime_type: "video/mp4".to_string(), size: None },
        aspect_ratio: Some((16, 9)),
    }
}

#[test]
fn embed_classification() {
    assert!(matches!(project_embed(EmbedRecord::Images(vec![])), Embed::Images(_)));
    assert!(matches!(project_embed(EmbedRecord::Record(cid(CID_A))), Embed::Record(_)));
    match project_embed(EmbedRecord::RecordWithMedia(cid(CID_A), MediaRecord::Video(video()))) {
        Embed::RecordWithMedia(_, media) => assert!(matches!(media.as_slice(), [Media::Video(_)])),
        other => panic!("unexpected {:?}", other),
    }
    assert!(matches!(project_embed(EmbedRecord::RecordWithMedia(cid(CID_A), MediaRecord::Other)), Embed::Unknown));
    assert!(matches!(project_embed(EmbedRecord::Video(video())), Embed::Unknown));
    assert!(matches!(project_embed(EmbedRecord::Other), Embed::Unknown));
    assert_eq!(get_media(Some(EmbedRecord::Video(video()))).map(|m| m.len()), Some(1));
    assert!(get_media(Some(EmbedRecord::Record(cid(CID_A)))).is_none());
}

#[test]
fn records_from_decoded_bodies() {
    let like_op = Operation::from_op(op("create", "app.bsky.feed.like/1", Some(cid(CID_B))));
    let body = RecordBody::Like(SubjectRecord { subject: cid(CID_A), created_at: "2024-01-01T00:00:00Z".to_string() });
    match Record::from_decoded(like_op, "did:plc:abc".to_string(), body) {
        Ok(Record::Like(LikeEvent { author, subject, .. })) => {
            assert_eq!(author, "did:plc:abc");
            assert!(subject.same(&cid(CID_A)));
        }
        other => panic!("unexpected {:?}", other),
    }
    let post_op = Operation::from_op(op("create", "app.bsky.feed.post/1", None));
    assert!(matches!(
        Record::from_decoded(post_op, "did:plc:abc".to_string(), RecordBody::Post(record(None))),
        Err(RecordError::MissingCid)
    ));
    let other_op = Operation::from_op(op("create", "app.bsky.feed.threadgate/1", None));
    assert!(matches!(
        Record::from_decoded(other_op, "did:plc:abc".to_string(), RecordBody::Raw(vec![0xa0])),
        Ok(Record::Other(Operation::Other(..), _))
    ));
    let mismatched = Operation::from_op(op("create", "app.bsky.feed.like/1", None));
    assert!(matches!(
        Record::from_decoded(mismatched, "did:plc:abc".to_string(), RecordBody::Raw(vec![])),
        Err(RecordError::Mismatch)
    ));
}

#[test]
fn csv_escape_quotes_and_escapes() {
    assert_eq!(csv_escape("plain"), "\"plain\"");
    assert_eq!(csv_escape("a \"b\"\n,c\t\r"), "\"a \"\"b\"\"\n,c\t\r\"");
    assert_eq!(csv_escape("a,b"), "\"a,b\"");
    assert_eq!(csv_escape(""), "\"\"");
}

#[test]
fn csv_row_columns() {
    let mut rec = record(None);
    rec.tags = Some(vec!["x".to_string(), "y".to_string()]);
    let p = Post::from_record("did:plc:abc".to_string(), cid(CID_A), rec).unwrap();
    let row = csv_fields(&p).expect("row");
    assert_eq!(row.len(), 7);
    assert_eq!(row[0], CID_A);
    assert_eq!(row[1], "did:plc:abc");
    assert_eq!(row[2], "hello, world");
    assert_eq!(row[3], "2024-03-01 12:00:00 +09:00");
    assert_eq!(row[4], "hello, world");
    assert_eq!(row[5], "porn");
    assert_eq!(row[6], "x;y");
}

#[test]
fn relations_of_reply_quote() {
    let mut rec = record(Some(EmbedRecord::RecordWithMedia(cid(CID_B), MediaRecord::Images(vec![]))));
    rec.reply = Some(ReplyRef { parent: cid(CID_B), root: cid(CID_B) });
    let p = Post::from_record("did:plc:abc".to_string(), cid(CID_A), rec).unwrap();
    let edges = relations_for(&p);
    let kinds: Vec<EdgeKind> = edges.iter().map(|e| e.kind).collect();
    assert_eq!(kinds, vec![EdgeKind::Author, EdgeKind::ReplyParent, EdgeKind::ReplyRoot, EdgeKind::Quoted]);
    assert!(matches!(&edges[0].from, NodeId::User(k) if k == "abc"));
    let plain = Post::from_record("did:plc:abc".to_string(), cid(CID_A), record(None)).unwrap();
    assert_eq!(relations_for(&plain).len(), 1);
    assert_eq!(user_key("did:plc:xyz"), "xyz");
    assert_eq!(user_key("did:web:example.com"), "did:web:example.com");
    let doc = SurrealPostRep::from_post(p);
    assert_eq!(doc.created_at.offset_seconds, 0);
    assert_eq!(doc.created_at.unix_seconds, 1709262000);
    assert!(doc.reply.is_some());
    assert!(matches!(doc.embed.expect("embed").quote, Some(NodeId::Post(_))));
}

#[test]
fn document_keeps_video_and_quote_beside_other_media() {
    let p = Post::from_record("did:plc:abc".to_string(), cid(CID_A), record(Some(EmbedRecord::Video(video())))).unwrap();
    assert!(matches!(p.embed, Some(Embed::Unknown)));
    assert_eq!(p.media.len(), 1);
    let doc = SurrealPostRep::from_post(p);
    let e = doc.embed.expect("embed");
    assert!(matches!(e.media.as_slice(), [Media::Video(_)]));
    assert!(e.quote.is_none());
    let q = Post::from_record(
        "did:plc:abc".to_string(),
        cid(CID_A),
        record(Some(EmbedRecord::RecordWithMedia(cid(CID_B), MediaRecord::Other))),
    )
    .unwrap();
    assert!(matches!(q.embed, Some(Embed::Unknown)));
    let kinds: Vec<EdgeKind> = relations_for(&q).iter().map(|e| e.kind).collect();
    assert_eq!(kinds, vec![EdgeKind::Author, EdgeKind::Quoted]);
    let doc = SurrealPostRep::from_post(q);
    assert!(matches!(doc.embed.expect("embed").quote, Some(NodeId::Post(c)) if c.same(&cid(CID_B))));
    let link = skystreamer::types::ExternalLink {
        description: String::new(),
        thumb: None,
        title: "t".to_string(),
        uri: "https://example.com".to_string(),
    };
    let l = Post::from_record("did:plc:abc".to_string(), cid(CID_A), record(Some(EmbedRecord::External(link)))).unwrap();
    let e = SurrealPostRep::from_post(l).embed.expect("embed");
    assert_eq!(e.external_links.expect("links").len(), 1);
    assert!(e.media.is_empty());
}

#[test]
fn timestamp_text_keeps_offset() {
    let t = Timestamp::parse("2024-01-01T00:00:00Z").unwrap();
    assert_eq!(t.unix_seconds, 1704067200);
    assert_eq!(t.to_text().as_deref(), Some("2024-01-01 00:00:00 +00:00"));
    assert!(Timestamp::parse("").is_none());
}

#[test]
fn stream_actions() {
    let commit = StreamEvent::Received(Ok(Frame::Message(Some("#commit".to_string()), MessageFrame { body: vec![7] })));
    assert!(matches!(next_action(commit), StreamAction::DecodeCommit(b) if b == vec![7]));
    let info = StreamEvent::Received(Ok(Frame::Message(Some("#info".to_string()), MessageFrame { body: vec![] })));
    assert!(matches!(next_action(info), StreamAction::Skip));
    assert!(matches!(next_action(StreamEvent::TimedOut), StreamAction::End));
    assert!(matches!(next_action(StreamEvent::Closed), StreamAction::End));
    let s = EventStream::new("bsky.network");
    assert_eq!(s.url(), "wss://bsky.network/xrpc/com.atproto.sync.subscribeRepos");
    assert_eq!(s.read_timeout_seconds(), 30);
    assert_eq!(s.with_read_timeout(5).read_timeout_seconds(), 5);
}

fn conn(auth: Option<SurrealAuthType>) -> SurrealDbConn {
    SurrealDbConn {
        surreal_endpoint: "ws://localhost:8000".to_string(),
        auth_type: auth,
        token: None,
        username: Some("root".to_string()),
        password: None,
        namespace: "bsky.network".to_string(),
        database: "bsky".to_string(),
        fetch_user_data: true,
    }
}

#[test]
fn configuration_checks() {
    assert!(matches!(conn(None).auth_plan(), Ok(AuthPlan::Anonymous)));
    assert_eq!(conn(Some(SurrealAuthType::Token)).auth_plan().err(), Some(ConfigError::MissingToken));
    assert_eq!(conn(Some(SurrealAuthType::Root)).auth_plan().err(), Some(ConfigError::MissingPassword));
    let mut c = conn(Some(SurrealAuthType::Namespace));
    c.password = Some("pw".to_string());
    assert!(matches!(c.auth_plan(), Ok(AuthPlan::Namespace { namespace, .. }) if namespace == "bsky.network"));
    let cfg = Config {
        surreal_conn: conn(None),
        exporter: ExporterType::Csv,
        file_exporter: FileExporterOptions { file_path: None },
        atproto_relay: "bsky.network".to_string(),
    };
    assert_eq!(cfg.sink_plan().err(), Some(ConfigError::MissingFilePath));
    let mut cfg2 = cfg.clone();
    cfg2.file_exporter.file_path = Some("out.csv".to_string());
    assert!(matches!(cfg2.sink_plan(), Ok(SinkPlan::Csv(p)) if p == "out.csv"));
    assert_eq!(ExporterType::default(), ExporterType::Surrealdb);
    assert_eq!(default_level_filter(true), LogLevel::Debug);
    assert_eq!(default_level_filter(false), LogLevel::Info);
}

#[test]
fn record_bytes_resolves_block_by_cid() {
    let commit = Commit::new(
        "did:plc:abc".to_string(),
        vec![
            op("create", "app.bsky.feed.post/1", Some(cid(CID_B))),
            op("create", "app.bsky.feed.post/2", Some(cid(CID_A))),
            op("delete", "app.bsky.feed.post/3", None),
        ],
        vec![Block { cid: cid(CID_B), data: b"hi".to_vec() }],
    );
    assert_eq!(commit.record_bytes(0).expect("found"), b"hi".to_vec());
    match commit.record_bytes(1) {
        Err(skystreamer::car::ResolveError::ItemNotFound(Some(c), 1)) => assert!(c.same(&cid(CID_A))),
        other => panic!("unexpected {:?}", other),
    }
    assert!(matches!(commit.record_bytes(2), Err(skystreamer::car::ResolveError::ItemNotFound(None, 1))));
}

#[test]
fn record_type_labels() {
    let like_op = Operation::from_op(op("create", "app.bsky.feed.like/1", None));
    let body = RecordBody::Like(SubjectRecord { subject: cid(CID_A), created_at: "2024-01-01T00:00:00Z".to_string() });
    let like = Record::from_decoded(like_op, "did:plc:abc".to_string(), body).unwrap();
    assert_eq!(like.type_label(), Some("like"));
    let other = Record::from_decoded(
        Operation::from_op(op("create", "x.y.z/1", None)),
        "did:plc:abc".to_string(),
        RecordBody::Raw(vec![]),
    )
    .unwrap();
    assert_eq!(other.type_label(), None);
}
