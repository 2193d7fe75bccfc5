//! The stable domain model of posts and their media, and the projection of
//! decoded post records into it.
use vstd::prelude::*;
use crate::cid::{Cid, CidView};
use crate::time::{Timestamp, rfc3339_parse};

verus! {

/// A reference to a stored blob; `size` is absent for untyped references.
#[derive(Debug, Clone)]
pub struct Blob {
    pub cid: String,
    pub mime_type: String,
    pub size: Option<usize>,
}

/// An attached video.
#[derive(Debug, Clone)]
pub struct Video {
    /// Alt text
    pub alt: Option<String>,
    pub blob: Blob,
    pub aspect_ratio: Option<(u32, u32)>,
}

/// An attached image.
#[derive(Debug, Clone)]
pub struct Image {
    pub alt: String,
    pub blob: Blob,
    pub aspect_ratio: Option<(u32, u32)>,
}

/// One media item of a post.
#[derive(Debug, Clone)]
pub enum Media {
    Image(Image),
    Video(Video),
}

/// An external link card.
#[derive(Debug, Clone)]
pub struct ExternalLink {
    pub description: String,
    pub thumb: Option<Blob>,
    pub title: String,
    pub uri: String,
}

/// The posts a reply answers.
#[derive(Debug, Clone)]
pub struct ReplyRef {
    pub parent: Cid,
    pub root: Cid,
}

/// The embed of a post, in one of its stable forms.
#[derive(Debug, Clone)]
pub enum Embed {
    Images(Vec<Image>),
    External(ExternalLink),
    /// A quoted post.
    Record(Cid),
    /// A quoted post with media beside it.
    RecordWithMedia(Cid, Vec<Media>),
    Unknown,
}

/// The media part of a record-with-media embed, as decoded.
#[derive(Debug, Clone)]
pub enum MediaRecord {
    Images(Vec<Image>),
    Video(Video),
    Other,
}

/// The embed of a post record, as decoded.
#[derive(Debug, Clone)]
pub enum EmbedRecord {
    Images(Vec<Image>),
    Video(Video),
    External(ExternalLink),
    Record(Cid),
    RecordWithMedia(Cid, MediaRecord),
    Other,
}

/// The labels field of a record: the self-labels arm, or another label scheme.
#[derive(Debug, Clone)]
pub enum LabelSet {
    SelfLabels(Vec<String>),
    Other,
}

/// A post record (`app.bsky.feed.post`), as decoded.
#[derive(Debug, Clone)]
pub struct PostRecord {
    pub created_at: String,
    pub text: String,
    pub langs: Option<Vec<String>>,
    pub reply: Option<ReplyRef>,
    pub tags: Option<Vec<String>>,
    pub labels: Option<LabelSet>,
    pub embed: Option<EmbedRecord>,
}

/// A post, projected from its record.
#[derive(Debug, Clone)]
pub struct Post {
    /// DID of the author.
    pub author: String,
    pub created_at: Timestamp,
    pub text: String,
    /// CID of the post record.
    pub id: Cid,
    pub language: Vec<String>,
    pub reply: Option<ReplyRef>,
    pub tags: Vec<String>,
    pub labels: Vec<String>,
    pub embed: Option<Embed>,
    /// The media the record carries: its images, its video, or those beside
    /// a quoted post.
    pub media: Vec<Media>,
    /// The post the record quotes, whatever media stand beside it.
    pub quote: Option<Cid>,
}

/// Why a record could not be projected.
#[derive(Debug, Clone, Copy, PartialEq, Eq, Structural)]
pub enum ProjectionError {
    /// The creation time is not an RFC 3339 timestamp.
    InvalidTimestamp,
}

pub ghost enum EmbedView {
    Images(Seq<Image>),
    External(ExternalLink),
    Record(CidView),
    RecordWithMedia(CidView, Seq<Media>),
    Unknown,
}

impl View for Embed {
    type V = EmbedView;

    open spec fn view(&self) -> EmbedView {
        match self {
            Embed::Images(v) => EmbedView::Images(v@),
            Embed::External(l) => EmbedView::External(*l),
            Embed::Record(c) => EmbedView::Record(c@),
            Embed::RecordWithMedia(c, m) => EmbedView::RecordWithMedia(c@, m@),
            Embed::Unknown => EmbedView::Unknown,
        }
    }
}

pub ghost struct PostView {
    pub author: Seq<char>,
    pub created_at: Timestamp,
    pub text: Seq<char>,
    pub id: CidView,
    pub language: Seq<String>,
    pub reply: Option<(CidView, CidView)>,
    pub tags: Seq<String>,
    pub labels: Seq<String>,
    pub embed: Option<EmbedView>,
    pub media: Seq<Media>,
    pub quote: Option<CidView>,
}

pub open spec fn reply_view(r: Option<ReplyRef>) -> Option<(CidView, CidView)> {
    match r {
        Some(r) => Some((r.parent@, r.root@)),
        None => None,
    }
}

impl View for Post {
    type V = PostView;

    open spec fn view(&self) -> PostView {
        PostView {
            author: self.author@,
            created_at: self.created_at,
            text: self.text@,
            id: self.id@,
            language: self.language@,
            reply: reply_view(self.reply),
            tags: self.tags@,
            labels: self.labels@,
            embed: match self.embed {
                Some(e) => Some(e@),
                None => None,
            },
            media: self.media@,
            quote: match self.quote {
                Some(c) => Some(c@),
                None => None,
            },
        }
    }
}

pub open spec fn images_as_media(v: Seq<Image>) -> Seq<Media> {
    v.map_values(|i: Image| Media::Image(i))
}

/// The stable form of a decoded embed.
pub open spec fn embed_spec(e: EmbedRecord) -> EmbedView {
    match e {
        EmbedRecord::Images(v) => EmbedView::Images(v@),
        EmbedRecord::External(l) => EmbedView::External(l),
        EmbedRecord::Record(c) => EmbedView::Record(c@),
        EmbedRecord::RecordWithMedia(c, MediaRecord::Images(v)) => EmbedView::RecordWithMedia(
            c@,
            images_as_media(v@),
        ),
        EmbedRecord::RecordWithMedia(c, MediaRecord::Video(v)) => EmbedView::RecordWithMedia(
            c@,
            seq![Media::Video(v)],
        ),
        _ => EmbedView::Unknown,
    }
}

/// The media that a decoded embed carries, if it carries any.
pub open spec fn media_spec(e: Option<EmbedRecord>) -> Option<Seq<Media>> {
    match e {
        Some(EmbedRecord::Images(v)) => Some(images_as_media(v@)),
        Some(EmbedRecord::Video(v)) => Some(seq![Media::Video(v)]),
        Some(EmbedRecord::RecordWithMedia(_, MediaRecord::Images(v))) => Some(images_as_media(v@)),
        Some(EmbedRecord::RecordWithMedia(_, MediaRecord::Video(v))) => Some(seq![Media::Video(v)]),
        _ => None,
    }
}

pub open spec fn strings_or_empty(v: Option<Vec<String>>) -> Seq<String> {
    match v {
        Some(v) => v@,
        None => Seq::empty(),
    }
}

/// The labels of the self-labels arm; other label schemes give none.
pub open spec fn labels_spec(l: Option<LabelSet>) -> Seq<String> {
    match l {
        Some(LabelSet::SelfLabels(v)) => v@,
        _ => Seq::empty(),
    }
}

/// The media of a decoded embed, none when it carries none.
pub open spec fn media_or_empty(e: Option<EmbedRecord>) -> Seq<Media> {
    match media_spec(e) {
        Some(m) => m,
        None => Seq::empty(),
    }
}

/// The post a decoded embed quotes, bare or beside any media.
pub open spec fn quote_spec(e: Option<EmbedRecord>) -> Option<CidView> {
    match e {
        Some(EmbedRecord::Record(c)) => Some(c@),
        Some(EmbedRecord::RecordWithMedia(c, _)) => Some(c@),
        _ => None,
    }
}

/// The post that a record gives, once its creation time has parsed as `t`.
pub open spec fn post_spec(author: Seq<char>, id: CidView, rec: PostRecord, t: Timestamp) -> PostView {
    PostView {
        author,
        created_at: t,
        text: rec.text@,
        id,
        language: strings_or_empty(rec.langs),
        reply: reply_view(rec.reply),
        tags: strings_or_empty(rec.tags),
        labels: labels_spec(rec.labels),
        embed: match rec.embed {
            Some(e) => Some(embed_spec(e)),
            None => None,
        },
        media: media_or_empty(rec.embed),
        quote: quote_spec(rec.embed),
    }
}

fn copy_text_opt(t: &Option<String>) -> (r: Option<String>)
    ensures
        r == *t,
{
    match t {
        Some(s) => Some(s.clone()),
        None => None,
    }
}

impl Blob {
    /// A copy of this blob reference.
    pub fn duplicate(&self) -> (r: Blob)
        ensures
            r == *self,
    {
        Blob { cid: self.cid.clone(), mime_type: self.mime_type.clone(), size: self.size }
    }
}

impl Image {
    /// A copy of this image.
    pub fn duplicate(&self) -> (r: Image)
        ensures
            r == *self,
    {
        Image { alt: self.alt.clone(), blob: self.blob.duplicate(), aspect_ratio: self.aspect_ratio }
    }
}

impl Video {
    /// A copy of this video.
    pub fn duplicate(&self) -> (r: Video)
        ensures
            r == *self,
    {
        Video { alt: copy_text_opt(&self.alt), blob: self.blob.duplicate(), aspect_ratio: self.aspect_ratio }
    }
}

impl Media {
    /// A copy of this media item.
    pub fn duplicate(&self) -> (r: Media)
        ensures
            r == *self,
    {
        match self {
            Media::Image(i) => Media::Image(i.duplicate()),
            Media::Video(v) => Media::Video(v.duplicate()),
        }
    }
}

/// A copy of a list of images.
pub fn copy_images(v: &Vec<Image>) -> (r: Vec<Image>)
    ensures
        r@ == v@,
{
    let mut r: Vec<Image> = Vec::new();
    let mut i: usize = 0;
    while i < v.len()
        invariant
            i <= v@.len(),
            r@ == v@.subrange(0, i as int),
        decreases v@.len() - i,
    {
        r.push(v[i].duplicate());
        i = i + 1;
        assert(r@ =~= v@.subrange(0, i as int));
    }
    assert(r@ =~= v@);
    r
}

/// A copy of a list of media items.
pub fn copy_media(v: &Vec<Media>) -> (r: Vec<Media>)
    ensures
        r@ == v@,
{
    let mut r: Vec<Media> = Vec::new();
    let mut i: usize = 0;
    while i < v.len()
        invariant
            i <= v@.len(),
            r@ == v@.subrange(0, i as int),
        decreases v@.len() - i,
    {
        r.push(v[i].duplicate());
        i = i + 1;
        assert(r@ =~= v@.subrange(0, i as int));
    }
    assert(r@ =~= v@);
    r
}

fn images_to_media(v: Vec<Image>) -> (r: Vec<Media>)
    ensures
        r@ == images_as_media(v@),
{
    let mut r: Vec<Media> = Vec::new();
    let mut v = v;
    let ghost orig = v@;
    let mut rest: Vec<Image> = Vec::new();
    // take the images from the back, then restore their order
    while v.len() > 0
        invariant
            v@ + rest@.reverse() == orig,
        decreases v@.len(),
    {
        let i = v.pop().unwrap();
        rest.push(i);
        proof {
            assert(v@ + rest@.reverse() =~= orig);
        }
    }
    assert(rest@.reverse() =~= orig);
    while rest.len() > 0
        invariant
            r@ + images_as_media(rest@.reverse()) == images_as_media(orig),
        decreases rest@.len(),
    {
        let ghost before = rest@;
        let i = rest.pop().unwrap();
        proof {
            assert(before.reverse() =~= seq![i] + rest@.reverse());
            assert(images_as_media(before.reverse()) =~= seq![Media::Image(i)] + images_as_media(rest@.reverse()));
        }
        r.push(Media::Image(i));
        proof {
            assert(r@ + images_as_media(rest@.reverse()) =~= images_as_media(orig));
        }
    }
    assert(rest@.reverse() =~= Seq::<Image>::empty());
    assert(r@ =~= images_as_media(orig));
    r
}

/// Projects a decoded embed into its stable form: images, external link,
/// quoted record and record-with-media keep their kind; a record-with-media
/// whose media is neither images nor a video, a bare video and anything else
/// become `Unknown`.
pub fn project_embed(e: EmbedRecord) -> (r: Embed)
    ensures
        r@ == embed_spec(e),
{
    match e {
        EmbedRecord::Images(v) => Embed::Images(v),
        EmbedRecord::External(l) => Embed::External(l),
        EmbedRecord::Record(c) => Embed::Record(c),
        EmbedRecord::RecordWithMedia(c, MediaRecord::Images(v)) => Embed::RecordWithMedia(c, images_to_media(v)),
        EmbedRecord::RecordWithMedia(c, MediaRecord::Video(v)) => {
            let m = vec![Media::Video(v)];
            assert(m@ =~= seq![Media::Video(v)]);
            Embed::RecordWithMedia(c, m)
        },
        _ => Embed::Unknown,
    }
}

/// The media attached to a post record: its images, its video, or those
/// beside a quoted record; `None` for any other embed or none.
pub fn get_media(embed: Option<EmbedRecord>) -> (r: Option<Vec<Media>>)
    ensures
        match r {
            Some(v) => media_spec(embed) == Some(v@),
            None => media_spec(embed) is None,
        },
{
    match embed {
        Some(EmbedRecord::Images(v)) | Some(EmbedRecord::RecordWithMedia(_, MediaRecord::Images(v))) => Some(images_to_media(v)),
        Some(EmbedRecord::Video(v)) | Some(EmbedRecord::RecordWithMedia(_, MediaRecord::Video(v))) => {
            let m = vec![Media::Video(v)];
            assert(m@ =~= seq![Media::Video(v)]);
            Some(m)
        },
        _ => None,
    }
}

/// The media a decoded embed carries, none when it carries none.
pub fn media_of(embed: &Option<EmbedRecord>) -> (r: Vec<Media>)
    ensures
        r@ == media_or_empty(*embed),
{
    match embed {
        Some(EmbedRecord::Images(v)) | Some(EmbedRecord::RecordWithMedia(_, MediaRecord::Images(v))) => images_to_media(copy_images(v)),
        Some(EmbedRecord::Video(v)) | Some(EmbedRecord::RecordWithMedia(_, MediaRecord::Video(v))) => {
            let m = vec![Media::Video(v.duplicate())];
            assert(m@ =~= seq![Media::Video(*v)]);
            m
        },
        _ => Vec::new(),
    }
}

/// The post a decoded embed quotes, bare or beside any media.
pub fn quote_of(embed: &Option<EmbedRecord>) -> (r: Option<Cid>)
    ensures
        match r {
            Some(c) => quote_spec(*embed) == Some(c@),
            None => quote_spec(*embed) is None,
        },
{
    match embed {
        Some(EmbedRecord::Record(c)) | Some(EmbedRecord::RecordWithMedia(c, _)) => Some(c.duplicate()),
        _ => None,
    }
}

fn strings_or_new(v: Option<Vec<String>>) -> (r: Vec<String>)
    ensures
        r@ == strings_or_empty(v),
{
    match v {
        Some(v) => v,
        None => Vec::new(),
    }
}

/// The labels of the self-labels arm; other label schemes give none.
pub fn self_labels(l: Option<LabelSet>) -> (r: Vec<String>)
    ensures
        r@ == labels_spec(l),
{
    match l {
        Some(LabelSet::SelfLabels(v)) => v,
        _ => Vec::new(),
    }
}

impl Post {
    /// Projects a post record written by `author` and stored under `id`.
    /// Fails when the creation time is not an RFC 3339 timestamp.
    pub fn from_record(author: String, id: Cid, record: PostRecord) -> (r: Result<Post, ProjectionError>)
        ensures
            match rfc3339_parse(record.created_at@) {
                Some(t) => r is Ok && r->Ok_0@ == post_spec(author@, id@, record, t),
                None => r == Err::<Post, ProjectionError>(ProjectionError::InvalidTimestamp),
            },
    {
        let created_at = match Timestamp::parse(record.created_at.as_str()) {
            Some(t) => t,
            None => return Err(ProjectionError::InvalidTimestamp),
        };
        let media = media_of(&record.embed);
        let quote = quote_of(&record.embed);
        let PostRecord { created_at: _, text, langs, reply, tags, labels, embed } = record;
        let embed = match embed {
            Some(e) => Some(project_embed(e)),
            None => None,
        };
        Ok(Post {
            author,
            created_at,
            text,
            id,
            language: strings_or_new(langs),
            reply,
            tags: strings_or_new(tags),
            labels: self_labels(labels),
            embed,
            media,
            quote,
        })
    }

    /// Whether the post quotes another, bare or with media.
    pub fn is_quote(&self) -> (r: bool)
        ensures
            r == (self.embed matches Some(Embed::Record(_)) || self.embed matches Some(Embed::RecordWithMedia(_, _))),
    {
        match &self.embed {
            Some(Embed::Record(_)) | Some(Embed::RecordWithMedia(_, _)) => true,
            _ => false,
        }
    }

    pub open spec fn post_media_spec(&self) -> Seq<Media> {
        match self.embed {
            Some(Embed::Images(v)) => images_as_media(v@),
            Some(Embed::RecordWithMedia(_, m)) => m@,
            _ => Seq::empty(),
        }
    }

    /// The media of the post's embed: its images, or those beside a quoted record.
    pub fn get_post_media(&self) -> (r: Vec<Media>)
        ensures
            r@ == self.post_media_spec(),
    {
        match &self.embed {
            Some(Embed::Images(v)) => images_to_media(copy_images(v)),
            Some(Embed::RecordWithMedia(_, m)) => copy_media(m),
            _ => Vec::new(),
        }
    }
}

/// Projecting the same record twice gives equal posts: the projection depends
/// on the author, the CID and the record alone.
pub proof fn lemma_post_projection_deterministic(
    author: Seq<char>,
    id: CidView,
    rec: PostRecord,
    p1: PostView,
    p2: PostView,
)
    requires
        rfc3339_parse(rec.created_at@) is Some,
        p1 == post_spec(author, id, rec, rfc3339_parse(rec.created_at@)->0),
        p2 == post_spec(author, id, rec, rfc3339_parse(rec.created_at@)->0),
    ensures
        p1 == p2,
{
}

/// Each of the five embed kinds projects to its matching form, and every
/// other shape to `Unknown`.
pub proof fn lemma_embed_classification(e: EmbedRecord)
    ensures
        e matches EmbedRecord::Images(v) ==> embed_spec(e) == EmbedView::Images(v@),
        e matches EmbedRecord::External(l) ==> embed_spec(e) == EmbedView::External(l),
        e matches EmbedRecord::Record(c) ==> embed_spec(e) == EmbedView::Record(c@),
        e matches EmbedRecord::RecordWithMedia(c, MediaRecord::Images(v)) ==> embed_spec(e)
            == EmbedView::RecordWithMedia(c@, images_as_media(v@)),
        e matches EmbedRecord::RecordWithMedia(c, MediaRecord::Video(v)) ==> embed_spec(e)
            == EmbedView::RecordWithMedia(c@, seq![Media::Video(v)]),
        (e is Video || e is Other || e matches EmbedRecord::RecordWithMedia(_, MediaRecord::Other))
            ==> embed_spec(e) == EmbedView::Unknown,
{
}

} // verus!
