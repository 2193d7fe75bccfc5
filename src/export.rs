//! What the sinks write: CSV fields, and the documents and relational edges
//! of the document store.
use vstd::prelude::*;
use crate::cid::{Cid, cid_string};
use crate::text::{join, join_spec, push_char, starts_with, substring, texts_view};
use crate::time::{Timestamp, timestamp_string};
use crate::types::{Embed, ExternalLink, Media, Post, ReplyRef};

verus! {

/// The characters that one character becomes inside a quoted field: a quote
/// is doubled, every other character stays as it is.
pub open spec fn escape_char(c: char) -> Seq<char> {
    if c == '"' {
        seq!['"', '"']
    } else {
        seq![c]
    }
}

pub open spec fn escape_spec(s: Seq<char>) -> Seq<char>
    decreases s.len(),
{
    if s.len() == 0 {
        Seq::empty()
    } else {
        escape_spec(s.drop_last()) + escape_char(s.last())
    }
}

/// Quotes a field as RFC 4180 does: the text between quotes, each quote
/// doubled; newlines, carriage returns, tabs and commas stay as they are.
pub fn csv_escape(s: &str) -> (r: String)
    ensures
        r@ == seq!['"'] + escape_spec(s@) + seq!['"'],
{
    let mut r = String::new();
    push_char(&mut r, '"');
    let n = s.unicode_len();
    let mut i: usize = 0;
    while i < n
        invariant
            n == s@.len(),
            i <= n,
            r@ == seq!['"'] + escape_spec(s@.subrange(0, i as int)),
        decreases n - i,
    {
        let c = s.get_char(i);
        if c == '"' {
            push_char(&mut r, '"');
            push_char(&mut r, '"');
        } else {
            push_char(&mut r, c);
        }
        proof {
            let sub = s@.subrange(0, i + 1);
            assert(sub.drop_last() =~= s@.subrange(0, i as int));
            assert(sub.last() == c);
        }
        i = i + 1;
        assert(r@ =~= seq!['"'] + escape_spec(s@.subrange(0, i as int)));
    }
    push_char(&mut r, '"');
    assert(s@.subrange(0, n as int) =~= s@);
    r
}

/// The CSV row of a post: id, author, text, creation time, text again, and
/// the labels and tags each joined with `;`. `None` when the id or the time
/// has no text form.
pub fn csv_fields(post: &Post) -> (r: Option<Vec<String>>)
    ensures
        match (cid_string(post.id.version == crate::cid::CidVersion::V1, post.id.codec, post.id.hash@), timestamp_string(post.created_at)) {
            (Some(id), Some(t)) => r is Some && texts_view(r->0@) == seq![
                id,
                post.author@,
                post.text@,
                t,
                post.text@,
                join_spec(texts_view(post.labels@), ';'),
                join_spec(texts_view(post.tags@), ';'),
            ],
            _ => r is None,
        },
{
    let id = match post.id.to_text() {
        Some(id) => id,
        None => return None,
    };
    let t = match post.created_at.to_text() {
        Some(t) => t,
        None => return None,
    };
    let mut row: Vec<String> = Vec::new();
    row.push(id);
    row.push(post.author.clone());
    row.push(post.text.clone());
    row.push(t);
    row.push(post.text.clone());
    row.push(join(&post.labels, ';'));
    row.push(join(&post.tags, ';'));
    assert(texts_view(row@) =~= seq![
        row@[0]@, row@[1]@, row@[2]@, row@[3]@, row@[4]@, row@[5]@, row@[6]@,
    ]);
    Some(row)
}

/// A node of the document store: a user keyed by its DID (without the
/// `did:plc:` prefix), or a post keyed by its CID.
#[derive(Debug, Clone)]
pub enum NodeId {
    User(String),
    Post(Cid),
}

/// The kind of a relational edge.
#[derive(Debug, Clone, Copy, PartialEq, Eq, Structural)]
pub enum EdgeKind {
    Author,
    ReplyParent,
    ReplyRoot,
    Quoted,
}

/// A relational edge `from -kind-> to`.
#[derive(Debug, Clone)]
pub struct Edge {
    pub from: NodeId,
    pub kind: EdgeKind,
    pub to: NodeId,
}

/// The key of a user: its DID without a leading `did:plc:`.
pub open spec fn user_key_spec(did: Seq<char>) -> Seq<char> {
    if did.len() >= 8 && did.subrange(0, 8) == "did:plc:"@ {
        did.subrange(8, did.len() as int)
    } else {
        did
    }
}

/// The key of a user: its DID without a leading `did:plc:`.
pub fn user_key(did: &str) -> (r: String)
    ensures
        r@ == user_key_spec(did@),
{
    proof {
        reveal_strlit("did:plc:");
    }
    if starts_with(did, "did:plc:") {
        substring(did, 8, did.unicode_len())
    } else {
        did.to_string()
    }
}

/// Whether `e` is the edge `from -kind-> to`, nodes compared by key.
pub open spec fn edge_is(e: Edge, from: NodeId, kind: EdgeKind, to: NodeId) -> bool {
    &&& e.kind == kind
    &&& node_view(e.from) == node_view(from)
    &&& node_view(e.to) == node_view(to)
}

pub ghost enum NodeView {
    User(Seq<char>),
    Post(crate::cid::CidView),
}

pub open spec fn node_view(n: NodeId) -> NodeView {
    match n {
        NodeId::User(k) => NodeView::User(k@),
        NodeId::Post(c) => NodeView::Post(c@),
    }
}

/// The edges a post adds: its author wrote it; a reply answers its parent and
/// its root; a quote quotes the quoted post, whatever media stand beside it.
pub fn relations_for(post: &Post) -> (r: Vec<Edge>)
    ensures
        r@.len() == 1 + (if post.reply is Some { 2int } else { 0int }) + (if post.quote is Some { 1int } else { 0int }),
        r@[0].kind == EdgeKind::Author,
        node_view(r@[0].from) == NodeView::User(user_key_spec(post.author@)),
        node_view(r@[0].to) == NodeView::Post(post.id@),
        post.reply matches Some(rep) ==> {
            &&& r@[1].kind == EdgeKind::ReplyParent
            &&& node_view(r@[1].from) == NodeView::Post(post.id@)
            &&& node_view(r@[1].to) == NodeView::Post(rep.parent@)
            &&& r@[2].kind == EdgeKind::ReplyRoot
            &&& node_view(r@[2].from) == NodeView::Post(post.id@)
            &&& node_view(r@[2].to) == NodeView::Post(rep.root@)
        },
        post.quote matches Some(q) ==> {
            &&& r@.last().kind == EdgeKind::Quoted
            &&& node_view(r@.last().from) == NodeView::Post(post.id@)
            &&& node_view(r@.last().to) == NodeView::Post(q@)
        },
{
    let mut r: Vec<Edge> = Vec::new();
    r.push(Edge {
        from: NodeId::User(user_key(post.author.as_str())),
        kind: EdgeKind::Author,
        to: NodeId::Post(post.id.duplicate()),
    });
    match &post.reply {
        Some(rep) => {
            r.push(Edge {
                from: NodeId::Post(post.id.duplicate()),
                kind: EdgeKind::ReplyParent,
                to: NodeId::Post(rep.parent.duplicate()),
            });
            r.push(Edge {
                from: NodeId::Post(post.id.duplicate()),
                kind: EdgeKind::ReplyRoot,
                to: NodeId::Post(rep.root.duplicate()),
            });
        },
        None => {},
    }
    match &post.quote {
        Some(q) => {
            r.push(Edge {
                from: NodeId::Post(post.id.duplicate()),
                kind: EdgeKind::Quoted,
                to: NodeId::Post(q.duplicate()),
            });
        },
        None => {},
    }
    r
}

/// The embed of a stored post: its external link, its media (a bare video
/// included) and the post it quotes, as a post node.
#[derive(Debug, Clone)]
pub struct DocumentEmbed {
    pub external_links: Option<Vec<ExternalLink>>,
    pub media: Vec<Media>,
    pub quote: Option<NodeId>,
}

/// A post as the document store holds it: the author as a user node, the
/// creation time in UTC, replies and quotes as post nodes.
#[derive(Debug, Clone)]
pub struct SurrealPostRep {
    pub author: NodeId,
    pub created_at: Timestamp,
    pub text: String,
    pub id: NodeId,
    pub language: Vec<String>,
    pub reply: Option<(NodeId, NodeId)>,
    pub tags: Vec<String>,
    pub labels: Vec<String>,
    pub embed: Option<DocumentEmbed>,
}

/// The same instant, written in UTC.
pub open spec fn utc_spec(t: Timestamp) -> Timestamp {
    Timestamp { unix_seconds: t.unix_seconds, nanos: t.nanos, offset_seconds: 0 }
}

/// Whether `d` is the stored embed of a post with embed `e`, media `m` and quote `q`.
pub open spec fn doc_embed_spec(e: Embed, m: Seq<Media>, q: Option<Cid>, d: DocumentEmbed) -> bool {
    &&& match e {
        Embed::External(l) => d.external_links matches Some(v) && v@ == seq![l],
        _ => d.external_links is None,
    }
    &&& d.media@ == m
    &&& match q {
        Some(c) => d.quote matches Some(n) && node_view(n) == NodeView::Post(c@),
        None => d.quote is None,
    }
}

fn copy_link(l: &ExternalLink) -> (r: ExternalLink)
    ensures
        r == *l,
{
    ExternalLink {
        description: l.description.clone(),
        thumb: match &l.thumb {
            Some(b) => Some(b.duplicate()),
            None => None,
        },
        title: l.title.clone(),
        uri: l.uri.clone(),
    }
}

fn document_embed(e: &Embed, media: Vec<Media>, quote: &Option<Cid>) -> (r: DocumentEmbed)
    ensures
        doc_embed_spec(*e, media@, *quote, r),
{
    let external_links = match e {
        Embed::External(l) => {
            let v = vec![copy_link(l)];
            assert(v@ =~= seq![*l]);
            Some(v)
        },
        _ => None,
    };
    let quote = match quote {
        Some(c) => Some(NodeId::Post(c.duplicate())),
        None => None,
    };
    DocumentEmbed { external_links, media, quote }
}

impl SurrealPostRep {
    /// The stored form of a post.
    pub fn from_post(post: Post) -> (r: SurrealPostRep)
        ensures
            node_view(r.author) == NodeView::User(user_key_spec(post.author@)),
            r.created_at == utc_spec(post.created_at),
            r.text == post.text,
            node_view(r.id) == NodeView::Post(post.id@),
            r.language == post.language,
            match post.reply {
                Some(rep) => r.reply matches Some((p, q)) && node_view(p) == NodeView::Post(rep.parent@)
                    && node_view(q) == NodeView::Post(rep.root@),
                None => r.reply is None,
            },
            r.tags == post.tags,
            r.labels == post.labels,
            match post.embed {
                Some(e) => r.embed matches Some(d) && doc_embed_spec(e, post.media@, post.quote, d),
                None => r.embed is None,
            },
    {
        let author = NodeId::User(user_key(post.author.as_str()));
        let Post { author: _, created_at, text, id, language, reply, tags, labels, embed, media, quote } = post;
        let embed = match &embed {
            Some(e) => Some(document_embed(e, media, &quote)),
            None => None,
        };
        let reply = match reply {
            Some(ReplyRef { parent, root }) => Some((NodeId::Post(parent), NodeId::Post(root))),
            None => None,
        };
        SurrealPostRep {
            author,
            created_at: Timestamp { unix_seconds: created_at.unix_seconds, nanos: created_at.nanos, offset_seconds: 0 },
            text,
            id: NodeId::Post(id),
            language,
            reply,
            tags,
            labels,
            embed,
        }
    }
}

} // verus!
