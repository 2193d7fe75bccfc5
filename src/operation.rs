//! Repository operations, classified by the collection their path names.
use vstd::prelude::*;
use crate::cid::{Cid, CidView, cid_opt};
use crate::text::{before_char, find_char, substring, text_eq};

verus! {

/// A raw repository operation: `create`, `update` or `delete` at `<collection>/<rkey>`.
#[derive(Debug, Clone)]
pub struct RepoOp {
    pub action: String,
    pub path: String,
    pub cid: Option<Cid>,
}

/// An operation, tagged by the collection its path names.
#[derive(Debug, Clone)]
pub enum Operation {
    /// app.bsky.feed.post
    Post(Option<Cid>, RepoOp),
    /// app.bsky.graph.follow
    Follow(Option<Cid>, RepoOp),
    /// app.bsky.graph.block
    Block(Option<Cid>, RepoOp),
    /// app.bsky.feed.repost
    Repost(Option<Cid>, RepoOp),
    /// app.bsky.feed.like
    Like(Option<Cid>, RepoOp),
    /// app.bsky.graph.listitem
    ListItem(Option<Cid>, RepoOp),
    /// app.bsky.actor.profile
    Profile(Option<Cid>, RepoOp),
    /// Any other collection, named.
    Other(String, Option<Cid>, RepoOp),
}

/// The kind of an operation, with the collection name of `Other`.
pub ghost enum OpKind {
    Post,
    Follow,
    Block,
    Repost,
    Like,
    ListItem,
    Profile,
    Other(Seq<char>),
}

/// The collection a path names: what comes before its first `/`.
pub open spec fn collection_spec(path: Seq<char>) -> Seq<char> {
    before_char(path, '/')
}

pub open spec fn kind_spec(collection: Seq<char>) -> OpKind {
    if collection == "app.bsky.feed.post"@ {
        OpKind::Post
    } else if collection == "app.bsky.graph.follow"@ {
        OpKind::Follow
    } else if collection == "app.bsky.graph.block"@ {
        OpKind::Block
    } else if collection == "app.bsky.feed.repost"@ {
        OpKind::Repost
    } else if collection == "app.bsky.feed.like"@ {
        OpKind::Like
    } else if collection == "app.bsky.graph.listitem"@ {
        OpKind::ListItem
    } else if collection == "app.bsky.actor.profile"@ {
        OpKind::Profile
    } else {
        OpKind::Other(collection)
    }
}

/// Whether an operation gives a typed event: a `create` in a typed collection.
pub open spec fn typed_spec(op: Operation) -> bool {
    !(op is Other) && op.op_spec().action@ == "create"@
}

impl Operation {
    /// Whether the record of this operation is decoded by its collection's
    /// schema: only `create` operations of the typed collections are.
    pub fn wants_typed_body(&self) -> (r: bool)
        ensures
            r == typed_spec(*self),
    {
        match self {
            Operation::Other(..) => false,
            _ => text_eq(self.get_op().action.as_str(), "create"),
        }
    }

    pub open spec fn kind(&self) -> OpKind {
        match self {
            Operation::Post(..) => OpKind::Post,
            Operation::Follow(..) => OpKind::Follow,
            Operation::Block(..) => OpKind::Block,
            Operation::Repost(..) => OpKind::Repost,
            Operation::Like(..) => OpKind::Like,
            Operation::ListItem(..) => OpKind::ListItem,
            Operation::Profile(..) => OpKind::Profile,
            Operation::Other(c, ..) => OpKind::Other(c@),
        }
    }

    pub open spec fn cid_spec(&self) -> Option<CidView> {
        match self {
            Operation::Post(c, _) | Operation::Follow(c, _) | Operation::Block(c, _)
            | Operation::Repost(c, _) | Operation::Like(c, _) | Operation::ListItem(c, _)
            | Operation::Profile(c, _) | Operation::Other(_, c, _) => cid_opt(*c),
        }
    }

    pub open spec fn op_spec(&self) -> RepoOp {
        match self {
            Operation::Post(_, o) | Operation::Follow(_, o) | Operation::Block(_, o)
            | Operation::Repost(_, o) | Operation::Like(_, o) | Operation::ListItem(_, o)
            | Operation::Profile(_, o) | Operation::Other(_, _, o) => *o,
        }
    }

    /// Classifies an operation by the collection before the first `/` of its path.
    pub fn from_op(op: RepoOp) -> (r: Operation)
        ensures
            r.kind() == kind_spec(collection_spec(op.path@)),
            r.cid_spec() == cid_opt(op.cid),
            r.op_spec() == op,
    {
        let collection = collection_of(op.path.as_str());
        let cid = match &op.cid {
            Some(c) => Some(c.duplicate()),
            None => None,
        };
        let c = collection.as_str();
        if text_eq(c, "app.bsky.feed.post") {
            Operation::Post(cid, op)
        } else if text_eq(c, "app.bsky.graph.follow") {
            Operation::Follow(cid, op)
        } else if text_eq(c, "app.bsky.graph.block") {
            Operation::Block(cid, op)
        } else if text_eq(c, "app.bsky.feed.repost") {
            Operation::Repost(cid, op)
        } else if text_eq(c, "app.bsky.feed.like") {
            Operation::Like(cid, op)
        } else if text_eq(c, "app.bsky.graph.listitem") {
            Operation::ListItem(cid, op)
        } else if text_eq(c, "app.bsky.actor.profile") {
            Operation::Profile(cid, op)
        } else {
            Operation::Other(collection, cid, op)
        }
    }

    /// The CID of the record the operation refers to (absent for deletes).
    pub fn get_cid(&self) -> (r: Option<Cid>)
        ensures
            cid_opt(r) == self.cid_spec(),
    {
        let c = match self {
            Operation::Post(c, _) | Operation::Follow(c, _) | Operation::Block(c, _)
            | Operation::Repost(c, _) | Operation::Like(c, _) | Operation::ListItem(c, _)
            | Operation::Profile(c, _) | Operation::Other(_, c, _) => c,
        };
        match c {
            Some(c) => Some(c.duplicate()),
            None => None,
        }
    }

    /// The raw operation.
    pub fn get_op(&self) -> (r: &RepoOp)
        ensures
            *r == self.op_spec(),
    {
        match self {
            Operation::Post(_, o) | Operation::Follow(_, o) | Operation::Block(_, o)
            | Operation::Repost(_, o) | Operation::Like(_, o) | Operation::ListItem(_, o)
            | Operation::Profile(_, o) | Operation::Other(_, _, o) => o,
        }
    }
}

/// The collection a path names: what comes before its first `/`.
pub fn collection_of(path: &str) -> (r: String)
    ensures
        r@ == collection_spec(path@),
{
    let i = find_char(path, '/');
    substring(path, 0, i)
}

/// Whether an operation creates a post.
pub fn is_post_creation(op: &RepoOp) -> (r: bool)
    ensures
        r == (op.action@ == "create"@ && collection_spec(op.path@) == "app.bsky.feed.post"@),
{
    let c = collection_of(op.path.as_str());
    text_eq(op.action.as_str(), "create") && text_eq(c.as_str(), "app.bsky.feed.post")
}

} // verus!
