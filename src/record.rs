//! Records: the typed events that a commit's operations carry.
use vstd::prelude::*;
use crate::car::{Block, ResolveError, blocks_view, resolve_block, resolved};
use crate::cid::Cid;
use crate::events::{
    BlockEvent, DidSubjectRecord, FollowEvent, LikeEvent, ListItemEvent, ListItemRecord, Profile,
    ProfileRecord, RepostEvent, SubjectRecord, profile_spec,
};
use crate::operation::{Operation, RepoOp, collection_spec, kind_spec, typed_spec};
use crate::time::rfc3339_parse;
use crate::types::{Post, PostRecord, ProjectionError, post_spec};

verus! {

/// An event that happened on the network.
#[derive(Debug, Clone)]
pub enum Record {
    Post(Post),
    Block(BlockEvent),
    Like(LikeEvent),
    Follow(FollowEvent),
    Repost(RepostEvent),
    ListItem(ListItemEvent),
    Profile(Profile),
    /// A record of a collection without a typed form, with its encoded bytes.
    Other(Operation, Vec<u8>),
}

/// A record body decoded by the schema of its collection.
#[derive(Debug, Clone)]
pub enum RecordBody {
    Post(PostRecord),
    Like(SubjectRecord),
    Repost(SubjectRecord),
    Block(DidSubjectRecord),
    Follow(DidSubjectRecord),
    ListItem(ListItemRecord),
    Profile(ProfileRecord),
    /// The encoded bytes of a record kept undecoded.
    Raw(Vec<u8>),
}

/// Why an operation gave no record.
#[derive(Debug, Clone)]
pub enum RecordError {
    Resolve(ResolveError),
    Projection(ProjectionError),
    /// A post operation without a CID.
    MissingCid,
    /// The body was decoded for another collection than the operation's.
    Mismatch,
}

pub open spec fn time_failed<T>(r: Result<T, RecordError>) -> bool {
    r matches Err(RecordError::Projection(ProjectionError::InvalidTimestamp))
}

impl Record {
    /// The value of the event-type counter's label for this record; records of
    /// collections without a typed form are not counted by type.
    pub fn type_label(&self) -> (r: Option<&'static str>)
        ensures
            match self {
                Record::Post(_) => r matches Some(s) && s@ == "post"@,
                Record::Block(_) => r matches Some(s) && s@ == "block"@,
                Record::Like(_) => r matches Some(s) && s@ == "like"@,
                Record::Follow(_) => r matches Some(s) && s@ == "follow"@,
                Record::Repost(_) => r matches Some(s) && s@ == "repost"@,
                Record::ListItem(_) => r matches Some(s) && s@ == "list_item"@,
                Record::Profile(_) => r matches Some(s) && s@ == "profile"@,
                Record::Other(_, _) => r is None,
            },
    {
        proof {
            reveal_strlit("post");
            reveal_strlit("block");
            reveal_strlit("like");
            reveal_strlit("follow");
            reveal_strlit("repost");
            reveal_strlit("list_item");
            reveal_strlit("profile");
        }
        match self {
            Record::Post(_) => Some("post"),
            Record::Block(_) => Some("block"),
            Record::Like(_) => Some("like"),
            Record::Follow(_) => Some("follow"),
            Record::Repost(_) => Some("repost"),
            Record::ListItem(_) => Some("list_item"),
            Record::Profile(_) => Some("profile"),
            Record::Other(_, _) => None,
        }
    }

    /// Builds the record of an operation by `author` from its decoded body.
    /// Only `create` operations of the typed collections give typed events;
    /// any other operation gives `Other` with the record's undecoded bytes.
    pub fn from_decoded(op: Operation, author: String, body: RecordBody) -> (r: Result<Record, RecordError>)
        ensures
            !typed_spec(op) ==> match body {
                RecordBody::Raw(b) => r == Ok::<Record, RecordError>(Record::Other(op, b)),
                _ => r matches Err(RecordError::Mismatch),
            },
            typed_spec(op) ==> match (op, body) {
                (Operation::Post(None, _), RecordBody::Post(_)) => r matches Err(RecordError::MissingCid),
                (Operation::Post(Some(id), _), RecordBody::Post(rec)) => match rfc3339_parse(rec.created_at@) {
                    Some(t) => r matches Ok(Record::Post(p)) && p@ == post_spec(author@, id@, rec, t),
                    None => time_failed(r),
                },
                (Operation::Like(c, _), RecordBody::Like(rec)) => match rfc3339_parse(rec.created_at@) {
                    Some(t) => r == Ok::<Record, RecordError>(
                        Record::Like(LikeEvent { author, subject: rec.subject, created_at: t, cid: c }),
                    ),
                    None => time_failed(r),
                },
                (Operation::Repost(c, _), RecordBody::Repost(rec)) => match rfc3339_parse(rec.created_at@) {
                    Some(t) => r == Ok::<Record, RecordError>(
                        Record::Repost(RepostEvent { author, subject: rec.subject, created_at: t, cid: c }),
                    ),
                    None => time_failed(r),
                },
                (Operation::Block(c, _), RecordBody::Block(rec)) => match rfc3339_parse(rec.created_at@) {
                    Some(t) => r == Ok::<Record, RecordError>(
                        Record::Block(BlockEvent { author, subject: rec.subject, created_at: t, cid: c }),
                    ),
                    None => time_failed(r),
                },
                (Operation::Follow(c, _), RecordBody::Follow(rec)) => match rfc3339_parse(rec.created_at@) {
                    Some(t) => r == Ok::<Record, RecordError>(
                        Record::Follow(FollowEvent { author, subject: rec.subject, created_at: t, cid: c }),
                    ),
                    None => time_failed(r),
                },
                (Operation::ListItem(c, _), RecordBody::ListItem(rec)) => match rfc3339_parse(rec.created_at@) {
                    Some(t) => r == Ok::<Record, RecordError>(
                        Record::ListItem(
                            ListItemEvent { author, subject: rec.subject, created_at: t, cid: c, list: rec.list },
                        ),
                    ),
                    None => time_failed(r),
                },
                (Operation::Profile(_, _), RecordBody::Profile(rec)) => r matches Ok(Record::Profile(p))
                    && profile_spec(author, rec, p),
                _ => r matches Err(RecordError::Mismatch),
            },
    {
        if !op.wants_typed_body() {
            return match body {
                RecordBody::Raw(b) => Ok(Record::Other(op, b)),
                _ => Err(RecordError::Mismatch),
            };
        }
        match (op, body) {
            (Operation::Post(Some(id), o), RecordBody::Post(rec)) => match Post::from_record(author, id, rec) {
                Ok(p) => Ok(Record::Post(p)),
                Err(e) => Err(RecordError::Projection(e)),
            },
            (Operation::Post(None, _), RecordBody::Post(_)) => Err(RecordError::MissingCid),
            (Operation::Like(c, _), RecordBody::Like(rec)) => match LikeEvent::new(author, rec, c) {
                Ok(e) => Ok(Record::Like(e)),
                Err(e) => Err(RecordError::Projection(e)),
            },
            (Operation::Repost(c, _), RecordBody::Repost(rec)) => match RepostEvent::new(author, rec, c) {
                Ok(e) => Ok(Record::Repost(e)),
                Err(e) => Err(RecordError::Projection(e)),
            },
            (Operation::Block(c, _), RecordBody::Block(rec)) => match BlockEvent::new(author, rec, c) {
                Ok(e) => Ok(Record::Block(e)),
                Err(e) => Err(RecordError::Projection(e)),
            },
            (Operation::Follow(c, _), RecordBody::Follow(rec)) => match FollowEvent::new(author, rec, c) {
                Ok(e) => Ok(Record::Follow(e)),
                Err(e) => Err(RecordError::Projection(e)),
            },
            (Operation::ListItem(c, _), RecordBody::ListItem(rec)) => match ListItemEvent::new(author, rec, c) {
                Ok(e) => Ok(Record::ListItem(e)),
                Err(e) => Err(RecordError::Projection(e)),
            },
            (Operation::Profile(_, _), RecordBody::Profile(rec)) => Ok(Record::Profile(Profile::new(author, rec))),
            _ => Err(RecordError::Mismatch),
        }
    }
}

/// One commit of a repository: its author, its operations and the blocks of
/// the CAR archive that holds the records they reference.
#[derive(Debug, Clone)]
pub struct Commit {
    /// DID of the repository.
    pub repo: String,
    pub operations: Vec<Operation>,
    pub blocks: Vec<Block>,
}

impl Commit {
    /// Classifies each operation of a commit, in order.
    pub fn new(repo: String, ops: Vec<RepoOp>, blocks: Vec<Block>) -> (r: Commit)
        ensures
            r.repo == repo,
            r.blocks == blocks,
            r.operations@.len() == ops@.len(),
            forall|i: int| 0 <= i < ops@.len() ==> {
                &&& (#[trigger] r.operations@[i]).kind() == kind_spec(collection_spec(ops@[i].path@))
                &&& r.operations@[i].op_spec() == ops@[i]
            },
    {
        let ghost orig = ops@;
        let mut rest = ops;
        let mut operations: Vec<Operation> = Vec::new();
        while rest.len() > 0
            invariant
                operations@.len() + rest@.len() == orig.len(),
                rest@ == orig.subrange(operations@.len() as int, orig.len() as int),
                forall|i: int| 0 <= i < operations@.len() ==> {
                    &&& (#[trigger] operations@[i]).kind() == kind_spec(collection_spec(orig[i].path@))
                    &&& operations@[i].op_spec() == orig[i]
                },
            decreases rest@.len(),
        {
            let ghost k = operations@.len();
            let op = rest.remove(0);
            assert(op == orig[k as int]);
            operations.push(Operation::from_op(op));
            assert(rest@ =~= orig.subrange(operations@.len() as int, orig.len() as int));
        }
        Commit { repo, operations, blocks }
    }

    /// The encoded record that the `i`-th operation references.
    pub fn record_bytes(&self, i: usize) -> (r: Result<Vec<u8>, ResolveError>)
        requires
            i < self.operations@.len(),
        ensures
            resolved(self.operations@[i as int].cid_spec(), blocks_view(self.blocks@), r),
    {
        let target: Option<Cid> = self.operations[i].get_cid();
        resolve_block(&target, &self.blocks)
    }
}

} // verus!
