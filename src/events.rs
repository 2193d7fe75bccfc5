//! Feed and graph events (likes, reposts, blocks, follows, list items) and
//! profile records, projected from their decoded records.
use vstd::prelude::*;
use crate::cid::Cid;
use crate::time::{Timestamp, rfc3339_parse};
use crate::types::{Blob, LabelSet, ProjectionError, labels_spec, self_labels};

verus! {

/// A like or repost record: the CID of the post it points at.
#[derive(Debug, Clone)]
pub struct SubjectRecord {
    pub subject: Cid,
    pub created_at: String,
}

/// A block or follow record: the DID of the account it points at.
#[derive(Debug, Clone)]
pub struct DidSubjectRecord {
    pub subject: String,
    pub created_at: String,
}

/// A list item record.
#[derive(Debug, Clone)]
pub struct ListItemRecord {
    pub subject: String,
    pub list: String,
    pub created_at: String,
}

/// A profile record (`app.bsky.actor.profile`).
#[derive(Debug, Clone)]
pub struct ProfileRecord {
    pub avatar: Option<Blob>,
    pub created_at: Option<String>,
    pub description: Option<String>,
    pub display_name: Option<String>,
    pub labels: Option<LabelSet>,
    pub pinned_post: Option<Cid>,
}

/// Someone likes a post.
#[derive(Debug, Clone)]
pub struct LikeEvent {
    pub author: String,
    pub subject: Cid,
    pub created_at: Timestamp,
    pub cid: Option<Cid>,
}

/// Someone reposts a post.
#[derive(Debug, Clone)]
pub struct RepostEvent {
    pub author: String,
    pub subject: Cid,
    pub created_at: Timestamp,
    pub cid: Option<Cid>,
}

/// Someone blocks another account.
#[derive(Debug, Clone)]
pub struct BlockEvent {
    pub author: String,
    pub subject: String,
    pub created_at: Timestamp,
    pub cid: Option<Cid>,
}

/// Someone follows another account.
#[derive(Debug, Clone)]
pub struct FollowEvent {
    pub author: String,
    pub subject: String,
    pub created_at: Timestamp,
    pub cid: Option<Cid>,
}

/// An account is added to a list.
#[derive(Debug, Clone)]
pub struct ListItemEvent {
    pub author: String,
    pub subject: String,
    pub created_at: Timestamp,
    pub cid: Option<Cid>,
    pub list: String,
}

/// An account's profile.
#[derive(Debug, Clone)]
pub struct Profile {
    pub did: String,
    pub avatar: Option<Blob>,
    /// `None` when the record has no creation time or an invalid one.
    pub created_at: Option<Timestamp>,
    pub description: Option<String>,
    pub display_name: Option<String>,
    /// Self-imposed labels.
    pub labels: Vec<String>,
    pub pinned_post: Option<Cid>,
}

fn parse_time(s: &String) -> (r: Result<Timestamp, ProjectionError>)
    ensures
        match rfc3339_parse(s@) {
            Some(t) => r == Ok::<Timestamp, ProjectionError>(t),
            None => r == Err::<Timestamp, ProjectionError>(ProjectionError::InvalidTimestamp),
        },
{
    match Timestamp::parse(s.as_str()) {
        Some(t) => Ok(t),
        None => Err(ProjectionError::InvalidTimestamp),
    }
}

impl LikeEvent {
    pub fn new(author: String, record: SubjectRecord, cid: Option<Cid>) -> (r: Result<LikeEvent, ProjectionError>)
        ensures
            match rfc3339_parse(record.created_at@) {
                Some(t) => r == Ok::<LikeEvent, ProjectionError>(
                    LikeEvent { author, subject: record.subject, created_at: t, cid },
                ),
                None => r == Err::<LikeEvent, ProjectionError>(ProjectionError::InvalidTimestamp),
            },
    {
        let created_at = parse_time(&record.created_at)?;
        Ok(LikeEvent { author, subject: record.subject, created_at, cid })
    }
}

impl RepostEvent {
    pub fn new(author: String, record: SubjectRecord, cid: Option<Cid>) -> (r: Result<RepostEvent, ProjectionError>)
        ensures
            match rfc3339_parse(record.created_at@) {
                Some(t) => r == Ok::<RepostEvent, ProjectionError>(
                    RepostEvent { author, subject: record.subject, created_at: t, cid },
                ),
                None => r == Err::<RepostEvent, ProjectionError>(ProjectionError::InvalidTimestamp),
            },
    {
        let created_at = parse_time(&record.created_at)?;
        Ok(RepostEvent { author, subject: record.subject, created_at, cid })
    }
}

impl BlockEvent {
    pub fn new(author: String, record: DidSubjectRecord, cid: Option<Cid>) -> (r: Result<BlockEvent, ProjectionError>)
        ensures
            match rfc3339_parse(record.created_at@) {
                Some(t) => r == Ok::<BlockEvent, ProjectionError>(
                    BlockEvent { author, subject: record.subject, created_at: t, cid },
                ),
                None => r == Err::<BlockEvent, ProjectionError>(ProjectionError::InvalidTimestamp),
            },
    {
        let created_at = parse_time(&record.created_at)?;
        Ok(BlockEvent { author, subject: record.subject, created_at, cid })
    }
}

impl FollowEvent {
    pub fn new(author: String, record: DidSubjectRecord, cid: Option<Cid>) -> (r: Result<FollowEvent, ProjectionError>)
        ensures
            match rfc3339_parse(record.created_at@) {
                Some(t) => r == Ok::<FollowEvent, ProjectionError>(
                    FollowEvent { author, subject: record.subject, created_at: t, cid },
                ),
                None => r == Err::<FollowEvent, ProjectionError>(ProjectionError::InvalidTimestamp),
            },
    {
        let created_at = parse_time(&record.created_at)?;
        Ok(FollowEvent { author, subject: record.subject, created_at, cid })
    }
}

impl ListItemEvent {
    pub fn new(author: String, record: ListItemRecord, cid: Option<Cid>) -> (r: Result<ListItemEvent, ProjectionError>)
        ensures
            match rfc3339_parse(record.created_at@) {
                Some(t) => r == Ok::<ListItemEvent, ProjectionError>(
                    ListItemEvent { author, subject: record.subject, created_at: t, cid, list: record.list },
                ),
                None => r == Err::<ListItemEvent, ProjectionError>(ProjectionError::InvalidTimestamp),
            },
    {
        let created_at = parse_time(&record.created_at)?;
        Ok(ListItemEvent { author, subject: record.subject, created_at, cid, list: record.list })
    }
}

pub open spec fn time_opt(s: Option<String>) -> Option<Timestamp> {
    match s {
        Some(s) => rfc3339_parse(s@),
        None => None,
    }
}

/// Whether `p` is the profile that `rec` gives for the account `did`.
pub open spec fn profile_spec(did: String, rec: ProfileRecord, p: Profile) -> bool {
    &&& p.did == did
    &&& p.avatar == rec.avatar
    &&& p.created_at == time_opt(rec.created_at)
    &&& p.description == rec.description
    &&& p.display_name == rec.display_name
    &&& p.labels@ == labels_spec(rec.labels)
    &&& p.pinned_post == rec.pinned_post
}

impl Profile {
    /// Projects the profile record of the account `did`.
    pub fn new(did: String, record: ProfileRecord) -> (r: Profile)
        ensures
            profile_spec(did, record, r),
    {
        let ProfileRecord { avatar, created_at, description, display_name, labels, pinned_post } = record;
        let created_at = match created_at {
            Some(s) => Timestamp::parse(s.as_str()),
            None => None,
        };
        Profile {
            did,
            avatar,
            created_at,
            description,
            display_name,
            labels: self_labels(labels),
            pinned_post,
        }
    }
}

} // verus!
