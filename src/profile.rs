//! Account profiles as fetched from the public API, avatar URL parsing, and
//! the cache that keeps fetched profiles for four hours.
use vstd::prelude::*;
use crate::text::{char_index, find_char, find_last_char, last_char_index, substring, text_eq};
use crate::time::{Timestamp, rfc3339_parse};
use crate::types::Blob;

verus! {

/// Seconds for which a fetched profile is served from the cache.
pub const PROFILE_TTL_SECONDS: i64 = 14400;

/// The path of a URL, if the text parses as one.
pub uninterp spec fn url_path(s: Seq<char>) -> Option<Seq<char>>;

/// Relies on url::Url::parse and Url::path.
#[verifier::external_body]
fn parse_url_path(s: &str) -> (r: Option<String>)
    ensures
        match r {
            Some(p) => url_path(s@) == Some(p@),
            None => url_path(s@) is None,
        },
{
    url::Url::parse(s).ok().map(|u| u.path().to_owned())
}

/// The CID and MIME type that an image URL path `.../<did>/<cid>@<ext>` names.
pub open spec fn img_blob_spec(path: Seq<char>) -> Option<(Seq<char>, Seq<char>)> {
    let seg = path.subrange(last_char_index(path, '/') + 1, path.len() as int);
    let at = char_index(seg, '@');
    if at < seg.len() {
        Some((seg.subrange(0, at), "image/"@ + seg.subrange(at + 1, seg.len() as int)))
    } else {
        None
    }
}

/// Reads the blob that a CDN image URL names: its last path segment is
/// `<cid>@<ext>`, which gives the CID and the MIME type `image/<ext>`.
/// `None` when the text is not a URL or that segment has no `@`.
pub fn parse_bsky_img_url(url: &str) -> (r: Option<Blob>)
    ensures
        match url_path(url@) {
            None => r is None,
            Some(p) => match img_blob_spec(p) {
                None => r is None,
                Some((cid, mime)) => r is Some && r->0.cid@ == cid && r->0.mime_type@ == mime
                    && r->0.size is None,
            },
        },
{
    let path = match parse_url_path(url) {
        Some(p) => p,
        None => return None,
    };
    let p = path.as_str();
    let n = p.unicode_len();
    let start = match find_last_char(p, '/') {
        Some(i) => i + 1,
        None => 0,
    };
    let seg = substring(p, start, n);
    let s = seg.as_str();
    let at = find_char(s, '@');
    if at >= s.unicode_len() {
        return None;
    }
    let cid = substring(s, 0, at);
    let ext = substring(s, at + 1, s.unicode_len());
    let mut mime = String::from_str("image/");
    mime.append(ext.as_str());
    Some(Blob { cid, mime_type: mime, size: None })
}

/// A detailed profile as the public API returns it.
#[derive(Debug, Clone)]
pub struct ProfileView {
    pub did: String,
    pub handle: String,
    pub display_name: Option<String>,
    pub avatar: Option<String>,
    pub banner: Option<String>,
    pub labels: Option<Vec<String>>,
    pub created_at: Option<String>,
    pub indexed_at: Option<String>,
    pub description: Option<String>,
    pub followers_count: Option<i64>,
    pub follows_count: Option<i64>,
    pub posts_count: Option<i64>,
}

/// An account, as stored beside its posts.
#[derive(Debug, Clone)]
pub struct User {
    pub did: Option<String>,
    pub display_name: Option<String>,
    pub handle: String,
    pub avatar: Option<Blob>,
    pub labels: Vec<String>,
    pub created_at: Option<Timestamp>,
    pub indexed_at: Option<Timestamp>,
    pub banner: Option<Blob>,
    pub description: Option<String>,
    pub followers: Option<u64>,
    pub following: Option<u64>,
    pub posts: Option<u64>,
}

pub ghost struct UserView {
    pub did: Option<String>,
    pub display_name: Option<String>,
    pub handle: String,
    pub avatar: Option<Blob>,
    pub labels: Seq<String>,
    pub created_at: Option<Timestamp>,
    pub indexed_at: Option<Timestamp>,
    pub banner: Option<Blob>,
    pub description: Option<String>,
    pub followers: Option<u64>,
    pub following: Option<u64>,
    pub posts: Option<u64>,
}

impl View for User {
    type V = UserView;

    open spec fn view(&self) -> UserView {
        UserView {
            did: self.did,
            display_name: self.display_name,
            handle: self.handle,
            avatar: self.avatar,
            labels: self.labels@,
            created_at: self.created_at,
            indexed_at: self.indexed_at,
            banner: self.banner,
            description: self.description,
            followers: self.followers,
            following: self.following,
            posts: self.posts,
        }
    }
}

fn copy_text(t: &Option<String>) -> (r: Option<String>)
    ensures
        r == *t,
{
    match t {
        Some(s) => Some(s.clone()),
        None => None,
    }
}

fn copy_blob(b: &Option<Blob>) -> (r: Option<Blob>)
    ensures
        r == *b,
{
    match b {
        Some(b) => Some(b.duplicate()),
        None => None,
    }
}

pub open spec fn count_spec(c: Option<i64>) -> Option<u64> {
    match c {
        Some(n) if n >= 0 => Some(n as u64),
        _ => None,
    }
}

fn count(c: Option<i64>) -> (r: Option<u64>)
    ensures
        r == count_spec(c),
{
    match c {
        Some(n) if n >= 0 => Some(n as u64),
        _ => None,
    }
}

pub open spec fn image_spec(url: Option<String>, b: Option<Blob>) -> bool {
    match url {
        None => b is None,
        Some(u) => match url_path(u@) {
            None => b is None,
            Some(p) => match img_blob_spec(p) {
                None => b is None,
                Some((cid, mime)) => b is Some && b->0.cid@ == cid && b->0.mime_type@ == mime && b->0.size is None,
            },
        },
    }
}

pub open spec fn time_spec(s: Option<String>) -> Option<Timestamp> {
    match s {
        Some(s) => rfc3339_parse(s@),
        None => None,
    }
}

fn image_of(url: &Option<String>) -> (r: Option<Blob>)
    ensures
        image_spec(*url, r),
{
    match url {
        Some(u) => parse_bsky_img_url(u.as_str()),
        None => None,
    }
}

fn time_of(s: &Option<String>) -> (r: Option<Timestamp>)
    ensures
        r == time_spec(*s),
{
    match s {
        Some(s) => Timestamp::parse(s.as_str()),
        None => None,
    }
}

impl User {
    /// The stored form of a fetched profile: avatar and banner URLs become
    /// blobs, timestamps are parsed (invalid ones dropped), negative counts dropped.
    pub fn from_profile_view(p: &ProfileView) -> (r: User)
        ensures
            r.did == Some(p.did),
            r.display_name == p.display_name,
            r.handle == p.handle,
            image_spec(p.avatar, r.avatar),
            image_spec(p.banner, r.banner),
            r.labels@ == match p.labels {
                Some(l) => l@,
                None => Seq::empty(),
            },
            r.created_at == time_spec(p.created_at),
            r.indexed_at == time_spec(p.indexed_at),
            r.description == p.description,
            r.followers == count_spec(p.followers_count),
            r.following == count_spec(p.follows_count),
            r.posts == count_spec(p.posts_count),
    {
        User {
            did: Some(p.did.clone()),
            display_name: copy_text(&p.display_name),
            handle: p.handle.clone(),
            avatar: image_of(&p.avatar),
            labels: match &p.labels {
                Some(l) => l.clone(),
                None => Vec::new(),
            },
            created_at: time_of(&p.created_at),
            indexed_at: time_of(&p.indexed_at),
            banner: image_of(&p.banner),
            description: copy_text(&p.description),
            followers: count(p.followers_count),
            following: count(p.follows_count),
            posts: count(p.posts_count),
        }
    }

    /// An empty user, standing in until the profile is fetched.
    pub fn placeholder() -> (r: User)
        ensures
            r.did is None,
            r.handle@.len() == 0,
            r.labels@.len() == 0,
    {
        User {
            did: None,
            display_name: None,
            handle: String::new(),
            avatar: None,
            labels: Vec::new(),
            created_at: None,
            indexed_at: None,
            banner: None,
            description: None,
            followers: None,
            following: None,
            posts: None,
        }
    }

    /// A copy of this user.
    pub fn duplicate(&self) -> (r: User)
        ensures
            r@ == self@,
    {
        User {
            did: copy_text(&self.did),
            display_name: copy_text(&self.display_name),
            handle: self.handle.clone(),
            avatar: copy_blob(&self.avatar),
            labels: self.labels.clone(),
            created_at: self.created_at,
            indexed_at: self.indexed_at,
            banner: copy_blob(&self.banner),
            description: copy_text(&self.description),
            followers: self.followers,
            following: self.following,
            posts: self.posts,
        }
    }
}

/// One cached profile: the account, when it was fetched, and what was fetched.
#[derive(Debug)]
pub struct CacheEntry {
    pub did: String,
    pub fetched_at: i64,
    pub user: User,
}

pub type CacheEntryView = (Seq<char>, i64, UserView);

pub open spec fn cache_entry_view(e: CacheEntry) -> CacheEntryView {
    (e.did@, e.fetched_at, e.user@)
}

/// Whether a profile fetched at `fetched_at` is still served at `now`.
pub open spec fn fresh(fetched_at: i64, now: i64) -> bool {
    now - fetched_at < PROFILE_TTL_SECONDS
}

pub open spec fn cache_has(s: Seq<CacheEntryView>, did: Seq<char>) -> bool {
    exists|i: int| 0 <= i < s.len() && (#[trigger] s[i]).0 == did
}

pub open spec fn cache_index(s: Seq<CacheEntryView>, did: Seq<char>) -> int {
    choose|i: int| 0 <= i < s.len() && (#[trigger] s[i]).0 == did
}

/// What a lookup of `did` at `now` returns: the cached profile while it is fresh.
pub open spec fn lookup_spec(s: Seq<CacheEntryView>, did: Seq<char>, now: i64) -> Option<UserView> {
    if cache_has(s, did) && fresh(s[cache_index(s, did)].1, now) {
        Some(s[cache_index(s, did)].2)
    } else {
        None
    }
}

/// The entries after a lookup of `did` at `now`: a stale entry is evicted.
pub open spec fn after_lookup_spec(s: Seq<CacheEntryView>, did: Seq<char>, now: i64) -> Seq<CacheEntryView> {
    if cache_has(s, did) && !fresh(s[cache_index(s, did)].1, now) {
        s.remove(cache_index(s, did))
    } else {
        s
    }
}

/// The entries after `user` is fetched for `did` at `now`.
pub open spec fn insert_spec(s: Seq<CacheEntryView>, did: Seq<char>, now: i64, user: UserView) -> Seq<CacheEntryView> {
    if cache_has(s, did) {
        s.update(cache_index(s, did), (did, now, user))
    } else {
        s.push((did, now, user))
    }
}

pub open spec fn unique_dids(s: Seq<CacheEntryView>) -> bool {
    forall|i: int, j: int| 0 <= i < s.len() && 0 <= j < s.len() && i != j ==> (#[trigger] s[i]).0 != (#[trigger] s[j]).0
}

/// Fetched profiles by account, each served for four hours after its fetch.
#[derive(Debug)]
pub struct ProfileCache {
    entries: Vec<CacheEntry>,
}

impl ProfileCache {
    pub closed spec fn view(&self) -> Seq<CacheEntryView> {
        self.entries@.map_values(|e: CacheEntry| cache_entry_view(e))
    }

    /// Each account has at most one entry.
    pub open spec fn wf(&self) -> bool {
        unique_dids(self.view())
    }

    /// An empty cache.
    pub fn new() -> (r: ProfileCache)
        ensures
            r.wf(),
            r.view() == Seq::<CacheEntryView>::empty(),
    {
        let r = ProfileCache { entries: Vec::new() };
        assert(r.view() =~= Seq::<CacheEntryView>::empty());
        r
    }

    fn position(&self, did: &str) -> (r: Option<usize>)
        requires
            self.wf(),
        ensures
            match r {
                Some(i) => cache_has(self.view(), did@) && i == cache_index(self.view(), did@),
                None => !cache_has(self.view(), did@),
            },
    {
        let ghost s = self.view();
        let mut i: usize = 0;
        while i < self.entries.len()
            invariant
                s == self.view(),
                unique_dids(s),
                i <= self.entries@.len(),
                forall|j: int| 0 <= j < i ==> (#[trigger] s[j]).0 != did@,
            decreases self.entries@.len() - i,
        {
            assert(s[i as int] == cache_entry_view(self.entries@[i as int]));
            if text_eq(self.entries[i].did.as_str(), did) {
                proof {
                    assert(cache_has(s, did@));
                    let k = cache_index(s, did@);
                    assert(s[i as int].0 == did@);
                    assert(s[k].0 == did@);
                    assert(k == i);
                }
                return Some(i);
            }
            i = i + 1;
        }
        None
    }

    /// The cached profile of `did` if it was fetched less than four hours
    /// before `now`; a stale entry is evicted, and `None` asks for a fetch.
    pub fn get(&mut self, did: &str, now: i64) -> (r: Option<User>)
        requires
            old(self).wf(),
        ensures
            final(self).wf(),
            match r {
                Some(u) => lookup_spec(old(self).view(), did@, now) == Some(u@),
                None => lookup_spec(old(self).view(), did@, now) is None,
            },
            final(self).view() == after_lookup_spec(old(self).view(), did@, now),
    {
        let ghost s = self.view();
        match self.position(did) {
            None => None,
            Some(i) => {
                assert(s[i as int] == cache_entry_view(self.entries@[i as int]));
                let fetched = self.entries[i].fetched_at;
                if (now as i128) - (fetched as i128) < PROFILE_TTL_SECONDS as i128 {
                    Some(self.entries[i].user.duplicate())
                } else {
                    self.entries.remove(i);
                    proof {
                        assert(self.view() =~= s.remove(i as int));
                        assert forall|x: int, y: int| 0 <= x < self.view().len() && 0 <= y < self.view().len() && x != y
                            implies (#[trigger] self.view()[x]).0 != (#[trigger] self.view()[y]).0 by {
                            let xx = if x < i { x } else { x + 1 };
                            let yy = if y < i { y } else { y + 1 };
                            assert(self.view()[x] == s[xx] && self.view()[y] == s[yy]);
                        }
                    }
                    None
                }
            },
        }
    }

    /// Stores the profile fetched for `did` at `now`, replacing an older one.
    pub fn insert(&mut self, did: &str, now: i64, user: User)
        requires
            old(self).wf(),
        ensures
            final(self).wf(),
            final(self).view() == insert_spec(old(self).view(), did@, now, user@),
    {
        let ghost s = self.view();
        let ghost uv = user@;
        match self.position(did) {
            Some(i) => {
                let e = CacheEntry { did: did.to_string(), fetched_at: now, user };
                self.entries.set(i, e);
                proof {
                    assert(self.view() =~= s.update(i as int, (did@, now, uv)));
                    assert forall|x: int, y: int| 0 <= x < self.view().len() && 0 <= y < self.view().len() && x != y
                        implies (#[trigger] self.view()[x]).0 != (#[trigger] self.view()[y]).0 by {
                        assert(self.view()[x].0 == s[x].0 && self.view()[y].0 == s[y].0);
                    }
                }
            },
            None => {
                self.entries.push(CacheEntry { did: did.to_string(), fetched_at: now, user });
                proof {
                    assert(self.view() =~= s.push((did@, now, uv)));
                    assert forall|x: int, y: int| 0 <= x < self.view().len() && 0 <= y < self.view().len() && x != y
                        implies (#[trigger] self.view()[x]).0 != (#[trigger] self.view()[y]).0 by {
                        if x < s.len() && y < s.len() {
                            assert(self.view()[x] == s[x] && self.view()[y] == s[y]);
                        } else if x < s.len() {
                            assert(self.view()[x] == s[x]);
                        } else {
                            assert(self.view()[y] == s[y]);
                        }
                    }
                }
            },
        }
    }
}

/// A profile stored at `t0` is served, unchanged, by a lookup less than four
/// hours later; from four hours on, the lookup asks for a new fetch.
pub proof fn lemma_profile_ttl(s: Seq<CacheEntryView>, did: Seq<char>, t0: i64, user: UserView, t1: i64)
    requires
        unique_dids(s),
    ensures
        t1 - t0 < PROFILE_TTL_SECONDS ==> lookup_spec(insert_spec(s, did, t0, user), did, t1) == Some(user),
        t1 - t0 >= PROFILE_TTL_SECONDS ==> lookup_spec(insert_spec(s, did, t0, user), did, t1) is None,
{
    let s1 = insert_spec(s, did, t0, user);
    if cache_has(s, did) {
        let i = cache_index(s, did);
        assert(s1[i].0 == did);
        assert(cache_has(s1, did));
        let k = cache_index(s1, did);
        if k != i {
            assert(s1[k] == s[k]);
        }
    } else {
        assert(s1[s.len() as int].0 == did);
        assert(cache_has(s1, did));
        let k = cache_index(s1, did);
        if k != s.len() {
            assert(s1[k] == s[k]);
            assert(cache_has(s, did));
        }
    }
}

} // verus!
