//! What a post contributes to the exporter's counters, and the rolling
//! window that bounds the number of published label values.
use vstd::prelude::*;
use crate::language::{handle_language, normalise_spec};
use crate::text::{
    join, join_spec, lemma_text_lt_total, lower_of, lowercase, starts_with, substring, text_eq,
    text_less, text_lt, texts_view,
};
use crate::types::{Embed, Media, Post};

verus! {

/// Seconds for which a label value stays published after its last update.
pub const WINDOW_SECONDS: u64 = 1800;

/// Each element comes strictly before the next.
pub open spec fn strictly_sorted(s: Seq<Seq<char>>) -> bool {
    forall|i: int| 0 <= i < s.len() - 1 ==> text_lt(#[trigger] s[i], s[i + 1])
}

/// Inserts `x` into a strictly sorted list unless it is there already.
fn insert_sorted(v: &mut Vec<String>, x: String)
    requires
        strictly_sorted(texts_view(old(v)@)),
    ensures
        strictly_sorted(texts_view(final(v)@)),
        forall|t: Seq<char>| texts_view(final(v)@).contains(t) <==> (texts_view(old(v)@).contains(t) || t == x@),
{
    let ghost old_view = texts_view(v@);
    let mut p: usize = 0;
    while p < v.len() && text_less(v[p].as_str(), x.as_str())
        invariant
            p <= v@.len(),
            texts_view(v@) == old_view,
            forall|j: int| 0 <= j < p ==> text_lt(#[trigger] old_view[j], x@),
        decreases v@.len() - p,
    {
        p = p + 1;
    }
    if p < v.len() && text_eq(v[p].as_str(), x.as_str()) {
        assert(old_view[p as int] == x@);
        return;
    }
    proof {
        if p < old_view.len() {
            lemma_text_lt_total(old_view[p as int], x@);
        }
    }
    let ghost xv = x@;
    v.insert(p, x);
    let ghost nv = texts_view(v@);
    assert(nv =~= old_view.insert(p as int, xv));
    assert forall|i: int| 0 <= i < nv.len() - 1 implies text_lt(#[trigger] nv[i], nv[i + 1]) by {
        if i + 1 < p {
            assert(nv[i] == old_view[i] && nv[i + 1] == old_view[i + 1]);
        } else if i + 1 == p {
            assert(nv[i] == old_view[i] && nv[i + 1] == xv);
        } else if i == p {
            assert(nv[i] == xv && nv[i + 1] == old_view[i]);
        } else {
            assert(nv[i] == old_view[i - 1] && nv[i + 1] == old_view[i]);
        }
    }
    assert forall|t: Seq<char>| nv.contains(t) <==> (old_view.contains(t) || t == xv) by {
        if nv.contains(t) {
            let k = choose|k: int| 0 <= k < nv.len() && nv[k] == t;
            if k < p {
                assert(old_view[k] == t);
            } else if k > p {
                assert(old_view[k - 1] == t);
            }
        }
        if old_view.contains(t) {
            let k = choose|k: int| 0 <= k < old_view.len() && old_view[k] == t;
            if k < p {
                assert(nv[k] == t);
            } else {
                assert(nv[k + 1] == t);
            }
        }
        if t == xv {
            assert(nv[p as int] == t);
        }
    }
}

/// The distinct values of `v`, in increasing order.
pub fn sorted_distinct(v: &Vec<String>) -> (r: Vec<String>)
    ensures
        strictly_sorted(texts_view(r@)),
        forall|t: Seq<char>| texts_view(r@).contains(t) <==> texts_view(v@).contains(t),
{
    let mut r: Vec<String> = Vec::new();
    let mut i: usize = 0;
    while i < v.len()
        invariant
            i <= v@.len(),
            strictly_sorted(texts_view(r@)),
            forall|t: Seq<char>| texts_view(r@).contains(t) <==> texts_view(v@.subrange(0, i as int)).contains(t),
        decreases v@.len() - i,
    {
        let ghost before = texts_view(v@.subrange(0, i as int));
        let ghost after = texts_view(v@.subrange(0, i + 1));
        assert(after =~= before.push(v@[i as int]@));
        insert_sorted(&mut r, v[i].clone());
        i = i + 1;
        assert forall|t: Seq<char>| after.contains(t) <==> (before.contains(t) || t == v@[i - 1]@) by {
            if after.contains(t) {
                let k = choose|k: int| 0 <= k < after.len() && after[k] == t;
                if k < before.len() {
                    assert(before[k] == t);
                }
            }
            if before.contains(t) {
                let k = choose|k: int| 0 <= k < before.len() && before[k] == t;
                assert(after[k] == t);
            }
            if t == v@[i - 1]@ {
                assert(after[i - 1] == t);
            }
        }
    }
    assert(v@.subrange(0, i as int) =~= v@);
    r
}

/// How one language of a post is counted.
pub open spec fn counted_language(lang: Seq<char>, normalise: bool) -> Seq<char> {
    if lang.len() == 0 {
        "null"@
    } else if normalise {
        match normalise_spec(lang) {
            Some(p) => p,
            None => lower_of(lang),
        }
    } else {
        lang
    }
}

/// The language a post's language tag is counted under: `null` for an empty
/// tag; with normalisation, its primary subtag, or the lowercased tag when it
/// has none.
pub fn count_language(lang: &str, normalise: bool) -> (r: String)
    ensures
        r@ == counted_language(lang@, normalise),
{
    if lang.unicode_len() == 0 {
        String::from_str("null")
    } else if normalise {
        match handle_language(lang) {
            Some(p) => p,
            None => lowercase(lang),
        }
    } else {
        lang.to_string()
    }
}

/// The host name a link is counted under: lowercased, then a leading `www.` removed.
pub open spec fn domain_spec(host: Seq<char>) -> Seq<char> {
    let l = lower_of(host);
    if l.len() >= 4 && l.subrange(0, 4) == "www."@ {
        l.subrange(4, l.len() as int)
    } else {
        l
    }
}

/// The domain name of a URL, if it parses and its host is a domain.
pub uninterp spec fn url_domain(s: Seq<char>) -> Option<Seq<char>>;

/// Relies on url::Url::parse and Url::domain.
#[verifier::external_body]
fn parse_url_domain(s: &str) -> (r: Option<String>)
    ensures
        match r {
            Some(d) => url_domain(s@) == Some(d@),
            None => url_domain(s@) is None,
        },
{
    url::Url::parse(s).ok()?.domain().map(|d| d.to_owned())
}

/// The normalised host name of a domain: lowercased, without a leading `www.`.
pub fn normalise_domain(host: &str) -> (r: String)
    ensures
        r@ == domain_spec(host@),
{
    proof {
        reveal_strlit("www.");
    }
    let lower = lowercase(host);
    let l = lower.as_str();
    if starts_with(l, "www.") {
        substring(l, 4, l.unicode_len())
    } else {
        lower
    }
}

/// The domain an external link is counted under, if its URL has one.
pub fn link_domain(uri: &str) -> (r: Option<String>)
    ensures
        match url_domain(uri@) {
            Some(d) => r is Some && r->0@ == domain_spec(d),
            None => r is None,
        },
{
    match parse_url_domain(uri) {
        Some(d) => Some(normalise_domain(d.as_str())),
        None => None,
    }
}

/// The kind of the first media item of a post.
#[derive(Debug, Clone, Copy, PartialEq, Eq, Structural)]
pub enum MediaKind {
    Image,
    Video,
}

impl MediaKind {
    /// The counter label of this kind.
    pub fn label(&self) -> (r: &'static str)
        ensures
            *self == MediaKind::Image ==> r@ == "image"@,
            *self == MediaKind::Video ==> r@ == "video"@,
    {
        proof {
            reveal_strlit("image");
            reveal_strlit("video");
        }
        match self {
            MediaKind::Image => "image",
            MediaKind::Video => "video",
        }
    }
}

pub open spec fn has_alt(m: Media) -> bool {
    match m {
        Media::Image(i) => i.alt@.len() > 0,
        Media::Video(v) => v.alt is Some,
    }
}

/// Whether any media item carries alt text: a non-empty one for an image,
/// any for a video.
pub fn any_alt_text(media: &Vec<Media>) -> (r: bool)
    ensures
        r == exists|i: int| 0 <= i < media@.len() && has_alt(#[trigger] media@[i]),
{
    let mut i: usize = 0;
    while i < media.len()
        invariant
            i <= media@.len(),
            forall|j: int| 0 <= j < i ==> !has_alt(#[trigger] media@[j]),
        decreases media@.len() - i,
    {
        let found = match &media[i] {
            Media::Image(img) => img.alt.as_str().unicode_len() > 0,
            Media::Video(v) => v.alt.is_some(),
        };
        if found {
            return true;
        }
        i = i + 1;
    }
    false
}

/// The post total after one more post: it goes up by one, and starts again
/// from zero once it exceeds the sample size, when one is set.
pub fn next_post_total(current: u64, max_sample_size: Option<u64>) -> (r: u64)
    ensures
        match max_sample_size {
            Some(m) if current + 1 > m => r == 0,
            _ => r == if current < u64::MAX { current + 1 } else { current as int },
        },
{
    let next = if current < u64::MAX { current + 1 } else { current };
    match max_sample_size {
        Some(m) if current >= m => 0,
        _ => next,
    }
}

/// What one post adds to the counters.
#[derive(Debug, Clone)]
pub struct PostMetrics {
    pub labels: Vec<String>,
    pub tags: Vec<String>,
    pub is_quote: bool,
    pub is_reply: bool,
    pub has_alt_text: bool,
    /// The kind of the first media item, if there is media.
    pub media_kind: Option<MediaKind>,
    /// The domain of an external link embed.
    pub domain: Option<String>,
    /// The distinct counted languages, in increasing order; each is counted once.
    pub languages: Vec<String>,
    /// The single value of the grouped language counter.
    pub grouped_language: String,
}

/// The counted languages of a list of language tags.
pub fn counted_languages(langs: &Vec<String>, normalise: bool) -> (r: Vec<String>)
    ensures
        r@.len() == langs@.len(),
        forall|i: int| 0 <= i < langs@.len() ==> (#[trigger] r@[i])@ == counted_language(langs@[i]@, normalise),
{
    let mut r: Vec<String> = Vec::new();
    let mut i: usize = 0;
    while i < langs.len()
        invariant
            i <= langs@.len(),
            r@.len() == i,
            forall|j: int| 0 <= j < i ==> (#[trigger] r@[j])@ == counted_language(langs@[j]@, normalise),
        decreases langs@.len() - i,
    {
        r.push(count_language(langs[i].as_str(), normalise));
        i = i + 1;
    }
    r
}

/// The value of the grouped language counter: the distinct languages joined
/// by commas, or `null` when there are none.
pub fn grouped_language(distinct: &Vec<String>) -> (r: String)
    ensures
        distinct@.len() == 0 ==> r@ == "null"@,
        distinct@.len() > 0 ==> r@ == join_spec(texts_view(distinct@), ','),
{
    if distinct.len() == 0 {
        String::from_str("null")
    } else {
        join(distinct, ',')
    }
}

pub open spec fn first_media_kind(m: Seq<Media>) -> Option<MediaKind> {
    if m.len() == 0 {
        None
    } else {
        match m[0] {
            Media::Image(_) => Some(MediaKind::Image),
            Media::Video(_) => Some(MediaKind::Video),
        }
    }
}

impl PostMetrics {
    /// What a post adds to the counters; `normalise` turns language
    /// normalisation on.
    pub fn of_post(post: &Post, normalise: bool) -> (r: PostMetrics)
        ensures
            r.labels@ == post.labels@,
            r.tags@ == post.tags@,
            r.is_quote == (post.embed matches Some(Embed::Record(_)) || post.embed matches Some(Embed::RecordWithMedia(_, _))),
            r.is_reply == post.reply is Some,
            r.has_alt_text == exists|i: int| 0 <= i < post.post_media_spec().len() && has_alt(#[trigger] post.post_media_spec()[i]),
            r.media_kind == first_media_kind(post.post_media_spec()),
            match post.embed {
                Some(Embed::External(l)) => match url_domain(l.uri@) {
                    Some(d) => r.domain is Some && r.domain->0@ == domain_spec(d),
                    None => r.domain is None,
                },
                _ => r.domain is None,
            },
            strictly_sorted(texts_view(r.languages@)),
            forall|t: Seq<char>| texts_view(r.languages@).contains(t) <==> exists|i: int|
                0 <= i < post.language@.len() && t == counted_language(#[trigger] post.language@[i]@, normalise),
            r.languages@.len() == 0 ==> r.grouped_language@ == "null"@,
            r.languages@.len() > 0 ==> r.grouped_language@ == join_spec(texts_view(r.languages@), ','),
    {
        let media = post.get_post_media();
        let has_alt_text = any_alt_text(&media);
        let media_kind = if media.len() == 0 {
            None
        } else {
            match &media[0] {
                Media::Image(_) => Some(MediaKind::Image),
                Media::Video(_) => Some(MediaKind::Video),
            }
        };
        let domain = match &post.embed {
            Some(Embed::External(l)) => link_domain(l.uri.as_str()),
            _ => None,
        };
        let counted = counted_languages(&post.language, normalise);
        let languages = sorted_distinct(&counted);
        proof {
            assert forall|t: Seq<char>| texts_view(counted@).contains(t) <==> exists|i: int|
                0 <= i < post.language@.len() && t == counted_language(#[trigger] post.language@[i]@, normalise) by {
                if texts_view(counted@).contains(t) {
                    let k = choose|k: int| 0 <= k < counted@.len() && texts_view(counted@)[k] == t;
                    assert(t == counted_language(post.language@[k]@, normalise));
                }
                if exists|i: int| 0 <= i < post.language@.len() && t == counted_language(#[trigger] post.language@[i]@, normalise) {
                    let k = choose|i: int| 0 <= i < post.language@.len() && t == counted_language(#[trigger] post.language@[i]@, normalise);
                    assert(texts_view(counted@)[k] == t);
                }
            }
        }
        let grouped = grouped_language(&languages);
        PostMetrics {
            labels: post.labels.clone(),
            tags: post.tags.clone(),
            is_quote: post.is_quote(),
            is_reply: post.reply.is_some(),
            has_alt_text,
            media_kind,
            domain,
            languages,
            grouped_language: grouped,
        }
    }
}

} // verus!
