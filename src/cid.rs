//! Content identifiers, held as their version, codec and multihash bytes.
use vstd::prelude::*;
use crate::text::bytes_eq;

verus! {

#[derive(Debug, Clone, Copy, PartialEq, Eq, Structural)]
pub enum CidVersion {
    V0,
    V1,
}

/// A content identifier: version, multicodec and the multihash in its binary form.
#[derive(Debug, Clone)]
pub struct Cid {
    pub version: CidVersion,
    pub codec: u64,
    pub hash: Vec<u8>,
}

/// A content identifier as the older CID library version laid it out.
#[derive(Debug, Clone)]
pub struct CidOld {
    pub version: CidVersion,
    pub codec: u64,
    pub hash: Vec<u8>,
}

/// What identifies a CID: two are the same when these agree.
pub ghost struct CidView {
    pub version: CidVersion,
    pub codec: u64,
    pub hash: Seq<u8>,
}

impl View for Cid {
    type V = CidView;

    open spec fn view(&self) -> CidView {
        CidView { version: self.version, codec: self.codec, hash: self.hash@ }
    }
}

impl View for CidOld {
    type V = CidView;

    open spec fn view(&self) -> CidView {
        CidView { version: self.version, codec: self.codec, hash: self.hash@ }
    }
}

pub open spec fn cid_opt(c: Option<Cid>) -> Option<CidView> {
    match c {
        Some(c) => Some(c@),
        None => None,
    }
}

/// The text form (multibase) of a CID, if its parts make a valid one.
pub uninterp spec fn cid_string(v1: bool, codec: u64, hash: Seq<u8>) -> Option<Seq<char>>;

/// The CID whose text form is `s`, as version 1 or not, codec and multihash bytes.
pub uninterp spec fn cid_from_string(s: Seq<char>) -> Option<(bool, u64, Seq<u8>)>;

/// Relies on cid::Cid::new and its Display: the multihash is read back from
/// its bytes, and the CID is printed in its default multibase.
#[verifier::external_body]
fn cid_text(version: CidVersion, codec: u64, hash: &Vec<u8>) -> (r: Option<String>)
    ensures
        text_opt_view(r) == cid_string(version == CidVersion::V1, codec, hash@),
{
    let mh = cid::multihash::Multihash::<64>::from_bytes(hash).ok()?;
    let v = match version {
        CidVersion::V0 => cid::Version::V0,
        CidVersion::V1 => cid::Version::V1,
    };
    cid::Cid::new(v, codec, mh).ok().map(|c| c.to_string())
}

/// Relies on cid::Cid's FromStr: parses the text form of a CID.
#[verifier::external_body]
fn cid_parse(s: &str) -> (r: Option<(bool, u64, Vec<u8>)>)
    ensures
        match r {
            Some((v1, codec, hash)) => cid_from_string(s@) == Some((v1, codec, hash@)),
            None => cid_from_string(s@) is None,
        },
{
    let c: cid::Cid = s.parse().ok()?;
    Some((c.version() == cid::Version::V1, c.codec(), c.hash().to_bytes()))
}

pub open spec fn text_opt_view(t: Option<String>) -> Option<Seq<char>> {
    match t {
        Some(s) => Some(s@),
        None => None,
    }
}

pub open spec fn legacy_spec(c: CidView) -> CidView {
    CidView { version: c.version, codec: c.codec, hash: c.hash }
}

impl Cid {
    /// The text form of this CID, or `None` if its multihash or version is invalid.
    pub fn to_text(&self) -> (r: Option<String>)
        ensures
            text_opt_view(r) == cid_string(self.version == CidVersion::V1, self.codec, self.hash@),
    {
        cid_text(self.version, self.codec, &self.hash)
    }

    /// Parses the text form of a CID.
    pub fn parse(s: &str) -> (r: Option<Cid>)
        ensures
            match cid_from_string(s@) {
                Some((v1, codec, hash)) => r is Some && r->0@ == (CidView {
                    version: if v1 { CidVersion::V1 } else { CidVersion::V0 },
                    codec,
                    hash,
                }),
                None => r is None,
            },
    {
        match cid_parse(s) {
            Some((v1, codec, hash)) => Some(Cid {
                version: if v1 { CidVersion::V1 } else { CidVersion::V0 },
                codec,
                hash,
            }),
            None => None,
        }
    }

    /// A copy of this CID.
    pub fn duplicate(&self) -> (r: Cid)
        ensures
            r@ == self@,
    {
        Cid { version: self.version, codec: self.codec, hash: self.hash.clone() }
    }

    /// Whether two CIDs have the same version, codec and multihash.
    pub fn same(&self, other: &Cid) -> (r: bool)
        ensures
            r == (self@ == other@),
    {
        self.version == other.version && self.codec == other.codec && bytes_eq(&self.hash, &other.hash)
    }

    /// Converts a CID of the older library into the current form.
    pub fn from_legacy(c: &CidOld) -> (r: Cid)
        ensures
            r@ == legacy_spec(c@),
    {
        Cid { version: c.version, codec: c.codec, hash: c.hash.clone() }
    }

    /// Converts this CID into the older library's form.
    pub fn to_legacy(&self) -> (r: CidOld)
        ensures
            r@ == legacy_spec(self@),
    {
        CidOld { version: self.version, codec: self.codec, hash: self.hash.clone() }
    }
}

/// Converting a CID to the older form and back gives a CID equal to it.
pub proof fn lemma_legacy_round_trip(c: CidView)
    ensures
        legacy_spec(legacy_spec(c)) == c,
{
}

} // verus!
