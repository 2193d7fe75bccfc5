//! Blocks of a commit's CAR archive, and the lookup of an operation's record.
use vstd::prelude::*;
use crate::cid::{Cid, CidView, cid_opt};

verus! {

/// One `(CID, bytes)` pair of a CAR archive.
#[derive(Debug, Clone)]
pub struct Block {
    pub cid: Cid,
    pub data: Vec<u8>,
}

pub ghost struct BlockView {
    pub cid: CidView,
    pub data: Seq<u8>,
}

impl View for Block {
    type V = BlockView;

    open spec fn view(&self) -> BlockView {
        BlockView { cid: self.cid@, data: self.data@ }
    }
}

pub open spec fn blocks_view(v: Seq<Block>) -> Seq<BlockView> {
    v.map_values(|b: Block| b@)
}

/// Why an operation's record could not be found.
#[derive(Debug, Clone)]
pub enum ResolveError {
    /// No block has the operation's CID; carries that CID and the number of blocks.
    ItemNotFound(Option<Cid>, usize),
}

/// Whether `i` is the first block whose CID is `target`.
pub open spec fn first_block_with(bs: Seq<BlockView>, target: Option<CidView>, i: int) -> bool {
    &&& 0 <= i < bs.len()
    &&& target == Some(bs[i].cid)
    &&& forall|j: int| 0 <= j < i ==> target != Some(bs[j].cid)
}

pub open spec fn no_block_with(bs: Seq<BlockView>, target: Option<CidView>) -> bool {
    forall|j: int| 0 <= j < bs.len() ==> target != Some(bs[j].cid)
}

/// Position of the first block with the CID `target`; no block matches an absent CID.
pub fn find_block(blocks: &Vec<Block>, target: &Option<Cid>) -> (r: Option<usize>)
    ensures
        match r {
            Some(i) => first_block_with(blocks_view(blocks@), cid_opt(*target), i as int),
            None => no_block_with(blocks_view(blocks@), cid_opt(*target)),
        },
{
    let ghost bs = blocks_view(blocks@);
    match target {
        None => None,
        Some(t) => {
            assert(bs.len() == blocks@.len());
            assert(cid_opt(*target) == Some(t@));
            let mut i: usize = 0;
            while i < blocks.len()
                invariant
                    bs == blocks_view(blocks@),
                    bs.len() == blocks@.len(),
                    cid_opt(*target) == Some(t@),
                    i <= blocks@.len(),
                    forall|j: int| 0 <= j < i ==> cid_opt(*target) != Some(bs[j].cid),
                decreases blocks@.len() - i,
            {
                assert(bs[i as int] == blocks@[i as int]@);
                if blocks[i].cid.same(t) {
                    return Some(i);
                }
                i = i + 1;
            }
            None
        },
    }
}

/// What looking up `target` among the blocks `bs` gives: the bytes of the
/// first block with that CID, or `ItemNotFound` with the CID and the number of
/// blocks when none has it.
pub open spec fn resolved(target: Option<CidView>, bs: Seq<BlockView>, r: Result<Vec<u8>, ResolveError>) -> bool {
    match r {
        Ok(d) => exists|i: int| first_block_with(bs, target, i) && d@ == bs[i].data,
        Err(ResolveError::ItemNotFound(c, n)) => no_block_with(bs, target) && cid_opt(c) == target && n == bs.len(),
    }
}

/// The bytes of the record that an operation's CID names, among a commit's blocks.
pub fn resolve_block(target: &Option<Cid>, blocks: &Vec<Block>) -> (r: Result<Vec<u8>, ResolveError>)
    ensures
        resolved(cid_opt(*target), blocks_view(blocks@), r),
{
    match find_block(blocks, target) {
        Some(i) => {
            let d = blocks[i].data.clone();
            assert(blocks_view(blocks@)[i as int].data == blocks@[i as int].data@);
            Ok(d)
        },
        None => {
            let c = match target {
                Some(t) => Some(t.duplicate()),
                None => None,
            };
            Err(ResolveError::ItemNotFound(c, blocks.len()))
        },
    }
}

} // verus!
