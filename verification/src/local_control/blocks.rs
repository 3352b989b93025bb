//! Block reads: which command blocks of a terminal a listing or a lookup
//! returns, and how each is summarized.
use vstd::prelude::*;
use crate::json::str_eq;
use crate::local_control::protocol::{ControlError, ErrorCode};
use crate::text::{decimal, decimal_string};

verus! {

/// A command block of a terminal, as far as block reads look at it.
#[derive(Debug, Clone)]
pub struct TerminalBlock {
    pub id: String,
    /// The session the block ran in; blocks outside a session are not read.
    pub session_id: Option<u64>,
    pub command: String,
    pub output: String,
}

/// A block as block reads report it.
#[derive(Debug, Clone)]
pub struct BlockSummary {
    pub block_id: String,
    pub session_id: String,
    pub index: u32,
    /// The command, absent when it is empty.
    pub command: Option<String>,
}

/// Whether `summary` reports `block`, the block at `index` of its list.
pub open spec fn summarizes(summary: BlockSummary, block: TerminalBlock, index: int) -> bool {
    &&& block.session_id matches Some(sid) && summary.session_id@ == decimal(sid as nat)
    &&& summary.block_id@ == block.id@
    &&& summary.index == index as u32
    &&& match summary.command {
        Some(c) => block.command@.len() > 0 && c@ == block.command@,
        None => block.command@.len() == 0,
    }
}

/// The summary of the block at `index`, if it ran in a session.
pub fn block_summary(block: &TerminalBlock, index: usize) -> (summary: Option<BlockSummary>)
    ensures
        match summary {
            Some(s) => summarizes(s, *block, index as int),
            None => block.session_id is None,
        },
{
    let session_id = match block.session_id {
        Some(sid) => sid,
        None => return None,
    };
    let command = if block.command.as_str().is_empty() { None } else { Some(block.command.clone()) };
    Some(BlockSummary {
        block_id: block.id.clone(),
        session_id: decimal_string(session_id),
        index: index as u32,
        command,
    })
}

/// The positions of the blocks that ran in session `session_id`, in order.
pub open spec fn session_block_indices(blocks: Seq<TerminalBlock>, session_id: u64) -> Seq<int>
    decreases blocks.len(),
{
    if blocks.len() == 0 {
        Seq::empty()
    } else if blocks.last().session_id == Some(session_id) {
        session_block_indices(blocks.drop_last(), session_id).push(blocks.len() - 1)
    } else {
        session_block_indices(blocks.drop_last(), session_id)
    }
}

proof fn lemma_session_block_indices(blocks: Seq<TerminalBlock>, session_id: u64)
    ensures
        forall|k: int| 0 <= k < session_block_indices(blocks, session_id).len() ==> {
            let i = #[trigger] session_block_indices(blocks, session_id)[k];
            0 <= i < blocks.len() && blocks[i].session_id == Some(session_id)
        },
    decreases blocks.len(),
{
    if blocks.len() > 0 {
        lemma_session_block_indices(blocks.drop_last(), session_id);
    }
}

/// Where a listing with at most `limit` blocks out of `len` starts: it
/// keeps the latest ones.
pub open spec fn listing_start(len: nat, limit: Option<u32>) -> nat {
    match limit {
        Some(l) => if len > l { (len - l) as nat } else { 0 },
        None => 0,
    }
}

/// The blocks of session `session_id`, at most the latest `limit` of them.
/// A session that was named explicitly and has no blocks is stale.
pub fn block_list_result(
    blocks: &Vec<TerminalBlock>,
    session_id: u64,
    explicit_session: bool,
    limit: Option<u32>,
) -> (result: Result<Vec<BlockSummary>, ControlError>)
    ensures
        ({
            let idx = session_block_indices(blocks@, session_id);
            let start = listing_start(idx.len(), limit);
            match result {
                Ok(listed) => !(explicit_session && idx.len() == 0)
                    && listed@.len() == idx.len() - start
                    && forall|k: int| 0 <= k < listed@.len() ==> summarizes(#[trigger] listed@[k], blocks@[idx[k + start]], idx[k + start]),
                Err(e) => explicit_session && idx.len() == 0 && e.code == ErrorCode::StaleTarget
                    && e.message@ == "block.list cannot resolve the requested session id"@,
            }
        }),
{
    let ghost all = blocks@;
    let n = blocks.len();
    let mut listed: Vec<BlockSummary> = Vec::new();
    let mut i: usize = 0;
    proof {
        lemma_session_block_indices(all, session_id);
    }
    while i < n
        invariant
            n == all.len(),
            all == blocks@,
            i <= n,
            listed@.len() == session_block_indices(all.take(i as int), session_id).len(),
            forall|k: int| 0 <= k < listed@.len() ==> summarizes(#[trigger] listed@[k], all[session_block_indices(all.take(i as int), session_id)[k]], session_block_indices(all.take(i as int), session_id)[k]),
        decreases n - i,
    {
        let ghost before = session_block_indices(all.take(i as int), session_id);
        proof {
            let prefix = all.take(i + 1);
            assert(prefix.drop_last() =~= all.take(i as int));
            assert(prefix.last() == all[i as int]);
            lemma_session_block_indices(all.take(i as int), session_id);
        }
        if blocks[i].session_id == Some(session_id) {
            match block_summary(&blocks[i], i) {
                Some(summary) => {
                    listed.push(summary);
                },
                None => {},
            }
            proof {
                let after = session_block_indices(all.take(i + 1), session_id);
                assert(after == before.push(i as int));
                assert forall|k: int| 0 <= k < listed@.len() implies summarizes(#[trigger] listed@[k], all[after[k]], after[k]) by {
                    if k < before.len() {
                        assert(after[k] == before[k]);
                        assert(0 <= before[k] < i);
                        assert(all.take(i as int)[before[k]] == all[before[k]]);
                    }
                }
            }
        } else {
            proof {
                assert(session_block_indices(all.take(i + 1), session_id) == before);
            }
        }
        i = i + 1;
    }
    proof {
        assert(all.take(n as int) =~= all);
    }
    let ghost idx = session_block_indices(all, session_id);
    if explicit_session && listed.len() == 0 {
        return Err(ControlError::new(
            ErrorCode::StaleTarget,
            "block.list cannot resolve the requested session id".to_owned(),
        ));
    }
    match limit {
        Some(l) => {
            let len = listed.len();
            let start: usize = if l as u64 >= len as u64 { 0 } else { len - l as usize };
            let ghost full = listed@;
            let kept = listed.split_off(start);
            assert(start == listing_start(idx.len(), limit));
            assert forall|k: int| 0 <= k < kept@.len() implies summarizes(#[trigger] kept@[k], all[idx[k + start]], idx[k + start]) by {
                assert(kept@[k] == full[k + start]);
            }
            Ok(kept)
        },
        None => Ok(listed),
    }
}

/// The block with id `block_id` of session `session_id`, with its output.
pub fn block_get_result(blocks: &Vec<TerminalBlock>, session_id: u64, block_id: &str) -> (result: Result<(BlockSummary, String), ControlError>)
    ensures
        match result {
            Ok((summary, output)) => exists|i: int| 0 <= i < blocks@.len()
                && #[trigger] blocks@[i].id@ == block_id@ && blocks@[i].session_id == Some(session_id)
                && summarizes(summary, blocks@[i], i) && output@ == blocks@[i].output@
                && forall|j: int| 0 <= j < i ==> !(#[trigger] blocks@[j].id@ == block_id@ && blocks@[j].session_id == Some(session_id)),
            Err(e) => e.code == ErrorCode::StaleTarget
                && e.message@ == "block.get cannot resolve the requested block id"@
                && forall|j: int| 0 <= j < blocks@.len() ==> !(#[trigger] blocks@[j].id@ == block_id@ && blocks@[j].session_id == Some(session_id)),
        },
{
    let n = blocks.len();
    let mut i: usize = 0;
    while i < n
        invariant
            n == blocks@.len(),
            i <= n,
            forall|j: int| 0 <= j < i ==> !(#[trigger] blocks@[j].id@ == block_id@ && blocks@[j].session_id == Some(session_id)),
        decreases n - i,
    {
        let block = &blocks[i];
        if str_eq(block.id.as_str(), block_id) && block.session_id == Some(session_id) {
            match block_summary(block, i) {
                Some(summary) => {
                    return Ok((summary, block.output.clone()));
                },
                None => {},
            }
        }
        i = i + 1;
    }
    Err(ControlError::new(
        ErrorCode::StaleTarget,
        "block.get cannot resolve the requested block id".to_owned(),
    ))
}

} // verus!
