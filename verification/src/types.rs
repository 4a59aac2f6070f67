//! The data the engine works over: block headers, proposed blocks, and the
//! directive handed to the block importer.
//!
//! The engine treats block contents as opaque: a header is identified by its
//! hash, number and parent hash, an extrinsic is a byte string. What only the
//! runtime can compute (hashes, state roots) is supplied by the collaborators
//! that drive the engine.

use vstd::prelude::*;

verus! {

/// A transaction (or other block-body entry), opaque to the engine.
pub type Extrinsic = Vec<u8>;

/// A finality proof attached to an imported block, opaque to the engine.
pub type Justification = Vec<u8>;

/// A block header, reduced to what the engine reads of it.
#[derive(Clone, Copy, Debug, PartialEq, Eq, Structural)]
pub struct Header {
    /// Hash of this header.
    pub hash: u64,
    /// Hash of the parent header.
    pub parent_hash: u64,
    /// Height of the block in the chain.
    pub number: u64,
}

/// Where a candidate block came from.
#[derive(Clone, Copy, Debug, PartialEq, Eq, Structural)]
pub enum BlockOrigin {
    /// Authored by this node's own proposal pipeline.
    Own,
    /// Received from a peer over the network.
    Peer,
}

/// The rule by which a competing chain is preferred.
#[derive(Clone, Copy, Debug, PartialEq, Eq, Structural)]
pub enum ForkChoiceStrategy {
    /// Prefer the chain of greatest height.
    LongestChain,
}

/// The (header, body) pair a proposer returns; consumed once by the import step.
#[derive(Clone, Debug)]
pub struct ProposedBlock {
    pub header: Header,
    pub body: Vec<Extrinsic>,
}

/// One entry of the auxiliary key/value data carried alongside an import.
#[derive(Clone, Debug)]
pub struct AuxiliaryEntry {
    pub key: Vec<u8>,
    pub value: Option<Vec<u8>>,
}

/// One entry of the side cache a verifier may hand to the import queue.
#[derive(Clone, Debug)]
pub struct CacheEntry {
    pub key: u32,
    pub data: Vec<u8>,
}

/// Everything the block importer is told about one candidate block.
#[derive(Clone, Debug)]
pub struct ImportDirective {
    /// Where the block came from.
    pub origin: BlockOrigin,
    /// The block's header.
    pub header: Header,
    /// A finality proof, if one was delivered with the block.
    pub justification: Option<Justification>,
    /// Digest entries added after authorship; never persisted by this engine.
    pub post_digests: Vec<Vec<u8>>,
    /// The block's body, if it was delivered.
    pub body: Option<Vec<Extrinsic>>,
    /// Whether the block is to be treated as irreversible upon import.
    pub finalized: bool,
    /// Auxiliary key/value data stored with the block.
    pub auxiliary: Vec<AuxiliaryEntry>,
    /// The chain-selection rule to apply on import.
    pub fork_choice: ForkChoiceStrategy,
    /// Whether the importer may accept the block without its parent state.
    pub allow_missing_state: bool,
}

} // verus!
