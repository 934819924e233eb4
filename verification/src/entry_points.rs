//! The entry points that generated transactions call.

use vstd::prelude::*;

verus! {

/// What a loop entry point does in every turn.
#[derive(Clone, Copy, Debug, PartialEq, Eq)]
pub enum LoopType {
    NoOp,
    Arithmetic,
    BcsToBytes { len: u64 },
}

/// An entry point of one of the published packages.
#[derive(Clone, Copy, Debug, PartialEq, Eq)]
pub enum EntryPoints {
    Republish,
    Nop,
    NopFeePayer,
    BytesMakeOrChange { data_length: Option<usize> },
    IncGlobal,
    IncGlobalAggV2,
    ModifyGlobalBoundedAggV2 { step: u64 },
    IncGlobalMilestoneAggV2 { milestone_every: u64 },
    Loop { loop_count: Option<u64>, loop_type: LoopType },
    CreateObjects { num_objects: u64, object_payload_size: u64 },
    CreateObjectsConflict { num_objects: u64, object_payload_size: u64 },
    VectorTrimAppend { vec_len: u64, element_len: u64, index: u64, repeats: u64 },
    VectorRemoveInsert { vec_len: u64, element_len: u64, index: u64, repeats: u64 },
    ResourceGroupsGlobalWriteTag { string_length: usize },
    ResourceGroupsGlobalWriteAndReadTag { string_length: usize },
    ResourceGroupsSenderWriteTag { string_length: usize },
    ResourceGroupsSenderMultiChange { string_length: usize },
    TokenV1MintAndStoreNFTSequential,
    TokenV1MintAndTransferNFTSequential,
    TokenV1MintAndStoreNFTParallel,
    TokenV1MintAndTransferNFTParallel,
    TokenV1MintAndStoreFT,
    TokenV1MintAndTransferFT,
    CoinInitAndMint,
    FungibleAssetMint,
    TokenV2AmbassadorMint { numbered: bool },
    TokenV2AmbassadorBurn,
    LiquidityPoolSwap { is_stable: bool },
    InitializeVectorPicture { length: u64 },
    VectorPicture { length: u64 },
    VectorPictureRead { length: u64 },
    SmartTablePicture { length: u64, num_points_per_txn: u64 },
    DeserializeU256,
    SimpleScript,
    APTTransferWithPermissionedSigner,
    APTTransferWithMasterSigner,
    EconiaRegisterMarket,
    EconiaPlaceRandomLimitOrder,
}

} // verus!
