//! Transaction types with predefined settings, and the mix of them that a
//! workload is made of, phase by phase.

use crate::entry_points::{EntryPoints, LoopType};
use crate::workflow_creator::WorkflowProgress;
use vstd::prelude::*;

verus! {

/// Transaction types with predefined configurations, as they are named on the
/// command line.
#[derive(Clone, Copy, Debug, PartialEq, Eq, Structural)]
pub enum TransactionTypeArg {
    // custom
    CoinTransfer,
    AptFaTransfer,
    CoinTransferWithInvalid,
    NonConflictingCoinTransfer,
    CoinTransferOrderless,
    AptFaTransferOrderless,
    CoinTransferWithInvalidOrderless,
    NonConflictingCoinTransferOrderless,
    AccountGeneration,
    AccountGenerationLargePool,
    Batch100Transfer,
    PublishPackage,
    RepublishAndCall,
    // Simple EntryPoints
    NoOp,
    NoOpOrderless,
    NoOpFeePayer,
    NoOp2Signers,
    NoOp5Signers,
    AccountResource32B,
    AccountResource1KB,
    AccountResource10KB,
    ModifyGlobalResource,
    Loop100k,
    Loop10kArithmetic,
    Loop1kBcs1k,
    ModifyGlobalResourceAggV2,
    ModifyGlobalFlagAggV2,
    ModifyGlobalBoundedAggV2,
    ModifyGlobalMilestoneAggV2,
    // Complex EntryPoints
    CreateObjects10,
    CreateObjects10WithPayload10k,
    CreateObjectsConflict10WithPayload10k,
    CreateObjects100,
    CreateObjects100WithPayload10k,
    CreateObjectsConflict100WithPayload10k,
    VectorTrimAppendLen3000Size1,
    VectorRemoveInsertLen3000Size1,
    ResourceGroupsGlobalWriteTag1KB,
    ResourceGroupsGlobalWriteAndReadTag1KB,
    ResourceGroupsSenderWriteTag1KB,
    ResourceGroupsSenderMultiChange1KB,
    TokenV1NFTMintAndStoreSequential,
    TokenV1NFTMintAndTransferSequential,
    TokenV1NFTMintAndStoreParallel,
    TokenV1NFTMintAndTransferParallel,
    TokenV1FTMintAndStore,
    TokenV1FTMintAndTransfer,
    // register if not registered already
    CoinInitAndMint,
    FungibleAssetMint,
    TokenV2AmbassadorMint,
    TokenV2AmbassadorMintAndBurn1M,
    LiquidityPoolSwap,
    LiquidityPoolSwapStable,
    VectorPictureCreate30k,
    VectorPicture30k,
    VectorPictureRead30k,
    VectorPictureCreate40,
    VectorPicture40,
    VectorPictureRead40,
    SmartTablePicture30KWith200Change,
    SmartTablePicture1MWith256Change,
    SmartTablePicture1BWith256Change,
    SmartTablePicture1MWith1KChangeExceedsLimit,
    DeserializeU256,
    SimpleScript,
    APTTransferWithPermissionedSigner,
    APTTransferWithMasterSigner,
}

impl Default for TransactionTypeArg {
    fn default() -> (arg: Self)
        ensures
            arg == TransactionTypeArg::CoinTransfer,
    {
        TransactionTypeArg::CoinTransfer
    }
}

/// What keeps a transaction from being executed twice.
#[derive(Clone, Copy, Debug, PartialEq, Eq, Structural)]
pub enum ReplayProtectionType {
    SequenceNumber,
    Nonce,
}

/// The workflow of a token.
#[derive(Clone, Copy, Debug, PartialEq, Eq, Structural)]
pub enum TokenWorkflowKind {
    CreateMintBurn { count: usize, creation_balance: u64 },
}

/// A kind of transaction with all its settings. Packages come from the set of
/// packages that is built beforehand.
#[derive(Clone, Debug, PartialEq, Eq)]
pub enum TransactionType {
    CoinTransfer {
        invalid_transaction_ratio: usize,
        sender_use_account_pool: bool,
        non_conflicting: bool,
        use_fa_transfer: bool,
        replay_protection: ReplayProtectionType,
    },
    AccountGeneration {
        add_created_accounts_to_pool: bool,
        max_account_working_set: usize,
        creation_balance: u64,
        replay_protection: ReplayProtectionType,
    },
    PublishPackage {
        use_account_pool: bool,
        package_name: String,
        replay_protection: ReplayProtectionType,
    },
    CallCustomModules {
        entry_point: EntryPoints,
        num_modules: usize,
        use_account_pool: bool,
        replay_protection: ReplayProtectionType,
    },
    CallCustomModulesMix {
        entry_points: Vec<(EntryPoints, usize)>,
        num_modules: usize,
        use_account_pool: bool,
        replay_protection: ReplayProtectionType,
    },
    BatchTransfer {
        batch_size: usize,
        replay_protection: ReplayProtectionType,
    },
    Workflow {
        workflow_kind: TokenWorkflowKind,
        num_modules: usize,
        use_account_pool: bool,
        progress_type: WorkflowProgress,
        replay_protection: ReplayProtectionType,
    },
}

/// What a [`TransactionType`] says beside its replay protection.
#[verifier::ext_equal]
pub enum Shape {
    CoinTransfer {
        invalid_transaction_ratio: usize,
        sender_use_account_pool: bool,
        non_conflicting: bool,
        use_fa_transfer: bool,
    },
    AccountGeneration {
        add_created_accounts_to_pool: bool,
        max_account_working_set: usize,
        creation_balance: u64,
    },
    PublishPackage { use_account_pool: bool, package_name: Seq<char> },
    CallCustomModules { entry_point: EntryPoints, num_modules: usize, use_account_pool: bool },
    CallCustomModulesMix {
        entry_points: Seq<(EntryPoints, usize)>,
        num_modules: usize,
        use_account_pool: bool,
    },
    BatchTransfer { batch_size: usize },
    Workflow {
        workflow_kind: TokenWorkflowKind,
        num_modules: usize,
        use_account_pool: bool,
        progress_type: WorkflowProgress,
    },
}

/// What a [`TransactionType`] says.
#[verifier::ext_equal]
pub struct TransactionTypeView {
    pub shape: Shape,
    pub replay_protection: ReplayProtectionType,
}

impl View for TransactionType {
    type V = TransactionTypeView;

    open spec fn view(&self) -> TransactionTypeView {
        match *self {
            TransactionType::CoinTransfer {
                invalid_transaction_ratio,
                sender_use_account_pool,
                non_conflicting,
                use_fa_transfer,
                replay_protection,
            } => TransactionTypeView {
                shape: Shape::CoinTransfer {
                    invalid_transaction_ratio,
                    sender_use_account_pool,
                    non_conflicting,
                    use_fa_transfer,
                },
                replay_protection,
            },
            TransactionType::AccountGeneration {
                add_created_accounts_to_pool,
                max_account_working_set,
                creation_balance,
                replay_protection,
            } => TransactionTypeView {
                shape: Shape::AccountGeneration {
                    add_created_accounts_to_pool,
                    max_account_working_set,
                    creation_balance,
                },
                replay_protection,
            },
            TransactionType::PublishPackage {
                use_account_pool,
                package_name,
                replay_protection,
            } => TransactionTypeView {
                shape: Shape::PublishPackage { use_account_pool, package_name: package_name@ },
                replay_protection,
            },
            TransactionType::CallCustomModules {
                entry_point,
                num_modules,
                use_account_pool,
                replay_protection,
            } => TransactionTypeView {
                shape: Shape::CallCustomModules { entry_point, num_modules, use_account_pool },
                replay_protection,
            },
            TransactionType::CallCustomModulesMix {
                entry_points,
                num_modules,
                use_account_pool,
                replay_protection,
            } => TransactionTypeView {
                shape: Shape::CallCustomModulesMix {
                    entry_points: entry_points@,
                    num_modules,
                    use_account_pool,
                },
                replay_protection,
            },
            TransactionType::BatchTransfer { batch_size, replay_protection } => {
                TransactionTypeView {
                    shape: Shape::BatchTransfer { batch_size },
                    replay_protection,
                }
            },
            TransactionType::Workflow {
                workflow_kind,
                num_modules,
                use_account_pool,
                progress_type,
                replay_protection,
            } => TransactionTypeView {
                shape: Shape::Workflow {
                    workflow_kind,
                    num_modules,
                    use_account_pool,
                    progress_type,
                },
                replay_protection,
            },
        }
    }
}

/// The type is protected by a nonce instead of a sequence number.
pub open spec fn orderless(arg: TransactionTypeArg) -> bool {
    match arg {
        TransactionTypeArg::CoinTransferOrderless => true,
        TransactionTypeArg::AptFaTransferOrderless => true,
        TransactionTypeArg::CoinTransferWithInvalidOrderless => true,
        TransactionTypeArg::NonConflictingCoinTransferOrderless => true,
        TransactionTypeArg::NoOpOrderless => true,
        _ => false,
    }
}

/// The replay protection of a type.
pub open spec fn replay_protection(arg: TransactionTypeArg) -> ReplayProtectionType {
    if orderless(arg) {
        ReplayProtectionType::Nonce
    } else {
        ReplayProtectionType::SequenceNumber
    }
}

/// The type that differs only in being protected by a sequence number.
pub open spec fn ordered(arg: TransactionTypeArg) -> TransactionTypeArg {
    match arg {
        TransactionTypeArg::CoinTransferOrderless => TransactionTypeArg::CoinTransfer,
        TransactionTypeArg::AptFaTransferOrderless => TransactionTypeArg::AptFaTransfer,
        TransactionTypeArg::CoinTransferWithInvalidOrderless => {
            TransactionTypeArg::CoinTransferWithInvalid
        },
        TransactionTypeArg::NonConflictingCoinTransferOrderless => {
            TransactionTypeArg::NonConflictingCoinTransfer
        },
        TransactionTypeArg::NoOpOrderless => TransactionTypeArg::NoOp,
        _ => arg,
    }
}

/// The entry point that a type with a sequence number calls, where that is all
/// it does.
pub open spec fn entry_point(arg: TransactionTypeArg) -> Option<EntryPoints> {
    match arg {
        TransactionTypeArg::AccountResource32B => Some(
            EntryPoints::BytesMakeOrChange { data_length: Some(32) },
        ),
        TransactionTypeArg::AccountResource1KB => Some(
            EntryPoints::BytesMakeOrChange { data_length: Some(1024) },
        ),
        TransactionTypeArg::AccountResource10KB => Some(
            EntryPoints::BytesMakeOrChange { data_length: Some(10_240) },
        ),
        TransactionTypeArg::ModifyGlobalResource => Some(EntryPoints::IncGlobal),
        TransactionTypeArg::ModifyGlobalResourceAggV2 => Some(EntryPoints::IncGlobalAggV2),
        TransactionTypeArg::ModifyGlobalFlagAggV2 => Some(
            EntryPoints::ModifyGlobalBoundedAggV2 { step: 100 },
        ),
        TransactionTypeArg::ModifyGlobalBoundedAggV2 => Some(
            EntryPoints::ModifyGlobalBoundedAggV2 { step: 10 },
        ),
        TransactionTypeArg::ModifyGlobalMilestoneAggV2 => Some(
            EntryPoints::IncGlobalMilestoneAggV2 { milestone_every: 1000 },
        ),
        TransactionTypeArg::NoOp => Some(EntryPoints::Nop),
        TransactionTypeArg::NoOpFeePayer => Some(EntryPoints::NopFeePayer),
        TransactionTypeArg::NoOp2Signers => Some(EntryPoints::Nop),
        TransactionTypeArg::NoOp5Signers => Some(EntryPoints::Nop),
        TransactionTypeArg::Loop100k => Some(
            EntryPoints::Loop { loop_count: Some(100_000), loop_type: LoopType::NoOp },
        ),
        TransactionTypeArg::Loop10kArithmetic => Some(
            EntryPoints::Loop { loop_count: Some(10_000), loop_type: LoopType::Arithmetic },
        ),
        TransactionTypeArg::Loop1kBcs1k => Some(
            EntryPoints::Loop {
                loop_count: Some(1000),
                loop_type: LoopType::BcsToBytes { len: 1024 },
            },
        ),
        TransactionTypeArg::CreateObjects10 => Some(
            EntryPoints::CreateObjects { num_objects: 10, object_payload_size: 0 },
        ),
        TransactionTypeArg::CreateObjects10WithPayload10k => Some(
            EntryPoints::CreateObjects { num_objects: 10, object_payload_size: 10_240 },
        ),
        TransactionTypeArg::CreateObjectsConflict10WithPayload10k => Some(
            EntryPoints::CreateObjectsConflict { num_objects: 10, object_payload_size: 10_240 },
        ),
        TransactionTypeArg::CreateObjects100 => Some(
            EntryPoints::CreateObjects { num_objects: 100, object_payload_size: 0 },
        ),
        TransactionTypeArg::CreateObjects100WithPayload10k => Some(
            EntryPoints::CreateObjects { num_objects: 100, object_payload_size: 10_240 },
        ),
        TransactionTypeArg::CreateObjectsConflict100WithPayload10k => Some(
            EntryPoints::CreateObjectsConflict { num_objects: 100, object_payload_size: 10_240 },
        ),
        TransactionTypeArg::VectorTrimAppendLen3000Size1 => Some(
            EntryPoints::VectorTrimAppend {
                vec_len: 3000,
                element_len: 1,
                index: 100,
                repeats: 1000,
            },
        ),
        TransactionTypeArg::VectorRemoveInsertLen3000Size1 => Some(
            EntryPoints::VectorRemoveInsert {
                vec_len: 3000,
                element_len: 1,
                index: 100,
                repeats: 1000,
            },
        ),
        TransactionTypeArg::ResourceGroupsGlobalWriteTag1KB => Some(
            EntryPoints::ResourceGroupsGlobalWriteTag { string_length: 1024 },
        ),
        TransactionTypeArg::ResourceGroupsGlobalWriteAndReadTag1KB => Some(
            EntryPoints::ResourceGroupsGlobalWriteAndReadTag { string_length: 1024 },
        ),
        TransactionTypeArg::ResourceGroupsSenderWriteTag1KB => Some(
            EntryPoints::ResourceGroupsSenderWriteTag { string_length: 1024 },
        ),
        TransactionTypeArg::ResourceGroupsSenderMultiChange1KB => Some(
            EntryPoints::ResourceGroupsSenderMultiChange { string_length: 1024 },
        ),
        TransactionTypeArg::TokenV1NFTMintAndStoreSequential => Some(
            EntryPoints::TokenV1MintAndStoreNFTSequential,
        ),
        TransactionTypeArg::TokenV1NFTMintAndTransferSequential => Some(
            EntryPoints::TokenV1MintAndTransferNFTSequential,
        ),
        TransactionTypeArg::TokenV1NFTMintAndStoreParallel => Some(
            EntryPoints::TokenV1MintAndStoreNFTParallel,
        ),
        TransactionTypeArg::TokenV1NFTMintAndTransferParallel => Some(
            EntryPoints::TokenV1MintAndTransferNFTParallel,
        ),
        TransactionTypeArg::TokenV1FTMintAndStore => Some(EntryPoints::TokenV1MintAndStoreFT),
        TransactionTypeArg::TokenV1FTMintAndTransfer => Some(EntryPoints::TokenV1MintAndTransferFT),
        TransactionTypeArg::CoinInitAndMint => Some(EntryPoints::CoinInitAndMint),
        TransactionTypeArg::FungibleAssetMint => Some(EntryPoints::FungibleAssetMint),
        TransactionTypeArg::TokenV2AmbassadorMint => Some(
            EntryPoints::TokenV2AmbassadorMint { numbered: true },
        ),
        TransactionTypeArg::LiquidityPoolSwap => Some(
            EntryPoints::LiquidityPoolSwap { is_stable: false },
        ),
        TransactionTypeArg::LiquidityPoolSwapStable => Some(
            EntryPoints::LiquidityPoolSwap { is_stable: true },
        ),
        TransactionTypeArg::VectorPictureCreate30k => Some(
            EntryPoints::InitializeVectorPicture { length: 30_720 },
        ),
        TransactionTypeArg::VectorPicture30k => Some(EntryPoints::VectorPicture { length: 30_720 }),
        TransactionTypeArg::VectorPictureRead30k => Some(
            EntryPoints::VectorPictureRead { length: 30_720 },
        ),
        TransactionTypeArg::VectorPictureCreate40 => Some(
            EntryPoints::InitializeVectorPicture { length: 40 },
        ),
        TransactionTypeArg::VectorPicture40 => Some(EntryPoints::VectorPicture { length: 40 }),
        TransactionTypeArg::VectorPictureRead40 => Some(
            EntryPoints::VectorPictureRead { length: 40 },
        ),
        TransactionTypeArg::SmartTablePicture30KWith200Change => Some(
            EntryPoints::SmartTablePicture { length: 30_720, num_points_per_txn: 200 },
        ),
        TransactionTypeArg::SmartTablePicture1MWith256Change => Some(
            EntryPoints::SmartTablePicture { length: 1_048_576, num_points_per_txn: 256 },
        ),
        TransactionTypeArg::SmartTablePicture1BWith256Change => Some(
            EntryPoints::SmartTablePicture { length: 1_073_741_824, num_points_per_txn: 256 },
        ),
        TransactionTypeArg::SmartTablePicture1MWith1KChangeExceedsLimit => Some(
            EntryPoints::SmartTablePicture { length: 1_048_576, num_points_per_txn: 1024 },
        ),
        TransactionTypeArg::DeserializeU256 => Some(EntryPoints::DeserializeU256),
        TransactionTypeArg::SimpleScript => Some(EntryPoints::SimpleScript),
        TransactionTypeArg::APTTransferWithPermissionedSigner => Some(
            EntryPoints::APTTransferWithPermissionedSigner,
        ),
        TransactionTypeArg::APTTransferWithMasterSigner => Some(
            EntryPoints::APTTransferWithMasterSigner,
        ),
        _ => None,
    }
}

/// What a transfer type with a sequence number transfers.
pub open spec fn coin_transfer(arg: TransactionTypeArg, use_account_pool: bool) -> Option<Shape> {
    let plain = Shape::CoinTransfer {
        invalid_transaction_ratio: 0,
        sender_use_account_pool: use_account_pool,
        non_conflicting: false,
        use_fa_transfer: false,
    };
    match arg {
        TransactionTypeArg::CoinTransfer => Some(plain),
        TransactionTypeArg::AptFaTransfer => Some(
            Shape::CoinTransfer {
                invalid_transaction_ratio: 0,
                sender_use_account_pool: use_account_pool,
                non_conflicting: false,
                use_fa_transfer: true,
            },
        ),
        TransactionTypeArg::NonConflictingCoinTransfer => Some(
            Shape::CoinTransfer {
                invalid_transaction_ratio: 0,
                sender_use_account_pool: use_account_pool,
                non_conflicting: true,
                use_fa_transfer: false,
            },
        ),
        TransactionTypeArg::CoinTransferWithInvalid => Some(
            Shape::CoinTransfer {
                invalid_transaction_ratio: 10,
                sender_use_account_pool: use_account_pool,
                non_conflicting: false,
                use_fa_transfer: false,
            },
        ),
        _ => None,
    }
}

/// What a type does, apart from its replay protection.
pub open spec fn shape(
    arg: TransactionTypeArg,
    num_modules: usize,
    use_account_pool: bool,
    progress_type: WorkflowProgress,
) -> Shape {
    let arg = ordered(arg);
    if let Some(transfer) = coin_transfer(arg, use_account_pool) {
        transfer
    } else if let Some(entry_point) = entry_point(arg) {
        Shape::CallCustomModules { entry_point, num_modules, use_account_pool }
    } else {
        match arg {
            TransactionTypeArg::AccountGeneration => Shape::AccountGeneration {
                add_created_accounts_to_pool: true,
                max_account_working_set: 1_000_000,
                creation_balance: 0,
            },
            TransactionTypeArg::AccountGenerationLargePool => Shape::AccountGeneration {
                add_created_accounts_to_pool: true,
                max_account_working_set: 50_000_000,
                creation_balance: 200_000_000,
            },
            TransactionTypeArg::Batch100Transfer => Shape::BatchTransfer { batch_size: 100 },
            TransactionTypeArg::PublishPackage => Shape::PublishPackage {
                use_account_pool,
                package_name: "simple"@,
            },
            TransactionTypeArg::RepublishAndCall => Shape::CallCustomModulesMix {
                entry_points: seq![(EntryPoints::Nop, 1usize), (EntryPoints::Republish, 1usize)],
                num_modules,
                use_account_pool,
            },
            _ => Shape::Workflow {
                workflow_kind: TokenWorkflowKind::CreateMintBurn {
                    count: 10_000,
                    creation_balance: 200_000,
                },
                num_modules: 1,
                use_account_pool,
                progress_type,
            },
        }
    }
}

/// The transaction type that an argument stands for.
pub open spec fn materialized(
    arg: TransactionTypeArg,
    num_modules: usize,
    use_account_pool: bool,
    progress_type: WorkflowProgress,
) -> TransactionTypeView {
    TransactionTypeView {
        shape: shape(arg, num_modules, use_account_pool, progress_type),
        replay_protection: replay_protection(arg),
    }
}

/// The settings of a call of custom modules.
struct CustomModules {
    num_modules: usize,
    use_account_pool: bool,
}

impl CustomModules {
    fn call(
        &self,
        entry_point: EntryPoints,
        replay_protection: ReplayProtectionType,
    ) -> (transaction_type: TransactionType)
        ensures
            transaction_type@ == (TransactionTypeView {
                shape: Shape::CallCustomModules {
                    entry_point,
                    num_modules: self.num_modules,
                    use_account_pool: self.use_account_pool,
                },
                replay_protection,
            }),
    {
        TransactionType::CallCustomModules {
            entry_point,
            num_modules: self.num_modules,
            use_account_pool: self.use_account_pool,
            replay_protection,
        }
    }
}

impl TransactionTypeArg {
    /// The transaction type with one copy of the modules, without an account
    /// pool, and with the given default for the progress of workflows.
    pub fn materialize_default(
        &self,
        default_progress: WorkflowProgress,
    ) -> (transaction_type: TransactionType)
        ensures
            transaction_type@ == materialized(*self, 1, false, default_progress),
    {
        self.materialize(1, false, default_progress)
    }

    /// The transaction type that the argument stands for.
    pub fn materialize(
        &self,
        module_working_set_size: usize,
        sender_use_account_pool: bool,
        workflow_progress_type: WorkflowProgress,
    ) -> (transaction_type: TransactionType)
        ensures
            transaction_type@ == materialized(
                *self,
                module_working_set_size,
                sender_use_account_pool,
                workflow_progress_type,
            ),
    {
        let custom = CustomModules {
            num_modules: module_working_set_size,
            use_account_pool: sender_use_account_pool,
        };
        let sequence = ReplayProtectionType::SequenceNumber;
        let nonce = ReplayProtectionType::Nonce;
        match self {
            TransactionTypeArg::CoinTransfer => TransactionType::CoinTransfer {
                invalid_transaction_ratio: 0,
                sender_use_account_pool,
                non_conflicting: false,
                use_fa_transfer: false,
                replay_protection: ReplayProtectionType::SequenceNumber,
            },
            TransactionTypeArg::AptFaTransfer => TransactionType::CoinTransfer {
                invalid_transaction_ratio: 0,
                sender_use_account_pool,
                non_conflicting: false,
                use_fa_transfer: true,
                replay_protection: ReplayProtectionType::SequenceNumber,
            },
            TransactionTypeArg::NonConflictingCoinTransfer => TransactionType::CoinTransfer {
                invalid_transaction_ratio: 0,
                sender_use_account_pool,
                non_conflicting: true,
                use_fa_transfer: false,
                replay_protection: ReplayProtectionType::SequenceNumber,
            },
            TransactionTypeArg::CoinTransferWithInvalid => TransactionType::CoinTransfer {
                invalid_transaction_ratio: 10,
                sender_use_account_pool,
                non_conflicting: false,
                use_fa_transfer: false,
                replay_protection: ReplayProtectionType::SequenceNumber,
            },
            TransactionTypeArg::CoinTransferOrderless => TransactionType::CoinTransfer {
                invalid_transaction_ratio: 0,
                sender_use_account_pool,
                non_conflicting: false,
                use_fa_transfer: false,
                replay_protection: ReplayProtectionType::Nonce,
            },
            TransactionTypeArg::AptFaTransferOrderless => TransactionType::CoinTransfer {
                invalid_transaction_ratio: 0,
                sender_use_account_pool,
                non_conflicting: false,
                use_fa_transfer: true,
                replay_protection: ReplayProtectionType::Nonce,
            },
            TransactionTypeArg::NonConflictingCoinTransferOrderless => {
                TransactionType::CoinTransfer {
                    invalid_transaction_ratio: 0,
                    sender_use_account_pool,
                    non_conflicting: true,
                    use_fa_transfer: false,
                    replay_protection: ReplayProtectionType::Nonce,
                }
            },
            TransactionTypeArg::CoinTransferWithInvalidOrderless => TransactionType::CoinTransfer {
                invalid_transaction_ratio: 10,
                sender_use_account_pool,
                non_conflicting: false,
                use_fa_transfer: false,
                replay_protection: ReplayProtectionType::Nonce,
            },
            TransactionTypeArg::AccountGeneration => TransactionType::AccountGeneration {
                add_created_accounts_to_pool: true,
                max_account_working_set: 1_000_000,
                creation_balance: 0,
                replay_protection: ReplayProtectionType::SequenceNumber,
            },
            TransactionTypeArg::AccountGenerationLargePool => TransactionType::AccountGeneration {
                add_created_accounts_to_pool: true,
                max_account_working_set: 50_000_000,
                creation_balance: 200_000_000,
                replay_protection: ReplayProtectionType::SequenceNumber,
            },
            TransactionTypeArg::PublishPackage => TransactionType::PublishPackage {
                use_account_pool: sender_use_account_pool,
                package_name: String::from_str("simple"),
                replay_protection: ReplayProtectionType::SequenceNumber,
            },
            TransactionTypeArg::Batch100Transfer => TransactionType::BatchTransfer {
                batch_size: 100,
                replay_protection: ReplayProtectionType::SequenceNumber,
            },
            TransactionTypeArg::RepublishAndCall => TransactionType::CallCustomModulesMix {
                entry_points: vec![(EntryPoints::Nop, 1), (EntryPoints::Republish, 1)],
                num_modules: module_working_set_size,
                use_account_pool: sender_use_account_pool,
                replay_protection: ReplayProtectionType::SequenceNumber,
            },
            TransactionTypeArg::TokenV2AmbassadorMintAndBurn1M => TransactionType::Workflow {
                workflow_kind: TokenWorkflowKind::CreateMintBurn {
                    count: 10000,
                    creation_balance: 200000,
                },
                num_modules: 1,
                use_account_pool: sender_use_account_pool,
                progress_type: workflow_progress_type,
                replay_protection: ReplayProtectionType::SequenceNumber,
            },
            TransactionTypeArg::AccountResource32B => {
                custom.call(EntryPoints::BytesMakeOrChange { data_length: Some(32) }, sequence)
            },
            TransactionTypeArg::AccountResource1KB => {
                custom.call(EntryPoints::BytesMakeOrChange { data_length: Some(1024) }, sequence)
            },
            TransactionTypeArg::AccountResource10KB => {
                custom.call(
                    EntryPoints::BytesMakeOrChange { data_length: Some(10 * 1024) },
                    sequence,
                )
            },
            TransactionTypeArg::ModifyGlobalResource => {
                custom.call(EntryPoints::IncGlobal, sequence)
            },
            TransactionTypeArg::ModifyGlobalResourceAggV2 => {
                custom.call(EntryPoints::IncGlobalAggV2, sequence)
            },
            TransactionTypeArg::ModifyGlobalFlagAggV2 => {
                custom.call(EntryPoints::ModifyGlobalBoundedAggV2 { step: 100 }, sequence)
            },
            TransactionTypeArg::ModifyGlobalBoundedAggV2 => {
                custom.call(EntryPoints::ModifyGlobalBoundedAggV2 { step: 10 }, sequence)
            },
            TransactionTypeArg::ModifyGlobalMilestoneAggV2 => {
                custom.call(
                    EntryPoints::IncGlobalMilestoneAggV2 { milestone_every: 1000 },
                    sequence,
                )
            },
            TransactionTypeArg::NoOp => {
                custom.call(EntryPoints::Nop, sequence)
            },
            TransactionTypeArg::NoOpOrderless => {
                custom.call(EntryPoints::Nop, nonce)
            },
            TransactionTypeArg::NoOpFeePayer => {
                custom.call(EntryPoints::NopFeePayer, sequence)
            },
            TransactionTypeArg::NoOp2Signers => {
                custom.call(EntryPoints::Nop, sequence)
            },
            TransactionTypeArg::NoOp5Signers => {
                custom.call(EntryPoints::Nop, sequence)
            },
            TransactionTypeArg::Loop100k => {
                custom.call(
                    EntryPoints::Loop { loop_count: Some(100000), loop_type: LoopType::NoOp },
                    sequence,
                )
            },
            TransactionTypeArg::Loop10kArithmetic => {
                custom.call(
                    EntryPoints::Loop { loop_count: Some(10000), loop_type: LoopType::Arithmetic },
                    sequence,
                )
            },
            TransactionTypeArg::Loop1kBcs1k => {
                custom.call(
                    EntryPoints::Loop {
                        loop_count: Some(1000),
                        loop_type: LoopType::BcsToBytes { len: 1024 },
                    },
                    sequence,
                )
            },
            TransactionTypeArg::CreateObjects10 => {
                custom.call(
                    EntryPoints::CreateObjects { num_objects: 10, object_payload_size: 0 },
                    sequence,
                )
            },
            TransactionTypeArg::CreateObjects10WithPayload10k => {
                custom.call(
                    EntryPoints::CreateObjects { num_objects: 10, object_payload_size: 10 * 1024 },
                    sequence,
                )
            },
            TransactionTypeArg::CreateObjectsConflict10WithPayload10k => {
                custom.call(
                    EntryPoints::CreateObjectsConflict {
                        num_objects: 10,
                        object_payload_size: 10 * 1024,
                    },
                    sequence,
                )
            },
            TransactionTypeArg::CreateObjects100 => {
                custom.call(
                    EntryPoints::CreateObjects { num_objects: 100, object_payload_size: 0 },
                    sequence,
                )
            },
            TransactionTypeArg::CreateObjects100WithPayload10k => {
                custom.call(
                    EntryPoints::CreateObjects { num_objects: 100, object_payload_size: 10 * 1024 },
                    sequence,
                )
            },
            TransactionTypeArg::CreateObjectsConflict100WithPayload10k => {
                custom.call(
                    EntryPoints::CreateObjectsConflict {
                        num_objects: 100,
                        object_payload_size: 10 * 1024,
                    },
                    sequence,
                )
            },
            TransactionTypeArg::VectorTrimAppendLen3000Size1 => {
                custom.call(
                    EntryPoints::VectorTrimAppend {
                        vec_len: 3000,
                        element_len: 1,
                        index: 100,
                        repeats: 1000,
                    },
                    sequence,
                )
            },
            TransactionTypeArg::VectorRemoveInsertLen3000Size1 => {
                custom.call(
                    EntryPoints::VectorRemoveInsert {
                        vec_len: 3000,
                        element_len: 1,
                        index: 100,
                        repeats: 1000,
                    },
                    sequence,
                )
            },
            TransactionTypeArg::ResourceGroupsGlobalWriteTag1KB => {
                custom.call(
                    EntryPoints::ResourceGroupsGlobalWriteTag { string_length: 1024 },
                    sequence,
                )
            },
            TransactionTypeArg::ResourceGroupsGlobalWriteAndReadTag1KB => {
                custom.call(
                    EntryPoints::ResourceGroupsGlobalWriteAndReadTag { string_length: 1024 },
                    sequence,
                )
            },
            TransactionTypeArg::ResourceGroupsSenderWriteTag1KB => {
                custom.call(
                    EntryPoints::ResourceGroupsSenderWriteTag { string_length: 1024 },
                    sequence,
                )
            },
            TransactionTypeArg::ResourceGroupsSenderMultiChange1KB => {
                custom.call(
                    EntryPoints::ResourceGroupsSenderMultiChange { string_length: 1024 },
                    sequence,
                )
            },
            TransactionTypeArg::TokenV1NFTMintAndStoreSequential => {
                custom.call(EntryPoints::TokenV1MintAndStoreNFTSequential, sequence)
            },
            TransactionTypeArg::TokenV1NFTMintAndTransferSequential => {
                custom.call(EntryPoints::TokenV1MintAndTransferNFTSequential, sequence)
            },
            TransactionTypeArg::TokenV1NFTMintAndStoreParallel => {
                custom.call(EntryPoints::TokenV1MintAndStoreNFTParallel, sequence)
            },
            TransactionTypeArg::TokenV1NFTMintAndTransferParallel => {
                custom.call(EntryPoints::TokenV1MintAndTransferNFTParallel, sequence)
            },
            TransactionTypeArg::TokenV1FTMintAndStore => {
                custom.call(EntryPoints::TokenV1MintAndStoreFT, sequence)
            },
            TransactionTypeArg::TokenV1FTMintAndTransfer => {
                custom.call(EntryPoints::TokenV1MintAndTransferFT, sequence)
            },
            TransactionTypeArg::CoinInitAndMint => {
                custom.call(EntryPoints::CoinInitAndMint, sequence)
            },
            TransactionTypeArg::FungibleAssetMint => {
                custom.call(EntryPoints::FungibleAssetMint, sequence)
            },
            TransactionTypeArg::TokenV2AmbassadorMint => {
                custom.call(EntryPoints::TokenV2AmbassadorMint { numbered: true }, sequence)
            },
            TransactionTypeArg::LiquidityPoolSwap => {
                custom.call(EntryPoints::LiquidityPoolSwap { is_stable: false }, sequence)
            },
            TransactionTypeArg::LiquidityPoolSwapStable => {
                custom.call(EntryPoints::LiquidityPoolSwap { is_stable: true }, sequence)
            },
            TransactionTypeArg::VectorPictureCreate30k => {
                custom.call(EntryPoints::InitializeVectorPicture { length: 30 * 1024 }, sequence)
            },
            TransactionTypeArg::VectorPicture30k => {
                custom.call(EntryPoints::VectorPicture { length: 30 * 1024 }, sequence)
            },
            TransactionTypeArg::VectorPictureRead30k => {
                custom.call(EntryPoints::VectorPictureRead { length: 30 * 1024 }, sequence)
            },
            TransactionTypeArg::VectorPictureCreate40 => {
                custom.call(EntryPoints::InitializeVectorPicture { length: 40 }, sequence)
            },
            TransactionTypeArg::VectorPicture40 => {
                custom.call(EntryPoints::VectorPicture { length: 40 }, sequence)
            },
            TransactionTypeArg::VectorPictureRead40 => {
                custom.call(EntryPoints::VectorPictureRead { length: 40 }, sequence)
            },
            TransactionTypeArg::SmartTablePicture30KWith200Change => {
                custom.call(
                    EntryPoints::SmartTablePicture { length: 30 * 1024, num_points_per_txn: 200 },
                    sequence,
                )
            },
            TransactionTypeArg::SmartTablePicture1MWith256Change => {
                custom.call(
                    EntryPoints::SmartTablePicture { length: 1024 * 1024, num_points_per_txn: 256 },
                    sequence,
                )
            },
            TransactionTypeArg::SmartTablePicture1BWith256Change => {
                custom.call(
                    EntryPoints::SmartTablePicture {
                        length: 1024 * 1024 * 1024,
                        num_points_per_txn: 256,
                    },
                    sequence,
                )
            },
            TransactionTypeArg::SmartTablePicture1MWith1KChangeExceedsLimit => {
                custom.call(
                    EntryPoints::SmartTablePicture {
                        length: 1024 * 1024,
                        num_points_per_txn: 1024,
                    },
                    sequence,
                )
            },
            TransactionTypeArg::DeserializeU256 => {
                custom.call(EntryPoints::DeserializeU256, sequence)
            },
            TransactionTypeArg::SimpleScript => {
                custom.call(EntryPoints::SimpleScript, sequence)
            },
            TransactionTypeArg::APTTransferWithPermissionedSigner => {
                custom.call(EntryPoints::APTTransferWithPermissionedSigner, sequence)
            },
            TransactionTypeArg::APTTransferWithMasterSigner => {
                custom.call(EntryPoints::APTTransferWithMasterSigner, sequence)
            },
        }
    }
}

/// One more than the highest phase.
pub open spec fn phase_count(phases: Seq<usize>) -> int
    decreases phases.len(),
{
    if phases.len() == 0 {
        0
    } else if phases.last() >= phase_count(phases.drop_last()) {
        phases.last() + 1
    } else {
        phase_count(phases.drop_last())
    }
}

/// Every phase was there before, or comes directly behind those that were.
pub open spec fn no_phase_skipped(phases: Seq<usize>) -> bool {
    forall|i: int| 0 <= i < phases.len() ==> phases[i] <= phase_count(#[trigger] phases.take(i))
}

/// The weights in use: where none are given, all are one.
pub open spec fn weights_in_use(weights: Seq<usize>, num_types: nat) -> Seq<usize> {
    if weights.len() == 0 {
        Seq::new(num_types, |i: int| 1usize)
    } else {
        weights
    }
}

/// The phases in use: where none are given, all types are in the first.
pub open spec fn phases_in_use(phases: Seq<usize>, num_types: nat) -> Seq<usize> {
    if phases.len() == 0 {
        Seq::new(num_types, |i: int| 0usize)
    } else {
        phases
    }
}

/// The types of one phase with their weights, in the order given.
pub open spec fn phase_mix(
    types: Seq<TransactionTypeView>,
    weights: Seq<usize>,
    phases: Seq<usize>,
    phase: int,
) -> Seq<(TransactionTypeView, usize)>
    decreases types.len(),
{
    if types.len() == 0 {
        Seq::empty()
    } else {
        let before = phase_mix(types.drop_last(), weights.drop_last(), phases.drop_last(), phase);
        if phases.last() == phase {
            before.push((types.last(), weights.last()))
        } else {
            before
        }
    }
}

/// The types of all phases.
pub open spec fn mix_per_phase(
    types: Seq<TransactionTypeView>,
    weights: Seq<usize>,
    phases: Seq<usize>,
) -> Seq<Seq<(TransactionTypeView, usize)>> {
    Seq::new(phase_count(phases) as nat, |phase: int| phase_mix(types, weights, phases, phase))
}

/// What a mix of one phase says.
pub open spec fn mix_view(
    mix: Seq<(TransactionType, usize)>,
) -> Seq<(TransactionTypeView, usize)> {
    mix.map_values(|entry: (TransactionType, usize)| (entry.0@, entry.1))
}

/// What the mixes of all phases say.
pub open spec fn mixes_view(
    mixes: Seq<Vec<(TransactionType, usize)>>,
) -> Seq<Seq<(TransactionTypeView, usize)>> {
    mixes.map_values(|mix: Vec<(TransactionType, usize)>| mix_view(mix@))
}

/// The transaction types that some arguments stand for.
pub open spec fn all_materialized(
    args: Seq<TransactionTypeArg>,
    num_modules: usize,
    use_account_pool: bool,
    progress_type: WorkflowProgress,
) -> Seq<TransactionTypeView> {
    args.map_values(
        |arg: TransactionTypeArg| materialized(arg, num_modules, use_account_pool, progress_type),
    )
}

fn all_equal(value: usize, count: usize) -> (values: Vec<usize>)
    ensures
        values@ == Seq::new(count as nat, |i: int| value),
{
    let mut values: Vec<usize> = Vec::new();
    let mut i: usize = 0;
    while i < count
        invariant
            i <= count,
            values@ == Seq::new(i as nat, |j: int| value),
        decreases count - i,
    {
        values.push(value);
        i += 1;
    }
    values
}

fn copied(values: &[usize]) -> (copy: Vec<usize>)
    ensures
        copy@ == values@,
{
    let mut copy: Vec<usize> = Vec::new();
    let mut i: usize = 0;
    while i < values.len()
        invariant
            i <= values.len(),
            copy@ == values@.take(i as int),
        decreases values.len() - i,
    {
        copy.push(values[i]);
        i += 1;
    }
    copy
}

/// The number of phases is at most the number of types.
proof fn lemma_phase_count(phases: Seq<usize>)
    requires
        no_phase_skipped(phases),
    ensures
        0 <= phase_count(phases) <= phases.len(),
        forall|i: int| 0 <= i < phases.len() ==> #[trigger] phases[i] < phase_count(phases),
        no_phase_skipped(phases.drop_last()) || phases.len() == 0,
    decreases phases.len(),
{
    if phases.len() > 0 {
        let before = phases.drop_last();
        assert forall|i: int| 0 <= i < before.len() implies before[i] <= phase_count(
            #[trigger] before.take(i),
        ) by {
            assert(before[i] == phases[i]);
            assert(before.take(i) =~= phases.take(i));
        }
        lemma_phase_count(before);
        let n = phases.len() - 1;
        assert(phases[n] <= phase_count(phases.take(n)));
        assert(phases.take(n) =~= before);
        assert forall|i: int| 0 <= i < phases.len() implies #[trigger] phases[i] < phase_count(
            phases,
        ) by {
            if i < n {
                assert(before[i] == phases[i]);
            }
        }
    }
}

/// A phase that no type is in has no types.
proof fn lemma_phase_behind_all(
    types: Seq<TransactionTypeView>,
    weights: Seq<usize>,
    phases: Seq<usize>,
    phase: int,
)
    requires
        types.len() == phases.len(),
        types.len() == weights.len(),
        phase >= phase_count(phases),
    ensures
        phase_mix(types, weights, phases, phase) == Seq::<(TransactionTypeView, usize)>::empty(),
    decreases types.len(),
{
    if types.len() > 0 {
        lemma_phase_behind_all(
            types.drop_last(),
            weights.drop_last(),
            phases.drop_last(),
            phase,
        );
    }
}

impl TransactionTypeArg {
    /// The mix of every phase. Without weights every type weighs one, and
    /// without phases all types are in the first.
    pub fn args_to_transaction_mix_per_phase(
        transaction_types: &[TransactionTypeArg],
        transaction_weights: &[usize],
        transaction_phases: &[usize],
        module_working_set_size: usize,
        sender_use_account_pool: bool,
        workflow_progress_type: WorkflowProgress,
    ) -> (mixes: Vec<Vec<(TransactionType, usize)>>)
        requires
            transaction_weights@.len() == 0 || transaction_weights@.len()
                == transaction_types@.len(),
            transaction_phases@.len() == 0 || transaction_phases@.len() == transaction_types@.len(),
            no_phase_skipped(transaction_phases@),
        ensures
            mixes_view(mixes@) == mix_per_phase(
                all_materialized(
                    transaction_types@,
                    module_working_set_size,
                    sender_use_account_pool,
                    workflow_progress_type,
                ),
                weights_in_use(transaction_weights@, transaction_types@.len()),
                phases_in_use(transaction_phases@, transaction_types@.len()),
            ),
            forall|phase: int, x: int|
                0 <= phase < mixes@.len() && 0 <= x < mixes@[phase]@.len()
                    ==> crate::mix_laws::has_settings(
                    (#[trigger] mixes@[phase]@[x]).0@.shape,
                    module_working_set_size,
                    sender_use_account_pool,
                    workflow_progress_type,
                ),
    {
        let count = transaction_types.len();
        let weights = if transaction_weights.len() == 0 {
            all_equal(1, count)
        } else {
            copied(transaction_weights)
        };
        let phases = if transaction_phases.len() == 0 {
            all_equal(0, count)
        } else {
            copied(transaction_phases)
        };
        let ghost types = all_materialized(
            transaction_types@,
            module_working_set_size,
            sender_use_account_pool,
            workflow_progress_type,
        );
        assert(weights@ =~= weights_in_use(transaction_weights@, count as nat));
        assert(phases@ =~= phases_in_use(transaction_phases@, count as nat));
        assert(no_phase_skipped(phases@)) by {
            if transaction_phases@.len() == 0 {
                assert forall|i: int| 0 <= i < phases@.len() implies phases@[i]
                    <= phase_count(#[trigger] phases@.take(i)) by {
                    lemma_no_phase_below_zero(phases@.take(i));
                }
            }
        }

        let mut mixes: Vec<Vec<(TransactionType, usize)>> = Vec::new();
        let mut i: usize = 0;
        assert(mixes_view(mixes@) =~= mix_per_phase(
            types.take(0),
            weights@.take(0),
            phases@.take(0),
        ));
        while i < count
            invariant
                i <= count,
                count == transaction_types.len(),
                weights@.len() == count,
                phases@.len() == count,
                no_phase_skipped(phases@),
                types == all_materialized(
                    transaction_types@,
                    module_working_set_size,
                    sender_use_account_pool,
                    workflow_progress_type,
                ),
                mixes_view(mixes@) == mix_per_phase(
                    types.take(i as int),
                    weights@.take(i as int),
                    phases@.take(i as int),
                ),
            decreases count - i,
        {
            let transaction_type = transaction_types[i].materialize(
                module_working_set_size,
                sender_use_account_pool,
                workflow_progress_type,
            );
            let weight = weights[i];
            let phase = phases[i];
            let ghost entry = (transaction_type@, weight);
            let ghost mixes_before = mixes@;
            proof {
                lemma_prefix_not_skipped(phases@, i as int);
                lemma_phase_count(phases@.take(i as int));
                assert(phases@[i as int] <= phase_count(phases@.take(i as int)));
                assert(mixes_view(mixes@).len() == phase_count(phases@.take(i as int)));
            }
            if phase == mixes.len() {
                mixes.push(Vec::new());
            }
            let ghost mixes_opened = mixes@;
            mixes[phase].push((transaction_type, weight));
            i += 1;
            proof {
                let t = types.take(i as int);
                let w = weights@.take(i as int);
                let p = phases@.take(i as int);
                assert(t.drop_last() =~= types.take(i - 1));
                assert(w.drop_last() =~= weights@.take(i - 1));
                assert(p.drop_last() =~= phases@.take(i - 1));
                assert(p.last() == phase);
                assert(t.last() == entry.0);
                assert(w.last() == weight);
                assert(mixes@.len() == phase_count(p));
                assert forall|q: int| 0 <= q < mixes@.len() implies #[trigger] mixes_view(mixes@)[q]
                    == mix_per_phase(t, w, p)[q] by {
                    if q < mixes_before.len() {
                        assert(mixes_view(mixes_before)[q] == mix_view(mixes_before[q]@));
                        assert(mixes_opened[q] == mixes_before[q]);
                    } else {
                        lemma_phase_behind_all(t.drop_last(), w.drop_last(), p.drop_last(), q);
                        assert(mix_view(mixes_opened[q]@) =~= Seq::empty());
                    }
                    if q == phase {
                        assert(mixes@[q]@ == mixes_opened[q]@.push((transaction_type, weight)));
                        assert(mix_view(mixes@[q]@) =~= mix_view(mixes_opened[q]@).push(entry));
                    } else {
                        assert(mixes@[q] == mixes_opened[q]);
                    }
                }
                assert(mixes_view(mixes@) =~= mix_per_phase(t, w, p));
            }
        }
        proof {
            assert(types.take(i as int) =~= types);
            assert(weights@.take(i as int) =~= weights@);
            assert(phases@.take(i as int) =~= phases@);
            assert forall|phase: int, x: int|
                0 <= phase < mixes@.len() && 0 <= x < mixes@[phase]@.len() implies
                crate::mix_laws::has_settings(
                (#[trigger] mixes@[phase]@[x]).0@.shape,
                module_working_set_size,
                sender_use_account_pool,
                workflow_progress_type,
            ) by {
                crate::mix_laws::law_mixes_show_all(mixes@, phase, x);
                crate::mix_laws::law_mix_holds_what_is_given(
                    transaction_types@,
                    transaction_weights@,
                    transaction_phases@,
                    module_working_set_size,
                    sender_use_account_pool,
                    workflow_progress_type,
                    phase,
                    x,
                );
            }
        }
        mixes
    }
}

/// The number of phases is not negative.
proof fn lemma_no_phase_below_zero(phases: Seq<usize>)
    ensures
        phase_count(phases) >= 0,
    decreases phases.len(),
{
    if phases.len() > 0 {
        lemma_no_phase_below_zero(phases.drop_last());
    }
}

/// Phases of which none is skipped stay so when the last ones are cut off.
proof fn lemma_prefix_not_skipped(phases: Seq<usize>, n: int)
    requires
        no_phase_skipped(phases),
        0 <= n <= phases.len(),
    ensures
        no_phase_skipped(phases.take(n)),
{
    assert forall|i: int| 0 <= i < n implies phases.take(n)[i] <= phase_count(
        #[trigger] phases.take(n).take(i),
    ) by {
        assert(phases.take(n)[i] == phases[i]);
        assert(phases.take(n).take(i) =~= phases.take(i));
    }
}

/// The workload that an emitter is started with.
pub struct EmitWorkloadArgs {
    pub transaction_type: Vec<TransactionTypeArg>,
    /// Number of copies of the modules that will be published,
    /// under separate accounts, creating independent contracts,
    /// removing contention.
    /// For example for NFT minting, setting to 1 will be equivalent
    /// to minting from single collection,
    /// setting to 20 means minting from 20 collections in parallel.
    pub module_working_set_size: Option<usize>,
    /// Whether to use burner accounts for the sender.
    /// For example when transaction can only be done once per account.
    /// (pool needs to be populated by account-creation transactions)
    pub sender_use_account_pool: Option<bool>,
    pub transaction_weights: Vec<usize>,
    pub transaction_phases: Vec<usize>,
}

impl Default for EmitWorkloadArgs {
    fn default() -> (args: Self)
        ensures
            args.transaction_type@.len() == 0,
            args.module_working_set_size is None,
            args.sender_use_account_pool is None,
            args.transaction_weights@.len() == 0,
            args.transaction_phases@.len() == 0,
    {
        EmitWorkloadArgs {
            transaction_type: Vec::new(),
            module_working_set_size: None,
            sender_use_account_pool: None,
            transaction_weights: Vec::new(),
            transaction_phases: Vec::new(),
        }
    }
}

impl EmitWorkloadArgs {
    /// The mix of every phase. Without other settings there is one copy of the
    /// modules and no account pool.
    pub fn args_to_transaction_mix_per_phase(
        &self,
        default_progress: WorkflowProgress,
    ) -> (mixes: Vec<Vec<(TransactionType, usize)>>)
        requires
            self.transaction_weights@.len() == 0 || self.transaction_weights@.len()
                == self.transaction_type@.len(),
            self.transaction_phases@.len() == 0 || self.transaction_phases@.len()
                == self.transaction_type@.len(),
            no_phase_skipped(self.transaction_phases@),
        ensures
            mixes_view(mixes@) == mix_per_phase(
                all_materialized(
                    self.transaction_type@,
                    match self.module_working_set_size {
                        Some(size) => size,
                        None => 1,
                    },
                    self.sender_use_account_pool == Some(true),
                    default_progress,
                ),
                weights_in_use(self.transaction_weights@, self.transaction_type@.len()),
                phases_in_use(self.transaction_phases@, self.transaction_type@.len()),
            ),
            forall|phase: int, x: int|
                0 <= phase < mixes@.len() && 0 <= x < mixes@[phase]@.len()
                    ==> crate::mix_laws::has_settings(
                    (#[trigger] mixes@[phase]@[x]).0@.shape,
                    match self.module_working_set_size {
                        Some(size) => size,
                        None => 1,
                    },
                    self.sender_use_account_pool == Some(true),
                    default_progress,
                ),
    {
        TransactionTypeArg::args_to_transaction_mix_per_phase(
            self.transaction_type.as_slice(),
            self.transaction_weights.as_slice(),
            self.transaction_phases.as_slice(),
            self.module_working_set_size.unwrap_or(1),
            self.sender_use_account_pool.unwrap_or(false),
            default_progress,
        )
    }
}

} // verus!
