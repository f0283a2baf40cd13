//! The known bridge events: their signatures, the layout of each one's topics
//! and data, and the registry that maps a signature to its decoder.

use vstd::prelude::*;

use crate::bytes::{hash_eq, ChainHash};

verus! {

/// Signature of `LogValidatorRegistered(bytes32,bytes32,bytes32,uint256)`.
pub const ADDED_VALIDATOR_SIGNATURE: ChainHash = [
    0xff, 0x08, 0x3a, 0x6e, 0x39, 0x5a, 0x67, 0x77,
    0x1f, 0x3c, 0x91, 0x08, 0x92, 0x2b, 0xc2, 0x74,
    0xc2, 0x7b, 0x38, 0xb4, 0x8c, 0x21, 0x0b, 0x0f,
    0x6a, 0x8c, 0x5f, 0x47, 0x10, 0xc0, 0x49, 0x4b,
];

/// Signature of `LogLifted(address,bytes32,uint256)`.
pub const LIFTED_SIGNATURE: ChainHash = [
    0x41, 0x8d, 0xa8, 0xf8, 0x5c, 0xfa, 0x85, 0x16,
    0x01, 0xf8, 0x76, 0x34, 0xc6, 0x95, 0x04, 0x91,
    0xb6, 0xb8, 0x78, 0x5a, 0x64, 0x45, 0xc8, 0x58,
    0x4f, 0x56, 0x58, 0x04, 0x8d, 0x51, 0x2c, 0xae,
];

/// Signature of `LogNftMinted(uint256,uint64,bytes32)`.
pub const NFT_MINT_SIGNATURE: ChainHash = [
    0x6e, 0xc1, 0xe5, 0x92, 0x86, 0xac, 0xce, 0xd2,
    0x42, 0x09, 0x19, 0x2b, 0x40, 0xaf, 0x54, 0x8f,
    0x57, 0x30, 0xf8, 0x2c, 0x78, 0x2c, 0x61, 0x0b,
    0x2d, 0x65, 0xf1, 0x75, 0x10, 0x6b, 0x79, 0x56,
];

/// Signature of `LogNftTransferTo(uint256,bytes32,uint64)`.
pub const NFT_TRANSFER_TO_SIGNATURE: ChainHash = [
    0xf2, 0x6c, 0xe3, 0x77, 0x07, 0x4e, 0x6b, 0x34,
    0x90, 0xd8, 0xea, 0xe2, 0xf0, 0x10, 0xab, 0xcf,
    0x5f, 0xdc, 0xfb, 0xa0, 0x9a, 0x3f, 0xfd, 0xbf,
    0xb9, 0x7c, 0x32, 0xf5, 0x42, 0x2f, 0xc4, 0x4b,
];

/// Signature of `LogNftCancelListing(uint256,uint64)`.
pub const NFT_CANCEL_LISTING_SIGNATURE: ChainHash = [
    0xba, 0x75, 0x9d, 0x7f, 0xe0, 0x45, 0xa9, 0x7c,
    0x27, 0x34, 0xfc, 0x78, 0x16, 0xd2, 0x93, 0x3e,
    0xc1, 0x8f, 0xa8, 0x10, 0x50, 0x5d, 0xdc, 0xcc,
    0xee, 0x8a, 0xdc, 0x08, 0xab, 0xd7, 0xcc, 0xaf,
];

/// Signature of `LogNftEndBatchListing(uint256)`.
pub const NFT_END_BATCH_LISTING_SIGNATURE: ChainHash = [
    0xdb, 0xe1, 0x46, 0xa5, 0x21, 0x84, 0x12, 0x47,
    0xc2, 0xaf, 0x1d, 0x55, 0xb7, 0x41, 0x91, 0xda,
    0x13, 0xbd, 0x34, 0x2b, 0xe6, 0x10, 0xca, 0xe9,
    0x5a, 0x66, 0xda, 0xbb, 0x9e, 0xab, 0x8b, 0x3b,
];

/// Signature of `LogGrowth(uint256,uint32)`.
pub const AVT_GROWTH_LIFTED_SIGNATURE: ChainHash = [
    0x3a, 0xd5, 0x8a, 0x8d, 0xc1, 0x11, 0x0b, 0xaa,
    0x37, 0xad, 0x88, 0xa6, 0x8d, 0xb1, 0x41, 0x81,
    0xb4, 0xef, 0x0c, 0x69, 0x19, 0x2d, 0xfa, 0x76,
    0x99, 0xa9, 0x58, 0x89, 0x60, 0xec, 0xa7, 0xfd,
];

/// Signature of `LogLowerClaimed(uint32)`.
pub const AVT_LOWER_CLAIMED_SIGNATURE: ChainHash = [
    0x98, 0x53, 0xe4, 0xc0, 0x75, 0x91, 0x1a, 0x10,
    0xa8, 0x9a, 0x0f, 0x7a, 0x46, 0xba, 0xc6, 0xf8,
    0xa2, 0x46, 0xc4, 0xe9, 0x15, 0x24, 0x80, 0xd1,
    0x6d, 0x86, 0xaa, 0x6a, 0x23, 0x91, 0xa4, 0xf1,
];

/// Signature of `LogLiftedToPredictionMarket(address,bytes32,uint256)`.
pub const LIFTED_TO_PREDICTION_MARKET_SIGNATURE: ChainHash = [
    0x2b, 0xf8, 0x10, 0x7b, 0xf8, 0xc1, 0x5c, 0xdc,
    0xd8, 0xd6, 0x36, 0x0f, 0x4a, 0x02, 0xee, 0x97,
    0xd7, 0x09, 0x8a, 0x46, 0xb1, 0x8f, 0xcc, 0xd3,
    0x2d, 0xf8, 0x79, 0x67, 0x75, 0x55, 0x2f, 0xc0,
];

/// Signature of `Transfer(address,address,uint256)`.
pub const ERC20_DIRECT_TRANSFER_SIGNATURE: ChainHash = [
    0xdd, 0xf2, 0x52, 0xad, 0x1b, 0xe2, 0xc8, 0x9b,
    0x69, 0xc2, 0xb0, 0x68, 0xfc, 0x37, 0x8d, 0xaa,
    0x95, 0x2b, 0xa7, 0xf1, 0x63, 0xc4, 0xa1, 0x16,
    0x28, 0xf5, 0x5a, 0x4d, 0xf5, 0x23, 0xb3, 0xef,
];

/// Signature of `LogLowerReverted(address,bytes32,uint256,uint32)`.
pub const LOWER_REVERTED_SIGNATURE: ChainHash = [
    0xeb, 0x39, 0x50, 0x2c, 0xae, 0xd3, 0x61, 0x72,
    0xcf, 0x42, 0x69, 0xac, 0x3e, 0x51, 0x99, 0xec,
    0xce, 0x1e, 0xe6, 0x74, 0x85, 0x63, 0xa9, 0xf2,
    0xb5, 0xbd, 0xa2, 0x6d, 0xc6, 0x31, 0x58, 0x62,
];

/// Why a step of discovery or of the per-instance cycle failed.
#[derive(Clone, Debug, PartialEq, Eq)]
pub enum AppError {
    /// A signature with no decoder, or event data that does not fit its layout.
    ErrorParsingEventLogs,
    /// The external chain could not be queried for logs or receipts.
    ErrorGettingEventLogs,
    ErrorGettingBridgeContract,
    /// Client acquisition failed on every allowed attempt.
    RetryLimitReached,
    SignatureGenerationFailed,
    MissingTransactionHash,
    MissingBlockNumber,
    MissingEventSignature,
    GenericError(String),
}

/// The bridge events that this oracle knows how to decode.
#[derive(Clone, Copy, Debug, PartialEq, Eq, Structural)]
pub enum ValidEvents {
    AddedValidator,
    Lifted,
    NftMint,
    NftTransferTo,
    NftCancelListing,
    NftEndBatchListing,
    AvtGrowthLifted,
    AvtLowerClaimed,
    LiftedToPredictionMarket,
    Erc20DirectTransfer,
    LowerReverted,
}

/// Every known event, in registry order.
pub open spec fn all_valid_events() -> Seq<ValidEvents> {
    seq![
        ValidEvents::AddedValidator,
        ValidEvents::Lifted,
        ValidEvents::NftMint,
        ValidEvents::NftTransferTo,
        ValidEvents::NftCancelListing,
        ValidEvents::NftEndBatchListing,
        ValidEvents::AvtGrowthLifted,
        ValidEvents::AvtLowerClaimed,
        ValidEvents::LiftedToPredictionMarket,
        ValidEvents::Erc20DirectTransfer,
        ValidEvents::LowerReverted,
    ]
}

/// The known event whose signature is `sig`, if any.
pub open spec fn kind_of_signature(sig: ChainHash) -> Option<ValidEvents> {
    if sig == ADDED_VALIDATOR_SIGNATURE {
        Some(ValidEvents::AddedValidator)
    } else if sig == LIFTED_SIGNATURE {
        Some(ValidEvents::Lifted)
    } else if sig == NFT_MINT_SIGNATURE {
        Some(ValidEvents::NftMint)
    } else if sig == NFT_TRANSFER_TO_SIGNATURE {
        Some(ValidEvents::NftTransferTo)
    } else if sig == NFT_CANCEL_LISTING_SIGNATURE {
        Some(ValidEvents::NftCancelListing)
    } else if sig == NFT_END_BATCH_LISTING_SIGNATURE {
        Some(ValidEvents::NftEndBatchListing)
    } else if sig == AVT_GROWTH_LIFTED_SIGNATURE {
        Some(ValidEvents::AvtGrowthLifted)
    } else if sig == AVT_LOWER_CLAIMED_SIGNATURE {
        Some(ValidEvents::AvtLowerClaimed)
    } else if sig == LIFTED_TO_PREDICTION_MARKET_SIGNATURE {
        Some(ValidEvents::LiftedToPredictionMarket)
    } else if sig == ERC20_DIRECT_TRANSFER_SIGNATURE {
        Some(ValidEvents::Erc20DirectTransfer)
    } else if sig == LOWER_REVERTED_SIGNATURE {
        Some(ValidEvents::LowerReverted)
    } else {
        None
    }
}

impl ValidEvents {
    pub open spec fn spec_signature(self) -> ChainHash {
        match self {
            ValidEvents::AddedValidator => ADDED_VALIDATOR_SIGNATURE,
            ValidEvents::Lifted => LIFTED_SIGNATURE,
            ValidEvents::NftMint => NFT_MINT_SIGNATURE,
            ValidEvents::NftTransferTo => NFT_TRANSFER_TO_SIGNATURE,
            ValidEvents::NftCancelListing => NFT_CANCEL_LISTING_SIGNATURE,
            ValidEvents::NftEndBatchListing => NFT_END_BATCH_LISTING_SIGNATURE,
            ValidEvents::AvtGrowthLifted => AVT_GROWTH_LIFTED_SIGNATURE,
            ValidEvents::AvtLowerClaimed => AVT_LOWER_CLAIMED_SIGNATURE,
            ValidEvents::LiftedToPredictionMarket => LIFTED_TO_PREDICTION_MARKET_SIGNATURE,
            ValidEvents::Erc20DirectTransfer => ERC20_DIRECT_TRANSFER_SIGNATURE,
            ValidEvents::LowerReverted => LOWER_REVERTED_SIGNATURE,
        }
    }

    /// Primary events are emitted by the bridge contract itself; the others
    /// by arbitrary contracts, found through an address topic.
    pub open spec fn spec_is_primary(self) -> bool {
        self != ValidEvents::Erc20DirectTransfer
    }

    /// The 32-byte topic that identifies this event in a log.
    pub fn signature(&self) -> (r: ChainHash)
        ensures
            r == self.spec_signature(),
    {
        match self {
            ValidEvents::AddedValidator => ADDED_VALIDATOR_SIGNATURE,
            ValidEvents::Lifted => LIFTED_SIGNATURE,
            ValidEvents::NftMint => NFT_MINT_SIGNATURE,
            ValidEvents::NftTransferTo => NFT_TRANSFER_TO_SIGNATURE,
            ValidEvents::NftCancelListing => NFT_CANCEL_LISTING_SIGNATURE,
            ValidEvents::NftEndBatchListing => NFT_END_BATCH_LISTING_SIGNATURE,
            ValidEvents::AvtGrowthLifted => AVT_GROWTH_LIFTED_SIGNATURE,
            ValidEvents::AvtLowerClaimed => AVT_LOWER_CLAIMED_SIGNATURE,
            ValidEvents::LiftedToPredictionMarket => LIFTED_TO_PREDICTION_MARKET_SIGNATURE,
            ValidEvents::Erc20DirectTransfer => ERC20_DIRECT_TRANSFER_SIGNATURE,
            ValidEvents::LowerReverted => LOWER_REVERTED_SIGNATURE,
        }
    }

    pub fn is_primary(&self) -> (r: bool)
        ensures
            r == self.spec_is_primary(),
    {
        !matches!(self, ValidEvents::Erc20DirectTransfer)
    }

    /// Every known event, in registry order.
    pub fn values() -> (r: Vec<ValidEvents>)
        ensures
            r@ == all_valid_events(),
    {
        let r = vec![
            ValidEvents::AddedValidator,
            ValidEvents::Lifted,
            ValidEvents::NftMint,
            ValidEvents::NftTransferTo,
            ValidEvents::NftCancelListing,
            ValidEvents::NftEndBatchListing,
            ValidEvents::AvtGrowthLifted,
            ValidEvents::AvtLowerClaimed,
            ValidEvents::LiftedToPredictionMarket,
            ValidEvents::Erc20DirectTransfer,
            ValidEvents::LowerReverted,
        ];
        assert(r@ =~= all_valid_events());
        r
    }

    /// The known event whose signature is `sig`.
    pub fn from_signature(sig: &ChainHash) -> (r: Option<ValidEvents>)
        ensures
            r == kind_of_signature(*sig),
    {
        if hash_eq(sig, &ADDED_VALIDATOR_SIGNATURE) {
            Some(ValidEvents::AddedValidator)
        } else if hash_eq(sig, &LIFTED_SIGNATURE) {
            Some(ValidEvents::Lifted)
        } else if hash_eq(sig, &NFT_MINT_SIGNATURE) {
            Some(ValidEvents::NftMint)
        } else if hash_eq(sig, &NFT_TRANSFER_TO_SIGNATURE) {
            Some(ValidEvents::NftTransferTo)
        } else if hash_eq(sig, &NFT_CANCEL_LISTING_SIGNATURE) {
            Some(ValidEvents::NftCancelListing)
        } else if hash_eq(sig, &NFT_END_BATCH_LISTING_SIGNATURE) {
            Some(ValidEvents::NftEndBatchListing)
        } else if hash_eq(sig, &AVT_GROWTH_LIFTED_SIGNATURE) {
            Some(ValidEvents::AvtGrowthLifted)
        } else if hash_eq(sig, &AVT_LOWER_CLAIMED_SIGNATURE) {
            Some(ValidEvents::AvtLowerClaimed)
        } else if hash_eq(sig, &LIFTED_TO_PREDICTION_MARKET_SIGNATURE) {
            Some(ValidEvents::LiftedToPredictionMarket)
        } else if hash_eq(sig, &ERC20_DIRECT_TRANSFER_SIGNATURE) {
            Some(ValidEvents::Erc20DirectTransfer)
        } else if hash_eq(sig, &LOWER_REVERTED_SIGNATURE) {
            Some(ValidEvents::LowerReverted)
        } else {
            None
        }
    }
}

/// Each known signature names its own event: no two events share one.
pub proof fn lemma_signature_names_event(k: ValidEvents)
    ensures
        kind_of_signature(k.spec_signature()) == Some(k),
{
    assert(ADDED_VALIDATOR_SIGNATURE[0] == 0xff);
    assert(LIFTED_SIGNATURE[0] == 0x41);
    assert(NFT_MINT_SIGNATURE[0] == 0x6e);
    assert(NFT_TRANSFER_TO_SIGNATURE[0] == 0xf2);
    assert(NFT_CANCEL_LISTING_SIGNATURE[0] == 0xba);
    assert(NFT_END_BATCH_LISTING_SIGNATURE[0] == 0xdb);
    assert(AVT_GROWTH_LIFTED_SIGNATURE[0] == 0x3a);
    assert(AVT_LOWER_CLAIMED_SIGNATURE[0] == 0x98);
    assert(LIFTED_TO_PREDICTION_MARKET_SIGNATURE[0] == 0x2b);
    assert(ERC20_DIRECT_TRANSFER_SIGNATURE[0] == 0xdd);
    assert(LOWER_REVERTED_SIGNATURE[0] == 0xeb);
}

} // verus!
