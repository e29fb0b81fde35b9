use vstd::prelude::*;

verus! {

/// Why a call was refused. A refused call leaves the marketplace state as it was.
#[derive(Clone, Copy, Debug, PartialEq, Eq, Structural)]
pub enum MarketError {
    /// An administrative call did not carry a deposit of exactly one unit.
    RequiresOneYocto,
    /// The caller is not the owner of the marketplace.
    OwnerOnly,
    /// The caller is not allowed to edit the series.
    NotAllowed,
    /// A fee of 100% or more was asked for.
    FeeTooHigh,
    /// The activation time of a staged fee is not after the current time.
    FeeStartNotInFuture,
    /// No series has the given identifier.
    SeriesNotFound,
    /// Both bounds of a sale window were given and the start does not precede the end.
    WindowStartNotBeforeEnd,
    /// The new start of a sale window is not after the current time.
    WindowStartNotInFuture,
    /// The new start of a sale window is not before the end already set.
    WindowStartNotBeforeCurrentEnd,
    /// The new end of a sale window is not after the current time.
    WindowEndNotInFuture,
    /// The new end of a sale window is not after the start already set.
    WindowEndNotAfterCurrentStart,
    /// The caller is neither whitelisted as a creator nor the owner.
    CreatorNotWhitelisted,
    /// The creator named in the call is not the caller.
    CallerIsNotCreator,
    /// The series template has no title.
    TitleRequired,
    /// The series template has no media reference.
    MediaRequired,
    /// A royalty recipient is not a well-formed account identifier.
    InvalidRoyaltyAccount,
    /// The royalty table names more than fifty accounts.
    TooManyRoyaltyAccounts,
    /// The royalty table gives away more than 9000 basis points.
    RoyaltyTooHigh,
    /// The price is not below the maximum price.
    PriceTooHigh,
    /// The series has no price.
    NotForSale,
    /// The payment is below the price.
    DepositBelowPrice,
    /// The series is closed for minting.
    NotMintable,
    /// The sale window of the series has not opened.
    SaleNotStarted,
    /// The sale window of the series has closed.
    SaleEnded,
    /// Every copy of the series has been minted.
    SupplyMaxed,
    /// The caller is not the creator of the series.
    NotCreator,
    /// The series has no supply cap to decrease.
    NoSupplyCap,
    /// The supply cap would fall below the number of items already minted.
    SupplyBelowMinted,
    /// The deposit does not cover the storage that the call used.
    StorageNotCovered,
    /// The royalty table has more recipients than the caller accepts.
    TooManyPayoutReceivers,
    /// The item identifier has no index after the series identifier.
    MalformedTokenId,
    /// The stored item carries no metadata.
    TokenMetadataMissing,
    /// The collection metadata names another metadata standard.
    MetadataSpecMismatch,
    /// Exactly one of reference and reference hash is present.
    MetadataReferenceMismatch,
    /// The reference hash is not 32 bytes long.
    MetadataHashLength,
}

} // verus!
