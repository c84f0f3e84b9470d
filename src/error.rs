use vstd::prelude::*;

verus! {

/// Why an operation was rejected. A rejected operation changes nothing.
#[derive(Clone, Copy, Debug, PartialEq, Eq, Structural)]
pub enum PresaleError {
    /// The caller is not the principal that the operation requires.
    Unauthorized,
    /// The presale is not in the phase, or the time window, that the operation requires.
    PresaleNotActive,
    /// The presale has not been finalized (or its vaults are not ready).
    PresaleNotFinalized,
    /// The presale was already finalized.
    PresaleAlreadyFinalized,
    /// The presale was already migrated.
    PresaleAlreadyMigrated,
    /// The presale has not been migrated, or refunds are not open.
    PresaleNotMigrated,
    /// The contribution would take the raised total over the hard cap.
    HardCapExceeded,
    /// The token allocation overflows or exceeds the public token cap.
    TokenCapExceeded,
    /// The contribution exceeds the whitelist entry's cap.
    ContributionTooLarge,
    /// The whitelist entry has tier zero.
    NotWhitelisted,
    /// There is nothing left to claim or to refund.
    NothingToClaim,
    /// A balance is too low for the requested debit, or a credit overflows.
    InsufficientFunds,
    /// A supplied account address is not the one derived for its role.
    InvalidAccountAddress,
}

} // verus!
