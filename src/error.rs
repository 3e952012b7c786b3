use vstd::prelude::*;

verus! {

/// Every way an operation of the distribution program can be rejected.
/// A rejected operation leaves every record and balance as it was.
#[derive(Clone, Copy, Debug, PartialEq, Eq, Structural)]
pub enum ErrorCode {
    /// A record holds a value that breaks its invariant (a null authority,
    /// a zero ceiling, a pool whose window ends before it starts).
    AccountValidationFailure,
    /// A balance would underflow or overflow, or an amount exceeds what policy allows.
    ArithmeticError,
    /// The signer is not the identity that the record names.
    Unauthorized,
    /// A record already exists at the address that was to be created.
    AccountAlreadyInUse,
    /// The supplied address or bump does not match the derived one.
    InvalidSeeds,
    /// The pool's claim window has closed.
    ClaimWindowExpired,
    /// The pool's claim window is still open.
    ClaimWindowOpen,
}

} // verus!
