//! Domain operations: small fallible operations that reject invalid input
//! with a named [`DomainError`], and the conversion of such a failure into
//! the canonical taxonomy.
//!
//! The numeric value itself passes through as an opaque type parameter: the
//! caller computes the candidate result with whatever arithmetic its number
//! type offers and reports here whether the operation's precondition was
//! violated. The policy — which precondition yields which failure, and that
//! every input maps to either the candidate value or exactly one named
//! failure — is what these functions decide.

use vstd::prelude::*;

use crate::errors::DomainError;
use crate::errors::ErrorKind;
use crate::errors::ErrorKindView;

verus! {

/// Division: returns the candidate quotient unless the divisor is zero, in
/// which case it fails with [`DomainError::DivisionByZero`]. No other input
/// is rejected.
pub fn divide<T>(quotient: T, divisor_is_zero: bool) -> (r: Result<T, DomainError>)
    ensures
        divisor_is_zero ==> r == Err::<T, DomainError>(DomainError::DivisionByZero),
        !divisor_is_zero ==> r == Ok::<T, DomainError>(quotient),
{
    if divisor_is_zero {
        Err(DomainError::DivisionByZero)
    } else {
        Ok(quotient)
    }
}

/// Square root: returns the candidate root unless the operand is negative,
/// in which case it fails with [`DomainError::NegativeSquareRoot`].
pub fn sqrt<T>(root: T, operand_is_negative: bool) -> (r: Result<T, DomainError>)
    ensures
        operand_is_negative ==> r == Err::<T, DomainError>(DomainError::NegativeSquareRoot),
        !operand_is_negative ==> r == Ok::<T, DomainError>(root),
{
    if operand_is_negative {
        Err(DomainError::NegativeSquareRoot)
    } else {
        Ok(root)
    }
}

/// The boundary crossing for a domain operation's outcome: a success passes
/// through unchanged, a failure is canonicalized into the taxonomy.
pub fn convert_domain<T>(r: Result<T, DomainError>) -> (out: Result<T, ErrorKind>)
    ensures
        r matches Ok(v) ==> out == Ok::<T, ErrorKind>(v),
        r matches Err(e) ==> (out matches Err(k) && k@ == ErrorKindView::Domain(e)),
{
    match r {
        Ok(v) => Ok(v),
        Err(e) => Err(ErrorKind::from_domain(e)),
    }
}

} // verus!
