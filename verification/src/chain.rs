//! Short-circuiting composition of fallible steps.
//!
//! A step is any function-like value from an input to a success value or an
//! [`ErrorKind`]. The combinators evaluate the steps strictly left to right;
//! the first failing step stops evaluation immediately — no later step runs —
//! and its failure becomes the result of the whole chain. On full success the
//! result is the final step's success value.
//!
//! [`and_then`] is the unit of composition: a chain of length zero is the
//! bare `Ok` value, a chain of length one is a single [`and_then`], and
//! longer chains compose by repeated application. [`chain3`] composes three
//! steps from a start value in one call.

use vstd::prelude::*;

use crate::errors::ErrorKind;

verus! {

/// Feed an earlier outcome into one more fallible step: an `Ok` value is
/// handed to the step, an `Err` short-circuits past it unchanged.
pub fn and_then<T, U, F: FnOnce(T) -> Result<U, ErrorKind>>(
    input: Result<T, ErrorKind>,
    step: F,
) -> (r: Result<U, ErrorKind>)
    requires
        input matches Ok(v) ==> call_requires(step, (v,)),
    ensures
        input matches Err(e) ==> r == Err::<U, ErrorKind>(e),
        input matches Ok(v) ==> call_ensures(step, (v,), r),
{
    match input {
        Ok(v) => step(v),
        Err(e) => Err(e),
    }
}

/// Run three fallible steps in sequence from a start value, short-circuiting
/// on the first failure: if an earlier step fails, its failure is the result
/// of the whole chain and no later step runs.
pub fn chain3<T0, T1, T2, T3, F1, F2, F3>(
    start: T0,
    step1: F1,
    step2: F2,
    step3: F3,
) -> (r: Result<T3, ErrorKind>) where
    F1: FnOnce(T0) -> Result<T1, ErrorKind>,
    F2: FnOnce(T1) -> Result<T2, ErrorKind>,
    F3: FnOnce(T2) -> Result<T3, ErrorKind>,

    requires
        call_requires(step1, (start,)),
        forall|v1: T1| call_ensures(step1, (start,), Ok::<T1, ErrorKind>(v1)) ==> call_requires(
            step2,
            (v1,),
        ),
        forall|v1: T1, v2: T2|
            call_ensures(step1, (start,), Ok::<T1, ErrorKind>(v1)) && call_ensures(
                step2,
                (v1,),
                Ok::<T2, ErrorKind>(v2),
            ) ==> call_requires(step3, (v2,)),
    ensures
        exists|m1: Result<T1, ErrorKind>|
            #[trigger] call_ensures(step1, (start,), m1) && match m1 {
                Err(e) => r == Err::<T3, ErrorKind>(e),
                Ok(v1) => exists|m2: Result<T2, ErrorKind>|
                    #[trigger] call_ensures(step2, (v1,), m2) && match m2 {
                        Err(e) => r == Err::<T3, ErrorKind>(e),
                        Ok(v2) => call_ensures(step3, (v2,), r),
                    },
            },
{
    let r1 = step1(start);
    match r1 {
        Err(e) => Err(e),
        Ok(v1) => {
            let r2 = step2(v1);
            match r2 {
                Err(e) => Err(e),
                Ok(v2) => step3(v2),
            }
        },
    }
}

} // verus!
