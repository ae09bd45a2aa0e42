use vstd::prelude::*;

verus! {

/// Errors that the demonlist rules themselves raise.
#[derive(Debug, Clone, Copy, PartialEq, Eq, Structural)]
pub enum DemonlistError {
    /// A record requirement outside of `0..=100` was requested.
    InvalidRequirement,
    /// A move target outside of `1..=maximal` was requested.
    InvalidPosition { maximal: i16 },
}

/// Checks that a record requirement is a percentage, `0..=100`.
pub fn validate_requirement(requirement: i16) -> (r: Result<(), DemonlistError>)
    ensures
        r is Ok <==> 0 <= requirement <= 100,
        r is Err ==> r == Err::<(), DemonlistError>(DemonlistError::InvalidRequirement),
{
    if 0 <= requirement && requirement <= 100 {
        Ok(())
    } else {
        Err(DemonlistError::InvalidRequirement)
    }
}

} // verus!
