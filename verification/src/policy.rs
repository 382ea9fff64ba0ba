//! The length bounds that a new password has to meet.

use vstd::prelude::*;

verus! {

/// The shortest and the longest password, in bytes, that may be set.
#[derive(Clone, Copy, Debug, PartialEq, Eq, Structural)]
pub struct PasswordPolicy {
    pub min_length: usize,
    pub max_length: usize,
}

impl PasswordPolicy {
    /// Whether some password meets the bounds and none that does is empty.
    pub open spec fn is_consistent(self) -> bool {
        1 <= self.min_length <= self.max_length
    }

    /// Whether the bounds are consistent and stay within a database that takes
    /// passwords of at most `max_password_bytes` bytes.
    pub open spec fn fits(self, max_password_bytes: usize) -> bool {
        self.is_consistent() && self.max_length <= max_password_bytes
    }
}

/// A policy fits a database if and only if its shortest password has at least
/// one byte, its longest is no shorter than that, and the database takes it.
pub proof fn law_fitting_policies(policy: PasswordPolicy, max_password_bytes: usize)
    ensures
        policy.fits(max_password_bytes) <==> 1 <= policy.min_length && policy.min_length
            <= policy.max_length && policy.max_length <= max_password_bytes,
        policy.is_consistent() <==> 1 <= policy.min_length && policy.min_length
            <= policy.max_length,
{
}

/// A database that takes longer passwords takes every policy that a stricter one
/// takes, and no database is needed that takes more than the policy's longest.
pub proof fn law_larger_databases_take_more(policy: PasswordPolicy, small: usize, large: usize)
    requires
        small <= large,
    ensures
        policy.fits(small) ==> policy.fits(large),
        policy.fits(large) && policy.max_length <= small ==> policy.fits(small),
{
}

} // verus!
