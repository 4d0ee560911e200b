//! `UnverifyCreator`: a listed creator signs to clear its own `verified` flag.
use vstd::prelude::*;

use crate::account::AccountView;
use crate::address::Address;
use crate::error::ProgramError;
use crate::processor::outcome_holds;
use crate::processor::verify_creator::{
    creator_count_out_of_range, set_creator_verified, set_creator_verified_spec,
};

verus! {

/// A listed creator signs to set its own `verified` flag back to false, under the same
/// authorization and mutability rules as `VerifyCreator`.
pub fn process_unverify_creator(program_id: &Address, accounts: &mut Vec<AccountView>) -> (r: Result<
    (),
    ProgramError,
>)
    requires
        !creator_count_out_of_range(program_id@, old(accounts).deep_view()),
    ensures
        outcome_holds(
            set_creator_verified_spec(program_id@, old(accounts).deep_view(), false),
            r,
            old(accounts).deep_view(),
            final(accounts).deep_view(),
        ),
{
    set_creator_verified(program_id, accounts, false)
}

} // verus!
