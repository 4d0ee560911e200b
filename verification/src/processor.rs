//! Instruction handlers. Each one checks its accounts and payload and, on success, writes
//! the changed accounts back; on failure it leaves every account as it was.
use vstd::prelude::*;

use crate::account::AccountState;
use crate::address::zeros;
use crate::bytes::u16_le_bytes;
use crate::error::ProgramError;
use crate::instruction::{ContentView, CreatorInput, CreatorInputView};
use crate::state::metadata::{empty_creator, CreatorEntryView, MetadataView};
use crate::state::{CreatorEntry, MAX_CREATORS, MAX_NAME_LEN, MAX_SYMBOL_LEN, MAX_URI_LEN};

pub mod close;
pub mod create;
pub mod set_immutable;
pub mod set_update_authority;
pub mod unverify_creator;
pub mod update;
pub mod verify_creator;

pub use close::process_close;
pub use create::{finish_create, process_create, CreatePlan};
pub use set_immutable::process_set_immutable;
pub use set_update_authority::process_set_update_authority;
pub use unverify_creator::process_unverify_creator;
pub use update::process_update;
pub use verify_creator::process_verify_creator;

verus! {

/// `account` with its data replaced by `data`.
pub open spec fn with_data(account: AccountState, data: Seq<u8>) -> AccountState {
    AccountState { data, ..account }
}

/// A handler returned `r` and turned the accounts `before` into `after` as `spec` says:
/// on success `after` is the accounts that `spec` gives, on failure `r` carries the error
/// that `spec` gives and `after` equals `before`.
pub open spec fn outcome_holds(
    spec: Result<Seq<AccountState>, ProgramError>,
    r: Result<(), ProgramError>,
    before: Seq<AccountState>,
    after: Seq<AccountState>,
) -> bool {
    match spec {
        Ok(accounts) => r == Ok::<(), ProgramError>(()) && after == accounts,
        Err(e) => r == Err::<(), ProgramError>(e) && after == before,
    }
}


/// The creator entries written for creator inputs: same address and share, never verified.
pub open spec fn unverified_entries(inputs: Seq<CreatorInputView>) -> Seq<CreatorEntryView> {
    inputs.map_values(
        |c: CreatorInputView| CreatorEntryView { address: c.address, verified: 0, share: c.share },
    )
}

/// The five creator slots holding `entries` followed by empty slots.
pub open spec fn creator_slots(entries: Seq<CreatorEntryView>) -> Seq<CreatorEntryView> {
    entries + Seq::new((MAX_CREATORS - entries.len()) as nat, |i: int| empty_creator())
}

/// The record `m` with the content of payload `a` written into it: royalty, name, symbol and
/// uri (zero-padded), and the listed creators, unverified.
pub open spec fn with_content(m: MetadataView, a: ContentView) -> MetadataView {
    MetadataView {
        royalty_bps: u16_le_bytes(a.royalty()),
        name_len: a.name_len,
        name: a.name_bytes() + zeros((MAX_NAME_LEN - a.name_len) as nat),
        symbol_len: a.symbol_len,
        symbol: a.symbol_bytes() + zeros((MAX_SYMBOL_LEN - a.symbol_len) as nat),
        uri_len: a.uri_len,
        uri: a.uri_bytes() + zeros((MAX_URI_LEN - a.uri_len) as nat),
        creator_count: a.creator_count,
        creators: creator_slots(unverified_entries(a.creator_list())),
        ..m
    }
}

/// Turns creator inputs into unverified creator entries, in the first slots of a five-slot
/// array.
pub(crate) fn creator_entries(inputs: &[CreatorInput]) -> (r: [CreatorEntry; MAX_CREATORS])
    requires
        inputs@.len() <= MAX_CREATORS,
    ensures
        forall|i: int|
            0 <= i < inputs@.len() ==> (#[trigger] r@[i])@ == unverified_entries(
                inputs@.map_values(|c: CreatorInput| c@),
            )[i],
{
    let mut entries = [CreatorEntry::empty(); MAX_CREATORS];
    let n = inputs.len();
    let mut i: usize = 0;
    while i < n
        invariant
            n == inputs@.len(),
            n <= MAX_CREATORS,
            i <= n,
            entries@.len() == MAX_CREATORS,
            forall|j: int|
                0 <= j < i ==> (#[trigger] entries@[j])@ == unverified_entries(
                    inputs@.map_values(|c: CreatorInput| c@),
                )[j],
        decreases n - i,
    {
        let input = inputs[i];
        entries[i] = CreatorEntry { address: input.address, verified: 0, share: input.share };
        i = i + 1;
    }
    entries
}

} // verus!
