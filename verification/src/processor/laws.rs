//! What holds of the transitions across calls: commits come in sequence, no
//! commit follows the mark for being handed back, and a finalization moves
//! lamports without making or losing any.

use crate::account::{AccountView, Rent};
use crate::args::delegate_args_of;
use crate::error::{custom, DlpError, ProgramError};
use crate::processor::cells::{close_pda_with_fees_outcome, fee_share, lemma_fee_tiers};
use crate::processor::commit_state::{
    collateral, commit_admission, commit_effect, commit_entry_check, commit_outcome,
    metadata_after_commit, CommitAccountsView, CommitPayload,
};
use crate::processor::delegate::{
    delegate_effect, delegate_outcome, new_delegation_metadata, DelegateAccountsView,
};
use crate::processor::finalize::{
    finalize_effect, finalize_outcome, finalize_records_check, metadata_after_finalize,
    nothing_to_finalize, FinalizeAccountsView,
};
use crate::processor::undelegate::cleanup_outcome;
use crate::state::{
    commit_record_bytes, commit_record_of, delegation_metadata_of, delegation_record_of,
    DelegationMetadataView,
};
use crate::state_laws::law_delegation_metadata_round_trip;
use vstd::prelude::*;

verus! {

/// Metadata that was read from bytes names its payer by 32 bytes.
pub proof fn lemma_metadata_payer_len(data: Seq<u8>)
    requires
        delegation_metadata_of(data) is Some,
    ensures
        delegation_metadata_of(data)->Some_0.rent_payer.len() == 32,
{
    reveal(delegation_metadata_of);
    crate::seeds::lemma_seed_end_lower(data, 21, crate::wire::le_u32(data, 17));
}

/// A commit whose nonce is not one more than the nonce of the
/// last finalized commit is refused, whatever else it brings.
pub proof fn law_commit_nonce_in_sequence(
    program_id: Seq<u8>,
    rent: Rent,
    a: CommitAccountsView,
    payload: CommitPayload,
)
    requires
        delegation_metadata_of(a.delegation_metadata_account.data) is None || payload.nonce
            != delegation_metadata_of(a.delegation_metadata_account.data)->Some_0.last_update_nonce
            + 1,
    ensures
        commit_outcome(program_id, rent, a, payload) is Err,
{
    reveal(commit_admission);
}

/// A commit that is out of sequence, and that nothing else is wrong with up
/// to there, is refused as out of order.
pub proof fn law_commit_out_of_order(
    program_id: Seq<u8>,
    rent: Rent,
    a: CommitAccountsView,
    payload: CommitPayload,
    good_nonce: u64,
)
    requires
        commit_entry_check(program_id, a, good_nonce) is Ok,
        payload.nonce != good_nonce,
    ensures
        commit_outcome(program_id, rent, a, payload) == Err::<CommitAccountsView, ProgramError>(
            custom(DlpError::NonceOutOfOrder),
        ),
{
    reveal(commit_admission);
}

/// No commit is taken for an account that is marked for being handed back,
/// not even with the next nonce.
pub proof fn law_no_commit_once_undelegatable(
    program_id: Seq<u8>,
    rent: Rent,
    a: CommitAccountsView,
    payload: CommitPayload,
)
    requires
        delegation_metadata_of(a.delegation_metadata_account.data) is Some,
        delegation_metadata_of(a.delegation_metadata_account.data)->Some_0.is_undelegatable,
    ensures
        commit_outcome(program_id, rent, a, payload) is Err,
{
    reveal(commit_admission);
}

/// A commit leaves the metadata as it was, but for the mark for being handed
/// back, which it sets as it says.
pub proof fn law_commit_metadata(
    program_id: Seq<u8>,
    rent: Rent,
    a: CommitAccountsView,
    payload: CommitPayload,
)
    requires
        commit_outcome(program_id, rent, a, payload) is Ok,
    ensures
        delegation_metadata_of(a.delegation_metadata_account.data) is Some,
        delegation_metadata_of(
            commit_outcome(program_id, rent, a, payload)->Ok_0.delegation_metadata_account.data,
        ) == Some(
            DelegationMetadataView {
                is_undelegatable: payload.allow_undelegation,
                ..delegation_metadata_of(a.delegation_metadata_account.data)->Some_0
            },
        ),
{
    reveal(commit_admission);
    reveal(commit_effect);
    lemma_metadata_payer_len(a.delegation_metadata_account.data);
    law_delegation_metadata_round_trip(
        metadata_after_commit(a.delegation_metadata_account.data, payload.allow_undelegation),
    );
}

/// A finalization leaves the mark for being handed back as it was.
pub proof fn law_finalize_keeps_mark(program_id: Seq<u8>, a: FinalizeAccountsView)
    requires
        finalize_outcome(program_id, a) is Ok,
        delegation_metadata_of(a.delegation_metadata_account.data) is Some,
    ensures
        delegation_metadata_of(
            finalize_outcome(program_id, a)->Ok_0.delegation_metadata_account.data,
        ) is Some,
        delegation_metadata_of(
            finalize_outcome(program_id, a)->Ok_0.delegation_metadata_account.data,
        )->Some_0.is_undelegatable == delegation_metadata_of(
            a.delegation_metadata_account.data,
        )->Some_0.is_undelegatable,
{
    reveal(finalize_effect);
    if !nothing_to_finalize(program_id, a) {
        lemma_metadata_payer_len(a.delegation_metadata_account.data);
        law_delegation_metadata_round_trip(
            metadata_after_finalize(
                a.delegation_metadata_account.data,
                a.commit_record_account.data,
            ),
        );
    }
}

/// A finalization of a commit makes the commit's nonce the last one.
pub proof fn law_finalize_nonce(program_id: Seq<u8>, a: FinalizeAccountsView)
    requires
        finalize_outcome(program_id, a) is Ok,
        !nothing_to_finalize(program_id, a),
    ensures
        commit_record_of(a.commit_record_account.data) is Some,
        delegation_metadata_of(
            finalize_outcome(program_id, a)->Ok_0.delegation_metadata_account.data,
        ) is Some,
        delegation_metadata_of(
            finalize_outcome(program_id, a)->Ok_0.delegation_metadata_account.data,
        )->Some_0.last_update_nonce == commit_record_of(a.commit_record_account.data)->Some_0.nonce,
{
    reveal(finalize_effect);
    reveal(finalize_records_check);
    lemma_metadata_payer_len(a.delegation_metadata_account.data);
    law_delegation_metadata_round_trip(
        metadata_after_finalize(a.delegation_metadata_account.data, a.commit_record_account.data),
    );
}

/// Once a commit has set the mark for being handed
/// back, and whether or not it was finalized since, every later commit is
/// refused, whatever its nonce.
pub proof fn law_undelegatable_latch(
    program_id: Seq<u8>,
    rent: Rent,
    first: CommitAccountsView,
    first_payload: CommitPayload,
    finalized: FinalizeAccountsView,
    later: CommitAccountsView,
    later_payload: CommitPayload,
)
    requires
        first_payload.allow_undelegation,
        commit_outcome(program_id, rent, first, first_payload) is Ok,
        finalized.delegation_metadata_account.data == commit_outcome(
            program_id,
            rent,
            first,
            first_payload,
        )->Ok_0.delegation_metadata_account.data,
        finalize_outcome(program_id, finalized) is Ok,
        later.delegation_metadata_account.data == finalize_outcome(
            program_id,
            finalized,
        )->Ok_0.delegation_metadata_account.data
            || later.delegation_metadata_account.data == commit_outcome(
            program_id,
            rent,
            first,
            first_payload,
        )->Ok_0.delegation_metadata_account.data,
    ensures
        commit_outcome(program_id, rent, later, later_payload) is Err,
{
    law_commit_metadata(program_id, rent, first, first_payload);
    law_finalize_keeps_mark(program_id, finalized);
    law_no_commit_once_undelegatable(program_id, rent, later, later_payload);
}

/// What the validator, the delegated account, the two cells of the commit
/// and the validator's fee vault hold together.
pub open spec fn finalize_total(a: FinalizeAccountsView) -> int {
    a.validator.lamports + a.delegated_account.lamports + a.commit_state_account.lamports
        + a.commit_record_account.lamports + a.validator_fees_vault.lamports
}

/// A finalization moves lamports among the validator, the delegated account,
/// the cells of the commit and the validator's fee vault, and what they hold
/// together stays the same.
pub proof fn law_finalize_conserves_lamports(program_id: Seq<u8>, a: FinalizeAccountsView)
    requires
        finalize_outcome(program_id, a) is Ok,
    ensures
        finalize_total(finalize_outcome(program_id, a)->Ok_0) == finalize_total(a),
{
    reveal(finalize_effect);
}

/// What the delegated account, the commit-state cell and the validator's fee
/// vault hold together is kept: what the three hold together after a commit
/// is what they hold together after its finalization, where the commit-state
/// cell holds the validator's collateral and nothing besides. What it holds
/// besides goes back to the validator when the cell is closed.
pub proof fn law_finalize_conserves_settled_lamports(program_id: Seq<u8>, a: FinalizeAccountsView)
    requires
        finalize_outcome(program_id, a) is Ok,
        !nothing_to_finalize(program_id, a),
        a.commit_state_account.lamports == collateral(
            commit_record_of(a.commit_record_account.data)->Some_0.lamports,
            delegation_record_of(a.delegation_record_account.data)->Some_0.lamports,
        ),
    ensures
        finalize_outcome(program_id, a)->Ok_0.delegated_account.lamports + finalize_outcome(
            program_id,
            a,
        )->Ok_0.commit_state_account.lamports + finalize_outcome(
            program_id,
            a,
        )->Ok_0.validator_fees_vault.lamports == a.delegated_account.lamports
            + a.commit_state_account.lamports + a.validator_fees_vault.lamports,
{
    reveal(finalize_effect);
}

/// A delegation leaves metadata that counts no commit yet and does not mark
/// the account for being handed back.
pub proof fn law_delegate_metadata(
    program_id: Seq<u8>,
    rent: Rent,
    slot: u64,
    default_validator: Seq<u8>,
    a: DelegateAccountsView,
    data: Seq<u8>,
)
    requires
        a.payer.key.len() == 32,
        delegate_outcome(program_id, rent, slot, default_validator, a, data) is Ok,
    ensures
        delegate_args_of(data) is Some,
        delegation_metadata_of(
            delegate_outcome(
                program_id,
                rent,
                slot,
                default_validator,
                a,
                data,
            )->Ok_0.delegation_metadata_account.data,
        ) == Some(
            DelegationMetadataView {
                last_update_nonce: 0,
                is_undelegatable: false,
                seeds: delegate_args_of(data)->Some_0.seeds,
                rent_payer: a.payer.key,
            },
        ),
{
    reveal(delegate_effect);
    law_delegation_metadata_round_trip(new_delegation_metadata(a, delegate_args_of(data)->Some_0));
}

/// The first commit after a delegation has the nonce 1: with any other nonce
/// a commit on the metadata that the delegation left is refused.
pub proof fn law_first_commit_has_nonce_one(
    program_id: Seq<u8>,
    rent: Rent,
    slot: u64,
    default_validator: Seq<u8>,
    a: DelegateAccountsView,
    data: Seq<u8>,
    commit: CommitAccountsView,
    payload: CommitPayload,
)
    requires
        a.payer.key.len() == 32,
        delegate_outcome(program_id, rent, slot, default_validator, a, data) is Ok,
        commit.delegation_metadata_account.data == delegate_outcome(
            program_id,
            rent,
            slot,
            default_validator,
            a,
            data,
        )->Ok_0.delegation_metadata_account.data,
        payload.nonce != 1,
    ensures
        commit_outcome(program_id, rent, commit, payload) is Err,
{
    law_delegate_metadata(program_id, rent, slot, default_validator, a, data);
    law_commit_nonce_in_sequence(program_id, rent, commit, payload);
}

/// What the validator and the two cells of a commit hold together.
pub open spec fn commit_total(a: CommitAccountsView) -> int {
    a.validator.lamports + a.commit_state_account.lamports + a.commit_record_account.lamports
}

/// A commit moves lamports from the validator to the two cells of the commit
/// and nowhere else: what the three hold together stays the same, and the
/// delegated account and the validator's fee vault stay as they are.
pub proof fn law_commit_conserves_lamports(
    program_id: Seq<u8>,
    rent: Rent,
    a: CommitAccountsView,
    payload: CommitPayload,
)
    requires
        commit_outcome(program_id, rent, a, payload) is Ok,
    ensures
        commit_total(commit_outcome(program_id, rent, a, payload)->Ok_0) == commit_total(a),
        commit_outcome(program_id, rent, a, payload)->Ok_0.delegated_account
            == a.delegated_account,
        commit_outcome(program_id, rent, a, payload)->Ok_0.validator_fees_vault
            == a.validator_fees_vault,
{
    reveal(commit_admission);
    reveal(commit_effect);
}

/// At most one commit is pending: while the commit record of one commit
/// stands, no other commit is taken.
pub proof fn law_one_pending_commit(
    program_id: Seq<u8>,
    rent: Rent,
    first: CommitAccountsView,
    first_payload: CommitPayload,
    second: CommitAccountsView,
    second_payload: CommitPayload,
)
    requires
        commit_outcome(program_id, rent, first, first_payload) is Ok,
        second.commit_record_account == commit_outcome(
            program_id,
            rent,
            first,
            first_payload,
        )->Ok_0.commit_record_account,
    ensures
        commit_outcome(program_id, rent, second, second_payload) is Err,
{
    reveal(commit_admission);
    reveal(commit_effect);
    reveal(commit_record_bytes);
}

/// Closing the cells of a delegation hands out what they hold and keeps
/// nothing back: the payer of the delegation and the two fee vaults get
/// together what the two cells held.
pub proof fn law_cleanup_conserves_lamports(
    record: AccountView,
    metadata: AccountView,
    reimbursement: AccountView,
    fees_vault: AccountView,
    validator_fees_vault: AccountView,
)
    requires
        cleanup_outcome(record, metadata, reimbursement, fees_vault, validator_fees_vault) is Ok,
    ensures
        ({
            let after = cleanup_outcome(
                record,
                metadata,
                reimbursement,
                fees_vault,
                validator_fees_vault,
            )->Ok_0;
            &&& after.0.lamports == 0
            &&& after.1.lamports == 0
            &&& after.2.lamports + after.3.lamports + after.4.lamports == record.lamports
                + metadata.lamports + reimbursement.lamports + fees_vault.lamports
                + validator_fees_vault.lamports
        }),
{
    let vaults = seq![validator_fees_vault, fees_vault];
    let first = close_pda_with_fees_outcome(record, reimbursement, vaults, 10);
    lemma_fee_tiers(record.lamports as nat, 10, 0);
    lemma_fee_tiers(record.lamports as nat, 10, 1);
    assert(vaults[0] == validator_fees_vault && vaults[1] == fees_vault);
    let (_, receiver, after_first) = first->Ok_0;
    assert(after_first[0].lamports == validator_fees_vault.lamports + fee_share(
        record.lamports as nat,
        10,
        2,
        0,
    ));
    assert(after_first[1].lamports == fees_vault.lamports + fee_share(
        record.lamports as nat,
        10,
        2,
        1,
    ));
    let second = close_pda_with_fees_outcome(metadata, receiver, after_first, 10);
    lemma_fee_tiers(metadata.lamports as nat, 10, 0);
    lemma_fee_tiers(metadata.lamports as nat, 10, 1);
    let (_, _, after_second) = second->Ok_0;
    assert(after_second[0].lamports == after_first[0].lamports + fee_share(
        metadata.lamports as nat,
        10,
        2,
        0,
    ));
    assert(after_second[1].lamports == after_first[1].lamports + fee_share(
        metadata.lamports as nat,
        10,
        2,
        1,
    ));
}

} // verus!
