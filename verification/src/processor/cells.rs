//! Creating and closing the cells that the program keeps.
//!
//! A cell that no program has taken is owned by the system program, and only
//! the system program moves lamports out of such a cell or gives it bytes and
//! an owner. What it does on the program's request is described here as the
//! change that it makes to the accounts.

use crate::account::{minimum_balance_of, views, Account, AccountView, Rent};
use crate::error::ProgramError;
use crate::pubkey::{pubkey_eq, system_id, system_program_id, Pubkey};
use vstd::prelude::*;

verus! {

/// `n` zero bytes.
pub open spec fn zeros(n: nat) -> Seq<u8> {
    Seq::new(n, |i: int| 0u8)
}

/// `n` zero bytes.
pub fn zeroed(n: usize) -> (out: Vec<u8>)
    ensures
        out@ == zeros(n as nat),
{
    let mut out: Vec<u8> = Vec::new();
    let mut i: usize = 0;
    while i < n
        invariant
            i <= n,
            out@ == zeros(i as nat),
        decreases n - i,
    {
        out.push(0);
        i += 1;
        assert(out@ =~= zeros(i as nat));
    }
    out
}

/// What the payer has to add to a balance so that it reaches `min`.
pub open spec fn top_up(balance: u64, min: nat) -> nat {
    if min > balance {
        (min - balance) as nat
    } else {
        0
    }
}

/// The target and the payer after the target was created with `space` zero
/// bytes for the program `owner`, or why it is not created. The target must
/// not exist yet. It is brought up to the balance that keeps it exempt from
/// rent, at the payer's cost; what it holds already stays with it.
pub open spec fn create_pda_outcome(
    target: AccountView,
    payer: AccountView,
    owner: Seq<u8>,
    space: nat,
    rent: Rent,
) -> Result<(AccountView, AccountView), ProgramError> {
    let min = minimum_balance_of(rent.lamports_per_byte, space);
    if min > u64::MAX {
        Err(ProgramError::ArithmeticOverflow)
    } else if target.owner != system_id() || target.data.len() != 0 {
        Err(ProgramError::AccountAlreadyInitialized)
    } else if payer.lamports < top_up(target.lamports, min) {
        Err(ProgramError::InsufficientFunds)
    } else {
        Ok(
            (
                AccountView {
                    lamports: (target.lamports + top_up(target.lamports, min)) as u64,
                    data: zeros(space),
                    owner: owner,
                    ..target
                },
                AccountView {
                    lamports: (payer.lamports - top_up(target.lamports, min)) as u64,
                    ..payer
                },
            ),
        )
    }
}

/// Creates the target with `space` zero bytes for the program `owner`, at the
/// payer's cost. On failure both accounts stay as they are.
pub fn create_pda(
    target: &mut Account,
    owner: &Pubkey,
    space: usize,
    payer: &mut Account,
    rent: &Rent,
) -> (r: Result<(), ProgramError>)
    ensures
        match r {
            Ok(()) => create_pda_outcome(
                old(target)@,
                old(payer)@,
                owner@,
                space as nat,
                *rent,
            ) == Ok::<(AccountView, AccountView), ProgramError>((final(target)@, final(payer)@)),
            Err(e) => create_pda_outcome(old(target)@, old(payer)@, owner@, space as nat, *rent)
                == Err::<(AccountView, AccountView), ProgramError>(e) && final(target)@ == old(target)@ && final(payer)@ == old(payer)@,
        },
{
    let min = match rent.minimum_balance(space) {
        Some(min) => min,
        None => {
            return Err(ProgramError::ArithmeticOverflow);
        },
    };
    let system = system_program_id();
    if !pubkey_eq(&target.owner, &system) || target.data.len() != 0 {
        return Err(ProgramError::AccountAlreadyInitialized);
    }
    let missing: u64 = if min > target.lamports {
        min - target.lamports
    } else {
        0
    };
    if payer.lamports < missing {
        return Err(ProgramError::InsufficientFunds);
    }
    payer.lamports = payer.lamports - missing;
    target.lamports = target.lamports + missing;
    target.data = zeroed(space);
    target.owner = *owner;
    Ok(())
}

/// A cell that is closed: it holds nothing, and is the system program's
/// again.
pub open spec fn closed(target: AccountView) -> AccountView {
    AccountView { lamports: 0, data: Seq::empty(), owner: system_id(), ..target }
}

/// The target and the destination after the target was closed, or why it is
/// not closed. The destination gets the target's balance.
pub open spec fn close_pda_outcome(target: AccountView, destination: AccountView) -> Result<
    (AccountView, AccountView),
    ProgramError,
> {
    if destination.lamports + target.lamports > u64::MAX {
        Err(ProgramError::ArithmeticOverflow)
    } else {
        Ok(
            (
                closed(target),
                AccountView {
                    lamports: (destination.lamports + target.lamports) as u64,
                    ..destination
                },
            ),
        )
    }
}

/// Closes the target and gives its balance to the destination. On failure
/// both accounts stay as they are.
pub fn close_pda(target: &mut Account, destination: &mut Account) -> (r: Result<(), ProgramError>)
    ensures
        match r {
            Ok(()) => close_pda_outcome(old(target)@, old(destination)@) == Ok::<
                (AccountView, AccountView),
                ProgramError,
            >((final(target)@, final(destination)@)),
            Err(e) => close_pda_outcome(old(target)@, old(destination)@) == Err::<
                (AccountView, AccountView),
                ProgramError,
            >(e) && final(target)@ == old(target)@ && final(destination)@ == old(destination)@,
        },
{
    let sum = match destination.lamports.checked_add(target.lamports) {
        Some(sum) => sum,
        None => {
            return Err(ProgramError::ArithmeticOverflow);
        },
    };
    destination.lamports = sum;
    target.lamports = 0;
    target.owner = system_program_id();
    target.data = Vec::new();
    assert(target@.data =~= Seq::<u8>::empty());
    Ok(())
}

/// The fee of tier `i` on a balance: tier 0 is `pct` percent of the
/// balance, rounded down, and every further tier is `pct` percent of the
/// tier before it, rounded down.
pub open spec fn fee_tier(lamports: nat, pct: nat, i: nat) -> nat
    decreases i,
{
    if i == 0 {
        lamports * pct / 100
    } else {
        fee_tier(lamports, pct, (i - 1) as nat) * pct / 100
    }
}

/// What the `i`-th of `n` fee accounts gets: its tier less the next tier,
/// and the last one its whole tier. Together they get tier 0.
pub open spec fn fee_share(lamports: nat, pct: nat, n: nat, i: nat) -> nat {
    if i + 1 < n {
        (fee_tier(lamports, pct, i) - fee_tier(lamports, pct, i + 1)) as nat
    } else {
        fee_tier(lamports, pct, i)
    }
}

/// The fee accounts with their shares of the fees on `lamports` added.
pub open spec fn fees_credited(fees: Seq<AccountView>, lamports: nat, pct: nat) -> Seq<
    AccountView,
> {
    Seq::new(
        fees.len(),
        |i: int|
            AccountView {
                lamports: (fees[i].lamports + fee_share(lamports, pct, fees.len(), i as nat)) as u64,
                ..fees[i]
            },
    )
}

/// Every fee account can hold its share.
pub open spec fn fees_fit(fees: Seq<AccountView>, lamports: nat, pct: nat) -> bool {
    forall|i: int|
        0 <= i < fees.len() ==> (#[trigger] fees[i]).lamports + fee_share(
            lamports,
            pct,
            fees.len(),
            i as nat,
        ) <= u64::MAX
}

/// The target, the destination and the fee accounts after the target was
/// closed with fees, or why it is not closed. The fee accounts get their
/// shares of the fees on the target's balance, and the destination gets the
/// balance less tier 0.
pub open spec fn close_pda_with_fees_outcome(
    target: AccountView,
    destination: AccountView,
    fees: Seq<AccountView>,
    pct: u8,
) -> Result<(AccountView, AccountView, Seq<AccountView>), ProgramError> {
    let lamports = target.lamports as nat;
    if fees.len() == 0 || pct > 100 {
        Err(ProgramError::InvalidArgument)
    } else if lamports * (pct as nat) > u64::MAX {
        Err(ProgramError::InsufficientFunds)
    } else if !fees_fit(fees, lamports, pct as nat) {
        Err(ProgramError::InsufficientFunds)
    } else if destination.lamports + lamports - fee_tier(lamports, pct as nat, 0) > u64::MAX {
        Err(ProgramError::InsufficientFunds)
    } else {
        Ok(
            (
                closed(target),
                AccountView {
                    lamports: (destination.lamports + lamports - fee_tier(
                        lamports,
                        pct as nat,
                        0,
                    )) as u64,
                    ..destination
                },
                fees_credited(fees, lamports, pct as nat),
            ),
        )
    }
}

/// A percentage of an amount is no more than the amount.
pub proof fn lemma_percentage(x: nat, pct: nat)
    requires
        pct <= 100,
    ensures
        x * pct / 100 <= x,
        x * pct / 100 * pct <= x * pct,
{
    assert(x * pct <= x * 100) by (nonlinear_arith)
        requires
            pct <= 100,
    ;
    assert(x * pct / 100 <= x);
    assert(x * pct / 100 * pct <= x * pct) by (nonlinear_arith)
        requires
            x * pct / 100 <= x,
    ;
}

/// No tier is more than the tier before it, nor than the balance.
pub proof fn lemma_fee_tiers(lamports: nat, pct: nat, i: nat)
    requires
        pct <= 100,
    ensures
        fee_tier(lamports, pct, i + 1) <= fee_tier(lamports, pct, i) <= lamports,
        fee_tier(lamports, pct, i) * pct <= lamports * pct,
    decreases i,
{
    if i == 0 {
        lemma_percentage(lamports, pct);
    } else {
        lemma_fee_tiers(lamports, pct, (i - 1) as nat);
        lemma_percentage(fee_tier(lamports, pct, (i - 1) as nat), pct);
    }
    lemma_percentage(fee_tier(lamports, pct, i), pct);
    assert(fee_tier(lamports, pct, i) * pct <= lamports * pct) by (nonlinear_arith)
        requires
            fee_tier(lamports, pct, i) <= lamports,
    ;
}

/// Closes the target, hands the fees on its balance out to the fee accounts,
/// and gives the rest of the balance to the destination.
///
/// The fees are tiered: the first fee account is reckoned `fee_percentage`
/// percent of the balance, each further one the same percentage of what the
/// one before it was reckoned, and each but the last passes on what the next
/// is reckoned. On failure all accounts stay as they are.
#[verifier::loop_isolation(false)]
pub fn close_pda_with_fees(
    target: &mut Account,
    destination: &mut Account,
    fees_addresses: &mut Vec<Account>,
    fee_percentage: u8,
) -> (r: Result<(), ProgramError>)
    ensures
        match r {
            Ok(()) => close_pda_with_fees_outcome(
                old(target)@,
                old(destination)@,
                views(old(fees_addresses)@),
                fee_percentage,
            ) == Ok::<(AccountView, AccountView, Seq<AccountView>), ProgramError>(
                (final(target)@, final(destination)@, views(final(fees_addresses)@)),
            ),
            Err(e) => close_pda_with_fees_outcome(
                old(target)@,
                old(destination)@,
                views(old(fees_addresses)@),
                fee_percentage,
            ) == Err::<(AccountView, AccountView, Seq<AccountView>), ProgramError>(e) && final(target)@ == old(target)@ && final(destination)@ == old(destination)@ && views(
                final(fees_addresses)@,
            ) == views(old(fees_addresses)@),
        },
{
    let n = fees_addresses.len();
    if n == 0 || fee_percentage > 100 {
        return Err(ProgramError::InvalidArgument);
    }
    let pct: u64 = fee_percentage as u64;
    let init_lamports = target.lamports;
    let ghost lamports = init_lamports as nat;
    let ghost before = views(fees_addresses@);
    let total_fee_amount = match init_lamports.checked_mul(pct) {
        Some(product) => product / 100,
        None => {
            return Err(ProgramError::InsufficientFunds);
        },
    };
    let mut tiers: Vec<u64> = Vec::new();
    tiers.push(total_fee_amount);
    let mut i: usize = 1;
    while i < n
        invariant
            1 <= i <= n,
            pct <= 100,
            lamports * pct <= u64::MAX,
            tiers@.len() == i,
            forall|j: int| 0 <= j < i ==> tiers@[j] == fee_tier(lamports, pct as nat, j as nat),
        decreases n - i,
    {
        proof {
            lemma_fee_tiers(lamports, pct as nat, (i - 1) as nat);
        }
        let next = tiers[i - 1] * pct / 100;
        tiers.push(next);
        i += 1;
    }
    let mut credited: Vec<u64> = Vec::new();
    let mut i: usize = 0;
    while i < n
        invariant
            i <= n,
            n == fees_addresses@.len(),
            pct <= 100,
            tiers@.len() == n,
            before == views(fees_addresses@),
            forall|j: int| 0 <= j < n ==> tiers@[j] == fee_tier(lamports, pct as nat, j as nat),
            credited@.len() == i,
            forall|j: int|
                0 <= j < i ==> credited@[j] == (#[trigger] before[j]).lamports + fee_share(
                    lamports,
                    pct as nat,
                    n as nat,
                    j as nat,
                ),
        decreases n - i,
    {
        proof {
            lemma_fee_tiers(lamports, pct as nat, i as nat);
        }
        let share = if i + 1 < n {
            tiers[i] - tiers[i + 1]
        } else {
            tiers[i]
        };
        assert(before[i as int] == fees_addresses@[i as int]@);
        match fees_addresses[i].lamports.checked_add(share) {
            Some(sum) => {
                credited.push(sum);
            },
            None => {
                assert(!fees_fit(before, lamports, pct as nat));
                return Err(ProgramError::InsufficientFunds);
            },
        }
        i += 1;
    }
    assert(fees_fit(before, lamports, pct as nat));
    proof {
        lemma_percentage(lamports, pct as nat);
    }
    let rest = init_lamports - total_fee_amount;
    let destination_lamports = match destination.lamports.checked_add(rest) {
        Some(sum) => sum,
        None => {
            return Err(ProgramError::InsufficientFunds);
        },
    };
    let mut i: usize = 0;
    while i < n
        invariant
            i <= n,
            n == fees_addresses@.len(),
            before.len() == n,
            credited@.len() == n,
            forall|j: int|
                0 <= j < n ==> credited@[j] == (#[trigger] before[j]).lamports + fee_share(
                    lamports,
                    pct as nat,
                    n as nat,
                    j as nat,
                ),
            forall|j: int|
                0 <= j < i ==> (#[trigger] fees_addresses@[j])@ == fees_credited(
                    before,
                    lamports,
                    pct as nat,
                )[j],
            forall|j: int| i <= j < n ==> (#[trigger] fees_addresses@[j])@ == before[j],
        decreases n - i,
    {
        let mut account = fees_addresses[i].duplicate();
        account.lamports = credited[i];
        assert(before[i as int].lamports + fee_share(lamports, pct as nat, n as nat, i as nat)
            == credited@[i as int]);
        fees_addresses[i] = account;
        i += 1;
    }
    assert(views(fees_addresses@) =~= fees_credited(before, lamports, pct as nat));
    destination.lamports = destination_lamports;
    target.lamports = 0;
    target.owner = system_program_id();
    target.data = Vec::new();
    assert(target@.data =~= Seq::<u8>::empty());
    Ok(())
}

} // verus!
