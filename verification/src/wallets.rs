//! Checking a list of developer wallets: every address must be accepted by
//! the host and the ratios must sum to exactly one.
use crate::error::ContractError;
use crate::fixed_point::{decimal_add, decimal_is_one, DECIMAL_FRACTIONAL};
use crate::state::WalletInfo;
use cosmwasm_std::StdError;
use vstd::prelude::*;

verus! {

/// The sum of the ratios (in atomics) of a list of wallets.
pub open spec fn ratio_sum(wallets: Seq<WalletInfo>) -> int
    decreases wallets.len(),
{
    if wallets.len() == 0 {
        0
    } else {
        ratio_sum(wallets.drop_last()) + wallets.last().ratio
    }
}

/// A list of wallets is valid when its ratios sum to exactly one.
pub open spec fn wallets_valid(wallets: Seq<WalletInfo>) -> bool {
    ratio_sum(wallets) == DECIMAL_FRACTIONAL
}

/// The host accepted the addresses of the first `k` wallets.
pub open spec fn addresses_accepted(checks: Seq<Result<(), StdError>>, k: int) -> bool {
    forall|j: int| 0 <= j < k ==> (#[trigger] checks[j]) is Ok
}

/// Walking the list, the running sum of the ratios is taken after each
/// accepted address and before the next check; it never exceeds the range
/// of a decimal.
pub open spec fn ratio_sum_fits(wallets: Seq<WalletInfo>, checks: Seq<Result<(), StdError>>) -> bool {
    forall|k: int|
        #![trigger ratio_sum(wallets.take(k))]
        1 <= k <= wallets.len() && addresses_accepted(checks, k) ==> ratio_sum(wallets.take(k)) <= u128::MAX
}

/// The host accepted every address and the ratios sum to one.
pub open spec fn wallets_accepted(wallets: Seq<WalletInfo>, checks: Seq<Result<(), StdError>>) -> bool {
    addresses_accepted(checks, wallets.len() as int) && wallets_valid(wallets)
}

/// The check of `wallets` refuses them with `e`: the host's error on the
/// first refused address, or `WrongRatio` when every address is accepted
/// but the ratios do not sum to one.
pub open spec fn wallet_refusal(wallets: Seq<WalletInfo>, checks: Seq<Result<(), StdError>>, e: ContractError) -> bool {
    if addresses_accepted(checks, wallets.len() as int) {
        !wallets_valid(wallets) && e is WrongRatio
    } else {
        exists|k: int|
            0 <= k < wallets.len() && addresses_accepted(checks, k) && #[trigger] checks[k] is Err && e
                == ContractError::Std(checks[k]->Err_0)
    }
}

proof fn lemma_ratio_sum_take_step(wallets: Seq<WalletInfo>, i: int)
    requires
        0 <= i < wallets.len(),
    ensures
        ratio_sum(wallets.take(i + 1)) == ratio_sum(wallets.take(i)) + wallets[i].ratio,
{
    assert(wallets.take(i + 1).drop_last() =~= wallets.take(i));
}

/// Checks the developer wallets of a configuration.  `address_checks[i]` is
/// the host's verdict on `wallets[i].address`.
pub fn check_dev_wallets(wallets: &Vec<WalletInfo>, address_checks: Vec<Result<(), StdError>>) -> (r: Result<(), ContractError>)
    requires
        address_checks.len() == wallets.len(),
        ratio_sum_fits(wallets@, address_checks@),
    ensures
        r is Ok <==> wallets_accepted(wallets@, address_checks@),
        r matches Err(e) ==> wallet_refusal(wallets@, address_checks@, e),
{
    let mut checks = address_checks;
    let mut total_ratio: u128 = 0;
    let n = wallets.len();
    let mut i: usize = 0;
    assert(wallets@.take(0) =~= Seq::<WalletInfo>::empty());
    while i < n
        invariant
            n == wallets.len(),
            checks@ == address_checks@,
            address_checks.len() == n,
            ratio_sum_fits(wallets@, address_checks@),
            0 <= i <= n,
            addresses_accepted(address_checks@, i as int),
            total_ratio == ratio_sum(wallets@.take(i as int)),
        decreases n - i,
    {
        if checks[i].is_err() {
            match checks.remove(i) {
                Err(e) => {
                    assert(address_checks@[i as int] is Err);
                    return Err(ContractError::Std(e));
                },
                Ok(()) => {},
            }
        }
        proof {
            lemma_ratio_sum_take_step(wallets@, i as int);
            assert(ratio_sum(wallets@.take(i + 1)) <= u128::MAX);
        }
        total_ratio = decimal_add(total_ratio, wallets[i].ratio);
        i = i + 1;
    }
    assert(wallets@.take(n as int) =~= wallets@);
    if !decimal_is_one(total_ratio) {
        return Err(ContractError::WrongRatio {});
    }
    Ok(())
}

/// Tells whether checking `wallets` cannot complete: the running sum of the
/// ratios leaves the range of a decimal before a refused address stops the
/// walk (see `ratio_sum_fits`).
pub fn ratio_sum_would_overflow(wallets: &Vec<WalletInfo>, address_checks: &Vec<Result<(), StdError>>) -> (r: bool)
    requires
        address_checks.len() == wallets.len(),
    ensures
        r == !ratio_sum_fits(wallets@, address_checks@),
{
    let n = wallets.len();
    let mut total: u128 = 0;
    let mut i: usize = 0;
    assert(wallets@.take(0) =~= Seq::<WalletInfo>::empty());
    while i < n
        invariant
            n == wallets.len(),
            address_checks.len() == n,
            0 <= i <= n,
            addresses_accepted(address_checks@, i as int),
            total == ratio_sum(wallets@.take(i as int)),
            forall|k: int|
                #![trigger ratio_sum(wallets@.take(k))]
                1 <= k <= i ==> ratio_sum(wallets@.take(k)) <= u128::MAX,
        decreases n - i,
    {
        if address_checks[i].is_err() {
            assert forall|k: int|
                #![trigger ratio_sum(wallets@.take(k))]
                1 <= k <= wallets@.len() && addresses_accepted(address_checks@, k) implies ratio_sum(
                wallets@.take(k),
            ) <= u128::MAX by {
                if k > i {
                    assert(address_checks@[i as int] is Err);
                }
            }
            return false;
        }
        proof {
            lemma_ratio_sum_take_step(wallets@, i as int);
        }
        match total.checked_add(wallets[i].ratio) {
            None => {
                assert(addresses_accepted(address_checks@, i + 1));
                assert(ratio_sum(wallets@.take(i + 1)) > u128::MAX);
                return true;
            },
            Some(t) => {
                total = t;
            },
        }
        i = i + 1;
    }
    false
}

} // verus!
