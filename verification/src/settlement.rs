//! Splitting the price of a sale and moving it.
//!
//! Splitting is arithmetic; moving is a call into a token contract. Every sale
//! does both: what the buyer pays is what the other parties receive.

use soroban_sdk::Address;
use vstd::prelude::*;

use crate::host::{has_contract_payload, is_contract, LedgerState, Payment, TransferCall};
use crate::ledger::Ledger;
use crate::types::{ContractError, DataKey};

verus! {

/// `bps` ten-thousandths of `amount`, rounded towards zero.
pub open spec fn share_of(amount: int, bps: int) -> int {
    if amount >= 0 {
        (amount * bps) / 10_000
    } else {
        -((-amount * bps) / 10_000)
    }
}

/// Whether the product that a share is taken from fits the amounts' type.
pub open spec fn share_fits(amount: i128, bps: u32) -> bool {
    i128::MIN <= amount * bps <= i128::MAX
}

/// `bps` ten-thousandths of `amount`, rounded towards zero. Fails where
/// `amount * bps` overflows.
pub fn basis_points(amount: i128, bps: u32) -> (share: Result<i128, ContractError>)
    ensures
        match share {
            Ok(s) => share_fits(amount, bps) && s == share_of(amount as int, bps as int),
            Err(e) => !share_fits(amount, bps) && e == ContractError::FeeOverflow,
        },
        match share {
            Ok(s) => if amount >= 0 {
                s * 10_000 <= amount * bps && amount * bps < (s + 1) * 10_000
            } else {
                -s * 10_000 <= -(amount * bps) && -(amount * bps) < (-s + 1) * 10_000
            },
            Err(_) => amount * bps < i128::MIN || amount * bps > i128::MAX,
        },
{
    let scaled: i128 = match amount.checked_mul(bps as i128) {
        Some(scaled) => scaled,
        None => {
            return Err(ContractError::FeeOverflow);
        },
    };
    proof {
        assert(-amount * bps == -(amount * bps)) by (nonlinear_arith);
        if amount >= 0 {
            assert(amount * bps >= 0) by (nonlinear_arith)
                requires
                    amount >= 0,
            ;
        } else {
            assert(amount * bps <= 0) by (nonlinear_arith)
                requires
                    amount < 0,
            ;
        }
    }
    match scaled.checked_div(10_000) {
        Some(share) => Ok(share),
        None => Err(ContractError::FeeOverflow),
    }
}

/// Who receives what of a sale, and in which asset.
pub struct SaleTerms {
    pub asset: Address,
    pub publisher: Address,
    pub platform: Address,
    pub seller: Address,
    pub royalty_amount: i128,
    pub platform_amount: i128,
    pub seller_amount: i128,
}

/// The payment of `amount`, or none where there is nothing to pay.
pub open spec fn payment_of(asset: Address, from: Address, to: Address, amount: i128) -> Seq<
    Payment,
> {
    if amount > 0 {
        seq![Payment { asset, from, to, amount }]
    } else {
        Seq::empty()
    }
}

impl SaleTerms {
    /// The payments that settle the sale, in order.
    pub open spec fn payments(self, payer: Address) -> Seq<Payment> {
        payment_of(self.asset, payer, self.publisher, self.royalty_amount) + payment_of(
            self.asset,
            payer,
            self.platform,
            self.platform_amount,
        ) + payment_of(self.asset, payer, self.seller, self.seller_amount)
    }
}

impl LedgerState {
    /// The terms of a sale at `total`, or why there can be no such sale.
    pub open spec fn sale_terms(
        self,
        seller: Address,
        publisher: Address,
        total: i128,
        royalty_bps: u32,
    ) -> Result<SaleTerms, ContractError> {
        if total <= 0 {
            Err(ContractError::SalePriceNotPositive)
        } else if self.platform() is Err {
            Err(self.platform()->Err_0)
        } else if self.fee_bps() is Err {
            Err(self.fee_bps()->Err_0)
        } else if !share_fits(total, royalty_bps) || !share_fits(total, self.fee_bps()->Ok_0) {
            Err(ContractError::FeeOverflow)
        } else {
            let royalty = share_of(total as int, royalty_bps as int);
            let fee = share_of(total as int, self.fee_bps()->Ok_0 as int);
            if total < royalty + fee {
                Err(ContractError::SalePriceTooLow)
            } else if self.payment_token() is Err {
                Err(self.payment_token()->Err_0)
            } else if !is_contract(self.payment_token()->Ok_0) {
                Err(ContractError::PaymentTokenNotContract)
            } else {
                Ok(
                    SaleTerms {
                        asset: self.payment_token()->Ok_0,
                        publisher,
                        platform: self.platform()->Ok_0,
                        seller,
                        royalty_amount: royalty as i128,
                        platform_amount: fee as i128,
                        seller_amount: (total - royalty - fee) as i128,
                    },
                )
            }
        }
    }

    /// The same ledger after every one of `payments` was asked for and granted.
    pub open spec fn with_payments(self, payments: Seq<Payment>) -> LedgerState {
        LedgerState {
            transfers: self.transfers + payments.map_values(
                |payment: Payment| TransferCall { payment, accepted: true },
            ),
            ..self
        }
    }
}

/// Payments touch no entry of the contract's own.
pub broadcast proof fn lemma_entry_of_with_payments(
    state: LedgerState,
    payments: Seq<Payment>,
    key: DataKey,
)
    ensures
        #[trigger] state.with_payments(payments).entry(key) == state.entry(key),
{
}

/// What asking for `payments` in turn does: either all are granted, or some are
/// and the next is refused, which ends it.
pub open spec fn settles(
    before: LedgerState,
    payments: Seq<Payment>,
    after: LedgerState,
    paid: bool,
) -> bool {
    if paid {
        after == before.with_payments(payments)
    } else {
        exists|refused: int|
            0 <= refused < payments.len() && after == before.with_payments(
                payments.take(refused),
            ).with_transfer(#[trigger] payments[refused], false)
    }
}

/// The terms of a sale at `total` in which the publisher of the work gets
/// `royalty_bps` and the platform its fee.
pub fn sale_terms(
    ledger: &Ledger,
    seller: &Address,
    publisher: &Address,
    total: i128,
    royalty_bps: u32,
) -> (terms: Result<SaleTerms, ContractError>)
    ensures
        terms == ledger@.sale_terms(*seller, *publisher, total, royalty_bps),
        terms is Ok ==> is_contract(terms->Ok_0.asset),
{
    if total <= 0 {
        return Err(ContractError::SalePriceNotPositive);
    }
    let platform = ledger.platform()?;
    let fee_bps: u32 = ledger.fee_bps()?;
    let royalty_amount: i128 = basis_points(total, royalty_bps)?;
    let platform_amount: i128 = basis_points(total, fee_bps)?;
    proof {
        lemma_share_is_small(total, royalty_bps);
        lemma_share_is_small(total, fee_bps);
    }
    let seller_amount: i128 = total - royalty_amount - platform_amount;
    if seller_amount < 0 {
        return Err(ContractError::SalePriceTooLow);
    }
    let asset = ledger.payment_token()?;
    if !has_contract_payload(&asset) {
        return Err(ContractError::PaymentTokenNotContract);
    }
    Ok(
        SaleTerms {
            asset,
            publisher: publisher.clone(),
            platform,
            seller: seller.clone(),
            royalty_amount,
            platform_amount,
            seller_amount,
        },
    )
}

/// A share that could be computed leaves room to be subtracted.
proof fn lemma_share_is_small(total: i128, bps: u32)
    requires
        total > 0,
        share_fits(total, bps),
    ensures
        0 <= share_of(total as int, bps as int) <= i128::MAX / 10_000,
{
    assert(total * bps >= 0) by (nonlinear_arith)
        requires
            total > 0,
    ;
}

fn pay(ledger: &mut Ledger, asset: &Address, from: &Address, to: &Address, amount: i128) -> (paid:
    bool)
    requires
        is_contract(*asset),
    ensures
        settles(old(ledger)@, payment_of(*asset, *from, *to, amount), final(ledger)@, paid),
{
    let ghost payments = payment_of(*asset, *from, *to, amount);
    if amount > 0 {
        let paid = ledger.transfer(asset, from, to, amount);
        proof {
            let payment = payments[0];
            if paid {
                assert(ledger@ =~= old(ledger)@.with_payments(payments));
            } else {
                assert(old(ledger)@.with_payments(payments.take(0)) =~= old(ledger)@);
                assert(ledger@ == old(ledger)@.with_payments(payments.take(0)).with_transfer(
                    payments[0],
                    false,
                ));
            }
        }
        paid
    } else {
        assert(ledger@ =~= old(ledger)@.with_payments(payments));
        true
    }
}

/// Settling in two goes is settling in one.
proof fn lemma_settles_in_turn(
    before: LedgerState,
    first: Seq<Payment>,
    between: LedgerState,
    second: Seq<Payment>,
    after: LedgerState,
    paid: bool,
)
    requires
        settles(before, first, between, true),
        settles(between, second, after, paid),
    ensures
        settles(before, first + second, after, paid),
{
    let all = first + second;
    if paid {
        assert(before.with_payments(first).with_payments(second) =~= before.with_payments(all));
    } else {
        let k = choose|k: int|
            0 <= k < second.len() && after == between.with_payments(second.take(k)).with_transfer(
                #[trigger] second[k],
                false,
            );
        assert(before.with_payments(first).with_payments(second.take(k)) =~= before.with_payments(
            all.take(first.len() + k),
        ));
        assert(all[first.len() + k] == second[k]);
    }
}

/// A refusal ends the settlement.
proof fn lemma_refusal_ends_it(
    before: LedgerState,
    first: Seq<Payment>,
    after: LedgerState,
    second: Seq<Payment>,
)
    requires
        settles(before, first, after, false),
    ensures
        settles(before, first + second, after, false),
{
    let all = first + second;
    let k = choose|k: int|
        0 <= k < first.len() && after == before.with_payments(first.take(k)).with_transfer(
            #[trigger] first[k],
            false,
        );
    assert(all.take(k) =~= first.take(k));
    assert(all[k] == first[k]);
}

/// Asks for the payments of a sale and tells whether all of them were granted.
pub(crate) fn settle_sale(ledger: &mut Ledger, payer: &Address, terms: &SaleTerms) -> (paid: bool)
    requires
        is_contract(terms.asset),
    ensures
        settles(old(ledger)@, terms.payments(*payer), final(ledger)@, paid),
{
    let ghost v0 = ledger@;
    let ghost royalty = payment_of(terms.asset, *payer, terms.publisher, terms.royalty_amount);
    let ghost fee = payment_of(terms.asset, *payer, terms.platform, terms.platform_amount);
    let ghost proceeds = payment_of(terms.asset, *payer, terms.seller, terms.seller_amount);
    if !pay(ledger, &terms.asset, payer, &terms.publisher, terms.royalty_amount) {
        proof {
            lemma_refusal_ends_it(v0, royalty, ledger@, fee);
            lemma_refusal_ends_it(v0, royalty + fee, ledger@, proceeds);
        }
        return false;
    }
    let ghost v1 = ledger@;
    if !pay(ledger, &terms.asset, payer, &terms.platform, terms.platform_amount) {
        proof {
            lemma_settles_in_turn(v0, royalty, v1, fee, ledger@, false);
            lemma_refusal_ends_it(v0, royalty + fee, ledger@, proceeds);
        }
        return false;
    }
    let ghost v2 = ledger@;
    let paid = pay(ledger, &terms.asset, payer, &terms.seller, terms.seller_amount);
    proof {
        lemma_settles_in_turn(v0, royalty, v1, fee, v2, true);
        lemma_settles_in_turn(v0, royalty + fee, v2, proceeds, ledger@, paid);
    }
    paid
}

} // verus!
