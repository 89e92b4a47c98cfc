//! What a call paid: the one coin that came with it.

use vstd::prelude::*;
use crate::asset::CoinView;
use crate::error::{PaymentError, PaymentErrorView};
use crate::msg::MessageInfo;

verus! {

/// The payment in `denom` that a call with the coins `funds` made: the amount
/// of the one coin sent, where exactly one was sent, of that denomination and
/// not of amount zero.
pub open spec fn payment_in(funds: Seq<CoinView>, denom: Seq<char>) -> Result<nat, PaymentErrorView> {
    if funds.len() == 0 {
        Err(PaymentErrorView::NoFunds)
    } else if funds.len() > 1 {
        Err(PaymentErrorView::MultipleDenoms)
    } else if funds[0].amount == 0 {
        Err(PaymentErrorView::NoFunds)
    } else if funds[0].denom != denom {
        Err(PaymentErrorView::MissingDenom(denom))
    } else {
        Ok(funds[0].amount)
    }
}

/// The value of what `must_pay` returned.
pub open spec fn paid_view(paid: Result<u128, PaymentError>) -> Result<nat, PaymentErrorView> {
    match paid {
        Ok(amount) => Ok(amount as nat),
        Err(e) => Err(e@),
    }
}

/// Calls `cw_utils::must_pay` on the coins of `info`. That function takes the
/// one coin sent (`one_coin`: none or a coin of amount zero gives `NoFunds`,
/// two or more give `MultipleDenoms`) and returns its amount, or
/// `MissingDenom` with the denomination asked for where the coin's is another.
#[verifier::external_body]
pub(crate) fn must_pay(info: &MessageInfo, denom: &String) -> (paid: Result<u128, PaymentError>)
    ensures
        paid_view(paid) == payment_in(info@.funds, denom@),
{
    let funds = info.funds.iter().map(|c| cosmwasm_std::Coin::new(c.amount, c.denom.clone())).collect();
    let sender = cosmwasm_std::Addr::unchecked(info.sender.clone());
    match cw_utils::must_pay(&cosmwasm_std::MessageInfo { sender, funds }, denom) {
        Ok(amount) => Ok(amount.u128()),
        Err(cw_utils::PaymentError::MissingDenom(d)) => Err(PaymentError::MissingDenom(d)),
        Err(cw_utils::PaymentError::ExtraDenom(d)) => Err(PaymentError::ExtraDenom(d)),
        Err(cw_utils::PaymentError::MultipleDenoms {  }) => Err(PaymentError::MultipleDenoms {  }),
        Err(cw_utils::PaymentError::NoFunds {  }) => Err(PaymentError::NoFunds {  }),
        Err(cw_utils::PaymentError::NonPayable {  }) => Err(PaymentError::NonPayable {  }),
    }
}

} // verus!
