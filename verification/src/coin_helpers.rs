//! Checking the funds sent with a bid against the required minimum.

use vstd::prelude::*;
use crate::error::ContractError;
use crate::state::{Coin, CoinV};

verus! {

/// Whether the funds sent with a request meet the required minimum:
/// funds must actually be sent; if a minimum is required they must be of
/// its denomination and meet or exceed its amount.
pub open spec fn sufficient(funds: Option<CoinV>, required: Option<CoinV>) -> bool {
    match funds {
        None => false,
        Some(f) => match required {
            None => true,
            Some(r) => f.denom == r.denom && f.amount >= r.amount,
        },
    }
}

/// Returns the sent coin when it meets the required minimum, and
/// `InsufficientFundsSend` otherwise (also when no funds were sent).
pub fn assert_sent_sufficient_coin(funds: &Option<Coin>, required: &Option<Coin>) -> (r: Result<
    Coin,
    ContractError,
>)
    ensures
        match r {
            Ok(c) => sufficient(crate::state::opt_coin_view(*funds), crate::state::opt_coin_view(*required))
                && Some(c@) == crate::state::opt_coin_view(*funds),
            Err(e) => !sufficient(crate::state::opt_coin_view(*funds), crate::state::opt_coin_view(*required))
                && e == ContractError::InsufficientFundsSend,
        },
{
    match funds {
        None => Err(ContractError::InsufficientFundsSend),
        Some(f) => match required {
            None => Ok(f.clone()),
            Some(req) => {
                if f.denom == req.denom && f.amount >= req.amount {
                    Ok(f.clone())
                } else {
                    Err(ContractError::InsufficientFundsSend)
                }
            },
        },
    }
}

} // verus!
