//! The loyalty-points economy: issuance against purchase value and
//! redemption back to base currency.
//!
//! Points carry six decimal places (`POINT_SCALE`), and one base unit of
//! purchase value is `LAMPORTS_PER_SOL` lamports.  Issuance truncates the
//! purchase value to whole base units; redemption converts whole points at
//! the configured rate, multiplying by the base-unit size before dividing by
//! the rate so that point counts below the rate still convert exactly.  All
//! arithmetic is checked: overflow aborts with no state change.  The token
//! mint/burn themselves are the hosting environment's ledger calls; the
//! functions here decide the amounts and keep the cumulative counters.

use vstd::prelude::*;

use crate::error::CustomError;
use crate::escrow::Escrow;
use crate::types::Pubkey;

verus! {

/// Lamports in one base currency unit.
pub const LAMPORTS_PER_SOL: u64 = 1_000_000_000;

/// The scale of a loyalty point: points carry six decimal places.
pub const POINT_SCALE: u64 = 1_000_000;

/// A store's loyalty-mint record: configuration and cumulative counters.
#[derive(Clone, Copy, PartialEq, Eq, Structural, Debug)]
pub struct LoyaltyMint {
    pub store: Pubkey,
    pub mint: Pubkey,
    pub authority: Pubkey,
    pub points_per_sol: u64,
    pub redemption_rate: u64,
    pub total_points_issued: u64,
    pub total_points_redeemed: u64,
    pub is_token2022: bool,
}

/// The points owed for a purchase: points-per-unit times whole base units,
/// scaled to point decimals.
pub open spec fn points_for_purchase(points_per_sol: u64, purchase_amount_lamports: u64) -> int {
    points_per_sol * (purchase_amount_lamports / LAMPORTS_PER_SOL) * POINT_SCALE
}

/// The base-currency value of a redemption: whole points (decimals stripped)
/// times the base-unit size, divided by the redemption rate.  Meaningful
/// only for a non-zero rate.
pub open spec fn redemption_value(points_to_redeem: u64, redemption_rate: u64) -> int {
    ((points_to_redeem / POINT_SCALE) * LAMPORTS_PER_SOL) / (redemption_rate as int)
}

/// Creates a loyalty-mint record for `store`, with zeroed counters.
pub fn initialize_loyalty_mint(
    store: Pubkey,
    mint: Pubkey,
    authority: Pubkey,
    points_per_sol: u64,
    redemption_rate: u64,
    use_token2022: bool,
) -> (r: LoyaltyMint)
    ensures
        r.store == store,
        r.mint == mint,
        r.authority == authority,
        r.points_per_sol == points_per_sol,
        r.redemption_rate == redemption_rate,
        r.total_points_issued == 0,
        r.total_points_redeemed == 0,
        r.is_token2022 == use_token2022,
{
    LoyaltyMint {
        store,
        mint,
        authority,
        points_per_sol,
        redemption_rate,
        total_points_issued: 0,
        total_points_redeemed: 0,
        is_token2022: use_token2022,
    }
}

/// Issues the points owed for a purchase of `purchase_amount_lamports`:
/// returns how many points the host must mint to the buyer and adds them to
/// the cumulative issued counter.  A purchase below one base unit earns
/// nothing and changes nothing.  Overflow of the point computation or of the
/// counter aborts with no change; the issued counter never decreases.
pub fn mint_loyalty_points(loyalty_mint: &mut LoyaltyMint, purchase_amount_lamports: u64) -> (r:
    Result<u64, CustomError>)
    ensures
        final(loyalty_mint).store == old(loyalty_mint).store,
        final(loyalty_mint).mint == old(loyalty_mint).mint,
        final(loyalty_mint).authority == old(loyalty_mint).authority,
        final(loyalty_mint).points_per_sol == old(loyalty_mint).points_per_sol,
        final(loyalty_mint).redemption_rate == old(loyalty_mint).redemption_rate,
        final(loyalty_mint).total_points_redeemed == old(loyalty_mint).total_points_redeemed,
        final(loyalty_mint).is_token2022 == old(loyalty_mint).is_token2022,
        final(loyalty_mint).total_points_issued >= old(loyalty_mint).total_points_issued,
        ({
            let points = points_for_purchase(
                old(loyalty_mint).points_per_sol,
                purchase_amount_lamports,
            );
            match r {
                Ok(p) => {
                    &&& points <= u64::MAX
                    &&& old(loyalty_mint).total_points_issued + points <= u64::MAX
                    &&& p == points
                    &&& final(loyalty_mint).total_points_issued == old(
                        loyalty_mint,
                    ).total_points_issued + points
                },
                Err(e) => {
                    &&& e == CustomError::ArithmeticError
                    &&& (points > u64::MAX || old(loyalty_mint).total_points_issued + points
                        > u64::MAX)
                    &&& final(loyalty_mint).total_points_issued == old(
                        loyalty_mint,
                    ).total_points_issued
                },
            }
        }),
{
    let purchase_amount_sol = purchase_amount_lamports / LAMPORTS_PER_SOL;
    let base_points = match loyalty_mint.points_per_sol.checked_mul(purchase_amount_sol) {
        Some(v) => v,
        None => {
            proof {
                let pps = old(loyalty_mint).points_per_sol as int;
                let units = purchase_amount_lamports as int / LAMPORTS_PER_SOL as int;
                assert(pps * units * POINT_SCALE >= pps * units) by (nonlinear_arith)
                    requires
                        pps * units >= 0,
                        POINT_SCALE >= 1,
                ;
            }
            return Err(CustomError::ArithmeticError);
        },
    };
    let points_to_mint = match base_points.checked_mul(POINT_SCALE) {
        Some(v) => v,
        None => {
            return Err(CustomError::ArithmeticError);
        },
    };
    if points_to_mint == 0 {
        return Ok(0);
    }
    match loyalty_mint.total_points_issued.checked_add(points_to_mint) {
        Some(total) => {
            loyalty_mint.total_points_issued = total;
            Ok(points_to_mint)
        },
        None => Err(CustomError::ArithmeticError),
    }
}

/// Redeems `points_to_redeem` from a holder whose token balance is
/// `user_token_balance`: the host must burn the points, and when
/// `redeem_for_sol` is set it must also pay the returned base-currency value
/// out of the store's escrow, whose balance is debited here.  The redeemed
/// counter grows by exactly the points redeemed and never decreases; any
/// failure leaves every record unchanged.
pub fn redeem_loyalty_points(
    loyalty_mint: &mut LoyaltyMint,
    escrow: &mut Escrow,
    user_token_balance: u64,
    points_to_redeem: u64,
    redeem_for_sol: bool,
) -> (r: Result<u64, CustomError>)
    ensures
        final(loyalty_mint).store == old(loyalty_mint).store,
        final(loyalty_mint).mint == old(loyalty_mint).mint,
        final(loyalty_mint).authority == old(loyalty_mint).authority,
        final(loyalty_mint).points_per_sol == old(loyalty_mint).points_per_sol,
        final(loyalty_mint).redemption_rate == old(loyalty_mint).redemption_rate,
        final(loyalty_mint).total_points_issued == old(loyalty_mint).total_points_issued,
        final(loyalty_mint).is_token2022 == old(loyalty_mint).is_token2022,
        final(loyalty_mint).total_points_redeemed >= old(loyalty_mint).total_points_redeemed,
        final(escrow).store == old(escrow).store,
        ({
            let rate = old(loyalty_mint).redemption_rate;
            let whole_points = points_to_redeem / POINT_SCALE;
            let value = redemption_value(points_to_redeem, rate);
            let enough_points = user_token_balance >= points_to_redeem;
            let rate_ok = !redeem_for_sol || rate != 0;
            let product_fits = !redeem_for_sol || whole_points * LAMPORTS_PER_SOL <= u64::MAX;
            let escrow_ok = !redeem_for_sol || old(escrow).balance >= value;
            let counter_fits = old(loyalty_mint).total_points_redeemed + points_to_redeem
                <= u64::MAX;
            match r {
                Ok(v) => {
                    &&& enough_points && rate_ok && product_fits && escrow_ok && counter_fits
                    &&& final(loyalty_mint).total_points_redeemed == old(
                        loyalty_mint,
                    ).total_points_redeemed + points_to_redeem
                    &&& (if redeem_for_sol {
                        v == value && final(escrow).balance == old(escrow).balance - value
                    } else {
                        v == 0 && final(escrow).balance == old(escrow).balance
                    })
                },
                Err(e) => {
                    &&& final(loyalty_mint).total_points_redeemed == old(
                        loyalty_mint,
                    ).total_points_redeemed
                    &&& final(escrow).balance == old(escrow).balance
                    &&& (e == CustomError::InsufficientLoyaltyPoints || e
                        == CustomError::InvalidLoyaltyConfig || e == CustomError::ArithmeticError
                        || e == CustomError::InsufficientEscrowBalance)
                    &&& (e == CustomError::InsufficientLoyaltyPoints <==> !enough_points)
                    &&& (e == CustomError::InvalidLoyaltyConfig <==> enough_points && !rate_ok)
                    &&& (e == CustomError::InsufficientEscrowBalance <==> enough_points && rate_ok
                        && product_fits && !escrow_ok)
                    &&& (e == CustomError::ArithmeticError <==> enough_points && rate_ok && (
                    !product_fits || (escrow_ok && !counter_fits)))
                },
            }
        }),
{
    if user_token_balance < points_to_redeem {
        return Err(CustomError::InsufficientLoyaltyPoints);
    }
    let mut sol_value: u64 = 0;
    if redeem_for_sol {
        if loyalty_mint.redemption_rate == 0 {
            return Err(CustomError::InvalidLoyaltyConfig);
        }
        let whole_points = points_to_redeem / POINT_SCALE;
        let scaled = match whole_points.checked_mul(LAMPORTS_PER_SOL) {
            Some(v) => v,
            None => {
                return Err(CustomError::ArithmeticError);
            },
        };
        sol_value = scaled / loyalty_mint.redemption_rate;
        if escrow.balance < sol_value {
            return Err(CustomError::InsufficientEscrowBalance);
        }
    }
    let new_redeemed = match loyalty_mint.total_points_redeemed.checked_add(points_to_redeem) {
        Some(v) => v,
        None => {
            return Err(CustomError::ArithmeticError);
        },
    };
    if redeem_for_sol {
        escrow.balance = escrow.balance - sol_value;
    }
    loyalty_mint.total_points_redeemed = new_redeemed;
    Ok(sol_value)
}

} // verus!
