use vstd::prelude::*;

use crate::addr::Address;

verus! {

/// The failure conditions of the escrow ledger.
#[derive(Clone, Copy, PartialEq, Eq, Structural, Debug)]
pub enum ErrorCode {
    /// An admin-only operation was invoked by a non-admin identity.
    Unauthorized,
    /// Arithmetic overflow in a price or balance computation.
    Overflow,
    /// The escrow was initialized a second time for one inventory.
    AlreadyInitialized,
    /// An account handed to the operation is not the one the escrow is
    /// bound to.
    AccountMismatch,
    /// The buyer cannot cover the payment.
    InsufficientFunds,
    /// The escrow does not hold enough inventory.
    InsufficientInventory,
}

/// Payment units per whole token; token amounts carry two implied
/// decimals, so a purchase of `amount` costs `amount * price / 100`.
pub const PRICE_SCALE: u64 = 100;

/// The escrow's sale state: its admin, the inventory it is bound to, the
/// unit price, and cumulative sale statistics.
#[derive(Clone, Copy, PartialEq, Eq, Structural, Debug)]
pub struct Escrow {
    pub admin: Address,
    pub token_mint: Address,
    pub escrow_token_account: Address,
    pub price_per_token: u64,
    pub total_sold: u64,
    pub total_revenue: u64,
    pub bump: u8,
}

/// Emitted on every completed purchase.
#[derive(Clone, Copy, PartialEq, Eq, Structural, Debug)]
pub struct PurchaseEvent {
    pub buyer: Address,
    pub amount: u64,
    pub price: u64,
    pub timestamp: i64,
}

/// The accounts a purchase touches: the buyer paying in payment units and
/// receiving tokens, the admin receiving the payment, and the escrow's
/// inventory account.
#[derive(Clone, Copy, PartialEq, Eq, Structural, Debug)]
pub struct BuyTokens {
    pub buyer: Address,
    pub admin: Address,
    pub escrow_token_account: Address,
    pub buyer_lamports: u64,
    pub admin_lamports: u64,
    pub escrow_tokens: u64,
    pub buyer_tokens: u64,
}

/// The accounts a withdrawal touches: the caller claiming adminship and
/// the two token accounts the inventory moves between.
#[derive(Clone, Copy, PartialEq, Eq, Structural, Debug)]
pub struct WithdrawTokens {
    pub admin: Address,
    pub escrow_token_account: Address,
    pub escrow_tokens: u64,
    pub admin_tokens: u64,
}

/// Exactly how escrow creation relates the slot before and after: a
/// second initialization fails and changes nothing; otherwise the slot
/// holds a fresh escrow with zero cumulative statistics.
pub open spec fn initialize_post(
    pre: Option<Escrow>,
    post: Option<Escrow>,
    r: Result<(), ErrorCode>,
    admin: Address,
    token_mint: Address,
    escrow_token_account: Address,
    price_per_token: u64,
    bump: u8,
) -> bool {
    match pre {
        Some(_) => {
            &&& r == Err::<(), ErrorCode>(ErrorCode::AlreadyInitialized)
            &&& post == pre
        },
        None => {
            &&& r == Ok::<(), ErrorCode>(())
            &&& post == Some(
                Escrow {
                    admin,
                    token_mint,
                    escrow_token_account,
                    price_per_token,
                    total_sold: 0,
                    total_revenue: 0,
                    bump,
                },
            )
        },
    }
}

/// Create the escrow bound to one inventory account, with zeroed sale
/// statistics. Fails without mutation when the slot is already occupied.
pub fn initialize(
    slot: &mut Option<Escrow>,
    admin: Address,
    token_mint: Address,
    escrow_token_account: Address,
    price_per_token: u64,
    bump: u8,
) -> (r: Result<(), ErrorCode>)
    ensures
        initialize_post(
            *old(slot),
            *final(slot),
            r,
            admin,
            token_mint,
            escrow_token_account,
            price_per_token,
            bump,
        ),
{
    if slot.is_some() {
        return Err(ErrorCode::AlreadyInitialized);
    }
    *slot = Some(
        Escrow {
            admin,
            token_mint,
            escrow_token_account,
            price_per_token,
            total_sold: 0,
            total_revenue: 0,
            bump,
        },
    );
    Ok(())
}

/// The scaled total price of a purchase, before any range check.
pub open spec fn total_price_of(amount: u64, price_per_token: u64) -> int {
    (amount * price_per_token) / (PRICE_SCALE as int)
}

/// The error a purchase must return, or `None` when it is owed success:
/// the accounts must be the bound ones, no intermediate product, balance
/// or statistic may overflow, and both transfers must be covered.
pub open spec fn buy_error(e: Escrow, a: BuyTokens, amount: u64) -> Option<ErrorCode> {
    if a.admin != e.admin || a.escrow_token_account != e.escrow_token_account {
        Some(ErrorCode::AccountMismatch)
    } else if amount * e.price_per_token > u64::MAX {
        Some(ErrorCode::Overflow)
    } else if a.buyer_lamports < total_price_of(amount, e.price_per_token) {
        Some(ErrorCode::InsufficientFunds)
    } else if a.escrow_tokens < amount {
        Some(ErrorCode::InsufficientInventory)
    } else if a.admin_lamports + total_price_of(amount, e.price_per_token) > u64::MAX {
        Some(ErrorCode::Overflow)
    } else if a.buyer_tokens + amount > u64::MAX {
        Some(ErrorCode::Overflow)
    } else if e.total_sold + amount > u64::MAX {
        Some(ErrorCode::Overflow)
    } else if e.total_revenue + total_price_of(amount, e.price_per_token) > u64::MAX {
        Some(ErrorCode::Overflow)
    } else {
        None
    }
}

/// Exactly how one purchase relates its pre- and post-state: all-or-
/// nothing settlement. On failure neither the escrow nor any balance
/// changes; on success the payment moves buyer-to-admin, the inventory
/// moves escrow-to-buyer, the cumulative statistics grow by exactly the
/// amount and the scaled price, and the event reports them.
pub open spec fn buy_post(
    pre_e: Escrow,
    post_e: Escrow,
    pre_a: BuyTokens,
    post_a: BuyTokens,
    r: Result<PurchaseEvent, ErrorCode>,
    amount: u64,
    timestamp: i64,
) -> bool {
    match r {
        Err(e) => {
            &&& buy_error(pre_e, pre_a, amount) == Some(e)
            &&& post_e == pre_e
            &&& post_a == pre_a
        },
        Ok(ev) => {
            &&& buy_error(pre_e, pre_a, amount) is None
            &&& ev == (PurchaseEvent {
                buyer: pre_a.buyer,
                amount,
                price: total_price_of(amount, pre_e.price_per_token) as u64,
                timestamp,
            })
            &&& post_a == (BuyTokens {
                buyer_lamports: (pre_a.buyer_lamports - total_price_of(
                    amount,
                    pre_e.price_per_token,
                )) as u64,
                admin_lamports: (pre_a.admin_lamports + total_price_of(
                    amount,
                    pre_e.price_per_token,
                )) as u64,
                escrow_tokens: (pre_a.escrow_tokens - amount) as u64,
                buyer_tokens: (pre_a.buyer_tokens + amount) as u64,
                ..pre_a
            })
            &&& post_e == (Escrow {
                total_sold: (pre_e.total_sold + amount) as u64,
                total_revenue: (pre_e.total_revenue + total_price_of(
                    amount,
                    pre_e.price_per_token,
                )) as u64,
                ..pre_e
            })
        },
    }
}

/// Purchase `amount` token units at the current price: pay the scaled
/// total to the admin, receive the tokens from the escrow's inventory,
/// and grow the cumulative statistics, every step overflow-checked and
/// checked before anything mutates.
pub fn buy_tokens(
    escrow: &mut Escrow,
    accounts: &mut BuyTokens,
    amount: u64,
    timestamp: i64,
) -> (r: Result<PurchaseEvent, ErrorCode>)
    ensures
        buy_post(*old(escrow), *final(escrow), *old(accounts), *final(accounts), r, amount, timestamp),
{
    if !(accounts.admin.id == escrow.admin.id
        && accounts.escrow_token_account.id == escrow.escrow_token_account.id) {
        return Err(ErrorCode::AccountMismatch);
    }
    let total_price: u64 = match amount.checked_mul(escrow.price_per_token) {
        Some(raw) => raw / PRICE_SCALE,
        None => {
            return Err(ErrorCode::Overflow);
        },
    };
    if accounts.buyer_lamports < total_price {
        return Err(ErrorCode::InsufficientFunds);
    }
    if accounts.escrow_tokens < amount {
        return Err(ErrorCode::InsufficientInventory);
    }
    let admin_lamports: u64 = match accounts.admin_lamports.checked_add(total_price) {
        Some(v) => v,
        None => {
            return Err(ErrorCode::Overflow);
        },
    };
    let buyer_tokens: u64 = match accounts.buyer_tokens.checked_add(amount) {
        Some(v) => v,
        None => {
            return Err(ErrorCode::Overflow);
        },
    };
    let total_sold: u64 = match escrow.total_sold.checked_add(amount) {
        Some(v) => v,
        None => {
            return Err(ErrorCode::Overflow);
        },
    };
    let total_revenue: u64 = match escrow.total_revenue.checked_add(total_price) {
        Some(v) => v,
        None => {
            return Err(ErrorCode::Overflow);
        },
    };
    accounts.buyer_lamports = accounts.buyer_lamports - total_price;
    accounts.admin_lamports = admin_lamports;
    accounts.escrow_tokens = accounts.escrow_tokens - amount;
    accounts.buyer_tokens = buyer_tokens;
    escrow.total_sold = total_sold;
    escrow.total_revenue = total_revenue;
    Ok(PurchaseEvent { buyer: accounts.buyer, amount, price: total_price, timestamp })
}

/// Exactly how a price update relates its pre- and post-state: admin-only;
/// on success only the price changes, unconditionally.
pub open spec fn update_price_post(
    pre: Escrow,
    post: Escrow,
    r: Result<(), ErrorCode>,
    caller: Address,
    new_price: u64,
) -> bool {
    if caller != pre.admin {
        &&& r == Err::<(), ErrorCode>(ErrorCode::Unauthorized)
        &&& post == pre
    } else {
        &&& r == Ok::<(), ErrorCode>(())
        &&& post == (Escrow { price_per_token: new_price, ..pre })
    }
}

/// Replace the unit price. Only the stored admin identity may do so.
pub fn update_price(escrow: &mut Escrow, caller: Address, new_price: u64) -> (r: Result<
    (),
    ErrorCode,
>)
    ensures
        update_price_post(*old(escrow), *final(escrow), r, caller, new_price),
{
    if caller.id != escrow.admin.id {
        return Err(ErrorCode::Unauthorized);
    }
    escrow.price_per_token = new_price;
    Ok(())
}

/// The error a withdrawal must return, or `None` when it is owed success.
pub open spec fn withdraw_error(e: Escrow, a: WithdrawTokens, amount: u64) -> Option<ErrorCode> {
    if a.admin != e.admin {
        Some(ErrorCode::Unauthorized)
    } else if a.escrow_token_account != e.escrow_token_account {
        Some(ErrorCode::AccountMismatch)
    } else if a.escrow_tokens < amount {
        Some(ErrorCode::InsufficientInventory)
    } else if a.admin_tokens + amount > u64::MAX {
        Some(ErrorCode::Overflow)
    } else {
        None
    }
}

/// Exactly how one withdrawal relates its pre- and post-state: admin-only,
/// overflow-checked, and all-or-nothing on the two token balances. The
/// escrow's own fields never change.
pub open spec fn withdraw_post(
    e: Escrow,
    pre_a: WithdrawTokens,
    post_a: WithdrawTokens,
    r: Result<(), ErrorCode>,
    amount: u64,
) -> bool {
    match r {
        Err(err) => {
            &&& withdraw_error(e, pre_a, amount) == Some(err)
            &&& post_a == pre_a
        },
        Ok(_) => {
            &&& withdraw_error(e, pre_a, amount) is None
            &&& post_a == (WithdrawTokens {
                escrow_tokens: (pre_a.escrow_tokens - amount) as u64,
                admin_tokens: (pre_a.admin_tokens + amount) as u64,
                ..pre_a
            })
        },
    }
}

/// Move `amount` inventory units from the escrow's holdings to the
/// admin's account, under the escrow's derived signing authority. Only
/// the stored admin identity may do so.
pub fn withdraw_tokens(escrow: &Escrow, accounts: &mut WithdrawTokens, amount: u64) -> (r: Result<
    (),
    ErrorCode,
>)
    ensures
        withdraw_post(*escrow, *old(accounts), *final(accounts), r, amount),
{
    if accounts.admin.id != escrow.admin.id {
        return Err(ErrorCode::Unauthorized);
    }
    if accounts.escrow_token_account.id != escrow.escrow_token_account.id {
        return Err(ErrorCode::AccountMismatch);
    }
    if accounts.escrow_tokens < amount {
        return Err(ErrorCode::InsufficientInventory);
    }
    let admin_tokens: u64 = match accounts.admin_tokens.checked_add(amount) {
        Some(v) => v,
        None => {
            return Err(ErrorCode::Overflow);
        },
    };
    accounts.escrow_tokens = accounts.escrow_tokens - amount;
    accounts.admin_tokens = admin_tokens;
    Ok(())
}

/// One successful purchase grows `total_sold` by exactly the amount and
/// `total_revenue` by exactly the scaled price; two sequential purchases
/// accumulate, whatever the interleaved account states.
pub proof fn lemma_two_buys_accumulate(
    e0: Escrow,
    e1: Escrow,
    e2: Escrow,
    a0: BuyTokens,
    a1: BuyTokens,
    b0: BuyTokens,
    b1: BuyTokens,
    ev1: PurchaseEvent,
    ev2: PurchaseEvent,
    x: u64,
    y: u64,
    ts1: i64,
    ts2: i64,
)
    requires
        buy_post(e0, e1, a0, a1, Ok(ev1), x, ts1),
        buy_post(e1, e2, b0, b1, Ok(ev2), y, ts2),
    ensures
        e1.total_sold == e0.total_sold + x,
        e1.total_revenue == e0.total_revenue + total_price_of(x, e0.price_per_token),
        e2.total_sold == e0.total_sold + x + y,
        e2.total_revenue == e0.total_revenue + ev1.price + ev2.price,
{
}

/// A purchase whose raw product overflows the integer range fails with
/// Overflow and leaves the escrow and every balance unchanged.
pub proof fn lemma_overflow_rejected(
    pre_e: Escrow,
    post_e: Escrow,
    pre_a: BuyTokens,
    post_a: BuyTokens,
    r: Result<PurchaseEvent, ErrorCode>,
    amount: u64,
    ts: i64,
)
    requires
        buy_post(pre_e, post_e, pre_a, post_a, r, amount, ts),
        pre_a.admin == pre_e.admin,
        pre_a.escrow_token_account == pre_e.escrow_token_account,
        amount * pre_e.price_per_token > u64::MAX,
    ensures
        r == Err::<PurchaseEvent, ErrorCode>(ErrorCode::Overflow),
        post_e == pre_e,
        post_a == pre_a,
{
}

/// A price update invoked by a non-admin identity fails with Unauthorized
/// and leaves the escrow unchanged.
pub proof fn lemma_update_price_non_admin_rejected(
    pre: Escrow,
    post: Escrow,
    r: Result<(), ErrorCode>,
    caller: Address,
    new_price: u64,
)
    requires
        update_price_post(pre, post, r, caller, new_price),
        caller != pre.admin,
    ensures
        r == Err::<(), ErrorCode>(ErrorCode::Unauthorized),
        post == pre,
{
}

/// A withdrawal invoked by a non-admin identity fails with Unauthorized
/// and moves nothing.
pub proof fn lemma_withdraw_non_admin_rejected(
    e: Escrow,
    pre_a: WithdrawTokens,
    post_a: WithdrawTokens,
    r: Result<(), ErrorCode>,
    amount: u64,
)
    requires
        withdraw_post(e, pre_a, post_a, r, amount),
        pre_a.admin != e.admin,
    ensures
        r == Err::<(), ErrorCode>(ErrorCode::Unauthorized),
        post_a == pre_a,
{
}

} // verus!
