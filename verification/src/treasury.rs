//! The treasury: created once, then sells governance tokens in fixed lots.

use vstd::prelude::*;

use crate::contexts::{BuyTokens, InitializeTreasury};
use crate::errors::{reported, VoteError};
use crate::state::{TokenAccount, TreasuryConfig, Vault, Wallet};

verus! {

/// Why `initialize_treasury` refuses, if it does: the configuration exists
/// already, whatever the parameters; else a parameter is zero.
pub open spec fn initialize_treasury_rejection(
    ctx: InitializeTreasury,
    sol_price: u64,
    tokens_per_purchase: u64,
) -> Option<VoteError> {
    if ctx.treasury_config_account is Some {
        Some(VoteError::AlreadyInitialized)
    } else if sol_price == 0 || tokens_per_purchase == 0 {
        Some(VoteError::InvalidParameter)
    } else {
        None
    }
}

/// The configuration a successful `initialize_treasury` allocates.
pub open spec fn initial_config(
    ctx: InitializeTreasury,
    sol_price: u64,
    tokens_per_purchase: u64,
) -> TreasuryConfig {
    TreasuryConfig {
        authority: ctx.authority,
        x_mint: ctx.x_mint,
        sol_price,
        tokens_per_purchase,
        bump: ctx.sol_vault.bump,
        total_units_sold: 0,
    }
}

/// The records after a successful `initialize_treasury`.
pub open spec fn initialize_treasury_effect(
    ctx: InitializeTreasury,
    sol_price: u64,
    tokens_per_purchase: u64,
) -> InitializeTreasury {
    InitializeTreasury {
        treasury_config_account: Some(initial_config(ctx, sol_price, tokens_per_purchase)),
        ..ctx
    }
}

/// Creates the treasury configuration: binds the administrator, the mint,
/// the price of a lot and its size, with nothing sold yet.
pub fn initialize_treasury(
    ctx: &mut InitializeTreasury,
    sol_price: u64,
    tokens_per_purchase: u64,
) -> (result: Result<(), VoteError>)
    ensures
        reported(result) == initialize_treasury_rejection(*old(ctx), sol_price, tokens_per_purchase),
        result is Ok ==> *final(ctx) == initialize_treasury_effect(
            *old(ctx),
            sol_price,
            tokens_per_purchase,
        ),
        result is Err ==> *final(ctx) == *old(ctx),
{
    if ctx.treasury_config_account.is_some() {
        return Err(VoteError::AlreadyInitialized);
    }
    if sol_price == 0 || tokens_per_purchase == 0 {
        return Err(VoteError::InvalidParameter);
    }
    ctx.treasury_config_account = Some(
        TreasuryConfig {
            authority: ctx.authority,
            x_mint: ctx.x_mint,
            sol_price,
            tokens_per_purchase,
            bump: ctx.sol_vault.bump,
            total_units_sold: 0,
        },
    );
    Ok(())
}

/// Whether one more sale has no room: in the count of lots sold, in the
/// vault's balance, or in the buyer's token balance.
pub open spec fn sale_overflows(ctx: BuyTokens) -> bool {
    let config = ctx.treasury_config_account;
    ||| config.total_units_sold == u64::MAX
    ||| ctx.sol_vault.lamports + config.sol_price > u64::MAX
    ||| ctx.buyer_token_account.amount + config.tokens_per_purchase > u64::MAX
}

/// Why `buy_tokens` refuses, if it does. The conditions are tried in this
/// order, and the first that fails names the error.
pub open spec fn buy_tokens_rejection(ctx: BuyTokens) -> Option<VoteError> {
    let config = ctx.treasury_config_account;
    if ctx.buyer_token_account.mint != config.x_mint {
        Some(VoteError::TokenMintMismatch)
    } else if ctx.buyer_token_account.owner != ctx.buyer.address {
        Some(VoteError::InvalidTokenAccountOwner)
    } else if ctx.buyer.lamports < config.sol_price {
        Some(VoteError::InsufficientFunds)
    } else if sale_overflows(ctx) {
        Some(VoteError::SaleOverflow)
    } else {
        None
    }
}

/// The records after a successful `buy_tokens`: the price has moved from
/// the buyer to the vault, one lot has been minted to the buyer, and one
/// more lot is counted as sold.
pub open spec fn buy_tokens_effect(ctx: BuyTokens) -> BuyTokens {
    let config = ctx.treasury_config_account;
    BuyTokens {
        treasury_config_account: TreasuryConfig {
            total_units_sold: (config.total_units_sold + 1) as u64,
            ..config
        },
        sol_vault: Vault {
            lamports: (ctx.sol_vault.lamports + config.sol_price) as u64,
            ..ctx.sol_vault
        },
        buyer_token_account: TokenAccount {
            amount: (ctx.buyer_token_account.amount + config.tokens_per_purchase) as u64,
            ..ctx.buyer_token_account
        },
        buyer: Wallet { lamports: (ctx.buyer.lamports - config.sol_price) as u64, ..ctx.buyer },
    }
}

/// Sells one lot to the buyer at the configured price, or changes nothing.
pub fn buy_tokens(ctx: &mut BuyTokens) -> (result: Result<(), VoteError>)
    ensures
        reported(result) == buy_tokens_rejection(*old(ctx)),
        result is Ok ==> *final(ctx) == buy_tokens_effect(*old(ctx)),
        result is Err ==> *final(ctx) == *old(ctx),
{
    let config = ctx.treasury_config_account;
    if !ctx.buyer_token_account.mint.same(&config.x_mint) {
        return Err(VoteError::TokenMintMismatch);
    }
    if !ctx.buyer_token_account.owner.same(&ctx.buyer.address) {
        return Err(VoteError::InvalidTokenAccountOwner);
    }
    if ctx.buyer.lamports < config.sol_price {
        return Err(VoteError::InsufficientFunds);
    }
    let sold = config.total_units_sold.checked_add(1);
    let collected = ctx.sol_vault.lamports.checked_add(config.sol_price);
    let held = ctx.buyer_token_account.amount.checked_add(config.tokens_per_purchase);
    match (sold, collected, held) {
        (Some(sold), Some(collected), Some(held)) => {
            ctx.buyer.lamports = ctx.buyer.lamports - config.sol_price;
            ctx.sol_vault.lamports = collected;
            ctx.buyer_token_account.amount = held;
            ctx.treasury_config_account.total_units_sold = sold;
            Ok(())
        },
        _ => Err(VoteError::SaleOverflow),
    }
}

} // verus!
