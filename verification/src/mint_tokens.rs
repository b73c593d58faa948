//! Mint initialization and direct minting.
//!
//! The mint configuration is created once with a zero supply; afterwards the
//! tracked total supply moves only through checked mint and burn deltas,
//! never inferred from external balances.

use vstd::prelude::*;

use crate::error::CarsaError;
use crate::state::{LokalMintConfig, MAX_MINT_AMOUNT};

verus! {

/// Initialization context: the mint and its update authority.
pub struct InitializeLokalMint {
    /// The wallet that may later mint directly.
    pub update_authority: u64,
    /// Identifier of the token mint being configured.
    pub mint: u64,
}

impl InitializeLokalMint {
    /// Build the singleton mint configuration with a total supply of zero.
    pub fn handler(&self) -> (config: LokalMintConfig)
        ensures
            config == (LokalMintConfig {
                mint: self.mint,
                update_authority: self.update_authority,
                total_supply: 0,
            }),
    {
        LokalMintConfig { mint: self.mint, update_authority: self.update_authority, total_supply: 0 }
    }
}

/// Direct-mint context: the caller and the mint configuration.
pub struct MintLokalTokens {
    /// The wallet asking to mint; must be the update authority.
    pub authority: u64,
    /// The mint configuration tracking total supply.
    pub config: LokalMintConfig,
}

/// What a successful direct mint asks the token service to do.
#[derive(Clone, Copy, Debug, PartialEq, Eq)]
pub struct MintReceipt {
    /// Tokens to mint to the destination account, in base units.
    pub amount_minted: u64,
}

/// Full behaviour of a direct mint: authority check, amount validation, and
/// the exact supply increment.
pub open spec fn mint_lokal_tokens_ensures(
    pre: MintLokalTokens,
    post: MintLokalTokens,
    amount: u64,
    r: Result<MintReceipt, CarsaError>,
) -> bool {
    &&& (r is Err ==> post == pre)
    &&& if pre.authority != pre.config.update_authority {
        r == Err::<MintReceipt, CarsaError>(CarsaError::UpdateAuthorityMismatch)
    } else if amount == 0 {
        r == Err::<MintReceipt, CarsaError>(CarsaError::InvalidMintAmount)
    } else if amount > MAX_MINT_AMOUNT {
        r == Err::<MintReceipt, CarsaError>(CarsaError::MintAmountTooLarge)
    } else if pre.config.total_supply + amount > u64::MAX {
        r == Err::<MintReceipt, CarsaError>(CarsaError::ArithmeticOverflow)
    } else {
        &&& r == Ok::<MintReceipt, CarsaError>(MintReceipt { amount_minted: amount })
        &&& post.authority == pre.authority
        &&& post.config == (LokalMintConfig {
            total_supply: (pre.config.total_supply + amount) as u64,
            ..pre.config
        })
    }
}

impl MintLokalTokens {
    /// Mint `amount` tokens under the update authority: adds the amount to
    /// the tracked supply and returns the mint to execute.
    pub fn handler(&mut self, amount: u64) -> (r: Result<MintReceipt, CarsaError>)
        ensures
            mint_lokal_tokens_ensures(*old(self), *final(self), amount, r),
    {
        if self.authority != self.config.update_authority {
            return Err(CarsaError::UpdateAuthorityMismatch);
        }
        if amount == 0 {
            return Err(CarsaError::InvalidMintAmount);
        }
        if amount > MAX_MINT_AMOUNT {
            return Err(CarsaError::MintAmountTooLarge);
        }
        let new_supply: u64 = match self.config.total_supply.checked_add(amount) {
            Some(v) => v,
            None => {
                return Err(CarsaError::ArithmeticOverflow);
            },
        };
        self.config.total_supply = new_supply;
        Ok(MintReceipt { amount_minted: amount })
    }
}

} // verus!
