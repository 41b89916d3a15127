//! Pool creation: allocates the record for a new pool under the canonical
//! ordering invariant, with both reserves at zero.

use vstd::prelude::*;

use crate::errors::AMMError;
use crate::pool::bytes_lt;
use crate::pool::AssetId;
use crate::pool::PoolAccount;

verus! {

/// Creates the record for a new pool over the pair
/// `{token_a_mint, token_b_mint}`.
///
/// Succeeds exactly when the mints are in strictly increasing byte-wise
/// order; otherwise fails with `InvalidMintOrder` and creates nothing. On
/// success both reserves start at zero, and the record stores the given
/// share-mint handle and control-address nonce.
pub fn initialize_pool(
    token_a_mint: AssetId,
    token_b_mint: AssetId,
    lp_token_mint: AssetId,
    bump: u8,
) -> (r: Result<PoolAccount, AMMError>)
    ensures
        r is Ok <==> bytes_lt(token_a_mint@, token_b_mint@),
        r is Err ==> r == Err::<PoolAccount, AMMError>(AMMError::InvalidMintOrder),
        r is Ok ==> r->Ok_0 == (PoolAccount {
            token_a_mint,
            token_b_mint,
            token_a_amount: 0,
            token_b_amount: 0,
            lp_token_mint,
            bump,
        }),
        r is Ok ==> r->Ok_0.wf(),
{
    if token_a_mint.lt(&token_b_mint) {
        Ok(
            PoolAccount {
                token_a_mint,
                token_b_mint,
                token_a_amount: 0,
                token_b_amount: 0,
                lp_token_mint,
                bump,
            },
        )
    } else {
        Err(AMMError::InvalidMintOrder)
    }
}

} // verus!
