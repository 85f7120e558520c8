use vstd::prelude::*;
use crate::identity::Identity;

verus! {

/// The program identity of the token service
/// (TokenkegQfeZyiNwAJbNbGKPFXCWuBvf9Ss623VQ5DA).
pub open spec fn token_service_key() -> Seq<u8> {
    seq![
        6u8, 221u8, 246u8, 225u8, 215u8, 101u8, 161u8, 147u8, 217u8, 203u8, 225u8, 70u8,
        206u8, 235u8, 121u8, 172u8, 28u8, 180u8, 133u8, 237u8, 95u8, 91u8, 55u8, 145u8,
        58u8, 140u8, 245u8, 133u8, 126u8, 255u8, 0u8, 169u8,
    ]
}

/// Relies on `spl_token::id()`: the token program's declared identity.
#[verifier::external_body]
pub(crate) fn token_service_id() -> (r: Identity)
    ensures
        r@ == token_service_key(),
{
    Identity { bytes: spl_token::id().to_bytes() }
}

/// A call the processor asks to be made on the token service.
#[derive(Clone, Copy, Debug, PartialEq, Eq)]
pub enum TokenCall {
    /// Make `new_authority` the owner of `account`, signed by `current_authority`.
    SetAuthority {
        token_program: Identity,
        account: Identity,
        current_authority: Identity,
        new_authority: Identity,
    },
    /// Move `amount` tokens from `source` to `destination`, signed by the derived
    /// `authority` through the authority seed and `bump`.
    Transfer {
        token_program: Identity,
        source: Identity,
        destination: Identity,
        authority: Identity,
        bump: u8,
        amount: u64,
    },
}

/// A token-service call with identities seen as their bytes.
pub ghost enum TokenCallView {
    SetAuthority {
        token_program: Seq<u8>,
        account: Seq<u8>,
        current_authority: Seq<u8>,
        new_authority: Seq<u8>,
    },
    Transfer {
        token_program: Seq<u8>,
        source: Seq<u8>,
        destination: Seq<u8>,
        authority: Seq<u8>,
        bump: u8,
        amount: u64,
    },
}

impl View for TokenCall {
    type V = TokenCallView;

    open spec fn view(&self) -> TokenCallView {
        match *self {
            TokenCall::SetAuthority { token_program, account, current_authority, new_authority } =>
                TokenCallView::SetAuthority {
                token_program: token_program@,
                account: account@,
                current_authority: current_authority@,
                new_authority: new_authority@,
            },
            TokenCall::Transfer { token_program, source, destination, authority, bump, amount } =>
                TokenCallView::Transfer {
                token_program: token_program@,
                source: source@,
                destination: destination@,
                authority: authority@,
                bump,
                amount,
            },
        }
    }
}

} // verus!
