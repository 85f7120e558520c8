use vstd::prelude::*;
use crate::bytes::{le_u64, read_u64_le};
use crate::error::{DecodeError, SwapError};
use vstd::slice::slice_subrange;

verus! {

/// The three operations of the exchange.
#[derive(Clone, Copy, Debug, PartialEq, Eq, Structural)]
pub enum SwapInstruction {
    /// Delegates the funded token account to the derived authority and writes a
    /// fresh record. Accounts: initiator (signer), record storage, funded token
    /// account, token service.
    Initialize,
    /// Moves the escrow's whole native balance into the record storage and sends
    /// ten tokens per unit moved. Accounts: initiator (signer), funded token
    /// account, receiving token account, escrow holding, record storage, token
    /// service, derived authority.
    Swap,
    /// Moves `amount` native units from the record storage to the admin.
    /// Accounts: admin (signer), record storage.
    Withdraw { amount: u64 },
}

/// What a byte payload decodes to: a tag byte, then for a withdrawal an
/// eight-byte little-endian amount.
pub open spec fn decode_instruction(input: Seq<u8>) -> Result<SwapInstruction, SwapError> {
    if input.len() == 0 {
        Err(SwapError::DecodeError(DecodeError::EmptyInput))
    } else if input[0] == 0 {
        Ok(SwapInstruction::Initialize)
    } else if input[0] == 1 {
        Ok(SwapInstruction::Swap)
    } else if input[0] == 2 {
        if input.len() < 9 {
            Err(SwapError::DecodeError(DecodeError::TruncatedAmount))
        } else {
            Ok(SwapInstruction::Withdraw { amount: le_u64(input.subrange(1, 9)) })
        }
    } else {
        Err(SwapError::DecodeError(DecodeError::UnknownTag))
    }
}

/// Which of the operation's accounts, by position, it may mutate: the record
/// storage, the token accounts, the escrow holding, and the admin on withdrawal.
pub open spec fn writable_accounts(ix: SwapInstruction) -> Seq<bool> {
    match ix {
        SwapInstruction::Initialize => seq![false, true, true, false],
        SwapInstruction::Swap => seq![false, true, true, true, true, false, false],
        SwapInstruction::Withdraw { .. } => seq![true, true],
    }
}

impl SwapInstruction {
    /// The accounts the operation may mutate, by position, for the host's locking.
    pub fn writable(&self) -> (r: Vec<bool>)
        ensures
            r@ == writable_accounts(*self),
    {
        let r = match self {
            SwapInstruction::Initialize => vec![false, true, true, false],
            SwapInstruction::Swap => vec![false, true, true, true, true, false, false],
            SwapInstruction::Withdraw { .. } => vec![true, true],
        };
        assert(r@ =~= writable_accounts(*self));
        r
    }

    /// Decodes an instruction payload.
    pub fn unpack(input: &[u8]) -> (r: Result<SwapInstruction, SwapError>)
        ensures
            r == decode_instruction(input@),
            input@.len() > 0 && input@[0] > 2 ==> r == Err::<SwapInstruction, SwapError>(
                SwapError::DecodeError(DecodeError::UnknownTag),
            ),
    {
        if input.len() == 0 {
            return Err(SwapError::DecodeError(DecodeError::EmptyInput));
        }
        let tag = input[0];
        if tag == 0 {
            Ok(SwapInstruction::Initialize)
        } else if tag == 1 {
            Ok(SwapInstruction::Swap)
        } else if tag == 2 {
            let rest = slice_subrange(input, 1, input.len());
            assert(rest@ =~= input@.subrange(1, input@.len() as int));
            if rest.len() >= 8 {
                assert(rest@.subrange(0, 8) =~= input@.subrange(1, 9));
            }
            match Self::unpack_amount(rest) {
                Ok(amount) => Ok(SwapInstruction::Withdraw { amount }),
                Err(e) => Err(e),
            }
        } else {
            Err(SwapError::DecodeError(DecodeError::UnknownTag))
        }
    }

    /// The position of the record storage among the operation's accounts.
    pub fn record_account_index(&self) -> (r: usize)
        ensures
            r == (if *self is Swap { 4usize } else { 1usize }),
    {
        match self {
            SwapInstruction::Swap => 4,
            _ => 1,
        }
    }

    /// Reads the eight-byte little-endian amount at the start of `input`.
    pub fn unpack_amount(input: &[u8]) -> (r: Result<u64, SwapError>)
        ensures
            input@.len() >= 8 ==> r == Ok::<u64, SwapError>(le_u64(input@.subrange(0, 8))),
            input@.len() < 8 ==> r == Err::<u64, SwapError>(
                SwapError::DecodeError(DecodeError::TruncatedAmount),
            ),
    {
        if input.len() < 8 {
            Err(SwapError::DecodeError(DecodeError::TruncatedAmount))
        } else {
            Ok(read_u64_le(input, 0))
        }
    }
}

} // verus!
