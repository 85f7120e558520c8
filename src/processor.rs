use vstd::prelude::*;
use crate::authority::{authority_seed, derive_authority, derived_view, program_address_of};
use crate::error::{DecodeError, SwapError};
use crate::identity::Identity;
use crate::instruction::{decode_instruction, writable_accounts, SwapInstruction};
use crate::state::{
    encode_record, lemma_record_round_trip, record_admin, record_amount, record_decodes,
    record_funded, record_initialized, SwapStore,
};
use crate::token::{token_service_id, token_service_key, TokenCall, TokenCallView};

verus! {

/// Token units sent for each native unit swapped.
pub const SWAP_RATIO: u64 = 10;

/// What the processor reads of one account named by an invocation.
#[derive(Clone, Debug, PartialEq, Eq)]
pub struct AccountState {
    pub key: Identity,
    pub owner: Identity,
    pub is_signer: bool,
    pub lamports: u64,
    pub data: Vec<u8>,
}

/// What an accepted invocation commits: every account's native balance after it,
/// by position; the bytes to store in the record storage at `record_index`, if
/// any; and the token-service call to make, if any.
#[derive(Clone, Debug, PartialEq, Eq)]
pub struct Outcome {
    pub lamports: Vec<u64>,
    pub record_index: usize,
    pub record_data: Option<Vec<u8>>,
    pub token_call: Option<TokenCall>,
}

/// An outcome with byte vectors and identities seen as sequences.
pub ghost struct OutcomeView {
    pub lamports: Seq<u64>,
    pub record_index: int,
    pub record_data: Option<Seq<u8>>,
    pub token_call: Option<TokenCallView>,
}

impl View for Outcome {
    type V = OutcomeView;

    open spec fn view(&self) -> OutcomeView {
        OutcomeView {
            lamports: self.lamports@,
            record_index: self.record_index as int,
            record_data: match self.record_data {
                Some(d) => Some(d@),
                None => None,
            },
            token_call: match self.token_call {
                Some(c) => Some(c@),
                None => None,
            },
        }
    }
}

pub open spec fn result_view(r: Result<Outcome, SwapError>) -> Result<OutcomeView, SwapError> {
    match r {
        Ok(o) => Ok(o@),
        Err(e) => Err(e),
    }
}

/// The native balances of the accounts, by position.
pub open spec fn balances(a: Seq<AccountState>) -> Seq<u64> {
    Seq::new(a.len(), |i: int| a[i].lamports)
}

/// Initialize. Accounts: initiator, record storage, funded token account, token service.
/// Where no authority can be derived for the program, nobody can sign for it.
pub open spec fn init_outcome(
    pid: Seq<u8>,
    a: Seq<AccountState>,
    rent_floor: u64,
    derived: Option<(Seq<u8>, u8)>,
) -> Result<OutcomeView, SwapError> {
    if a.len() < 4 {
        Err(SwapError::MissingAccount)
    } else if !a[0].is_signer {
        Err(SwapError::AuthorizationError)
    } else if a[1].owner@ != pid {
        Err(SwapError::OwnershipError)
    } else if a[2].owner@ != token_service_key() {
        Err(SwapError::OwnershipError)
    } else if a[1].lamports < rent_floor {
        Err(SwapError::FundingError)
    } else if !record_decodes(a[1].data@) || record_initialized(a[1].data@) {
        Err(SwapError::StateError)
    } else if a[3].key@ != token_service_key() {
        Err(SwapError::ExternalServiceError)
    } else {
        match derived {
            None => Err(SwapError::AuthorizationError),
            Some((pda, _bump)) => Ok(
                OutcomeView {
                    lamports: balances(a),
                    record_index: 1,
                    record_data: Some(encode_record(true, a[0].key@, 0, a[2].key@)),
                    token_call: Some(
                        TokenCallView::SetAuthority {
                            token_program: a[3].key@,
                            account: a[2].key@,
                            current_authority: a[0].key@,
                            new_authority: pda,
                        },
                    ),
                },
            ),
        }
    }
}

/// Swap. Accounts: initiator, funded token account, receiving token account,
/// escrow holding, record storage, token service, derived authority. The escrow
/// and the record storage must be distinct accounts, and no sum may overflow.
pub open spec fn swap_outcome(
    pid: Seq<u8>,
    a: Seq<AccountState>,
    derived: Option<(Seq<u8>, u8)>,
) -> Result<OutcomeView, SwapError> {
    if a.len() < 7 {
        Err(SwapError::MissingAccount)
    } else if !a[0].is_signer {
        Err(SwapError::AuthorizationError)
    } else if a[3].owner@ != pid || a[4].owner@ != pid || a[2].owner@ != token_service_key() {
        Err(SwapError::OwnershipError)
    } else if !record_decodes(a[4].data@) {
        Err(SwapError::StateError)
    } else if record_funded(a[4].data@) != a[1].key@ || a[3].key@ == a[4].key@ {
        Err(SwapError::InvalidRecordReference)
    } else if a[4].lamports + a[3].lamports > u64::MAX || record_amount(a[4].data@)
        + a[3].lamports > u64::MAX || a[3].lamports * SWAP_RATIO > u64::MAX {
        Err(SwapError::AmountOverflow)
    } else if a[5].key@ != token_service_key() {
        Err(SwapError::ExternalServiceError)
    } else {
        let d = a[4].data@;
        let moved = a[3].lamports;
        match derived {
            None => Err(SwapError::AuthorizationError),
            Some((pda, bump)) => Ok(
                OutcomeView {
                    lamports: balances(a).update(3, 0).update(4, (a[4].lamports + moved) as u64),
                    record_index: 4,
                    record_data: Some(
                        encode_record(
                            record_initialized(d),
                            record_admin(d),
                            (record_amount(d) + moved) as u64,
                            record_funded(d),
                        ),
                    ),
                    token_call: Some(
                        TokenCallView::Transfer {
                            token_program: a[5].key@,
                            source: a[1].key@,
                            destination: a[2].key@,
                            authority: pda,
                            bump,
                            amount: (moved * SWAP_RATIO) as u64,
                        },
                    ),
                },
            ),
        }
    }
}

/// Withdraw `amount`. Accounts: admin, record storage, which must be distinct.
pub open spec fn withdraw_outcome(
    pid: Seq<u8>,
    a: Seq<AccountState>,
    rent_floor: u64,
    amount: u64,
) -> Result<OutcomeView, SwapError> {
    if a.len() < 2 {
        Err(SwapError::MissingAccount)
    } else if !a[0].is_signer {
        Err(SwapError::AuthorizationError)
    } else if a[1].owner@ != pid {
        Err(SwapError::OwnershipError)
    } else if !record_decodes(a[1].data@) {
        Err(SwapError::StateError)
    } else if record_admin(a[1].data@) != a[0].key@ {
        Err(SwapError::AuthorizationError)
    } else if a[0].key@ == a[1].key@ {
        Err(SwapError::InvalidRecordReference)
    } else if a[1].lamports < rent_floor || a[1].lamports - rent_floor < amount {
        Err(SwapError::InsufficientFunds)
    } else if a[0].lamports + amount > u64::MAX {
        Err(SwapError::AmountOverflow)
    } else {
        Ok(
            OutcomeView {
                lamports: balances(a).update(1, (a[1].lamports - amount) as u64).update(
                    0,
                    (a[0].lamports + amount) as u64,
                ),
                record_index: 1,
                record_data: None,
                token_call: None,
            },
        )
    }
}

/// One invocation: the decoded instruction run against the accounts.
pub open spec fn process_outcome(
    pid: Seq<u8>,
    a: Seq<AccountState>,
    rent_floor: u64,
    input: Seq<u8>,
    derived: Option<(Seq<u8>, u8)>,
) -> Result<OutcomeView, SwapError> {
    match decode_instruction(input) {
        Err(e) => Err(e),
        Ok(SwapInstruction::Initialize) => init_outcome(pid, a, rent_floor, derived),
        Ok(SwapInstruction::Swap) => swap_outcome(pid, a, derived),
        Ok(SwapInstruction::Withdraw { amount }) => withdraw_outcome(pid, a, rent_floor, amount),
    }
}

/// Initialize succeeds at most once on a record: once the record bytes that an
/// accepted Initialize produced are stored, any later Initialize on that record
/// fails, and fails with `StateError` when its signer, owner and rent checks pass.
pub proof fn lemma_initialize_once(
    pid: Seq<u8>,
    first: Seq<AccountState>,
    rent_floor: u64,
    derived: Option<(Seq<u8>, u8)>,
    o: OutcomeView,
    again: Seq<AccountState>,
    again_pid: Seq<u8>,
    again_floor: u64,
    again_derived: Option<(Seq<u8>, u8)>,
)
    requires
        init_outcome(pid, first, rent_floor, derived) == Ok::<OutcomeView, SwapError>(o),
        again.len() >= 4,
        o.record_data == Some(again[1].data@),
    ensures
        init_outcome(again_pid, again, again_floor, again_derived) is Err,
        again[0].is_signer && again[1].owner@ == again_pid && again[2].owner@
            == token_service_key() && again[1].lamports >= again_floor ==> init_outcome(
            again_pid,
            again,
            again_floor,
            again_derived,
        ) == Err::<OutcomeView, SwapError>(SwapError::StateError),
{
    lemma_record_round_trip(true, first[0].key@, 0, first[2].key@);
}

/// An accepted invocation changes only accounts that its operation declares
/// writable: every balance that moves, and the record storage it writes.
pub proof fn lemma_outcome_within_declared(
    pid: Seq<u8>,
    a: Seq<AccountState>,
    rent_floor: u64,
    input: Seq<u8>,
    derived: Option<(Seq<u8>, u8)>,
    o: OutcomeView,
)
    requires
        process_outcome(pid, a, rent_floor, input, derived) == Ok::<OutcomeView, SwapError>(o),
    ensures
        decode_instruction(input) is Ok,
        o.lamports.len() == a.len(),
        forall|i: int|
            0 <= i < a.len() && o.lamports[i] != a[i].lamports ==> i < writable_accounts(
                decode_instruction(input)->Ok_0,
            ).len() && writable_accounts(decode_instruction(input)->Ok_0)[i],
        o.record_data is Some ==> 0 <= o.record_index < writable_accounts(
            decode_instruction(input)->Ok_0,
        ).len() && writable_accounts(decode_instruction(input)->Ok_0)[o.record_index],
{
}

/// The native balances of the accounts, by position.
fn copy_balances(accounts: &Vec<AccountState>) -> (r: Vec<u64>)
    ensures
        r@ == balances(accounts@),
{
    let mut r: Vec<u64> = Vec::new();
    let mut i: usize = 0;
    while i < accounts.len()
        invariant
            i <= accounts@.len(),
            r@ == balances(accounts@).subrange(0, i as int),
        decreases accounts@.len() - i,
    {
        r.push(accounts[i].lamports);
        assert(balances(accounts@).subrange(0, i + 1) =~= balances(accounts@).subrange(
            0,
            i as int,
        ).push(accounts@[i as int].lamports));
        i = i + 1;
    }
    assert(balances(accounts@) =~= balances(accounts@).subrange(0, i as int));
    r
}

/// The instruction processor of the exchange.
pub struct SwapProcessor;

impl SwapProcessor {
    /// Swap, given the derived authority and bump.
    pub fn swap_with_authority(
        accounts: &Vec<AccountState>,
        program_id: &Identity,
        derived: Option<(Identity, u8)>,
    ) -> (r: Result<Outcome, SwapError>)
        ensures
            result_view(r) == swap_outcome(program_id@, accounts@, derived_view(derived)),
    {
        if accounts.len() < 7 {
            return Err(SwapError::MissingAccount);
        }
        let signer = &accounts[0];
        let funded = &accounts[1];
        let receiver = &accounts[2];
        let escrow = &accounts[3];
        let record = &accounts[4];
        let token_program = &accounts[5];
        if !signer.is_signer {
            return Err(SwapError::AuthorizationError);
        }
        let token_id = token_service_id();
        if !escrow.owner.same(program_id) || !record.owner.same(program_id)
            || !receiver.owner.same(&token_id) {
            return Err(SwapError::OwnershipError);
        }
        let store = match SwapStore::unpack(record.data.as_slice()) {
            Ok(s) => s,
            Err(e) => return Err(e),
        };
        if !store.token_funded_account.same(&funded.key) || escrow.key.same(&record.key) {
            return Err(SwapError::InvalidRecordReference);
        }
        let moved = escrow.lamports;
        if moved > u64::MAX - record.lamports || moved > u64::MAX - store.amount_swapped || moved
            > u64::MAX / SWAP_RATIO {
            return Err(SwapError::AmountOverflow);
        }
        if !token_program.key.same(&token_id) {
            return Err(SwapError::ExternalServiceError);
        }
        let (pda, bump) = match derived {
            Some(p) => p,
            None => return Err(SwapError::AuthorizationError),
        };
        let updated = SwapStore {
            is_initialized: store.is_initialized,
            admin: store.admin,
            amount_swapped: store.amount_swapped + moved,
            token_funded_account: store.token_funded_account,
        };
        let mut lamports = copy_balances(accounts);
        lamports[3] = 0;
        lamports[4] = record.lamports + moved;
        let call = TokenCall::Transfer {
            token_program: token_program.key,
            source: funded.key,
            destination: receiver.key,
            authority: pda,
            bump,
            amount: moved * SWAP_RATIO,
        };
        let r = Outcome {
            lamports,
            record_index: 4,
            record_data: Some(updated.pack()),
            token_call: Some(call),
        };
        assert(r@.lamports =~= balances(accounts@).update(3, 0).update(
            4,
            (accounts@[4].lamports + moved) as u64,
        ));
        Ok(r)
    }

    /// Swap: the escrow's whole balance moves into the record storage, the
    /// swapped total grows by it, and ten tokens per unit are sent to the
    /// receiving account under the derived authority.
    pub fn process_swap(accounts: &Vec<AccountState>, program_id: &Identity) -> (r: Result<
        Outcome,
        SwapError,
    >)
        ensures
            result_view(r) == swap_outcome(
                program_id@,
                accounts@,
                program_address_of(authority_seed(), program_id@),
            ),
            r matches Ok(o) ==> {
                let d = accounts@[4].data@;
                let moved = accounts@[3].lamports;
                &&& o.lamports@.len() == accounts@.len()
                &&& o.lamports@[4] == accounts@[4].lamports + moved
                &&& o.lamports@[3] == 0
                &&& forall|i: int|
                    0 <= i < accounts@.len() && i != 3 && i != 4 ==> o.lamports@[i]
                        == accounts@[i].lamports
                &&& o.record_data matches Some(n) && {
                    &&& record_decodes(n@)
                    &&& record_amount(n@) == record_amount(d) + moved
                    &&& record_initialized(n@) == record_initialized(d)
                    &&& record_admin(n@) == record_admin(d)
                    &&& record_funded(n@) == record_funded(d)
                }
                &&& o.token_call matches Some(TokenCall::Transfer { amount, .. }) && amount
                    == moved * SWAP_RATIO
            },
            accounts@.len() >= 7 && accounts@[3].lamports * SWAP_RATIO > u64::MAX ==> r is Err,
    {
        let derived = derive_authority(program_id);
        let r = Self::swap_with_authority(accounts, program_id, derived);
        proof {
            if r is Ok {
                let d = accounts@[4].data@;
                lemma_record_round_trip(
                    record_initialized(d),
                    record_admin(d),
                    (record_amount(d) + accounts@[3].lamports) as u64,
                    record_funded(d),
                );
            }
        }
        r
    }
    /// Initialize, given the derived authority and bump.
    pub fn init_with_authority(
        accounts: &Vec<AccountState>,
        program_id: &Identity,
        rent_floor: u64,
        derived: Option<(Identity, u8)>,
    ) -> (r: Result<Outcome, SwapError>)
        ensures
            result_view(r) == init_outcome(program_id@, accounts@, rent_floor, derived_view(derived)),
    {
        if accounts.len() < 4 {
            return Err(SwapError::MissingAccount);
        }
        let initiator = &accounts[0];
        let record = &accounts[1];
        let funded = &accounts[2];
        let token_program = &accounts[3];
        if !initiator.is_signer {
            return Err(SwapError::AuthorizationError);
        }
        if !record.owner.same(program_id) {
            return Err(SwapError::OwnershipError);
        }
        let token_id = token_service_id();
        if !funded.owner.same(&token_id) {
            return Err(SwapError::OwnershipError);
        }
        if record.lamports < rent_floor {
            return Err(SwapError::FundingError);
        }
        let store = match SwapStore::unpack(record.data.as_slice()) {
            Ok(s) => s,
            Err(e) => return Err(e),
        };
        if store.is_initialized() {
            return Err(SwapError::StateError);
        }
        if !token_program.key.same(&token_id) {
            return Err(SwapError::ExternalServiceError);
        }
        let pda = match derived {
            Some((p, _bump)) => p,
            None => return Err(SwapError::AuthorizationError),
        };
        let fresh = SwapStore {
            is_initialized: true,
            admin: initiator.key,
            amount_swapped: 0,
            token_funded_account: funded.key,
        };
        let call = TokenCall::SetAuthority {
            token_program: token_program.key,
            account: funded.key,
            current_authority: initiator.key,
            new_authority: pda,
        };
        Ok(
            Outcome {
                lamports: copy_balances(accounts),
                record_index: 1,
                record_data: Some(fresh.pack()),
                token_call: Some(call),
            },
        )
    }

    /// Initialize: delegates the funded token account to the derived authority
    /// and writes a fresh record naming the initiator as admin. A record that is
    /// already initialized is never written again.
    pub fn process_init(accounts: &Vec<AccountState>, program_id: &Identity, rent_floor: u64) -> (r:
        Result<Outcome, SwapError>)
        ensures
            result_view(r) == init_outcome(
                program_id@,
                accounts@,
                rent_floor,
                program_address_of(authority_seed(), program_id@),
            ),
            accounts@.len() >= 4 && record_decodes(accounts@[1].data@) && record_initialized(
                accounts@[1].data@,
            ) ==> r is Err,
            ({
                let a = accounts@;
                &&& a.len() >= 4
                &&& a[0].is_signer
                &&& a[1].owner@ == program_id@
                &&& a[2].owner@ == token_service_key()
                &&& a[1].lamports >= rent_floor
                &&& record_decodes(a[1].data@)
                &&& record_initialized(a[1].data@)
            }) ==> r == Err::<Outcome, SwapError>(SwapError::StateError),
            r matches Ok(o) ==> o.record_data matches Some(n) && {
                &&& record_decodes(n@)
                &&& record_initialized(n@)
                &&& record_admin(n@) == accounts@[0].key@
                &&& record_amount(n@) == 0
                &&& record_funded(n@) == accounts@[2].key@
            },
    {
        let derived = derive_authority(program_id);
        let r = Self::init_with_authority(accounts, program_id, rent_floor, derived);
        proof {
            if r is Ok {
                lemma_record_round_trip(true, accounts@[0].key@, 0, accounts@[2].key@);
            }
        }
        r
    }

    /// Withdraw: moves `amount` native units from the record storage to the
    /// admin, never below the rent-exemption floor, and only for the admin.
    pub fn process_withdraw(
        accounts: &Vec<AccountState>,
        amount: u64,
        program_id: &Identity,
        rent_floor: u64,
    ) -> (r: Result<Outcome, SwapError>)
        ensures
            result_view(r) == withdraw_outcome(program_id@, accounts@, rent_floor, amount),
            r matches Ok(o) ==> {
                &&& o.lamports@.len() == accounts@.len()
                &&& o.lamports@[1] >= rent_floor
                &&& o.lamports@[1] == accounts@[1].lamports - amount
                &&& o.lamports@[0] == accounts@[0].lamports + amount
                &&& o.record_data is None
                &&& o.token_call is None
            },
            accounts@.len() >= 2 && accounts@[1].lamports < rent_floor + amount ==> r is Err,
            ({
                let a = accounts@;
                &&& a.len() >= 2
                &&& a[1].owner@ == program_id@
                &&& record_decodes(a[1].data@)
                &&& record_admin(a[1].data@) != a[0].key@
            }) ==> r == Err::<Outcome, SwapError>(SwapError::AuthorizationError),
    {
        if accounts.len() < 2 {
            return Err(SwapError::MissingAccount);
        }
        let admin = &accounts[0];
        let record = &accounts[1];
        if !admin.is_signer {
            return Err(SwapError::AuthorizationError);
        }
        if !record.owner.same(program_id) {
            return Err(SwapError::OwnershipError);
        }
        let store = match SwapStore::unpack(record.data.as_slice()) {
            Ok(s) => s,
            Err(e) => return Err(e),
        };
        if !store.admin.same(&admin.key) {
            return Err(SwapError::AuthorizationError);
        }
        if admin.key.same(&record.key) {
            return Err(SwapError::InvalidRecordReference);
        }
        if record.lamports < rent_floor || record.lamports - rent_floor < amount {
            return Err(SwapError::InsufficientFunds);
        }
        if amount > u64::MAX - admin.lamports {
            return Err(SwapError::AmountOverflow);
        }
        let mut lamports = copy_balances(accounts);
        lamports[1] = record.lamports - amount;
        lamports[0] = admin.lamports + amount;
        let r = Outcome { lamports, record_index: 1, record_data: None, token_call: None };
        assert(r@.lamports =~= balances(accounts@).update(1, (accounts@[1].lamports - amount) as u64).update(
            0,
            (accounts@[0].lamports + amount) as u64,
        ));
        Ok(r)
    }

    /// Decodes the instruction and runs it against the accounts. `rent_floor` is
    /// the rent-exemption floor of the operation's record storage. On an error
    /// nothing is to be committed.
    pub fn process(
        program_id: &Identity,
        accounts: &Vec<AccountState>,
        rent_floor: u64,
        instruction_data: &[u8],
    ) -> (r: Result<Outcome, SwapError>)
        ensures
            result_view(r) == process_outcome(
                program_id@,
                accounts@,
                rent_floor,
                instruction_data@,
                program_address_of(authority_seed(), program_id@),
            ),
            instruction_data@.len() > 0 && instruction_data@[0] > 2 ==> r == Err::<
                Outcome,
                SwapError,
            >(SwapError::DecodeError(DecodeError::UnknownTag)),
    {
        let instruction = match SwapInstruction::unpack(instruction_data) {
            Ok(i) => i,
            Err(e) => return Err(e),
        };
        match instruction {
            SwapInstruction::Initialize => Self::process_init(accounts, program_id, rent_floor),
            SwapInstruction::Swap => Self::process_swap(accounts, program_id),
            SwapInstruction::Withdraw { amount } => Self::process_withdraw(
                accounts,
                amount,
                program_id,
                rent_floor,
            ),
        }
    }
}

} // verus!
