use mov_swap::error::{DecodeError, SwapError};
use mov_swap::identity::Identity;
use mov_swap::instruction::SwapInstruction;
use mov_swap::processor::{AccountState, Outcome, SwapProcessor};
use mov_swap::state::SwapStore;
use mov_swap::token::TokenCall;
use solana_program::pubkey::Pubkey;

const RENT_FLOOR: u64 = 1_000_000;

fn program_id() -> Identity {
    Identity::new([7u8; 32])
}

fn token_id() -> Identity {
    Identity::new(spl_token::id().to_bytes())
}

fn account(key: u8, owner: Identity, is_signer: bool, lamports: u64, data: Vec<u8>) -> AccountState {
    AccountState { key: Identity::new([key; 32]), owner, is_signer, lamports, data }
}

fn system() -> Identity {
    Identity::new([0u8; 32])
}

fn derived() -> (Identity, u8) {
    let (pda, bump) = Pubkey::find_program_address(&[b"mov_swap"], &Pubkey::new_from_array([7u8; 32]));
    (Identity::new(pda.to_bytes()), bump)
}

fn record_bytes(is_initialized: bool, admin: u8, amount_swapped: u64, funded: u8) -> Vec<u8> {
    SwapStore {
        is_initialized,
        admin: Identity::new([admin; 32]),
        amount_swapped,
        token_funded_account: Identity::new([funded; 32]),
    }
    .pack()
}

fn apply(accounts: &mut Vec<AccountState>, o: &Outcome) {
    for (a, l) in accounts.iter_mut().zip(o.lamports.iter()) {
        a.lamports = *l;
    }
    if let Some(d) = &o.record_data {
        accounts[o.record_index].data = d.clone();
    }
}

// Initialize accounts: admin 1, record 2, funded 3, token program.
fn init_accounts(record_lamports: u64, record_data: Vec<u8>) -> Vec<AccountState> {
    vec![
        account(1, system(), true, 100, vec![]),
        account(2, program_id(), false, record_lamports, record_data),
        account(3, token_id(), false, 0, vec![]),
        AccountState { key: token_id(), owner: system(), is_signer: false, lamports: 1, data: vec![] },
    ]
}

// Swap accounts: user 9, funded 3, receiver 4, escrow 5, record 2, token program, authority.
fn swap_accounts(escrow: u64, record_lamports: u64, record_data: Vec<u8>) -> Vec<AccountState> {
    vec![
        account(9, system(), true, 100, vec![]),
        account(3, token_id(), false, 0, vec![]),
        account(4, token_id(), false, 0, vec![]),
        account(5, program_id(), false, escrow, vec![]),
        account(2, program_id(), false, record_lamports, record_data),
        AccountState { key: token_id(), owner: system(), is_signer: false, lamports: 1, data: vec![] },
        AccountState { key: derived().0, owner: system(), is_signer: false, lamports: 0, data: vec![] },
    ]
}

fn withdraw_accounts(admin: u8, record_lamports: u64, record_data: Vec<u8>) -> Vec<AccountState> {
    vec![
        account(admin, system(), true, 100, vec![]),
        account(2, program_id(), false, record_lamports, record_data),
    ]
}

fn withdraw_bytes(amount: u64) -> Vec<u8> {
    let mut v = vec![2u8];
    v.extend_from_slice(&amount.to_le_bytes());
    v
}

#[test]
fn decode_each_tag() {
    assert_eq!(SwapInstruction::unpack(&[0]), Ok(SwapInstruction::Initialize));
    assert_eq!(SwapInstruction::unpack(&[1, 9, 9]), Ok(SwapInstruction::Swap));
    assert_eq!(
        SwapInstruction::unpack(&[2, 0x10, 0x27, 0, 0, 0, 0, 0, 0]),
        Ok(SwapInstruction::Withdraw { amount: 10_000 })
    );
    assert_eq!(
        SwapInstruction::unpack(&withdraw_bytes(u64::MAX)),
        Ok(SwapInstruction::Withdraw { amount: u64::MAX })
    );
}

#[test]
fn decode_errors() {
    assert_eq!(SwapInstruction::unpack(&[]), Err(SwapError::DecodeError(DecodeError::EmptyInput)));
    assert_eq!(SwapInstruction::unpack(&[3]), Err(SwapError::DecodeError(DecodeError::UnknownTag)));
    assert_eq!(SwapInstruction::unpack(&[255, 0]), Err(SwapError::DecodeError(DecodeError::UnknownTag)));
    assert_eq!(
        SwapInstruction::unpack(&[2, 1, 2, 3, 4, 5, 6, 7]),
        Err(SwapError::DecodeError(DecodeError::TruncatedAmount))
    );
    assert_eq!(SwapInstruction::unpack_amount(&[1, 0, 0, 0, 0, 0, 0, 1]), Ok(0x0100_0000_0000_0001));
}

#[test]
fn unknown_tag_touches_nothing() {
    let accounts = init_accounts(RENT_FLOOR, vec![0u8; 73]);
    let r = SwapProcessor::process(&program_id(), &accounts, RENT_FLOOR, &[3]);
    assert_eq!(r, Err(SwapError::DecodeError(DecodeError::UnknownTag)));
}

#[test]
fn record_layout_matches_borsh() {
    let bytes = record_bytes(true, 1, 0x0102_0304_0506_0708, 3);
    let expected = borsh::to_vec(&(true, [1u8; 32], 0x0102_0304_0506_0708u64, [3u8; 32])).unwrap();
    assert_eq!(bytes, expected);
    assert_eq!(bytes.len(), 73);
    let back = SwapStore::unpack(&bytes).unwrap();
    assert!(back.is_initialized());
    assert_eq!(back.amount_swapped, 0x0102_0304_0506_0708);
    assert_eq!(back.admin, Identity::new([1u8; 32]));
    assert_eq!(back.token_funded_account, Identity::new([3u8; 32]));
    assert_eq!(SwapStore::unpack(&bytes[..72]), Err(SwapError::StateError));
    let mut bad = bytes.clone();
    bad[0] = 2;
    assert_eq!(SwapStore::unpack(&bad), Err(SwapError::StateError));
}

#[test]
fn initialize_writes_record_and_delegates() {
    let accounts = init_accounts(RENT_FLOOR, vec![0u8; 73]);
    let o = SwapProcessor::process(&program_id(), &accounts, RENT_FLOOR, &[0]).unwrap();
    assert_eq!(o.record_index, 1);
    assert_eq!(o.record_data, Some(record_bytes(true, 1, 0, 3)));
    assert_eq!(o.lamports, vec![100, RENT_FLOOR, 0, 1]);
    let (pda, _) = derived();
    assert_ne!(pda, program_id());
    assert_eq!(
        o.token_call,
        Some(TokenCall::SetAuthority {
            token_program: token_id(),
            account: Identity::new([3u8; 32]),
            current_authority: Identity::new([1u8; 32]),
            new_authority: pda,
        })
    );
}

#[test]
fn initialize_twice_fails_with_state_error() {
    let mut accounts = init_accounts(RENT_FLOOR + 5, vec![0u8; 73]);
    let o = SwapProcessor::process_init(&accounts, &program_id(), RENT_FLOOR).unwrap();
    apply(&mut accounts, &o);
    let before = accounts.clone();
    let r = SwapProcessor::process_init(&accounts, &program_id(), RENT_FLOOR);
    assert_eq!(r, Err(SwapError::StateError));
    assert_eq!(accounts, before);
}

#[test]
fn initialize_errors() {
    let mut a = init_accounts(RENT_FLOOR, vec![0u8; 73]);
    a[0].is_signer = false;
    assert_eq!(SwapProcessor::process_init(&a, &program_id(), RENT_FLOOR), Err(SwapError::AuthorizationError));
    let mut a = init_accounts(RENT_FLOOR, vec![0u8; 73]);
    a[1].owner = system();
    assert_eq!(SwapProcessor::process_init(&a, &program_id(), RENT_FLOOR), Err(SwapError::OwnershipError));
    let mut a = init_accounts(RENT_FLOOR, vec![0u8; 73]);
    a[2].owner = program_id();
    assert_eq!(SwapProcessor::process_init(&a, &program_id(), RENT_FLOOR), Err(SwapError::OwnershipError));
    let a = init_accounts(RENT_FLOOR - 1, vec![0u8; 73]);
    assert_eq!(SwapProcessor::process_init(&a, &program_id(), RENT_FLOOR), Err(SwapError::FundingError));
    let a = init_accounts(RENT_FLOOR, vec![0u8; 10]);
    assert_eq!(SwapProcessor::process_init(&a, &program_id(), RENT_FLOOR), Err(SwapError::StateError));
    let mut a = init_accounts(RENT_FLOOR, vec![0u8; 73]);
    a[3].key = system();
    assert_eq!(SwapProcessor::process_init(&a, &program_id(), RENT_FLOOR), Err(SwapError::ExternalServiceError));
    let mut a = init_accounts(RENT_FLOOR, vec![0u8; 73]);
    a.pop();
    assert_eq!(SwapProcessor::process_init(&a, &program_id(), RENT_FLOOR), Err(SwapError::MissingAccount));
}

#[test]
fn swap_moves_escrow_and_sends_tokens() {
    let accounts = swap_accounts(7, RENT_FLOOR, record_bytes(true, 1, 30, 3));
    let o = SwapProcessor::process(&program_id(), &accounts, 0, &[1]).unwrap();
    assert_eq!(o.lamports, vec![100, 0, 0, 0, RENT_FLOOR + 7, 1, 0]);
    assert_eq!(o.record_index, 4);
    assert_eq!(o.record_data, Some(record_bytes(true, 1, 37, 3)));
    let (pda, bump) = derived();
    assert_eq!(
        o.token_call,
        Some(TokenCall::Transfer {
            token_program: token_id(),
            source: Identity::new([3u8; 32]),
            destination: Identity::new([4u8; 32]),
            authority: pda,
            bump,
            amount: 70,
        })
    );
}

#[test]
fn swap_of_empty_escrow_is_a_no_op() {
    let accounts = swap_accounts(0, RENT_FLOOR, record_bytes(true, 1, 30, 3));
    let o = SwapProcessor::process_swap(&accounts, &program_id()).unwrap();
    assert_eq!(o.lamports[4], RENT_FLOOR);
    assert_eq!(o.record_data, Some(record_bytes(true, 1, 30, 3)));
    assert!(matches!(o.token_call, Some(TokenCall::Transfer { amount: 0, .. })));
}

#[test]
fn swap_errors() {
    let rec = || record_bytes(true, 1, 0, 3);
    let mut a = swap_accounts(5, RENT_FLOOR, rec());
    a[0].is_signer = false;
    assert_eq!(SwapProcessor::process_swap(&a, &program_id()), Err(SwapError::AuthorizationError));
    let mut a = swap_accounts(5, RENT_FLOOR, rec());
    a[3].owner = system();
    assert_eq!(SwapProcessor::process_swap(&a, &program_id()), Err(SwapError::OwnershipError));
    let mut a = swap_accounts(5, RENT_FLOOR, rec());
    a[2].owner = system();
    assert_eq!(SwapProcessor::process_swap(&a, &program_id()), Err(SwapError::OwnershipError));
    let a = swap_accounts(5, RENT_FLOOR, record_bytes(true, 1, 0, 8));
    assert_eq!(SwapProcessor::process_swap(&a, &program_id()), Err(SwapError::InvalidRecordReference));
    let mut a = swap_accounts(5, RENT_FLOOR, rec());
    a[3].key = a[4].key;
    assert_eq!(SwapProcessor::process_swap(&a, &program_id()), Err(SwapError::InvalidRecordReference));
    let a = swap_accounts(u64::MAX / 10 + 1, 0, rec());
    assert_eq!(SwapProcessor::process_swap(&a, &program_id()), Err(SwapError::AmountOverflow));
    let a = swap_accounts(5, RENT_FLOOR, record_bytes(true, 1, u64::MAX - 4, 3));
    assert_eq!(SwapProcessor::process_swap(&a, &program_id()), Err(SwapError::AmountOverflow));
    let a = swap_accounts(5, u64::MAX - 4, rec());
    assert_eq!(SwapProcessor::process_swap(&a, &program_id()), Err(SwapError::AmountOverflow));
    let a = swap_accounts(5, u64::MAX - 5, rec());
    assert!(SwapProcessor::process_swap(&a, &program_id()).is_ok());
    let mut a = swap_accounts(5, RENT_FLOOR, rec());
    a[5].key = system();
    assert_eq!(SwapProcessor::process_swap(&a, &program_id()), Err(SwapError::ExternalServiceError));
    let mut a = swap_accounts(5, RENT_FLOOR, rec());
    a.truncate(6);
    assert_eq!(SwapProcessor::process_swap(&a, &program_id()), Err(SwapError::MissingAccount));
}

#[test]
fn swap_with_given_authority() {
    let accounts = swap_accounts(2, RENT_FLOOR, record_bytes(true, 1, 0, 3));
    let authority = Identity::new([42u8; 32]);
    let o = SwapProcessor::swap_with_authority(&accounts, &program_id(), Some((authority, 200))).unwrap();
    assert!(matches!(o.token_call, Some(TokenCall::Transfer { authority: a, bump: 200, amount: 20, .. }) if a == authority));
    assert_eq!(
        SwapProcessor::swap_with_authority(&accounts, &program_id(), None),
        Err(SwapError::AuthorizationError)
    );
    let init = init_accounts(RENT_FLOOR, vec![0u8; 73]);
    assert_eq!(
        SwapProcessor::init_with_authority(&init, &program_id(), RENT_FLOOR, None),
        Err(SwapError::AuthorizationError)
    );
}

#[test]
fn withdraw_respects_rent_floor() {
    let a = withdraw_accounts(1, RENT_FLOOR + 10, record_bytes(true, 1, 0, 3));
    let o = SwapProcessor::process_withdraw(&a, 10, &program_id(), RENT_FLOOR).unwrap();
    assert_eq!(o.lamports, vec![110, RENT_FLOOR]);
    assert_eq!(o.record_data, None);
    assert_eq!(o.token_call, None);
    assert_eq!(
        SwapProcessor::process_withdraw(&a, 11, &program_id(), RENT_FLOOR),
        Err(SwapError::InsufficientFunds)
    );
    let low = withdraw_accounts(1, RENT_FLOOR - 1, record_bytes(true, 1, 0, 3));
    assert_eq!(
        SwapProcessor::process_withdraw(&low, 0, &program_id(), RENT_FLOOR),
        Err(SwapError::InsufficientFunds)
    );
}

#[test]
fn withdraw_only_for_admin() {
    for amount in [0u64, 1, 10, u64::MAX] {
        let a = withdraw_accounts(6, RENT_FLOOR + 10, record_bytes(true, 1, 0, 3));
        assert_eq!(
            SwapProcessor::process_withdraw(&a, amount, &program_id(), RENT_FLOOR),
            Err(SwapError::AuthorizationError)
        );
    }
    let mut a = withdraw_accounts(1, RENT_FLOOR + 10, record_bytes(true, 1, 0, 3));
    a[0].is_signer = false;
    assert_eq!(SwapProcessor::process_withdraw(&a, 1, &program_id(), RENT_FLOOR), Err(SwapError::AuthorizationError));
    let mut a = withdraw_accounts(1, RENT_FLOOR + 10, record_bytes(true, 1, 0, 3));
    a[1].owner = system();
    assert_eq!(SwapProcessor::process_withdraw(&a, 1, &program_id(), RENT_FLOOR), Err(SwapError::OwnershipError));
    let mut a = withdraw_accounts(1, RENT_FLOOR + 10, record_bytes(true, 1, 0, 3));
    a[0].lamports = u64::MAX;
    assert_eq!(SwapProcessor::process_withdraw(&a, 1, &program_id(), RENT_FLOOR), Err(SwapError::AmountOverflow));
}

#[test]
fn swap_then_withdraw_end_to_end() {
    // Initialize with the record funded to the floor plus five.
    let mut init = init_accounts(RENT_FLOOR + 5, vec![0u8; 73]);
    let o = SwapProcessor::process(&program_id(), &init, RENT_FLOOR, &[0]).unwrap();
    apply(&mut init, &o);
    let record = init[1].clone();

    let mut swap = swap_accounts(5, record.lamports, record.data.clone());
    let o = SwapProcessor::process(&program_id(), &swap, RENT_FLOOR, &[1]).unwrap();
    assert!(matches!(o.token_call, Some(TokenCall::Transfer { amount: 50, .. })));
    apply(&mut swap, &o);
    assert_eq!(swap[3].lamports, 0);
    assert_eq!(swap[4].lamports, RENT_FLOOR + 10);
    assert_eq!(SwapStore::unpack(&swap[4].data).unwrap().amount_swapped, 5);

    let mut withdraw = withdraw_accounts(1, swap[4].lamports, swap[4].data.clone());
    let o = SwapProcessor::process(&program_id(), &withdraw, RENT_FLOOR, &withdraw_bytes(10)).unwrap();
    apply(&mut withdraw, &o);
    assert_eq!(withdraw[1].lamports, RENT_FLOOR);
    assert_eq!(
        SwapProcessor::process(&program_id(), &withdraw, RENT_FLOOR, &withdraw_bytes(1)),
        Err(SwapError::InsufficientFunds)
    );
}

#[test]
fn error_codes_are_distinct() {
    assert_eq!(SwapError::AuthorizationError.code(), 1);
    assert_eq!(SwapError::DecodeError(DecodeError::UnknownTag).code(), 8);
    assert_eq!(SwapError::MissingAccount.code(), 12);
    assert_eq!(SwapInstruction::Swap.record_account_index(), 4);
    assert_eq!(SwapInstruction::Withdraw { amount: 3 }.record_account_index(), 1);
}

#[test]
fn outcomes_touch_only_writable_accounts() {
    assert_eq!(SwapInstruction::Initialize.writable(), vec![false, true, true, false]);
    assert_eq!(SwapInstruction::Withdraw { amount: 1 }.writable(), vec![true, true]);
    let accounts = swap_accounts(3, RENT_FLOOR, record_bytes(true, 1, 0, 3));
    let o = SwapProcessor::process(&program_id(), &accounts, 0, &[1]).unwrap();
    let w = SwapInstruction::Swap.writable();
    for (i, a) in accounts.iter().enumerate() {
        if o.lamports[i] != a.lamports {
            assert!(w[i]);
        }
    }
    assert!(w[o.record_index]);
}
