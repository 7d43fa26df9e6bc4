use solana_challenges::account::AccountInfo;
use solana_challenges::anchor_counter::{
    decrement, increment, initialize, ConstraintError, Context, Counter, CounterError, Decrement,
    Increment, Initialize, InstructionError,
};
use solana_challenges::counter_program::{next_account, process_instruction};
use solana_challenges::error::ProgramError;
use solana_challenges::pubkey::Pubkey;

fn account(key: u8, owner: u8, is_signer: bool, data: Vec<u8>) -> AccountInfo {
    AccountInfo {
        key: Pubkey([key; 32]),
        owner: Pubkey([owner; 32]),
        lamports: 10,
        is_signer,
        is_writable: true,
        data,
        data_borrowed: false,
    }
}

#[test]
fn initialize_sets_zero_and_authority() {
    let mut ctx = Context {
        accounts: Initialize {
            counter: Counter { authority: Pubkey([0; 32]), count: 17 },
            user: account(4, 0, true, Vec::new()),
        },
    };
    assert!(ctx.accounts.validate().is_ok());
    assert_eq!(initialize(&mut ctx), Ok(()));
    assert_eq!(ctx.accounts.counter.count, 0);
    assert_eq!(ctx.accounts.counter.authority, Pubkey([4; 32]));
}

#[test]
fn initialize_needs_signing_user() {
    let ctx = Context {
        accounts: Initialize {
            counter: Counter { authority: Pubkey([0; 32]), count: 0 },
            user: account(4, 0, false, Vec::new()),
        },
    };
    assert_eq!(ctx.accounts.validate(), Err(ConstraintError::AccountNotSigner));
}

#[test]
fn increment_then_decrement() {
    let owner = Pubkey([4; 32]);
    let mut inc = Context {
        accounts: Increment { counter: Counter { authority: owner, count: 0 }, authority: account(4, 0, true, Vec::new()) },
    };
    assert_eq!(inc.accounts.validate(), Ok(()));
    assert_eq!(increment(&mut inc), Ok(()));
    assert_eq!(increment(&mut inc), Ok(()));
    assert_eq!(inc.accounts.counter.count, 2);
    let mut dec = Context {
        accounts: Decrement { counter: inc.accounts.counter, authority: account(4, 0, true, Vec::new()) },
    };
    assert_eq!(decrement(&mut dec), Ok(()));
    assert_eq!(dec.accounts.counter.count, 1);
    assert_eq!(dec.accounts.counter.authority, owner);
}

#[test]
fn decrement_stops_at_zero() {
    let mut dec = Context {
        accounts: Decrement {
            counter: Counter { authority: Pubkey([4; 32]), count: 0 },
            authority: account(4, 0, true, Vec::new()),
        },
    };
    assert_eq!(decrement(&mut dec), Err(InstructionError::Counter(CounterError::CountBelowZero)));
    assert_eq!(dec.accounts.counter.count, 0);
}

#[test]
fn only_the_authority_passes_constraints() {
    let counter = Counter { authority: Pubkey([4; 32]), count: 3 };
    let stranger = Increment { counter, authority: account(5, 0, true, Vec::new()) };
    assert_eq!(stranger.validate(), Err(ConstraintError::ConstraintHasOne));
    let unsigned = Decrement { counter, authority: account(4, 0, false, Vec::new()) };
    assert_eq!(unsigned.validate(), Err(ConstraintError::AccountNotSigner));
    let unsigned_stranger = Decrement { counter, authority: account(5, 0, false, Vec::new()) };
    assert_eq!(unsigned_stranger.validate(), Err(ConstraintError::AccountNotSigner));
}

#[test]
fn next_account_walks_the_list() {
    let accounts = vec![account(1, 0, false, Vec::new()), account(2, 0, false, Vec::new())];
    let mut cursor = 0usize;
    assert_eq!(next_account(&accounts, &mut cursor), Ok(0));
    assert_eq!(next_account(&accounts, &mut cursor), Ok(1));
    assert_eq!(next_account(&accounts, &mut cursor), Err(ProgramError::NotEnoughAccountKeys));
    assert_eq!(cursor, 2);
}

#[test]
fn counter_program_raises_stored_count() {
    let program = Pubkey([6; 32]);
    let mut data = 41u64.to_le_bytes().to_vec();
    data.extend_from_slice(&[9, 9]);
    let mut accounts = vec![account(1, 6, false, data), account(2, 0, false, vec![5])];
    assert_eq!(process_instruction(&program, &mut accounts, &[]), Ok(()));
    assert_eq!(&accounts[0].data[..8], &42u64.to_le_bytes());
    assert_eq!(&accounts[0].data[8..], &[9, 9]);
    assert_eq!(accounts[1].data, vec![5]);
    assert_eq!(process_instruction(&program, &mut accounts, &[]), Ok(()));
    assert_eq!(u64::from_le_bytes(accounts[0].data[..8].try_into().unwrap()), 43);
}

#[test]
fn counter_program_carries_into_higher_bytes() {
    let program = Pubkey([6; 32]);
    let mut accounts = vec![account(1, 6, false, vec![255, 0, 0, 0, 0, 0, 0, 0])];
    assert_eq!(process_instruction(&program, &mut accounts, &[]), Ok(()));
    assert_eq!(accounts[0].data, vec![0, 1, 0, 0, 0, 0, 0, 0]);
}

#[test]
fn counter_program_errors() {
    let program = Pubkey([6; 32]);
    let mut none: Vec<AccountInfo> = Vec::new();
    assert_eq!(process_instruction(&program, &mut none, &[]), Err(ProgramError::NotEnoughAccountKeys));
    let mut foreign = vec![account(1, 3, false, vec![0; 8])];
    assert_eq!(process_instruction(&program, &mut foreign, &[]), Err(ProgramError::IncorrectProgramId));
    assert_eq!(foreign[0].data, vec![0; 8]);
    let mut borrowed = vec![account(1, 6, false, vec![0; 8])];
    borrowed[0].data_borrowed = true;
    assert_eq!(process_instruction(&program, &mut borrowed, &[]), Err(ProgramError::AccountBorrowFailed));
    let mut short = vec![account(1, 6, false, vec![0; 7])];
    assert_eq!(process_instruction(&program, &mut short, &[]), Err(ProgramError::AccountDataTooSmall));
    assert_eq!(short[0].data, vec![0; 7]);
}

#[test]
fn decrement_then_increment_restores() {
    let owner = Pubkey([4; 32]);
    let mut dec = Context {
        accounts: Decrement { counter: Counter { authority: owner, count: 5 }, authority: account(4, 0, true, Vec::new()) },
    };
    assert_eq!(decrement(&mut dec), Ok(()));
    let mut inc = Context {
        accounts: Increment { counter: dec.accounts.counter, authority: account(4, 0, true, Vec::new()) },
    };
    assert_eq!(increment(&mut inc), Ok(()));
    assert_eq!(inc.accounts.counter.count, 5);
    assert_eq!(inc.accounts.counter.authority, owner);
}

#[test]
fn initialize_needs_writable_user() {
    let mut read_only = account(4, 0, true, Vec::new());
    read_only.is_writable = false;
    let ctx = Context {
        accounts: Initialize { counter: Counter { authority: Pubkey([0; 32]), count: 0 }, user: read_only },
    };
    assert_eq!(ctx.accounts.validate(), Err(ConstraintError::ConstraintMut));
    let mut neither = account(4, 0, false, Vec::new());
    neither.is_writable = false;
    let ctx = Context {
        accounts: Initialize { counter: Counter { authority: Pubkey([0; 32]), count: 0 }, user: neither },
    };
    assert_eq!(ctx.accounts.validate(), Err(ConstraintError::AccountNotSigner));
}

#[test]
fn unauthorized_increment_is_refused() {
    let owner = Pubkey([4; 32]);
    let mut stranger = Context {
        accounts: Increment { counter: Counter { authority: owner, count: 7 }, authority: account(5, 0, true, Vec::new()) },
    };
    assert_eq!(increment(&mut stranger), Err(InstructionError::Constraint(ConstraintError::ConstraintHasOne)));
    assert_eq!(stranger.accounts.counter.count, 7);
    assert_eq!(stranger.accounts.counter.authority, owner);
    let mut unsigned = Context {
        accounts: Increment { counter: Counter { authority: owner, count: 7 }, authority: account(4, 0, false, Vec::new()) },
    };
    assert_eq!(increment(&mut unsigned), Err(InstructionError::Constraint(ConstraintError::AccountNotSigner)));
    assert_eq!(unsigned.accounts.counter.count, 7);
}

#[test]
fn unauthorized_decrement_is_refused() {
    let owner = Pubkey([4; 32]);
    let mut stranger = Context {
        accounts: Decrement { counter: Counter { authority: owner, count: 7 }, authority: account(5, 0, true, Vec::new()) },
    };
    assert_eq!(decrement(&mut stranger), Err(InstructionError::Constraint(ConstraintError::ConstraintHasOne)));
    assert_eq!(stranger.accounts.counter.count, 7);
    let mut unsigned = Context {
        accounts: Decrement { counter: Counter { authority: owner, count: 0 }, authority: account(4, 0, false, Vec::new()) },
    };
    assert_eq!(decrement(&mut unsigned), Err(InstructionError::Constraint(ConstraintError::AccountNotSigner)));
}

#[test]
fn initialize_refuses_read_only_user() {
    let mut read_only = account(4, 0, true, Vec::new());
    read_only.is_writable = false;
    let mut ctx = Context {
        accounts: Initialize { counter: Counter { authority: Pubkey([2; 32]), count: 9 }, user: read_only },
    };
    assert_eq!(initialize(&mut ctx), Err(InstructionError::Constraint(ConstraintError::ConstraintMut)));
    assert_eq!(ctx.accounts.counter.count, 9);
    assert_eq!(ctx.accounts.counter.authority, Pubkey([2; 32]));
}
