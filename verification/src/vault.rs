//! A lamport vault: each owner deposits into an empty vault at the program
//! address derived from `"vault"` and the owner's key, and withdraws its whole
//! balance again.
use vstd::prelude::*;
use vstd::bytes::{spec_u64_from_le_bytes, spec_u64_to_le_bytes, u64_from_le_bytes};
use vstd::slice::{slice_subrange, slice_to_vec};
use crate::account::AccountInfo;
use crate::address::{
    program_derived_address, seed_bytes, system_program_bytes, system_program_id,
    try_find_program_address,
};
use crate::error::ProgramError;
use crate::pubkey::{lemma_pubkey_view_injective, Pubkey};

verus! {

broadcast use lemma_pubkey_view_injective;

/// The vault program's address.
pub const ID: [u8; 32] = [
    0x0f, 0x1e, 0x6b, 0x14, 0x21, 0xc0, 0x4a, 0x07, 0x04, 0x31, 0x26, 0x5c, 0x19, 0xc5, 0xbb, 0xee,
    0x19, 0x92, 0xba, 0xe8, 0xaf, 0xd1, 0xcd, 0x07, 0x8e, 0xf8, 0xaf, 0x70, 0x47, 0xdc, 0x11, 0xf7,
];

/// The first seed of every vault address: the bytes of `"vault"`.
pub const VAULT_SEED: [u8; 5] = [118, 97, 117, 108, 116];

/// The instruction byte of a deposit.
pub const DEPOSIT_DISCRIMINATOR: u8 = 0;

/// The instruction byte of a withdrawal.
pub const WITHDRAW_DISCRIMINATOR: u8 = 1;

/// The seeds of the vault of the owner whose key is `owner`.
pub open spec fn vault_seeds(owner: Seq<u8>) -> Seq<Seq<u8>> {
    seq![VAULT_SEED@, owner]
}

/// The vault address of `owner`, with its bump seed.
pub open spec fn vault_address(owner: Seq<u8>) -> (Seq<u8>, u8) {
    program_derived_address(vault_seeds(owner), ID@)
}

/// A derived address and bump, taken by their bytes.
pub open spec fn derived_view(derived: Option<(Pubkey, u8)>) -> Option<(Seq<u8>, u8)> {
    match derived {
        Some((key, bump)) => Some((key@, bump)),
        None => None,
    }
}

/// What an outcome says once the value it carries is forgotten.
pub open spec fn outcome<T>(r: Result<T, ProgramError>) -> Result<(), ProgramError> {
    match r {
        Ok(_) => Ok(()),
        Err(e) => Err(e),
    }
}

/// A transfer of lamports by the system program, as the programs ask for it.
pub struct SystemTransfer {
    /// The account that pays.
    pub from: Pubkey,
    /// The account that receives.
    pub to: Pubkey,
    /// The amount.
    pub lamports: u64,
    /// The seeds with which the program signs for `from`; empty where `from`
    /// signed the transaction itself.
    pub signer_seeds: Vec<Vec<u8>>,
}

/// A transfer taken by plain values.
pub struct TransferView {
    pub from: Seq<u8>,
    pub to: Seq<u8>,
    pub lamports: u64,
    pub signer_seeds: Seq<Seq<u8>>,
}

impl View for SystemTransfer {
    type V = TransferView;

    open spec fn view(&self) -> TransferView {
        TransferView {
            from: self.from@,
            to: self.to@,
            lamports: self.lamports,
            signer_seeds: self.signer_seeds@.map_values(|seed: Vec<u8>| seed@),
        }
    }
}

/// A transfer outcome taken by plain values.
pub open spec fn transfer_outcome(r: Result<SystemTransfer, ProgramError>) -> Result<
    TransferView,
    ProgramError,
> {
    match r {
        Ok(t) => Ok(t@),
        Err(e) => Err(e),
    }
}

// ------------------------------------------------------------------
// Account checks
// ------------------------------------------------------------------
/// The account checks that come before the vault address is derived: three
/// accounts, a signing owner, and a vault that the system program owns,
/// empty for a deposit (`empty_vault`) and funded for a withdrawal.
pub open spec fn account_precheck(accounts: Seq<AccountInfo>, empty_vault: bool) -> Result<
    (),
    ProgramError,
> {
    if accounts.len() != 3 {
        Err(ProgramError::NotEnoughAccountKeys)
    } else if !accounts[0].is_signer {
        Err(ProgramError::InvalidAccountOwner)
    } else if accounts[1].owner@ != system_program_bytes() {
        Err(ProgramError::InvalidAccountOwner)
    } else if empty_vault && accounts[1].lamports != 0 {
        Err(ProgramError::InvalidAccountData)
    } else if !empty_vault && accounts[1].lamports == 0 {
        Err(ProgramError::InvalidAccountData)
    } else {
        Ok(())
    }
}

/// The account checks of a deposit (`empty_vault`) or a withdrawal, given the
/// derived vault address (`None` where none could be derived); on success,
/// the bump of the vault address.
pub open spec fn accounts_outcome(
    accounts: Seq<AccountInfo>,
    empty_vault: bool,
    derived: Option<(Seq<u8>, u8)>,
) -> Result<u8, ProgramError> {
    match account_precheck(accounts, empty_vault) {
        Err(e) => Err(e),
        Ok(_) => match derived {
            None => Err(ProgramError::InvalidSeeds),
            Some((key, bump)) => if accounts[1].key@ == key {
                Ok(bump)
            } else {
                Err(ProgramError::InvalidAccountOwner)
            },
        },
    }
}

fn precheck(accounts: &[AccountInfo], empty_vault: bool) -> (r: Result<(), ProgramError>)
    ensures
        r == account_precheck(accounts@, empty_vault),
{
    if accounts.len() != 3 {
        return Err(ProgramError::NotEnoughAccountKeys);
    }
    let owner = &accounts[0];
    let vault = &accounts[1];
    if !owner.is_signer {
        return Err(ProgramError::InvalidAccountOwner);
    }
    let system_program = Pubkey(system_program_id());
    assert(system_program@ == system_program_bytes());
    if !(vault.owner == system_program) {
        return Err(ProgramError::InvalidAccountOwner);
    }
    if empty_vault && vault.lamports != 0 {
        return Err(ProgramError::InvalidAccountData);
    }
    if !empty_vault && vault.lamports == 0 {
        return Err(ProgramError::InvalidAccountData);
    }
    Ok(())
}

fn check_accounts(accounts: &[AccountInfo], empty_vault: bool, derived: Option<(Pubkey, u8)>) -> (r:
    Result<u8, ProgramError>)
    ensures
        r == accounts_outcome(accounts@, empty_vault, derived_view(derived)),
{
    precheck(accounts, empty_vault)?;
    match derived {
        None => Err(ProgramError::InvalidSeeds),
        Some((key, bump)) => {
            if !(accounts[1].key == key) {
                Err(ProgramError::InvalidAccountOwner)
            } else {
                Ok(bump)
            }
        },
    }
}

/// Asks the runtime for the vault address of `owner`.
fn find_vault_address(owner: &Pubkey) -> (found: Option<(Pubkey, u8)>)
    ensures
        found matches Some((key, bump)) ==> (key@, bump) == vault_address(owner@),
{
    let seed: [u8; 5] = VAULT_SEED;
    let seeds: [&[u8]; 2] = [&seed, &owner.0];
    let program_id: [u8; 32] = ID;
    let found = try_find_program_address(&seeds, &program_id);
    proof {
        assert(seed_bytes(seeds@) =~= vault_seeds(owner@));
    }
    match found {
        Some((key, bump)) => Some((Pubkey(key), bump)),
        None => None,
    }
}

// ------------------------------------------------------------------
// Deposit
// ------------------------------------------------------------------
/// The accounts of a deposit: the owner, and the owner's vault.
pub struct DepositAccounts<'a> {
    pub owner: &'a AccountInfo,
    pub vault: &'a AccountInfo,
}

impl<'a> DepositAccounts<'a> {
    /// Checks the accounts of a deposit, `[owner, vault, system program]`,
    /// against the vault address `derived` (`None` where none could be
    /// derived).
    pub fn validate(accounts: &'a [AccountInfo], derived: Option<(Pubkey, u8)>) -> (r: Result<
        Self,
        ProgramError,
    >)
        ensures
            outcome(r) == outcome(accounts_outcome(accounts@, true, derived_view(derived))),
            r matches Ok(d) ==> *d.owner == accounts@[0] && *d.vault == accounts@[1],
    {
        check_accounts(accounts, true, derived)?;
        Ok(DepositAccounts { owner: &accounts[0], vault: &accounts[1] })
    }

    /// Checks the accounts of a deposit, `[owner, vault, system program]`:
    /// the owner signs, and the vault is empty, owned by the system program
    /// and at the vault address of the owner, which is asked of the runtime
    /// once the other checks have passed.
    pub fn try_from(accounts: &'a [AccountInfo]) -> (r: Result<Self, ProgramError>)
        ensures
            outcome(r) == outcome(accounts_outcome(accounts@, true, None)) || outcome(r) == outcome(
                accounts_outcome(accounts@, true, Some(vault_address(accounts@[0].key@))),
            ),
            r matches Ok(d) ==> *d.owner == accounts@[0] && *d.vault == accounts@[1],
    {
        precheck(accounts, true)?;
        let derived = find_vault_address(&accounts[0].key);
        DepositAccounts::validate(accounts, derived)
    }
}

/// The amount of a deposit, read from its instruction data: eight bytes,
/// little-endian, not zero.
pub open spec fn deposit_amount(data: Seq<u8>) -> Result<u64, ProgramError> {
    if data.len() != 8 {
        Err(ProgramError::InvalidInstructionData)
    } else if spec_u64_from_le_bytes(data) == 0 {
        Err(ProgramError::InvalidInstructionData)
    } else {
        Ok(spec_u64_from_le_bytes(data))
    }
}

/// The instruction data of a deposit.
pub struct DepositInstructionData {
    pub amount: u64,
}

impl DepositInstructionData {
    /// Reads the amount of a deposit from its instruction data.
    pub fn try_from(data: &[u8]) -> (r: Result<Self, ProgramError>)
        ensures
            match r {
                Ok(d) => deposit_amount(data@) == Ok::<u64, ProgramError>(d.amount),
                Err(e) => deposit_amount(data@) == Err::<u64, ProgramError>(e),
            },
    {
        if data.len() != 8 {
            return Err(ProgramError::InvalidInstructionData);
        }
        let amount = u64_from_le_bytes(data);
        if amount == 0 {
            return Err(ProgramError::InvalidInstructionData);
        }
        Ok(DepositInstructionData { amount })
    }
}

/// What a deposit asks of the system program, given the vault address
/// `derived`: its accounts are checked first, then its data; the owner then
/// pays the amount into the vault.
pub open spec fn deposit_outcome(
    data: Seq<u8>,
    accounts: Seq<AccountInfo>,
    derived: Option<(Seq<u8>, u8)>,
) -> Result<TransferView, ProgramError> {
    match accounts_outcome(accounts, true, derived) {
        Err(e) => Err(e),
        Ok(_) => match deposit_amount(data) {
            Err(e) => Err(e),
            Ok(amount) => Ok(
                TransferView {
                    from: accounts[0].key@,
                    to: accounts[1].key@,
                    lamports: amount,
                    signer_seeds: seq![],
                },
            ),
        },
    }
}

/// A checked deposit.
pub struct Deposit<'a> {
    pub accounts: DepositAccounts<'a>,
    pub instruction_data: DepositInstructionData,
}

impl<'a> Deposit<'a> {
    /// The transfer that this deposit asks for.
    pub open spec fn transfer_spec(&self) -> TransferView {
        TransferView {
            from: self.accounts.owner.key@,
            to: self.accounts.vault.key@,
            lamports: self.instruction_data.amount,
            signer_seeds: seq![],
        }
    }

    /// Checks a deposit against the vault address `derived`.
    pub fn validate(data: &[u8], accounts: &'a [AccountInfo], derived: Option<(Pubkey, u8)>) -> (r:
        Result<Self, ProgramError>)
        ensures
            match r {
                Ok(d) => deposit_outcome(data@, accounts@, derived_view(derived)) == Ok::<
                    TransferView,
                    ProgramError,
                >(d.transfer_spec()),
                Err(e) => deposit_outcome(data@, accounts@, derived_view(derived)) == Err::<
                    TransferView,
                    ProgramError,
                >(e),
            },
            r matches Ok(d) ==> *d.accounts.owner == accounts@[0] && *d.accounts.vault
                == accounts@[1],
    {
        let accounts = DepositAccounts::validate(accounts, derived)?;
        let instruction_data = DepositInstructionData::try_from(data)?;
        Ok(Deposit { accounts, instruction_data })
    }

    /// Checks a deposit: its accounts first, then its data.
    pub fn try_from(data: &[u8], accounts: &'a [AccountInfo]) -> (r: Result<Self, ProgramError>)
        ensures
            ({
                let found = Some(vault_address(accounts@[0].key@));
                match r {
                    Ok(d) => deposit_outcome(data@, accounts@, found) == Ok::<
                        TransferView,
                        ProgramError,
                    >(d.transfer_spec()),
                    Err(e) => deposit_outcome(data@, accounts@, None) == Err::<
                        TransferView,
                        ProgramError,
                    >(e) || deposit_outcome(data@, accounts@, found) == Err::<
                        TransferView,
                        ProgramError,
                    >(e),
                }
            }),
            r matches Ok(d) ==> *d.accounts.owner == accounts@[0] && *d.accounts.vault
                == accounts@[1],
    {
        precheck(accounts, true)?;
        let derived = find_vault_address(&accounts[0].key);
        Deposit::validate(data, accounts, derived)
    }

    /// The transfer of the deposit: the owner pays the amount into the vault.
    pub fn process(&mut self) -> (transfer: SystemTransfer)
        ensures
            transfer@ == old(self).transfer_spec(),
            *final(self) == *old(self),
    {
        let transfer = SystemTransfer {
            from: self.accounts.owner.key,
            to: self.accounts.vault.key,
            lamports: self.instruction_data.amount,
            signer_seeds: Vec::new(),
        };
        assert(transfer@.signer_seeds =~= seq![]);
        transfer
    }
}

// ------------------------------------------------------------------
// Withdrawal
// ------------------------------------------------------------------
/// The seeds with which the vault program signs for the vault of `owner`
/// whose bump is `bump`.
pub open spec fn vault_signer_seeds(owner: Seq<u8>, bump: u8) -> Seq<Seq<u8>> {
    seq![VAULT_SEED@, owner, seq![bump]]
}

/// The accounts of a withdrawal: the owner, the owner's vault, and the bump
/// of the vault address.
pub struct WithdrawAccounts<'a> {
    pub owner: &'a AccountInfo,
    pub vault: &'a AccountInfo,
    pub bumps: [u8; 1],
}

impl<'a> WithdrawAccounts<'a> {
    /// Checks the accounts of a withdrawal, `[owner, vault, system program]`,
    /// against the vault address `derived` (`None` where none could be
    /// derived).
    pub fn validate(accounts: &'a [AccountInfo], derived: Option<(Pubkey, u8)>) -> (r: Result<
        Self,
        ProgramError,
    >)
        ensures
            match r {
                Ok(w) => accounts_outcome(accounts@, false, derived_view(derived)) == Ok::<
                    u8,
                    ProgramError,
                >(w.bumps[0]),
                Err(e) => accounts_outcome(accounts@, false, derived_view(derived)) == Err::<
                    u8,
                    ProgramError,
                >(e),
            },
            r matches Ok(w) ==> *w.owner == accounts@[0] && *w.vault == accounts@[1],
    {
        let bump = check_accounts(accounts, false, derived)?;
        Ok(WithdrawAccounts { owner: &accounts[0], vault: &accounts[1], bumps: [bump] })
    }

    /// Checks the accounts of a withdrawal, `[owner, vault, system program]`:
    /// the owner signs, and the vault holds lamports, is owned by the system
    /// program and lies at the vault address of the owner, which is asked of
    /// the runtime once the other checks have passed.
    pub fn try_from(accounts: &'a [AccountInfo]) -> (r: Result<Self, ProgramError>)
        ensures
            ({
                let found = Some(vault_address(accounts@[0].key@));
                match r {
                    Ok(w) => accounts_outcome(accounts@, false, found) == Ok::<u8, ProgramError>(
                        w.bumps[0],
                    ),
                    Err(e) => accounts_outcome(accounts@, false, None) == Err::<u8, ProgramError>(e)
                        || accounts_outcome(accounts@, false, found) == Err::<u8, ProgramError>(e),
                }
            }),
            r matches Ok(w) ==> *w.owner == accounts@[0] && *w.vault == accounts@[1],
    {
        precheck(accounts, false)?;
        let derived = find_vault_address(&accounts[0].key);
        WithdrawAccounts::validate(accounts, derived)
    }
}

/// What a withdrawal asks of the system program, given the vault address
/// `derived`: once its accounts pass, the vault pays its whole balance back
/// to the owner, and the program signs for the vault with the vault's seeds.
pub open spec fn withdraw_outcome(accounts: Seq<AccountInfo>, derived: Option<(Seq<u8>, u8)>) -> Result<
    TransferView,
    ProgramError,
> {
    match accounts_outcome(accounts, false, derived) {
        Err(e) => Err(e),
        Ok(bump) => Ok(
            TransferView {
                from: accounts[1].key@,
                to: accounts[0].key@,
                lamports: accounts[1].lamports,
                signer_seeds: vault_signer_seeds(accounts[0].key@, bump),
            },
        ),
    }
}

/// A checked withdrawal.
pub struct Withdraw<'a> {
    pub accounts: WithdrawAccounts<'a>,
}

impl<'a> Withdraw<'a> {
    /// The transfer that this withdrawal asks for.
    pub open spec fn transfer_spec(&self) -> TransferView {
        TransferView {
            from: self.accounts.vault.key@,
            to: self.accounts.owner.key@,
            lamports: self.accounts.vault.lamports,
            signer_seeds: vault_signer_seeds(self.accounts.owner.key@, self.accounts.bumps[0]),
        }
    }

    /// Checks a withdrawal against the vault address `derived`.
    pub fn validate(accounts: &'a [AccountInfo], derived: Option<(Pubkey, u8)>) -> (r: Result<
        Self,
        ProgramError,
    >)
        ensures
            match r {
                Ok(w) => withdraw_outcome(accounts@, derived_view(derived)) == Ok::<
                    TransferView,
                    ProgramError,
                >(w.transfer_spec()),
                Err(e) => withdraw_outcome(accounts@, derived_view(derived)) == Err::<
                    TransferView,
                    ProgramError,
                >(e),
            },
            r matches Ok(w) ==> *w.accounts.owner == accounts@[0] && *w.accounts.vault
                == accounts@[1],
    {
        let accounts = WithdrawAccounts::validate(accounts, derived)?;
        Ok(Withdraw { accounts })
    }

    /// Checks a withdrawal.
    pub fn try_from(accounts: &'a [AccountInfo]) -> (r: Result<Self, ProgramError>)
        ensures
            ({
                let found = Some(vault_address(accounts@[0].key@));
                match r {
                    Ok(w) => withdraw_outcome(accounts@, found) == Ok::<TransferView, ProgramError>(
                        w.transfer_spec(),
                    ),
                    Err(e) => withdraw_outcome(accounts@, None) == Err::<TransferView, ProgramError>(
                        e,
                    ) || withdraw_outcome(accounts@, found) == Err::<TransferView, ProgramError>(e),
                }
            }),
            r matches Ok(w) ==> *w.accounts.owner == accounts@[0] && *w.accounts.vault
                == accounts@[1],
    {
        precheck(accounts, false)?;
        let derived = find_vault_address(&accounts[0].key);
        Withdraw::validate(accounts, derived)
    }

    /// The transfer of the withdrawal: the vault pays its whole balance back
    /// to the owner, signed with the vault's seeds.
    pub fn process(&mut self) -> (transfer: SystemTransfer)
        ensures
            transfer@ == old(self).transfer_spec(),
            *final(self) == *old(self),
    {
        let seed: [u8; 5] = VAULT_SEED;
        let owner_seed = slice_to_vec(&self.accounts.owner.key.0);
        let bump_seed = slice_to_vec(&self.accounts.bumps);
        let mut signer_seeds: Vec<Vec<u8>> = Vec::new();
        signer_seeds.push(slice_to_vec(&seed));
        signer_seeds.push(owner_seed);
        signer_seeds.push(bump_seed);
        let transfer = SystemTransfer {
            from: self.accounts.vault.key,
            to: self.accounts.owner.key,
            lamports: self.accounts.vault.lamports,
            signer_seeds,
        };
        proof {
            broadcast use vstd::array::array_len_matches_n, vstd::array::lemma_array_index;

            assert(transfer@.signer_seeds[2] =~= seq![self.accounts.bumps[0]]);
            assert(transfer@.signer_seeds[0] =~= VAULT_SEED@);
        }
        assert(transfer@.signer_seeds =~= vault_signer_seeds(
            self.accounts.owner.key@,
            self.accounts.bumps[0],
        ));
        transfer
    }
}

// ------------------------------------------------------------------
// Instructions
// ------------------------------------------------------------------
/// What an instruction of the vault program asks of the system program,
/// given the vault address `derived`: its first byte picks a deposit, whose
/// data is the rest, or a withdrawal, which reads no data.
pub open spec fn instruction_outcome(
    accounts: Seq<AccountInfo>,
    data: Seq<u8>,
    derived: Option<(Seq<u8>, u8)>,
) -> Result<TransferView, ProgramError> {
    if data.len() == 0 {
        Err(ProgramError::InvalidInstructionData)
    } else if data[0] == DEPOSIT_DISCRIMINATOR {
        deposit_outcome(data.drop_first(), accounts, derived)
    } else if data[0] == WITHDRAW_DISCRIMINATOR {
        withdraw_outcome(accounts, derived)
    } else {
        Err(ProgramError::InvalidInstructionData)
    }
}

/// Runs an instruction of the vault program against the vault address
/// `derived`, and returns the transfer that it asks of the system program.
pub fn process_with_vault_address(
    accounts: &[AccountInfo],
    instruction_data: &[u8],
    derived: Option<(Pubkey, u8)>,
) -> (r: Result<SystemTransfer, ProgramError>)
    ensures
        transfer_outcome(r) == instruction_outcome(accounts@, instruction_data@, derived_view(derived)),
{
    if instruction_data.len() == 0 {
        return Err(ProgramError::InvalidInstructionData);
    }
    let rest = slice_subrange(instruction_data, 1, instruction_data.len());
    assert(rest@ =~= instruction_data@.drop_first());
    if instruction_data[0] == DEPOSIT_DISCRIMINATOR {
        let mut deposit = Deposit::validate(rest, accounts, derived)?;
        Ok(deposit.process())
    } else if instruction_data[0] == WITHDRAW_DISCRIMINATOR {
        let mut withdraw = Withdraw::validate(accounts, derived)?;
        Ok(withdraw.process())
    } else {
        Err(ProgramError::InvalidInstructionData)
    }
}

/// Runs an instruction of the vault program and returns the transfer that it
/// asks of the system program. The vault address is asked of the runtime
/// once the checks that do not need it have passed.
pub fn process_instruction(_program_id: &Pubkey, accounts: &[AccountInfo], instruction_data: &[u8]) -> (r:
    Result<SystemTransfer, ProgramError>)
    ensures
        transfer_outcome(r) == instruction_outcome(accounts@, instruction_data@, None)
            || transfer_outcome(r) == instruction_outcome(
            accounts@,
            instruction_data@,
            Some(vault_address(accounts@[0].key@)),
        ),
{
    if instruction_data.len() == 0 {
        return Err(ProgramError::InvalidInstructionData);
    }
    let empty_vault = if instruction_data[0] == DEPOSIT_DISCRIMINATOR {
        true
    } else if instruction_data[0] == WITHDRAW_DISCRIMINATOR {
        false
    } else {
        return Err(ProgramError::InvalidInstructionData);
    };
    precheck(accounts, empty_vault)?;
    let derived = find_vault_address(&accounts[0].key);
    process_with_vault_address(accounts, instruction_data, derived)
}

// ------------------------------------------------------------------
// Laws
// ------------------------------------------------------------------
/// A vault takes deposits only while empty and pays out only while funded:
/// no accounts pass both checks.
pub proof fn lemma_deposit_and_withdraw_exclusive(
    accounts: Seq<AccountInfo>,
    derived: Option<(Seq<u8>, u8)>,
)
    ensures
        !(accounts_outcome(accounts, true, derived) is Ok && accounts_outcome(
            accounts,
            false,
            derived,
        ) is Ok),
{
}

/// Every instruction that the program accepts, with the vault address that
/// the runtime derives, moves lamports only between an owner who signs and
/// that owner's own vault.
pub proof fn lemma_only_owner_and_own_vault(accounts: Seq<AccountInfo>, data: Seq<u8>)
    ensures
        ({
            let owner = accounts[0].key@;
            let vault = vault_address(owner).0;
            instruction_outcome(accounts, data, Some(vault_address(owner))) matches Ok(t) ==> {
                &&& accounts[0].is_signer
                &&& accounts[1].key@ == vault
                &&& ((t.from == owner && t.to == vault) || (t.from == vault && t.to == owner))
            }
        }),
{
}

/// The seeds with which a withdrawal signs derive the vault that pays: the
/// first two are the vault's seeds, and the third is the bump of its address.
pub proof fn lemma_withdraw_seeds_derive_vault(accounts: Seq<AccountInfo>)
    ensures
        withdraw_outcome(accounts, Some(vault_address(accounts[0].key@))) matches Ok(t) ==> {
            &&& t.signer_seeds.len() == 3
            &&& program_derived_address(t.signer_seeds.take(2), ID@) == (
                t.from,
                t.signer_seeds[2][0],
            )
        },
{
    let owner = accounts[0].key@;
    if let Ok(t) = withdraw_outcome(accounts, Some(vault_address(owner))) {
        assert(t.signer_seeds.take(2) =~= vault_seeds(owner));
    }
}

/// What an owner deposits into the vault, the vault pays back to that owner
/// on withdrawal: once the deposit's transfer has credited the vault, a
/// withdrawal by the same owner, signing again, returns the same amount from
/// the same vault.
pub proof fn lemma_withdraw_returns_deposit(
    data: Seq<u8>,
    accounts: Seq<AccountInfo>,
    later: Seq<AccountInfo>,
    derived: Option<(Seq<u8>, u8)>,
)
    requires
        deposit_outcome(data, accounts, derived) is Ok,
        later.len() == 3,
        later[0].key == accounts[0].key,
        later[0].is_signer,
        later[1].key == accounts[1].key,
        later[1].owner == accounts[1].owner,
        later[1].lamports == deposit_outcome(data, accounts, derived)->Ok_0.lamports,
    ensures
        ({
            let deposit = deposit_outcome(data, accounts, derived)->Ok_0;
            withdraw_outcome(later, derived) matches Ok(withdrawal) && withdrawal.from == deposit.to
                && withdrawal.to == deposit.from && withdrawal.lamports == deposit.lamports
        }),
{
}

/// A withdrawal reads no instruction data past its first byte: given the
/// same accounts and vault address, two withdrawals whose data differ after
/// that byte ask for the same transfer.
pub proof fn lemma_withdraw_ignores_trailing_bytes(
    accounts: Seq<AccountInfo>,
    data1: Seq<u8>,
    data2: Seq<u8>,
    derived: Option<(Seq<u8>, u8)>,
)
    requires
        data1.len() > 0,
        data2.len() > 0,
        data1[0] == WITHDRAW_DISCRIMINATOR,
        data2[0] == WITHDRAW_DISCRIMINATOR,
    ensures
        instruction_outcome(accounts, data1, derived) == instruction_outcome(accounts, data2, derived),
{
}

/// The amount of a deposit is the number whose eight little-endian bytes
/// are the instruction data: every non-zero amount, written as its eight
/// bytes, reads back as itself, and every amount read back writes out as the
/// data it was read from.
pub proof fn lemma_deposit_amount_is_le_u64(amount: u64, data: Seq<u8>)
    ensures
        amount != 0 ==> deposit_amount(spec_u64_to_le_bytes(amount)) == Ok::<u64, ProgramError>(
            amount,
        ),
        amount == 0 ==> deposit_amount(spec_u64_to_le_bytes(amount)) == Err::<u64, ProgramError>(
            ProgramError::InvalidInstructionData,
        ),
        deposit_amount(data) matches Ok(a) ==> data.len() == 8 && spec_u64_to_le_bytes(a) == data,
{
    vstd::bytes::lemma_auto_spec_u64_to_from_le_bytes();
    assert(spec_u64_to_le_bytes(amount).len() == 8);
    if data.len() == 8 {
        assert(spec_u64_to_le_bytes(spec_u64_from_le_bytes(data)) == data);
    }
}

} // verus!
