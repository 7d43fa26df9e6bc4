//! A counter account with an authority: created at zero, then raised and
//! lowered by one, by its authority alone, and never below zero.
use vstd::prelude::*;
use crate::account::AccountInfo;
use crate::pubkey::{lemma_pubkey_view_injective, Pubkey};

verus! {

broadcast use lemma_pubkey_view_injective;

/// The accounts of an instruction, as its handler receives them.
pub struct Context<T> {
    pub accounts: T,
}

/// The state of a counter account.
#[derive(Clone, Copy, Debug)]
pub struct Counter {
    /// The key that may change the counter.
    pub authority: Pubkey,
    /// The count.
    pub count: u64,
}

/// The errors of the counter's instructions.
#[derive(Clone, Copy, Debug, PartialEq, Eq, Structural)]
pub enum CounterError {
    /// The count is zero and cannot be lowered.
    CountBelowZero,
}

/// The account constraints that an instruction declares, where they fail.
#[derive(Clone, Copy, Debug, PartialEq, Eq, Structural)]
pub enum ConstraintError {
    /// An account that must sign the transaction did not.
    AccountNotSigner,
    /// The counter's authority is not the account that was passed as such.
    ConstraintHasOne,
    /// An account that must be writable is not.
    ConstraintMut,
}

/// The accounts of `initialize`: the new counter, and the user who pays for it
/// and becomes its authority.
pub struct Initialize {
    pub counter: Counter,
    pub user: AccountInfo,
}

/// The accounts of `increment`: the counter, and its authority.
pub struct Increment {
    pub counter: Counter,
    pub authority: AccountInfo,
}

/// The accounts of `decrement`: the counter, and its authority.
pub struct Decrement {
    pub counter: Counter,
    pub authority: AccountInfo,
}

/// The constraints of `increment` and `decrement`: `authority` signs, and it
/// is the counter's authority.
pub open spec fn authority_constraints(counter: Counter, authority: AccountInfo) -> Result<
    (),
    ConstraintError,
> {
    if !authority.is_signer {
        Err(ConstraintError::AccountNotSigner)
    } else if counter.authority != authority.key {
        Err(ConstraintError::ConstraintHasOne)
    } else {
        Ok(())
    }
}

fn check_authority(counter: &Counter, authority: &AccountInfo) -> (r: Result<(), ConstraintError>)
    ensures
        r == authority_constraints(*counter, *authority),
{
    if !authority.is_signer {
        return Err(ConstraintError::AccountNotSigner);
    }
    if !(counter.authority == authority.key) {
        return Err(ConstraintError::ConstraintHasOne);
    }
    Ok(())
}

/// The constraints that `initialize` declares on the user: the user signs,
/// then the user is writable, as the payer of the new account.
pub open spec fn user_constraints(user: AccountInfo) -> Result<(), ConstraintError> {
    if !user.is_signer {
        Err(ConstraintError::AccountNotSigner)
    } else if !user.is_writable {
        Err(ConstraintError::ConstraintMut)
    } else {
        Ok(())
    }
}

impl Initialize {
    /// Checks the constraints that `initialize` declares on the user: it
    /// signs, and it is writable. The creation of the counter account itself
    /// is the runtime's work and is not checked here.
    pub fn validate(&self) -> (r: Result<(), ConstraintError>)
        ensures
            r == user_constraints(self.user),
    {
        if !self.user.is_signer {
            return Err(ConstraintError::AccountNotSigner);
        }
        if !self.user.is_writable {
            return Err(ConstraintError::ConstraintMut);
        }
        Ok(())
    }
}

impl Increment {
    /// Checks the constraints that `increment` declares on the authority: it
    /// signs, and it is the counter's authority. The checks on the counter
    /// account itself (writable, owned by the program, of the counter's kind)
    /// are made where the account is read, and are not checked here.
    pub fn validate(&self) -> (r: Result<(), ConstraintError>)
        ensures
            r == authority_constraints(self.counter, self.authority),
    {
        check_authority(&self.counter, &self.authority)
    }
}

impl Decrement {
    /// Checks the constraints that `decrement` declares on the authority: it
    /// signs, and it is the counter's authority. The checks on the counter
    /// account itself (writable, owned by the program, of the counter's kind)
    /// are made where the account is read, and are not checked here.
    pub fn validate(&self) -> (r: Result<(), ConstraintError>)
        ensures
            r == authority_constraints(self.counter, self.authority),
    {
        check_authority(&self.counter, &self.authority)
    }
}

/// A new counter: zero, with `user` as its authority.
pub open spec fn initialized(user: Pubkey) -> Counter {
    Counter { authority: user, count: 0 }
}

/// The counter raised by one.
pub open spec fn incremented(counter: Counter) -> Counter {
    Counter { authority: counter.authority, count: (counter.count + 1) as u64 }
}

/// The counter lowered by one, or the error where it is zero.
pub open spec fn decremented(counter: Counter) -> Result<Counter, CounterError> {
    if counter.count > 0 {
        Ok(Counter { authority: counter.authority, count: (counter.count - 1) as u64 })
    } else {
        Err(CounterError::CountBelowZero)
    }
}

/// The errors of the counter's instructions: a declared constraint that
/// fails, or the counter's own error.
#[derive(Clone, Copy, Debug, PartialEq, Eq, Structural)]
pub enum InstructionError {
    Constraint(ConstraintError),
    Counter(CounterError),
}

/// Checks the user's constraints, then sets the new counter to zero, with the
/// user as its authority; where a constraint fails, nothing changes.
pub fn initialize(ctx: &mut Context<Initialize>) -> (r: Result<(), InstructionError>)
    ensures
        match user_constraints(old(ctx).accounts.user) {
            Err(e) => r == Err::<(), InstructionError>(InstructionError::Constraint(e))
                && final(ctx).accounts.counter == old(ctx).accounts.counter,
            Ok(_) => r is Ok && final(ctx).accounts.counter == initialized(
                old(ctx).accounts.user.key,
            ),
        },
        final(ctx).accounts.user == old(ctx).accounts.user,
{
    if let Err(e) = ctx.accounts.validate() {
        return Err(InstructionError::Constraint(e));
    }
    let counter = &mut ctx.accounts.counter;
    counter.count = 0;
    counter.authority = ctx.accounts.user.key;
    Ok(())
}

/// Checks that the counter's authority signs, then raises the counter by
/// one; where a constraint fails, nothing changes.
pub fn increment(ctx: &mut Context<Increment>) -> (r: Result<(), InstructionError>)
    requires
        authority_constraints(old(ctx).accounts.counter, old(ctx).accounts.authority) is Ok
            ==> old(ctx).accounts.counter.count < u64::MAX,
    ensures
        match authority_constraints(old(ctx).accounts.counter, old(ctx).accounts.authority) {
            Err(e) => r == Err::<(), InstructionError>(InstructionError::Constraint(e))
                && final(ctx).accounts.counter == old(ctx).accounts.counter,
            Ok(_) => r is Ok && final(ctx).accounts.counter == incremented(
                old(ctx).accounts.counter,
            ) && final(ctx).accounts.counter.count == old(ctx).accounts.counter.count + 1,
        },
        final(ctx).accounts.authority == old(ctx).accounts.authority,
{
    if let Err(e) = ctx.accounts.validate() {
        return Err(InstructionError::Constraint(e));
    }
    let counter = &mut ctx.accounts.counter;
    counter.count += 1;
    Ok(())
}

/// Checks that the counter's authority signs, then lowers the counter by
/// one; where a constraint fails, or the count is zero, nothing changes.
pub fn decrement(ctx: &mut Context<Decrement>) -> (r: Result<(), InstructionError>)
    ensures
        match authority_constraints(old(ctx).accounts.counter, old(ctx).accounts.authority) {
            Err(e) => r == Err::<(), InstructionError>(InstructionError::Constraint(e))
                && final(ctx).accounts.counter == old(ctx).accounts.counter,
            Ok(_) => match decremented(old(ctx).accounts.counter) {
                Ok(c) => r is Ok && final(ctx).accounts.counter == c
                    && final(ctx).accounts.counter.count == old(ctx).accounts.counter.count - 1,
                Err(e) => r == Err::<(), InstructionError>(InstructionError::Counter(e))
                    && final(ctx).accounts.counter == old(ctx).accounts.counter,
            },
        },
        final(ctx).accounts.authority == old(ctx).accounts.authority,
{
    if let Err(e) = ctx.accounts.validate() {
        return Err(InstructionError::Constraint(e));
    }
    let counter = &mut ctx.accounts.counter;
    if !(counter.count > 0) {
        return Err(InstructionError::Counter(CounterError::CountBelowZero));
    }
    counter.count -= 1;
    Ok(())
}

// ------------------------------------------------------------------
// Laws
// ------------------------------------------------------------------
/// Raising adds exactly one to the count; lowering a positive count takes
/// exactly one away; neither touches the authority.
pub proof fn lemma_step_is_one(counter: Counter)
    ensures
        counter.count < u64::MAX ==> incremented(counter).count == counter.count + 1
            && incremented(counter).authority == counter.authority,
        counter.count > 0 ==> (decremented(counter) matches Ok(c) && c.count == counter.count - 1
            && c.authority == counter.authority),
{
}

/// Lowering a counter that was just raised gives back the counter.
pub proof fn lemma_decrement_undoes_increment(counter: Counter)
    requires
        counter.count < u64::MAX,
    ensures
        decremented(incremented(counter)) == Ok::<Counter, CounterError>(counter),
{
}

/// Raising a counter that was just lowered gives back the counter.
pub proof fn lemma_increment_undoes_decrement(counter: Counter)
    requires
        decremented(counter) is Ok,
    ensures
        incremented(decremented(counter)->Ok_0) == counter,
{
}

/// Lowering fails exactly at zero; neither raising nor lowering touches the
/// authority.
pub proof fn lemma_authority_kept_and_floor_at_zero(counter: Counter)
    ensures
        decremented(counter) is Err <==> counter.count == 0,
        counter.count < u64::MAX ==> incremented(counter).authority == counter.authority,
        decremented(counter) matches Ok(c) ==> c.authority == counter.authority,
{
}

/// The constraints of `increment` and `decrement` pass only for the
/// counter's own authority, signing.
pub proof fn lemma_only_authority_passes(counter: Counter, authority: AccountInfo)
    ensures
        authority_constraints(counter, authority) is Ok <==> (authority.is_signer
            && authority.key == counter.authority),
{
}

} // verus!
