use vstd::prelude::*;
use crate::address::Address;

verus! {

/// What a handler is invoked with: the trust-domain id of the program that
/// runs, and the accounts of the instruction.
#[derive(Debug)]
pub struct Context<T> {
    pub program_id: Address,
    pub accounts: T,
}

impl<T> Context<T> {
    /// A context for `program_id` over `accounts`.
    pub fn new(program_id: Address, accounts: T) -> (ctx: Context<T>)
        ensures
            ctx.program_id == program_id,
            ctx.accounts == accounts,
    {
        Context { program_id, accounts }
    }
}

} // verus!
