//! Instructions for the chain.

use vstd::prelude::*;

use crate::layout::le_bytes;
use crate::pubkey::Pubkey;
use crate::state::SWAP_INSTRUCTION_DISCRIMINATOR;

verus! {

/// An account that an instruction uses.
#[derive(Debug, Clone, Copy, PartialEq, Eq)]
pub struct AccountMeta {
    pub pubkey: Pubkey,
    pub is_signer: bool,
    pub is_writable: bool,
}

impl AccountMeta {
    /// An account that the instruction may change.
    pub fn new(pubkey: Pubkey, is_signer: bool) -> (meta: AccountMeta)
        ensures
            meta == writable(pubkey, is_signer),
            meta.pubkey == pubkey,
            meta.is_signer == is_signer,
            meta.is_writable,
    {
        AccountMeta { pubkey, is_signer, is_writable: true }
    }

    /// An account that the instruction only reads.
    pub fn new_readonly(pubkey: Pubkey, is_signer: bool) -> (meta: AccountMeta)
        ensures
            meta == readonly(pubkey, is_signer),
            meta.pubkey == pubkey,
            meta.is_signer == is_signer,
            !meta.is_writable,
    {
        AccountMeta { pubkey, is_signer, is_writable: false }
    }
}

pub open spec fn writable(pubkey: Pubkey, is_signer: bool) -> AccountMeta {
    AccountMeta { pubkey, is_signer, is_writable: true }
}

pub open spec fn readonly(pubkey: Pubkey, is_signer: bool) -> AccountMeta {
    AccountMeta { pubkey, is_signer, is_writable: false }
}

#[derive(Debug, PartialEq, Eq)]
pub struct Instruction {
    pub program_id: Pubkey,
    pub accounts: Vec<AccountMeta>,
    pub data: Vec<u8>,
}

impl Clone for Instruction {
    fn clone(&self) -> (instruction: Self)
        ensures
            instruction.program_id == self.program_id,
            instruction.accounts@ == self.accounts@,
            instruction.data@ == self.data@,
    {
        let instruction = Instruction {
            program_id: self.program_id,
            accounts: self.accounts.clone(),
            data: self.data.clone(),
        };
        assert(instruction.accounts@ =~= self.accounts@);
        instruction
    }
}

/// The data of a swap: the discriminator, what goes in, and the least that must come out, which is
/// nothing.
pub open spec fn swap_data(amount_in: u64) -> Seq<u8> {
    SWAP_INSTRUCTION_DISCRIMINATOR@ + le_bytes(amount_in as nat, 8) + le_bytes(0, 8)
}

/// Puts the bytes of `value` behind `data`, the least significant first.
fn push_u64(data: &mut Vec<u8>, value: u64)
    ensures
        final(data)@ == old(data)@ + le_bytes(value as nat, 8),
{
    let mut rest: u64 = value;
    let mut left: usize = 8;
    assert(old(data)@ + le_bytes(value as nat, 8) == data@ + le_bytes(rest as nat, left as nat));
    while left > 0
        invariant
            left <= 8,
            data@ + le_bytes(rest as nat, left as nat) == old(data)@ + le_bytes(value as nat, 8),
        decreases left,
    {
        let ghost before = data@;
        let low: u8 = (rest % 256) as u8;
        data.push(low);
        assert(data@ + le_bytes((rest / 256) as nat, (left - 1) as nat) =~= before + le_bytes(
            rest as nat,
            left as nat,
        ));
        rest = rest / 256;
        left = left - 1;
    }
    assert(data@ + le_bytes(rest as nat, 0) =~= data@);
}

pub fn build_swap_data(amount_in: u64) -> (data: Vec<u8>)
    ensures
        data@ == swap_data(amount_in),
{
    let mut data: Vec<u8> = Vec::with_capacity(24);
    let mut i: usize = 0;
    while i < 8
        invariant
            i <= 8,
            data@ == SWAP_INSTRUCTION_DISCRIMINATOR@.take(i as int),
        decreases 8 - i,
    {
        data.push(SWAP_INSTRUCTION_DISCRIMINATOR[i]);
        i = i + 1;
        assert(data@ =~= SWAP_INSTRUCTION_DISCRIMINATOR@.take(i as int));
    }
    assert(data@ =~= SWAP_INSTRUCTION_DISCRIMINATOR@);
    push_u64(&mut data, amount_in);
    push_u64(&mut data, 0);
    data
}

} // verus!
