//! What holds of every swap instruction and of every lookup table.

use vstd::prelude::*;

use crate::derived::program_address;
use crate::error::{ErrorInfo, TradingVenueError};
use crate::instruction::Instruction;
use crate::layout::{le_bytes, le_value};
use crate::model::{
    is_swap, lookup_refusal, lookup_table_keys, swap_refusal, Account, QuoteRequest, SwapType,
    VenueModel,
};
use crate::pubkey::Pubkey;
use crate::state::{
    OMNIPAIR_PROGRAM_ID, RESERVE_VAULT_SEED_PREFIX, SPL_TOKEN_PROGRAM_ID,
    SWAP_INSTRUCTION_DISCRIMINATOR, TOKEN_2022_PROGRAM_ID,
};
use crate::venue_laws::{consistent, lemma_swap_data_carries_amount};

verus! {

broadcast use crate::layout::lemma_le_bytes_len;

/// The bytes of a number of 64 bits, one by one.
proof fn lemma_eight_bytes(v: nat)
    ensures
        le_bytes(v, 8) == seq![
            (v % 256) as u8,
            (v / 256 % 256) as u8,
            (v / 256 / 256 % 256) as u8,
            (v / 256 / 256 / 256 % 256) as u8,
            (v / 256 / 256 / 256 / 256 % 256) as u8,
            (v / 256 / 256 / 256 / 256 / 256 % 256) as u8,
            (v / 256 / 256 / 256 / 256 / 256 / 256 % 256) as u8,
            (v / 256 / 256 / 256 / 256 / 256 / 256 / 256 % 256) as u8,
        ],
{
    reveal_with_fuel(le_bytes, 9);
}

/// The instruction of a swap is one of the program, and carries the amount that was asked for: the
/// discriminator, that amount in eight bytes, the least significant first, and eight zeros, as no
/// least output is demanded.
pub proof fn lemma_instruction_carries_the_amount(
    instruction: Instruction,
    m: VenueModel,
    request: QuoteRequest,
    user: Pubkey,
    user_token0: Pubkey,
    user_token1: Pubkey,
)
    requires
        is_swap(instruction, m, request, user, user_token0, user_token1),
    ensures
        instruction.program_id.bytes == OMNIPAIR_PROGRAM_ID,
        instruction.data@.len() == 24,
        instruction.data@.take(8) == SWAP_INSTRUCTION_DISCRIMINATOR@,
        le_value(instruction.data@.subrange(8, 16)) == request.amount,
        instruction.data@[8] == request.amount % 256,
        instruction.data@[9] == request.amount as nat / 256 % 256,
        instruction.data@[10] == request.amount as nat / 256 / 256 % 256,
        instruction.data@[11] == request.amount as nat / 256 / 256 / 256 % 256,
        instruction.data@[12] == request.amount as nat / 256 / 256 / 256 / 256 % 256,
        instruction.data@[13] == request.amount as nat / 256 / 256 / 256 / 256 / 256 % 256,
        instruction.data@[14] == request.amount as nat / 256 / 256 / 256 / 256 / 256 / 256 % 256,
        instruction.data@[15] == request.amount as nat / 256 / 256 / 256 / 256 / 256 / 256 / 256
            % 256,
        forall|i: int| 16 <= i < 24 ==> #[trigger] instruction.data@[i] == 0,
{
    let data = instruction.data@;
    lemma_swap_data_carries_amount(request.amount);
    lemma_eight_bytes(request.amount as nat);
    lemma_eight_bytes(0);
    let amount = le_bytes(request.amount as nat, 8);
    let nothing = le_bytes(0, 8);
    assert(data == SWAP_INSTRUCTION_DISCRIMINATOR@ + amount + nothing);
    assert forall|i: int| 16 <= i < 24 implies #[trigger] data[i] == 0 by {
        assert(data[i] == nothing[i - 16]);
    }
    assert(data[8] == amount[0]);
    assert(data[9] == amount[1]);
    assert(data[10] == amount[2]);
    assert(data[11] == amount[3]);
    assert(data[12] == amount[4]);
    assert(data[13] == amount[5]);
    assert(data[14] == amount[6]);
    assert(data[15] == amount[7]);
}

/// Two instructions of the same venue for the same user carry different data if and only if they
/// were asked for different amounts.
pub proof fn lemma_different_amounts_make_different_data(
    a: Instruction,
    b: Instruction,
    m: VenueModel,
    request_a: QuoteRequest,
    request_b: QuoteRequest,
    user: Pubkey,
    user_token0: Pubkey,
    user_token1: Pubkey,
)
    requires
        is_swap(a, m, request_a, user, user_token0, user_token1),
        is_swap(b, m, request_b, user, user_token0, user_token1),
    ensures
        a.data@ == b.data@ <==> request_a.amount == request_b.amount,
{
    lemma_instruction_carries_the_amount(a, m, request_a, user, user_token0, user_token1);
    lemma_instruction_carries_the_amount(b, m, request_b, user, user_token0, user_token1);
}

/// Which accounts the instruction of a swap uses, and how: what goes in is of the mint that was
/// asked for and goes from the user's account to the vault of that mint; what comes out is of the
/// other mint and goes the other way.
pub proof fn lemma_instruction_uses_accounts(
    instruction: Instruction,
    m: VenueModel,
    request: QuoteRequest,
    user: Pubkey,
    user_token0: Pubkey,
    user_token1: Pubkey,
)
    requires
        swap_refusal(m, request) is None,
        is_swap(instruction, m, request, user, user_token0, user_token1),
    ensures
        ({
            let a = instruction.accounts@;
            &&& a.len() == 14
            &&& a[0].pubkey == m.pair_key
            &&& a[1].pubkey == m.state.rate_model
            &&& a[2].pubkey == m.derived.futarchy_authority
            &&& a[7].pubkey == request.input_mint
            &&& a[8].pubkey == request.output_mint
            &&& a[9].pubkey == user
            &&& a[10].pubkey.bytes == SPL_TOKEN_PROGRAM_ID
            &&& a[11].pubkey.bytes == TOKEN_2022_PROGRAM_ID
            &&& a[12].pubkey == m.derived.event_authority
            &&& a[13].pubkey.bytes == OMNIPAIR_PROGRAM_ID
            &&& request.input_mint == m.state.token0 ==> {
                &&& a[3].pubkey == m.derived.reserve_vault0
                &&& a[4].pubkey == m.derived.reserve_vault1
                &&& a[5].pubkey == user_token0
                &&& a[6].pubkey == user_token1
            }
            &&& request.input_mint != m.state.token0 ==> {
                &&& a[3].pubkey == m.derived.reserve_vault1
                &&& a[4].pubkey == m.derived.reserve_vault0
                &&& a[5].pubkey == user_token1
                &&& a[6].pubkey == user_token0
            }
            &&& forall|i: int|
                #![trigger a[i]]
                0 <= i < 14 ==> (a[i].is_signer <==> i == 9) && (a[i].is_writable <==> i <= 1 || 3
                    <= i <= 6 || i == 9)
        }),
{
}

/// The vaults that a swap uses are those that the program owns for the pair and the two mints: what
/// goes in goes to the vault of the input mint, what comes out comes from that of the output mint.
pub proof fn lemma_instruction_uses_the_vaults_of_its_mints(
    instruction: Instruction,
    m: VenueModel,
    request: QuoteRequest,
    user: Pubkey,
    user_token0: Pubkey,
    user_token1: Pubkey,
)
    requires
        consistent(m),
        swap_refusal(m, request) is None,
        is_swap(instruction, m, request, user, user_token0, user_token1),
    ensures
        instruction.accounts@[3].pubkey.bytes == (program_address(
            seq![RESERVE_VAULT_SEED_PREFIX@, m.pair_key.bytes@, request.input_mint.bytes@],
            OMNIPAIR_PROGRAM_ID@,
        )->0).0,
        instruction.accounts@[4].pubkey.bytes == (program_address(
            seq![RESERVE_VAULT_SEED_PREFIX@, m.pair_key.bytes@, request.output_mint.bytes@],
            OMNIPAIR_PROGRAM_ID@,
        )->0).0,
{
}

/// Which swaps are put into an instruction: those with a fixed input, once both mints are known,
/// from one mint of the pair to the other. The rest are refused, each for its first fault.
pub proof fn lemma_swap_refusals(m: VenueModel, request: QuoteRequest)
    ensures
        swap_refusal(m, request) is None <==> {
            &&& request.swap_type == SwapType::ExactIn
            &&& m.token_info.len() >= 2
            &&& (request.input_mint == m.state.token0 && request.output_mint == m.state.token1) || (
            request.input_mint == m.state.token1 && request.output_mint == m.state.token0)
        },
        request.swap_type == SwapType::ExactOut ==> swap_refusal(m, request) == Some(
            TradingVenueError::ExactOutNotSupported,
        ),
        request.swap_type == SwapType::ExactIn && m.token_info.len() == 0 ==> swap_refusal(
            m,
            request,
        ) == Some(TradingVenueError::NotInitialized(ErrorInfo::Message("token0 mint info"))),
        request.swap_type == SwapType::ExactIn && m.token_info.len() == 1 ==> swap_refusal(
            m,
            request,
        ) == Some(TradingVenueError::NotInitialized(ErrorInfo::Message("token1 mint info"))),
        request.swap_type == SwapType::ExactIn && m.token_info.len() >= 2 && request.input_mint
            != m.state.token0 && request.input_mint != m.state.token1 ==> swap_refusal(m, request)
            == Some(TradingVenueError::InvalidMint(ErrorInfo::Key(request.input_mint))),
        request.swap_type == SwapType::ExactIn && m.token_info.len() >= 2 && (request.input_mint
            == m.state.token0 && request.output_mint != m.state.token1 || request.input_mint
            != m.state.token0 && request.input_mint == m.state.token1 && request.output_mint
            != m.state.token0) ==> swap_refusal(m, request) == Some(
            TradingVenueError::InvalidMint(ErrorInfo::Key(request.output_mint)),
        ),
{
}

/// What is put into a lookup table: the mints and who owns them, the pair and its vaults, the rate
/// model, the authorities and the programs.
pub proof fn lemma_lookup_table_holds(m: VenueModel, owner0: Pubkey, owner1: Pubkey)
    ensures
        ({
            let keys = lookup_table_keys(m, owner0, owner1);
            &&& keys.len() == 13
            &&& keys[0] == m.state.token0
            &&& keys[1] == m.state.token1
            &&& keys[2] == owner0
            &&& keys[3] == owner1
            &&& keys[4] == m.pair_key
            &&& keys[5] == m.derived.reserve_vault0
            &&& keys[6] == m.derived.reserve_vault1
            &&& keys[7] == m.state.rate_model
            &&& keys[8] == m.derived.futarchy_authority
            &&& keys[9] == m.derived.event_authority
            &&& keys[10].bytes == SPL_TOKEN_PROGRAM_ID
            &&& keys[11].bytes == TOKEN_2022_PROGRAM_ID
            &&& keys[12].bytes == OMNIPAIR_PROGRAM_ID
        }),
{
}

/// All that a swap of the pair uses besides the user's own accounts is in the pair's lookup table.
pub proof fn lemma_lookup_table_covers_swaps(
    instruction: Instruction,
    m: VenueModel,
    request: QuoteRequest,
    user: Pubkey,
    user_token0: Pubkey,
    user_token1: Pubkey,
    owner0: Pubkey,
    owner1: Pubkey,
)
    requires
        swap_refusal(m, request) is None,
        is_swap(instruction, m, request, user, user_token0, user_token1),
    ensures
        forall|i: int|
            0 <= i < 14 && i != 5 && i != 6 && i != 9 ==> lookup_table_keys(
                m,
                owner0,
                owner1,
            ).contains(#[trigger] instruction.accounts@[i].pubkey),
{
    let keys = lookup_table_keys(m, owner0, owner1);
    lemma_instruction_uses_accounts(instruction, m, request, user, user_token0, user_token1);
    lemma_lookup_table_holds(m, owner0, owner1);
    lemma_swap_refusals(m, request);
    assert forall|i: int| 0 <= i < 14 && i != 5 && i != 6 && i != 9 implies keys.contains(
        #[trigger] instruction.accounts@[i].pubkey,
    ) by {
        assert(keys.contains(keys[0]) && keys.contains(keys[1]) && keys.contains(keys[4])
            && keys.contains(keys[5]) && keys.contains(keys[6]) && keys.contains(keys[7])
            && keys.contains(keys[8]) && keys.contains(keys[9]) && keys.contains(keys[10])
            && keys.contains(keys[11]) && keys.contains(keys[12]));
    }
}

/// There is a lookup table if and only if the accounts of both mints were found.
pub proof fn lemma_lookup_refusals(mints: Vec<Option<Account>>)
    requires
        mints@.len() >= 1,
        mints@[0] is Some ==> mints@.len() >= 2,
    ensures
        lookup_refusal(None) == Some(
            TradingVenueError::SomethingWentWrong(ErrorInfo::Message("RPC cache required")),
        ),
        mints@[0] is None ==> lookup_refusal(Some(&mints)) == Some(
            TradingVenueError::MissingState(ErrorInfo::Message("token0 mint")),
        ),
        mints@[0] is Some && mints@[1] is None ==> lookup_refusal(Some(&mints)) == Some(
            TradingVenueError::MissingState(ErrorInfo::Message("token1 mint")),
        ),
        mints@[0] is Some && mints@[1] is Some ==> lookup_refusal(Some(&mints)) is None,
{
}

} // verus!
