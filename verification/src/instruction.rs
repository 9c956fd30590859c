//! Encoder for the swap program's instructions.
//!
//! Each call shape produces one instruction: the target program address, a
//! protocol-mandated ordered list of account references (each tagged
//! writable/read-only and signer/non-signer), and a serialized payload (a
//! fixed 8-byte discriminant tag followed by fixed-width little-endian
//! fields).  The account order and the flags are the wire contract with the
//! remote program and must be reproduced exactly.

use vstd::prelude::*;
use vstd::bytes::spec_u64_to_le_bytes;
use vstd::bytes::u64_to_le_bytes;

use crate::pubkey::Pubkey;

verus! {

/// An account reference: an address plus its writable and signer flags.
#[derive(Clone, Copy, Debug)]
pub struct AccountMeta {
    pub pubkey: Pubkey,
    pub is_signer: bool,
    pub is_writable: bool,
}

impl AccountMeta {
    /// A writable account reference.
    pub fn new(pubkey: Pubkey, is_signer: bool) -> (r: AccountMeta)
        ensures
            r == (AccountMeta { pubkey, is_signer, is_writable: true }),
    {
        AccountMeta { pubkey, is_signer, is_writable: true }
    }

    /// A read-only account reference.
    pub fn new_readonly(pubkey: Pubkey, is_signer: bool) -> (r: AccountMeta)
        ensures
            r == (AccountMeta { pubkey, is_signer, is_writable: false }),
    {
        AccountMeta { pubkey, is_signer, is_writable: false }
    }
}

/// A ready-to-submit instruction: the target program, the ordered account
/// references, and the serialized argument payload.
#[derive(Clone, Debug)]
pub struct Instruction {
    pub program_id: Pubkey,
    pub accounts: Vec<AccountMeta>,
    pub data: Vec<u8>,
}

/// The side of an order.
#[derive(Clone, Copy, Debug, PartialEq, Eq)]
pub enum Side {
    Bid,
    Ask,
}

/// The minimum acceptable conversion rate and decimal scaling for a swap,
/// passed through verbatim into the serialized payload.
#[derive(Clone, Copy, Debug)]
pub struct ExchangeRate {
    pub rate: u64,
    pub from_decimals: u8,
    pub quote_decimals: u8,
    pub strict: bool,
}

/// The market-account set a swap references.
#[derive(Clone, Copy, Debug)]
pub struct MarketAccounts {
    pub market: Pubkey,
    pub open_orders: Pubkey,
    pub request_queue: Pubkey,
    pub event_queue: Pubkey,
    pub bids: Pubkey,
    pub asks: Pubkey,
    /// The token account that funds will be taken from, i.e., transferred
    /// from the user into the market's vault.
    ///
    /// For bids, this is the base currency. For asks, the quote.
    pub order_payer_token_account: Pubkey,
    /// Also known as the "base" currency. For a given A/B market,
    /// this is the vault for the A mint.
    pub coin_vault: Pubkey,
    /// Also known as the "quote" currency. For a given A/B market,
    /// this is the vault for the B mint.
    pub pc_vault: Pubkey,
    /// Derived owner of the exchange's token accounts for base + quote
    /// currencies.
    pub vault_signer: Pubkey,
    /// User wallet for the base currency.
    pub coin_wallet: Pubkey,
}

/// Which protocol generation a swap's account list targets.  One historical
/// generation of the encoder lists the token-program account twice at the
/// tail of the list; another lists it once.  Both are preserved behind this
/// selector until the target deployment's ABI is confirmed; callers state
/// which generation they target.
#[derive(Clone, Copy, Debug, PartialEq, Eq)]
pub enum Generation {
    DoubleTokenProgram,
    SingleTokenProgram,
}

/// Number of account references in one market block of a swap.
pub const MARKET_BLOCK_LEN: usize = 11;

/// The discriminant tag of the account-initialization call shape.
pub open spec fn init_account_tag() -> Seq<u8> {
    seq![169u8, 188u8, 158u8, 199u8, 9u8, 151u8, 101u8, 125u8]
}

/// The discriminant tag of the direct-swap call shape.
pub open spec fn swap_tag() -> Seq<u8> {
    seq![248u8, 198u8, 158u8, 145u8, 225u8, 117u8, 135u8, 200u8]
}

/// The discriminant tag of the transitive-swap call shape.
pub open spec fn swap_transitive_tag() -> Seq<u8> {
    seq![129u8, 109u8, 254u8, 207u8, 31u8, 192u8, 47u8, 51u8]
}

/// The discriminant tag of the account-close call shape.
pub open spec fn close_account_tag() -> Seq<u8> {
    seq![125u8, 255u8, 149u8, 14u8, 110u8, 34u8, 72u8, 24u8]
}

/// The one-byte wire encoding of an order side.
pub open spec fn side_byte(side: Side) -> u8 {
    match side {
        Side::Bid => 0u8,
        Side::Ask => 1u8,
    }
}

/// The one-byte wire encoding of a flag.
pub open spec fn bool_byte(b: bool) -> u8 {
    if b {
        1u8
    } else {
        0u8
    }
}

/// The wire encoding of an exchange-rate constraint: the rate as an 8-byte
/// little-endian word, then the two decimal counts, then the strict flag.
pub open spec fn exchange_rate_bytes(rate: ExchangeRate) -> Seq<u8> {
    spec_u64_to_le_bytes(rate.rate) + seq![
        rate.from_decimals,
        rate.quote_decimals,
        bool_byte(rate.strict),
    ]
}

/// The direct-swap payload: tag, side, amount, exchange-rate constraint.
pub open spec fn swap_payload(side: Side, amount: u64, min_exchange_rate: ExchangeRate) -> Seq<
    u8,
> {
    swap_tag() + seq![side_byte(side)] + spec_u64_to_le_bytes(amount) + exchange_rate_bytes(
        min_exchange_rate,
    )
}

/// The transitive-swap payload: tag, amount, exchange-rate constraint.
pub open spec fn swap_transitive_payload(amount: u64, min_exchange_rate: ExchangeRate) -> Seq<
    u8,
> {
    swap_transitive_tag() + spec_u64_to_le_bytes(amount) + exchange_rate_bytes(min_exchange_rate)
}

/// The protocol-mandated account references of one market block, in order:
/// market, open orders, request queue, event queue, bids, asks, order payer,
/// coin vault, pc vault, vault signer (the only read-only entry), and the
/// user's coin wallet.
pub open spec fn market_block(m: MarketAccounts) -> Seq<AccountMeta> {
    seq![
        AccountMeta { pubkey: m.market, is_signer: false, is_writable: true },
        AccountMeta { pubkey: m.open_orders, is_signer: false, is_writable: true },
        AccountMeta { pubkey: m.request_queue, is_signer: false, is_writable: true },
        AccountMeta { pubkey: m.event_queue, is_signer: false, is_writable: true },
        AccountMeta { pubkey: m.bids, is_signer: false, is_writable: true },
        AccountMeta { pubkey: m.asks, is_signer: false, is_writable: true },
        AccountMeta { pubkey: m.order_payer_token_account, is_signer: false, is_writable: true },
        AccountMeta { pubkey: m.coin_vault, is_signer: false, is_writable: true },
        AccountMeta { pubkey: m.pc_vault, is_signer: false, is_writable: true },
        AccountMeta { pubkey: m.vault_signer, is_signer: false, is_writable: false },
        AccountMeta { pubkey: m.coin_wallet, is_signer: false, is_writable: true },
    ]
}

/// One market block is always eleven account references long.
pub proof fn lemma_market_block_len(m: MarketAccounts)
    ensures
        market_block(m).len() == MARKET_BLOCK_LEN,
{
}

/// The token program's well-known address.
pub open spec fn token_program_id_bytes() -> Seq<u8> {
    seq![
        6u8, 221u8, 246u8, 225u8, 215u8, 101u8, 161u8, 147u8, 217u8, 203u8, 225u8, 70u8, 206u8,
        235u8, 121u8, 172u8, 28u8, 180u8, 133u8, 237u8, 95u8, 91u8, 55u8, 145u8, 58u8, 140u8,
        245u8, 133u8, 126u8, 255u8, 0u8, 169u8,
    ]
}

/// The rent sysvar's well-known address.
pub open spec fn rent_sysvar_id_bytes() -> Seq<u8> {
    seq![
        6u8, 167u8, 213u8, 23u8, 25u8, 44u8, 92u8, 81u8, 33u8, 140u8, 201u8, 76u8, 61u8, 74u8,
        241u8, 127u8, 88u8, 218u8, 238u8, 8u8, 155u8, 161u8, 253u8, 68u8, 227u8, 219u8, 217u8,
        138u8, 0u8, 0u8, 0u8, 0u8,
    ]
}

/// Relies on spl_token::id: the token program's fixed, well-known address.
#[verifier::external_body]
fn token_program_id() -> (r: Pubkey)
    ensures
        r@ == token_program_id_bytes(),
{
    Pubkey { bytes: spl_token::id().to_bytes() }
}

/// Relies on solana_program::sysvar::rent::id: the rent sysvar's fixed,
/// well-known address.
#[verifier::external_body]
fn rent_sysvar_id() -> (r: Pubkey)
    ensures
        r@ == rent_sysvar_id_bytes(),
{
    Pubkey { bytes: solana_program::sysvar::rent::id().to_bytes() }
}

/// The wire encoding of an exchange-rate constraint as runnable bytes.
fn exchange_rate_bytes_exec(rate: ExchangeRate) -> (r: Vec<u8>)
    ensures
        r@ == exchange_rate_bytes(rate),
        r@.len() == 11,
{
    let mut d = u64_to_le_bytes(rate.rate);
    d.push(rate.from_decimals);
    d.push(rate.quote_decimals);
    d.push(if rate.strict { 1 } else { 0 });
    proof {
        assert(d@ =~= exchange_rate_bytes(rate));
    }
    d
}

/// Appends one market block to an account list.
fn push_market_block(accounts: &mut Vec<AccountMeta>, m: &MarketAccounts)
    ensures
        final(accounts)@ == old(accounts)@ + market_block(*m),
{
    accounts.push(AccountMeta::new(m.market, false));
    accounts.push(AccountMeta::new(m.open_orders, false));
    accounts.push(AccountMeta::new(m.request_queue, false));
    accounts.push(AccountMeta::new(m.event_queue, false));
    accounts.push(AccountMeta::new(m.bids, false));
    accounts.push(AccountMeta::new(m.asks, false));
    accounts.push(AccountMeta::new(m.order_payer_token_account, false));
    accounts.push(AccountMeta::new(m.coin_vault, false));
    accounts.push(AccountMeta::new(m.pc_vault, false));
    accounts.push(AccountMeta::new_readonly(m.vault_signer, false));
    accounts.push(AccountMeta::new(m.coin_wallet, false));
    proof {
        assert(accounts@ =~= old(accounts)@ + market_block(*m));
    }
}

/// The account list of a direct swap: one market block, then the signing
/// authority, the quote wallet, the exchange program, and the token program
/// once or twice according to the generation.
pub open spec fn swap_accounts_post(
    accounts: Seq<AccountMeta>,
    dex_program_id: Pubkey,
    authority: Pubkey,
    pc_wallet: Pubkey,
    m: MarketAccounts,
    generation: Generation,
) -> bool {
    &&& accounts.len() == MARKET_BLOCK_LEN + (
        if generation is DoubleTokenProgram { 5int } else { 4int }
    )
    &&& accounts.subrange(0, MARKET_BLOCK_LEN as int) == market_block(m)
    &&& accounts[MARKET_BLOCK_LEN as int] == (AccountMeta {
        pubkey: authority,
        is_signer: true,
        is_writable: false,
    })
    &&& accounts[MARKET_BLOCK_LEN + 1] == (AccountMeta {
        pubkey: pc_wallet,
        is_signer: false,
        is_writable: true,
    })
    &&& accounts[MARKET_BLOCK_LEN + 2] == (AccountMeta {
        pubkey: dex_program_id,
        is_signer: false,
        is_writable: false,
    })
    &&& accounts[MARKET_BLOCK_LEN + 3].pubkey@ == token_program_id_bytes()
    &&& accounts[MARKET_BLOCK_LEN + 3].is_signer == false
    &&& accounts[MARKET_BLOCK_LEN + 3].is_writable == false
    &&& generation is DoubleTokenProgram ==> accounts[MARKET_BLOCK_LEN + 4] == accounts[
        MARKET_BLOCK_LEN + 3
    ]
}

/// The account list of a transitive swap: the `from` market block, the `to`
/// market block, then the same trailing shared accounts as a direct swap.
pub open spec fn swap_transitive_accounts_post(
    accounts: Seq<AccountMeta>,
    dex_program_id: Pubkey,
    authority: Pubkey,
    pc_wallet: Pubkey,
    from: MarketAccounts,
    to: MarketAccounts,
    generation: Generation,
) -> bool {
    &&& accounts.len() == 2 * MARKET_BLOCK_LEN + (
        if generation is DoubleTokenProgram { 5int } else { 4int }
    )
    &&& accounts.subrange(0, MARKET_BLOCK_LEN as int) == market_block(from)
    &&& accounts.subrange(MARKET_BLOCK_LEN as int, 2 * MARKET_BLOCK_LEN) == market_block(to)
    &&& accounts[2 * MARKET_BLOCK_LEN] == (AccountMeta {
        pubkey: authority,
        is_signer: true,
        is_writable: false,
    })
    &&& accounts[2 * MARKET_BLOCK_LEN + 1] == (AccountMeta {
        pubkey: pc_wallet,
        is_signer: false,
        is_writable: true,
    })
    &&& accounts[2 * MARKET_BLOCK_LEN + 2] == (AccountMeta {
        pubkey: dex_program_id,
        is_signer: false,
        is_writable: false,
    })
    &&& accounts[2 * MARKET_BLOCK_LEN + 3].pubkey@ == token_program_id_bytes()
    &&& accounts[2 * MARKET_BLOCK_LEN + 3].is_signer == false
    &&& accounts[2 * MARKET_BLOCK_LEN + 3].is_writable == false
    &&& generation is DoubleTokenProgram ==> accounts[2 * MARKET_BLOCK_LEN + 4] == accounts[
        2 * MARKET_BLOCK_LEN + 3
    ]
}

/// Builds the account-initialization instruction: exactly five account
/// references in fixed order with fixed flags, and the bare discriminant
/// tag as payload.  A pure construction: identical inputs yield identical
/// output.
pub fn init_account(
    swap_program_id: Pubkey,
    dex_program_id: Pubkey,
    authority: Pubkey,
    market: Pubkey,
    open_orders: Pubkey,
) -> (r: Instruction)
    ensures
        r.program_id == swap_program_id,
        r.accounts@.len() == 5,
        r.accounts@[0] == (AccountMeta { pubkey: open_orders, is_signer: false, is_writable: true }),
        r.accounts@[1] == (AccountMeta { pubkey: authority, is_signer: true, is_writable: false }),
        r.accounts@[2] == (AccountMeta { pubkey: market, is_signer: false, is_writable: false }),
        r.accounts@[3] == (AccountMeta {
            pubkey: dex_program_id,
            is_signer: false,
            is_writable: false,
        }),
        r.accounts@[4].pubkey@ == rent_sysvar_id_bytes(),
        r.accounts@[4].is_signer == false,
        r.accounts@[4].is_writable == false,
        r.data@ == init_account_tag(),
{
    let mut accounts: Vec<AccountMeta> = Vec::new();
    accounts.push(AccountMeta::new(open_orders, false));
    accounts.push(AccountMeta::new_readonly(authority, true));
    accounts.push(AccountMeta::new_readonly(market, false));
    accounts.push(AccountMeta::new_readonly(dex_program_id, false));
    accounts.push(AccountMeta::new_readonly(rent_sysvar_id(), false));
    let mut data: Vec<u8> = Vec::new();
    data.push(169);
    data.push(188);
    data.push(158);
    data.push(199);
    data.push(9);
    data.push(151);
    data.push(101);
    data.push(125);
    proof {
        assert(data@ =~= init_account_tag());
    }
    Instruction { program_id: swap_program_id, accounts, data }
}

/// Builds a direct-swap instruction for an explicit protocol generation.
/// The payload's quote-decimals and strict fields are fixed to zero and
/// false: this call shape deliberately offers no way to supply them.
pub fn swap_with_generation(
    swap_program_id: &Pubkey,
    dex_program_id: &Pubkey,
    authority: &Pubkey,
    pc_wallet: &Pubkey,
    market: &MarketAccounts,
    amount: u64,
    side: Side,
    rate: u64,
    from_decimals: u8,
    generation: Generation,
) -> (r: Instruction)
    ensures
        r.program_id == *swap_program_id,
        swap_accounts_post(r.accounts@, *dex_program_id, *authority, *pc_wallet, *market,
            generation),
        r.data@.len() == 28,
        r.data@ == swap_payload(side, amount, (ExchangeRate {
            rate,
            from_decimals,
            quote_decimals: 0u8,
            strict: false,
        })),
{
    let mut accounts: Vec<AccountMeta> = Vec::new();
    push_market_block(&mut accounts, market);
    accounts.push(AccountMeta::new_readonly(*authority, true));
    accounts.push(AccountMeta::new(*pc_wallet, false));
    accounts.push(AccountMeta::new_readonly(*dex_program_id, false));
    let token_program = token_program_id();
    accounts.push(AccountMeta::new_readonly(token_program, false));
    match generation {
        Generation::DoubleTokenProgram => {
            accounts.push(AccountMeta::new_readonly(token_program, false));
        },
        Generation::SingleTokenProgram => {},
    }
    let mut data: Vec<u8> = Vec::new();
    data.push(248);
    data.push(198);
    data.push(158);
    data.push(145);
    data.push(225);
    data.push(117);
    data.push(135);
    data.push(200);
    data.push(
        match side {
            Side::Bid => 0,
            Side::Ask => 1,
        },
    );
    let mut amount_bytes = u64_to_le_bytes(amount);
    data.append(&mut amount_bytes);
    let mut rate_bytes = exchange_rate_bytes_exec(
        ExchangeRate { rate, from_decimals, quote_decimals: 0, strict: false },
    );
    data.append(&mut rate_bytes);
    proof {
        assert(accounts@.subrange(0, MARKET_BLOCK_LEN as int) =~= market_block(*market));
        assert(data@ =~= swap_payload(side, amount, (ExchangeRate {
            rate,
            from_decimals,
            quote_decimals: 0u8,
            strict: false,
        })));
    }
    Instruction { program_id: *swap_program_id, accounts, data }
}

/// Builds a direct-swap instruction in the double-token-program generation.
pub fn swap(
    swap_program_id: &Pubkey,
    dex_program_id: &Pubkey,
    authority: &Pubkey,
    pc_wallet: &Pubkey,
    market: &MarketAccounts,
    amount: u64,
    side: Side,
    rate: u64,
    from_decimals: u8,
) -> (r: Instruction)
    ensures
        r.program_id == *swap_program_id,
        swap_accounts_post(r.accounts@, *dex_program_id, *authority, *pc_wallet, *market,
            Generation::DoubleTokenProgram),
        r.data@.len() == 28,
        r.data@ == swap_payload(side, amount, (ExchangeRate {
            rate,
            from_decimals,
            quote_decimals: 0u8,
            strict: false,
        })),
{
    swap_with_generation(swap_program_id, dex_program_id, authority, pc_wallet, market, amount,
        side, rate, from_decimals, Generation::DoubleTokenProgram)
}

/// Builds a transitive-swap instruction (a route through two markets that
/// share a quote currency) for an explicit protocol generation.  All four
/// exchange-rate-constraint fields are caller-supplied and echoed verbatim
/// into the payload.
pub fn swap_transitive_with_generation(
    swap_program_id: &Pubkey,
    dex_program_id: &Pubkey,
    authority: &Pubkey,
    pc_wallet: &Pubkey,
    from: &MarketAccounts,
    to: &MarketAccounts,
    amount: u64,
    rate: u64,
    from_decimals: u8,
    quote_decimals: u8,
    strict: bool,
    generation: Generation,
) -> (r: Instruction)
    ensures
        r.program_id == *swap_program_id,
        swap_transitive_accounts_post(r.accounts@, *dex_program_id, *authority, *pc_wallet, *from,
            *to, generation),
        r.data@.len() == 27,
        r.data@ == swap_transitive_payload(amount, (ExchangeRate {
            rate,
            from_decimals,
            quote_decimals,
            strict,
        })),
{
    let mut accounts: Vec<AccountMeta> = Vec::new();
    push_market_block(&mut accounts, from);
    push_market_block(&mut accounts, to);
    accounts.push(AccountMeta::new_readonly(*authority, true));
    accounts.push(AccountMeta::new(*pc_wallet, false));
    accounts.push(AccountMeta::new_readonly(*dex_program_id, false));
    let token_program = token_program_id();
    accounts.push(AccountMeta::new_readonly(token_program, false));
    match generation {
        Generation::DoubleTokenProgram => {
            accounts.push(AccountMeta::new_readonly(token_program, false));
        },
        Generation::SingleTokenProgram => {},
    }
    let mut data: Vec<u8> = Vec::new();
    data.push(129);
    data.push(109);
    data.push(254);
    data.push(207);
    data.push(31);
    data.push(192);
    data.push(47);
    data.push(51);
    let mut amount_bytes = u64_to_le_bytes(amount);
    data.append(&mut amount_bytes);
    let mut rate_bytes = exchange_rate_bytes_exec(
        ExchangeRate { rate, from_decimals, quote_decimals, strict },
    );
    data.append(&mut rate_bytes);
    proof {
        assert(accounts@.subrange(0, MARKET_BLOCK_LEN as int) =~= market_block(*from));
        assert(accounts@.subrange(MARKET_BLOCK_LEN as int, 2 * MARKET_BLOCK_LEN) =~= market_block(
            *to,
        ));
        assert(data@ =~= swap_transitive_payload(amount, (ExchangeRate {
            rate,
            from_decimals,
            quote_decimals,
            strict,
        })));
    }
    Instruction { program_id: *swap_program_id, accounts, data }
}

/// Builds a transitive-swap instruction in the double-token-program
/// generation.
pub fn swap_transitive(
    swap_program_id: &Pubkey,
    dex_program_id: &Pubkey,
    authority: &Pubkey,
    pc_wallet: &Pubkey,
    from: &MarketAccounts,
    to: &MarketAccounts,
    amount: u64,
    rate: u64,
    from_decimals: u8,
    quote_decimals: u8,
    strict: bool,
) -> (r: Instruction)
    ensures
        r.program_id == *swap_program_id,
        swap_transitive_accounts_post(r.accounts@, *dex_program_id, *authority, *pc_wallet, *from,
            *to, Generation::DoubleTokenProgram),
        r.data@.len() == 27,
        r.data@ == swap_transitive_payload(amount, (ExchangeRate {
            rate,
            from_decimals,
            quote_decimals,
            strict,
        })),
{
    swap_transitive_with_generation(swap_program_id, dex_program_id, authority, pc_wallet, from,
        to, amount, rate, from_decimals, quote_decimals, strict, Generation::DoubleTokenProgram)
}

/// Builds the account-close instruction: exactly five account references in
/// fixed order with fixed flags, and the bare discriminant tag as payload.
pub fn close_account(
    swap_program_id: Pubkey,
    dex_program_id: Pubkey,
    authority: Pubkey,
    market: Pubkey,
    open_orders: Pubkey,
    destination: Pubkey,
) -> (r: Instruction)
    ensures
        r.program_id == swap_program_id,
        r.accounts@.len() == 5,
        r.accounts@[0] == (AccountMeta { pubkey: open_orders, is_signer: false, is_writable: true }),
        r.accounts@[1] == (AccountMeta { pubkey: authority, is_signer: true, is_writable: false }),
        r.accounts@[2] == (AccountMeta {
            pubkey: destination,
            is_signer: false,
            is_writable: true,
        }),
        r.accounts@[3] == (AccountMeta { pubkey: market, is_signer: false, is_writable: false }),
        r.accounts@[4] == (AccountMeta {
            pubkey: dex_program_id,
            is_signer: false,
            is_writable: false,
        }),
        r.data@ == close_account_tag(),
{
    let mut accounts: Vec<AccountMeta> = Vec::new();
    accounts.push(AccountMeta::new(open_orders, false));
    accounts.push(AccountMeta::new_readonly(authority, true));
    accounts.push(AccountMeta::new(destination, false));
    accounts.push(AccountMeta::new_readonly(market, false));
    accounts.push(AccountMeta::new_readonly(dex_program_id, false));
    let mut data: Vec<u8> = Vec::new();
    data.push(125);
    data.push(255);
    data.push(149);
    data.push(14);
    data.push(110);
    data.push(34);
    data.push(72);
    data.push(24);
    proof {
        assert(data@ =~= close_account_tag());
    }
    Instruction { program_id: swap_program_id, accounts, data }
}


/// Byte layout of a direct-swap payload: after the 8-byte discriminant tag
/// comes the side's one-byte encoding verbatim, then the amount and the
/// rate as little-endian words, then the constraint's decimal counts and
/// strict flag verbatim.
pub proof fn lemma_swap_payload_layout(side: Side, amount: u64, min_exchange_rate: ExchangeRate)
    ensures
        swap_payload(side, amount, min_exchange_rate).len() == 28,
        swap_payload(side, amount, min_exchange_rate).subrange(0, 8) == swap_tag(),
        swap_payload(side, amount, min_exchange_rate)[8] == side_byte(side),
        swap_payload(side, amount, min_exchange_rate).subrange(9, 17) == spec_u64_to_le_bytes(
            amount,
        ),
        swap_payload(side, amount, min_exchange_rate).subrange(17, 25) == spec_u64_to_le_bytes(
            min_exchange_rate.rate,
        ),
        swap_payload(side, amount, min_exchange_rate)[25] == min_exchange_rate.from_decimals,
        swap_payload(side, amount, min_exchange_rate)[26] == min_exchange_rate.quote_decimals,
        swap_payload(side, amount, min_exchange_rate)[27] == bool_byte(min_exchange_rate.strict),
{
    vstd::bytes::lemma_auto_spec_u64_to_from_le_bytes();
    let p = swap_payload(side, amount, min_exchange_rate);
    assert(p.subrange(0, 8) =~= swap_tag());
    assert(p.subrange(9, 17) =~= spec_u64_to_le_bytes(amount));
    assert(p.subrange(17, 25) =~= spec_u64_to_le_bytes(min_exchange_rate.rate));
}

/// Byte layout of a transitive-swap payload: after the 8-byte discriminant
/// tag come the amount and the rate as little-endian words, then the
/// constraint's decimal counts and strict flag, all four rate fields echoed
/// verbatim from the caller's constraint.
pub proof fn lemma_swap_transitive_payload_layout(amount: u64, min_exchange_rate: ExchangeRate)
    ensures
        swap_transitive_payload(amount, min_exchange_rate).len() == 27,
        swap_transitive_payload(amount, min_exchange_rate).subrange(0, 8)
            == swap_transitive_tag(),
        swap_transitive_payload(amount, min_exchange_rate).subrange(8, 16)
            == spec_u64_to_le_bytes(amount),
        swap_transitive_payload(amount, min_exchange_rate).subrange(16, 24)
            == spec_u64_to_le_bytes(min_exchange_rate.rate),
        swap_transitive_payload(amount, min_exchange_rate)[24]
            == min_exchange_rate.from_decimals,
        swap_transitive_payload(amount, min_exchange_rate)[25]
            == min_exchange_rate.quote_decimals,
        swap_transitive_payload(amount, min_exchange_rate)[26] == bool_byte(
            min_exchange_rate.strict,
        ),
{
    vstd::bytes::lemma_auto_spec_u64_to_from_le_bytes();
    let p = swap_transitive_payload(amount, min_exchange_rate);
    assert(p.subrange(0, 8) =~= swap_transitive_tag());
    assert(p.subrange(8, 16) =~= spec_u64_to_le_bytes(amount));
    assert(p.subrange(16, 24) =~= spec_u64_to_le_bytes(min_exchange_rate.rate));
}

} // verus!
