use serum_swap_client::instruction::close_account;
use serum_swap_client::instruction::init_account;
use serum_swap_client::instruction::swap;
use serum_swap_client::instruction::swap_transitive;
use serum_swap_client::instruction::swap_transitive_with_generation;
use serum_swap_client::instruction::swap_with_generation;
use serum_swap_client::instruction::Generation;
use serum_swap_client::instruction::Instruction;
use serum_swap_client::instruction::MarketAccounts;
use serum_swap_client::instruction::Side;
use serum_swap_client::pubkey::Pubkey;

fn key(b: u8) -> Pubkey {
    Pubkey::new([b; 32])
}

fn market_accounts() -> MarketAccounts {
    MarketAccounts {
        market: key(1),
        open_orders: key(2),
        request_queue: key(3),
        event_queue: key(4),
        bids: key(5),
        asks: key(6),
        order_payer_token_account: key(7),
        coin_vault: key(8),
        pc_vault: key(9),
        vault_signer: key(10),
        coin_wallet: key(11),
    }
}

fn assert_meta(ix: &Instruction, i: usize, expected: &Pubkey, writable: bool, signer: bool) {
    assert_eq!(ix.accounts[i].pubkey.bytes, expected.bytes);
    assert_eq!(ix.accounts[i].is_writable, writable);
    assert_eq!(ix.accounts[i].is_signer, signer);
}

fn assert_market_block(ix: &Instruction, base: usize, m: &MarketAccounts) {
    assert_meta(ix, base, &m.market, true, false);
    assert_meta(ix, base + 1, &m.open_orders, true, false);
    assert_meta(ix, base + 2, &m.request_queue, true, false);
    assert_meta(ix, base + 3, &m.event_queue, true, false);
    assert_meta(ix, base + 4, &m.bids, true, false);
    assert_meta(ix, base + 5, &m.asks, true, false);
    assert_meta(ix, base + 6, &m.order_payer_token_account, true, false);
    assert_meta(ix, base + 7, &m.coin_vault, true, false);
    assert_meta(ix, base + 8, &m.pc_vault, true, false);
    assert_meta(ix, base + 9, &m.vault_signer, false, false);
    assert_meta(ix, base + 10, &m.coin_wallet, true, false);
}

#[test]
fn serialize_instruction() {
    let pubkey = key(33);
    let init = init_account(pubkey, pubkey, pubkey, pubkey, pubkey);
    let swapped = swap(
        &pubkey,
        &pubkey,
        &pubkey,
        &pubkey,
        &MarketAccounts {
            market: pubkey,
            open_orders: pubkey,
            request_queue: pubkey,
            event_queue: pubkey,
            bids: pubkey,
            asks: pubkey,
            order_payer_token_account: pubkey,
            coin_vault: pubkey,
            pc_vault: pubkey,
            vault_signer: pubkey,
            coin_wallet: pubkey,
        },
        1,
        Side::Ask,
        2,
        3,
    );

    assert_eq!(init.data, vec![169, 188, 158, 199, 9, 151, 101, 125]);
    assert_eq!(
        swapped.data,
        vec![
            248, 198, 158, 145, 225, 117, 135, 200, 1, 1, 0, 0, 0, 0, 0, 0, 0, 2, 0, 0, 0, 0, 0,
            0, 0, 3, 0, 0
        ]
    );
}

#[test]
fn init_account_emits_five_fixed_references() {
    let ix = init_account(key(20), key(21), key(22), key(23), key(24));
    assert_eq!(ix.program_id.bytes, key(20).bytes);
    assert_eq!(ix.accounts.len(), 5);
    assert_meta(&ix, 0, &key(24), true, false);
    assert_meta(&ix, 1, &key(22), false, true);
    assert_meta(&ix, 2, &key(23), false, false);
    assert_meta(&ix, 3, &key(21), false, false);
    assert_eq!(
        ix.accounts[4].pubkey.bytes,
        solana_program::sysvar::rent::id().to_bytes()
    );
    assert_eq!(ix.accounts[4].is_writable, false);
    assert_eq!(ix.accounts[4].is_signer, false);
    assert_eq!(ix.data, vec![169, 188, 158, 199, 9, 151, 101, 125]);
}

#[test]
fn init_account_is_idempotent() {
    let a = init_account(key(20), key(21), key(22), key(23), key(24));
    let b = init_account(key(20), key(21), key(22), key(23), key(24));
    assert_eq!(a.data, b.data);
    assert_eq!(a.accounts.len(), b.accounts.len());
    for i in 0..a.accounts.len() {
        assert_eq!(a.accounts[i].pubkey.bytes, b.accounts[i].pubkey.bytes);
        assert_eq!(a.accounts[i].is_writable, b.accounts[i].is_writable);
        assert_eq!(a.accounts[i].is_signer, b.accounts[i].is_signer);
    }
}

#[test]
fn swap_account_list_order_and_payload() {
    let m = market_accounts();
    let ix = swap(&key(12), &key(13), &key(14), &key(15), &m, 77, Side::Bid, 88, 9);
    assert_eq!(ix.accounts.len(), 16);
    assert_market_block(&ix, 0, &m);
    assert_meta(&ix, 11, &key(14), false, true);
    assert_meta(&ix, 12, &key(15), true, false);
    assert_meta(&ix, 13, &key(13), false, false);
    let token = spl_token::id().to_bytes();
    assert_eq!(ix.accounts[14].pubkey.bytes, token);
    assert_eq!(ix.accounts[14].is_writable, false);
    assert_eq!(ix.accounts[14].is_signer, false);
    assert_eq!(ix.accounts[15].pubkey.bytes, token);
    assert_eq!(ix.accounts[15].is_writable, false);
    assert_eq!(ix.accounts[15].is_signer, false);
    // tag, side, amount, then the rate with quote decimals and strict
    // hard-coded to zero and false
    assert_eq!(ix.data[8], 0);
    assert_eq!(&ix.data[9..17], &77u64.to_le_bytes());
    assert_eq!(&ix.data[17..25], &88u64.to_le_bytes());
    assert_eq!(ix.data[25], 9);
    assert_eq!(ix.data[26], 0);
    assert_eq!(ix.data[27], 0);
    assert_eq!(ix.data.len(), 28);
}

#[test]
fn swap_payload_fixture_double_generation() {
    let m = market_accounts();
    let ix = swap_with_generation(
        &key(12),
        &key(13),
        &key(14),
        &key(15),
        &m,
        1,
        Side::Ask,
        2,
        3,
        Generation::DoubleTokenProgram,
    );
    assert_eq!(
        ix.data,
        vec![
            248, 198, 158, 145, 225, 117, 135, 200, 1, 1, 0, 0, 0, 0, 0, 0, 0, 2, 0, 0, 0, 0, 0,
            0, 0, 3, 0, 0
        ]
    );
    assert_eq!(ix.accounts.len(), 16);
}

#[test]
fn swap_payload_fixture_single_generation() {
    let m = market_accounts();
    let ix = swap_with_generation(
        &key(12),
        &key(13),
        &key(14),
        &key(15),
        &m,
        1,
        Side::Ask,
        2,
        3,
        Generation::SingleTokenProgram,
    );
    assert_eq!(
        ix.data,
        vec![
            248, 198, 158, 145, 225, 117, 135, 200, 1, 1, 0, 0, 0, 0, 0, 0, 0, 2, 0, 0, 0, 0, 0,
            0, 0, 3, 0, 0
        ]
    );
    assert_eq!(ix.accounts.len(), 15);
    assert_eq!(
        ix.accounts[14].pubkey.bytes,
        spl_token::id().to_bytes()
    );
}

#[test]
fn swap_transitive_doubles_the_market_block() {
    let from = market_accounts();
    let to = MarketAccounts {
        market: key(101),
        open_orders: key(102),
        request_queue: key(103),
        event_queue: key(104),
        bids: key(105),
        asks: key(106),
        order_payer_token_account: key(107),
        coin_vault: key(108),
        pc_vault: key(109),
        vault_signer: key(110),
        coin_wallet: key(111),
    };
    let ix = swap_transitive(
        &key(12),
        &key(13),
        &key(14),
        &key(15),
        &from,
        &to,
        5,
        6,
        7,
        8,
        true,
    );
    // double the single-market block, plus the five trailing shared accounts
    assert_eq!(ix.accounts.len(), 2 * 11 + 5);
    assert_market_block(&ix, 0, &from);
    assert_market_block(&ix, 11, &to);
    assert_meta(&ix, 22, &key(14), false, true);
    assert_meta(&ix, 23, &key(15), true, false);
    assert_meta(&ix, 24, &key(13), false, false);
    let token = spl_token::id().to_bytes();
    assert_eq!(ix.accounts[25].pubkey.bytes, token);
    assert_eq!(ix.accounts[26].pubkey.bytes, token);
    // the payload echoes all four exchange-rate fields verbatim
    assert_eq!(&ix.data[0..8], &[129, 109, 254, 207, 31, 192, 47, 51]);
    assert_eq!(&ix.data[8..16], &5u64.to_le_bytes());
    assert_eq!(&ix.data[16..24], &6u64.to_le_bytes());
    assert_eq!(ix.data[24], 7);
    assert_eq!(ix.data[25], 8);
    assert_eq!(ix.data[26], 1);
    assert_eq!(ix.data.len(), 27);
}

#[test]
fn swap_transitive_single_generation_list_length() {
    let from = market_accounts();
    let to = market_accounts();
    let ix = swap_transitive_with_generation(
        &key(12),
        &key(13),
        &key(14),
        &key(15),
        &from,
        &to,
        5,
        6,
        7,
        8,
        false,
        Generation::SingleTokenProgram,
    );
    assert_eq!(ix.accounts.len(), 2 * 11 + 4);
    assert_eq!(ix.data[26], 0);
}

#[test]
fn close_account_emits_five_fixed_references() {
    let ix = close_account(key(30), key(31), key(32), key(33), key(34), key(35));
    assert_eq!(ix.program_id.bytes, key(30).bytes);
    assert_eq!(ix.accounts.len(), 5);
    assert_meta(&ix, 0, &key(34), true, false);
    assert_meta(&ix, 1, &key(32), false, true);
    assert_meta(&ix, 2, &key(35), true, false);
    assert_meta(&ix, 3, &key(33), false, false);
    assert_meta(&ix, 4, &key(31), false, false);
    assert_eq!(ix.data, vec![125, 255, 149, 14, 110, 34, 72, 24]);
}
