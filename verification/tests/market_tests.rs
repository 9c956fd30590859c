use serum_swap_client::market::get_market_keys;
use serum_swap_client::market::remove_dex_account_padding;
use serum_swap_client::market::Error;
use serum_swap_client::market::Market;
use serum_swap_client::pubkey::Pubkey;

const V1_WORDS: usize = 47;
const V2_WORDS: usize = 183;
const FLAGS_V1: u64 = 1 | 2;
const FLAGS_V2: u64 = 1 | 2 | 512;

fn market_words(n_words: usize, flags: u64, own: &[u8; 32], nonce: u64) -> Vec<u64> {
    let mut words = vec![0u64; n_words];
    words[0] = flags;
    for i in 0..4 {
        let mut chunk = [0u8; 8];
        chunk.copy_from_slice(&own[8 * i..8 * i + 8]);
        words[1 + i] = u64::from_le_bytes(chunk);
    }
    words[5] = nonce;
    for w in 6..n_words {
        words[w] = w as u64;
    }
    words
}

fn envelope(words: &[u64]) -> Vec<u8> {
    let mut data = Vec::new();
    data.extend_from_slice(b"serum");
    for w in words {
        data.extend_from_slice(&w.to_le_bytes());
    }
    data.extend_from_slice(b"padding");
    data
}

fn key_of_words(words: &[u64]) -> [u8; 32] {
    let mut bytes = [0u8; 32];
    for i in 0..4 {
        bytes[8 * i..8 * i + 8].copy_from_slice(&words[i].to_le_bytes());
    }
    bytes
}

/// The smallest nonce whose derivation succeeds, with the derived address.
fn good_nonce(own: &[u8; 32], program: &[u8; 32]) -> (u64, [u8; 32]) {
    let market = solana_program::pubkey::Pubkey::new_from_array(*own);
    let prog = solana_program::pubkey::Pubkey::new_from_array(*program);
    let mut nonce = 0u64;
    loop {
        match serum_dex::state::gen_vault_signer_key(nonce, &market, &prog) {
            Ok(k) => return (nonce, k.to_bytes()),
            Err(_) => nonce += 1,
        }
    }
}

/// The smallest nonce whose derivation fails.
fn bad_nonce(own: &[u8; 32], program: &[u8; 32]) -> u64 {
    let market = solana_program::pubkey::Pubkey::new_from_array(*own);
    let prog = solana_program::pubkey::Pubkey::new_from_array(*program);
    let mut nonce = 0u64;
    loop {
        if serum_dex::state::gen_vault_signer_key(nonce, &market, &prog).is_err() {
            return nonce;
        }
        nonce += 1;
    }
}

#[test]
fn decode_v1_is_deterministic() {
    let own = [42u8; 32];
    let program = [9u8; 32];
    let (nonce, expected_signer) = good_nonce(&own, &program);
    let words = market_words(V1_WORDS, FLAGS_V1, &own, nonce);
    let data = envelope(&words);
    let prog_key = Pubkey::new(program);
    let market_key = Pubkey::new(own);
    let first = get_market_keys(&data, &prog_key, &market_key).unwrap();
    let second = get_market_keys(&data, &prog_key, &market_key).unwrap();
    assert_eq!(first.market.bytes, second.market.bytes);
    assert_eq!(first.request_queue.bytes, second.request_queue.bytes);
    assert_eq!(first.event_queue.bytes, second.event_queue.bytes);
    assert_eq!(first.bids.bytes, second.bids.bytes);
    assert_eq!(first.asks.bytes, second.asks.bytes);
    assert_eq!(first.coin_mint.bytes, second.coin_mint.bytes);
    assert_eq!(first.coin_vault.bytes, second.coin_vault.bytes);
    assert_eq!(first.pc_mint.bytes, second.pc_mint.bytes);
    assert_eq!(first.pc_vault.bytes, second.pc_vault.bytes);
    assert_eq!(first.vault_signer.bytes, second.vault_signer.bytes);
    // fields land at their fixed offsets
    assert_eq!(first.market.bytes, own);
    assert_eq!(first.coin_mint.bytes, key_of_words(&words[6..10]));
    assert_eq!(first.pc_mint.bytes, key_of_words(&words[10..14]));
    assert_eq!(first.coin_vault.bytes, key_of_words(&words[14..18]));
    assert_eq!(first.pc_vault.bytes, key_of_words(&words[20..24]));
    assert_eq!(first.request_queue.bytes, key_of_words(&words[27..31]));
    assert_eq!(first.event_queue.bytes, key_of_words(&words[31..35]));
    assert_eq!(first.bids.bytes, key_of_words(&words[35..39]));
    assert_eq!(first.asks.bytes, key_of_words(&words[39..43]));
    // the signer comes out of the derivation, not out of any input echoed back
    assert_eq!(first.vault_signer.bytes, expected_signer);
    assert_ne!(first.vault_signer.bytes, own);
}

#[test]
fn head_mismatch_is_the_only_fault() {
    let own = [42u8; 32];
    let words = market_words(V1_WORDS, FLAGS_V1, &own, 0);
    let mut data = envelope(&words);
    data[0] ^= 0xff;
    let r = get_market_keys(&data, &Pubkey::new([9u8; 32]), &Pubkey::new(own));
    assert_eq!(r.unwrap_err(), Error::HeadPaddingMismatch);
}

#[test]
fn tail_mismatch_fault() {
    let own = [42u8; 32];
    let words = market_words(V1_WORDS, FLAGS_V1, &own, 0);
    let mut data = envelope(&words);
    let last = data.len() - 1;
    data[last] ^= 0xff;
    let r = get_market_keys(&data, &Pubkey::new([9u8; 32]), &Pubkey::new(own));
    assert_eq!(r.unwrap_err(), Error::TailPaddingMismatch);
}

#[test]
fn short_buffer_fails_before_padding_comparison() {
    // shorter than head + tail, and its head already differs: the length
    // fault still wins
    let data = vec![0u8; 11];
    let r = get_market_keys(&data, &Pubkey::new([9u8; 32]), &Pubkey::new([1u8; 32]));
    assert_eq!(r.unwrap_err(), Error::AccountLengthTooSmall(11));
}

#[test]
fn interior_not_word_aligned() {
    let mut data = Vec::new();
    data.extend_from_slice(b"serum");
    data.extend_from_slice(&[0u8; 13]);
    data.extend_from_slice(b"padding");
    let r = remove_dex_account_padding(&data);
    assert_eq!(r.unwrap_err(), Error::TransmuteGuard(13));
}

#[test]
fn empty_interior_cannot_hold_the_flags_word() {
    let mut data = Vec::new();
    data.extend_from_slice(b"serum");
    data.extend_from_slice(b"padding");
    let r = Market::deserialize(&data);
    assert_eq!(r.unwrap_err(), Error::TransmuteGuard(0));
}

#[test]
fn permissioned_bit_routes_to_v2() {
    let own = [42u8; 32];
    let words = market_words(V2_WORDS, FLAGS_V2, &own, 0);
    let data = envelope(&words);
    let market = Market::deserialize(&data).unwrap();
    assert!(matches!(market, Market::V2(_)));
}

#[test]
fn clear_permissioned_bit_routes_to_v1() {
    let own = [42u8; 32];
    let words = market_words(V1_WORDS, FLAGS_V1, &own, 0);
    let data = envelope(&words);
    let market = Market::deserialize(&data).unwrap();
    assert!(matches!(market, Market::V1(_)));
}

#[test]
fn record_size_must_match_the_inferred_version() {
    let own = [42u8; 32];
    // permissioned flags over a base-sized payload: a reinterpretation fault
    let words = market_words(V1_WORDS, FLAGS_V2, &own, 0);
    let data = envelope(&words);
    let r = Market::deserialize(&data);
    assert_eq!(r.unwrap_err(), Error::TransmuteGuard(V1_WORDS * 8));
}

#[test]
fn flags_outside_the_valid_domain() {
    let own = [42u8; 32];
    let words = market_words(V1_WORDS, FLAGS_V1 | 2048, &own, 0);
    let data = envelope(&words);
    let r = Market::deserialize(&data);
    assert_eq!(r.unwrap_err(), Error::TransmuteInvalidValue);
}

#[test]
fn uninitialized_market_flags_rejected() {
    let own = [42u8; 32];
    // structurally valid bits, but not an initialized market
    let words = market_words(V1_WORDS, 1, &own, 0);
    let data = envelope(&words);
    let r = get_market_keys(&data, &Pubkey::new([9u8; 32]), &Pubkey::new(own));
    assert_eq!(r.unwrap_err(), Error::InvalidMarketFlags);
}

#[test]
fn own_address_mismatch_is_fatal() {
    let own = [42u8; 32];
    let program = [9u8; 32];
    let (nonce, _) = good_nonce(&own, &program);
    let words = market_words(V1_WORDS, FLAGS_V1, &own, nonce);
    let data = envelope(&words);
    let r = get_market_keys(&data, &Pubkey::new(program), &Pubkey::new([43u8; 32]));
    assert_eq!(r.unwrap_err(), Error::OwnAddressMismatch);
}

#[test]
fn derivation_failure_is_surfaced() {
    let own = [42u8; 32];
    let program = [9u8; 32];
    let nonce = bad_nonce(&own, &program);
    let words = market_words(V1_WORDS, FLAGS_V1, &own, nonce);
    let data = envelope(&words);
    let r = get_market_keys(&data, &Pubkey::new(program), &Pubkey::new(own));
    assert_eq!(r.unwrap_err(), Error::DerivationFailure);
}

#[test]
fn permissioned_market_decodes_end_to_end() {
    let own = [42u8; 32];
    let program = [9u8; 32];
    let (nonce, expected_signer) = good_nonce(&own, &program);
    let words = market_words(V2_WORDS, FLAGS_V2, &own, nonce);
    let data = envelope(&words);
    let keys = get_market_keys(&data, &Pubkey::new(program), &Pubkey::new(own)).unwrap();
    assert_eq!(keys.market.bytes, own);
    assert_eq!(keys.vault_signer.bytes, expected_signer);
    assert_eq!(keys.bids.bytes, key_of_words(&words[35..39]));
}

#[test]
fn padding_stripper_returns_the_interior_words() {
    let own = [7u8; 32];
    let words = market_words(V1_WORDS, FLAGS_V1, &own, 3);
    let data = envelope(&words);
    let stripped = remove_dex_account_padding(&data).unwrap();
    assert_eq!(stripped, words);
}
