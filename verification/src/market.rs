//! Decoder for the exchange program's market accounts.
//!
//! A market account's raw bytes are a padding envelope (a fixed head magic,
//! a fixed tail magic) around a fixed-layout record of little-endian 8-byte
//! words.  The record exists in two schema versions: the base layout and a
//! "permissioned market" extension whose leading sub-record is byte-identical
//! to the base layout.  The version is inferred from a bit in the first word,
//! the account-flags word.

use vstd::prelude::*;
use vstd::bytes::spec_u64_from_le_bytes;
use vstd::bytes::spec_u64_to_le_bytes;
use vstd::bytes::u64_from_le_bytes;
use vstd::bytes::u64_to_le_bytes;
use vstd::slice::slice_index_get;
use vstd::slice::slice_subrange;

use crate::pubkey::Pubkey;

verus! {

/// The closed set of decoder faults.  Every fault is surfaced to the caller
/// as a typed value; none is retried or downgraded to a warning.
#[derive(Clone, Copy, Debug, PartialEq, Eq)]
pub enum Error {
    /// The buffer is shorter than the two padding magics together.
    AccountLengthTooSmall(usize),
    /// The leading bytes do not match the head magic.
    HeadPaddingMismatch,
    /// The trailing bytes do not match the tail magic.
    TailPaddingMismatch,
    /// The interior byte count (carried as the payload) cannot be
    /// reinterpreted as the target word sequence or record size.
    TransmuteGuard(usize),
    /// The account-flags word holds bits outside the valid flag domain.
    TransmuteInvalidValue,
    /// The flags word is structurally valid but does not describe an
    /// initialized, non-disabled market of the inferred version.
    InvalidMarketFlags,
    /// The record's own recorded address differs from the address the
    /// buffer was fetched under.
    OwnAddressMismatch,
    /// The bounded vault-signer derivation found no valid address.
    DerivationFailure,
}

/// Length in bytes of the head padding magic.
pub const ACCOUNT_HEAD_PADDING_LEN: usize = 5;

/// Length in bytes of the tail padding magic.
pub const ACCOUNT_TAIL_PADDING_LEN: usize = 7;

/// The head padding magic: the bytes of `"serum"`.
pub open spec fn head_padding() -> Seq<u8> {
    seq![115u8, 101u8, 114u8, 117u8, 109u8]
}

/// The tail padding magic: the bytes of `"padding"`.
pub open spec fn tail_padding() -> Seq<u8> {
    seq![112u8, 97u8, 100u8, 100u8, 105u8, 110u8, 103u8]
}

/// The interior bytes reinterpreted as little-endian 8-byte words.
pub open spec fn words_of(inner: Seq<u8>) -> Seq<u64> {
    Seq::new(inner.len() / 8, |i: int| spec_u64_from_le_bytes(inner.subrange(8 * i, 8 * i + 8)))
}

/// What stripping the padding envelope returns for any input buffer:
/// the interior as words, or the first structural fault in check order
/// (length, then head, then tail, then word reinterpretation).
pub open spec fn strip_padding_spec(data: Seq<u8>) -> Result<Seq<u64>, Error> {
    if data.len() < ACCOUNT_HEAD_PADDING_LEN + ACCOUNT_TAIL_PADDING_LEN {
        Err(Error::AccountLengthTooSmall(data.len() as usize))
    } else if data.subrange(0, ACCOUNT_HEAD_PADDING_LEN as int) != head_padding() {
        Err(Error::HeadPaddingMismatch)
    } else if data.subrange(
        data.len() - ACCOUNT_TAIL_PADDING_LEN,
        data.len() as int,
    ) != tail_padding() {
        Err(Error::TailPaddingMismatch)
    } else if (data.len() - ACCOUNT_HEAD_PADDING_LEN - ACCOUNT_TAIL_PADDING_LEN) % 8 != 0 {
        Err(Error::TransmuteGuard(
            (data.len() - ACCOUNT_HEAD_PADDING_LEN - ACCOUNT_TAIL_PADDING_LEN) as usize,
        ))
    } else {
        Ok(
            words_of(
                data.subrange(
                    ACCOUNT_HEAD_PADDING_LEN as int,
                    data.len() - ACCOUNT_TAIL_PADDING_LEN,
                ),
            ),
        )
    }
}

/// The head padding magic as runnable bytes.
fn head_padding_bytes() -> (r: Vec<u8>)
    ensures
        r@ == head_padding(),
{
    let mut v: Vec<u8> = Vec::new();
    v.push(115);
    v.push(101);
    v.push(114);
    v.push(117);
    v.push(109);
    proof {
        assert(v@ =~= head_padding());
    }
    v
}

/// The tail padding magic as runnable bytes.
fn tail_padding_bytes() -> (r: Vec<u8>)
    ensures
        r@ == tail_padding(),
{
    let mut v: Vec<u8> = Vec::new();
    v.push(112);
    v.push(97);
    v.push(100);
    v.push(100);
    v.push(105);
    v.push(110);
    v.push(103);
    proof {
        assert(v@ =~= tail_padding());
    }
    v
}

/// Validates the padding envelope and reinterprets the interior bytes as
/// little-endian 8-byte words.  The returned words are always a fresh
/// aligned copy, so no platform alignment assumption is needed.
pub fn remove_dex_account_padding(data: &[u8]) -> (r: Result<Vec<u64>, Error>)
    ensures
        match r {
            Ok(words) => strip_padding_spec(data@) == Ok::<Seq<u64>, Error>(words@),
            Err(e) => strip_padding_spec(data@) == Err::<Seq<u64>, Error>(e),
        },
{
    let n = data.len();
    if n < ACCOUNT_HEAD_PADDING_LEN + ACCOUNT_TAIL_PADDING_LEN {
        return Err(Error::AccountLengthTooSmall(n));
    }
    let head = head_padding_bytes();
    let mut i: usize = 0;
    while i < ACCOUNT_HEAD_PADDING_LEN
        invariant
            0 <= i <= ACCOUNT_HEAD_PADDING_LEN,
            ACCOUNT_HEAD_PADDING_LEN + ACCOUNT_TAIL_PADDING_LEN <= data@.len() <= usize::MAX,
            head@ == head_padding(),
            forall|j: int| 0 <= j < i ==> data@[j] == head_padding()[j],
        decreases ACCOUNT_HEAD_PADDING_LEN - i,
    {
        if *slice_index_get(data, i) != head[i] {
            proof {
                assert(data@.subrange(0, ACCOUNT_HEAD_PADDING_LEN as int)[i as int]
                    != head_padding()[i as int]);
            }
            return Err(Error::HeadPaddingMismatch);
        }
        i = i + 1;
    }
    proof {
        assert(data@.subrange(0, ACCOUNT_HEAD_PADDING_LEN as int) =~= head_padding());
    }
    let tail = tail_padding_bytes();
    let tail_start = n - ACCOUNT_TAIL_PADDING_LEN;
    let mut j: usize = 0;
    while j < ACCOUNT_TAIL_PADDING_LEN
        invariant
            0 <= j <= ACCOUNT_TAIL_PADDING_LEN,
            ACCOUNT_HEAD_PADDING_LEN + ACCOUNT_TAIL_PADDING_LEN <= data@.len() <= usize::MAX,
            tail_start == data@.len() - ACCOUNT_TAIL_PADDING_LEN,
            tail@ == tail_padding(),
            data@.subrange(0, ACCOUNT_HEAD_PADDING_LEN as int) == head_padding(),
            forall|k: int| 0 <= k < j ==> data@[tail_start + k] == tail_padding()[k],
        decreases ACCOUNT_TAIL_PADDING_LEN - j,
    {
        if *slice_index_get(data, tail_start + j) != tail[j] {
            proof {
                assert(data@.subrange(
                    data@.len() - ACCOUNT_TAIL_PADDING_LEN,
                    data@.len() as int,
                )[j as int] != tail_padding()[j as int]);
            }
            return Err(Error::TailPaddingMismatch);
        }
        j = j + 1;
    }
    proof {
        assert(data@.subrange(data@.len() - ACCOUNT_TAIL_PADDING_LEN, data@.len() as int)
            =~= tail_padding());
    }
    let inner_len = n - ACCOUNT_HEAD_PADDING_LEN - ACCOUNT_TAIL_PADDING_LEN;
    if inner_len % 8 != 0 {
        return Err(Error::TransmuteGuard(inner_len));
    }
    let n_words = inner_len / 8;
    let ghost inner: Seq<u8> = data@.subrange(
        ACCOUNT_HEAD_PADDING_LEN as int,
        data@.len() - ACCOUNT_TAIL_PADDING_LEN,
    );
    let mut words: Vec<u64> = Vec::new();
    let mut w: usize = 0;
    while w < n_words
        invariant
            0 <= w <= n_words,
            ACCOUNT_HEAD_PADDING_LEN + ACCOUNT_TAIL_PADDING_LEN <= data@.len() <= usize::MAX,
            data@.subrange(0, ACCOUNT_HEAD_PADDING_LEN as int) == head_padding(),
            data@.subrange(data@.len() - ACCOUNT_TAIL_PADDING_LEN, data@.len() as int)
                == tail_padding(),
            n_words == inner.len() / 8,
            inner.len() % 8 == 0,
            inner == data@.subrange(
                ACCOUNT_HEAD_PADDING_LEN as int,
                data@.len() - ACCOUNT_TAIL_PADDING_LEN,
            ),
            words@.len() == w,
            forall|k: int|
                0 <= k < w ==> words@[k] == spec_u64_from_le_bytes(
                    inner.subrange(8 * k, 8 * k + 8),
                ),
        decreases n_words - w,
    {
        let off = ACCOUNT_HEAD_PADDING_LEN + 8 * w;
        let chunk = slice_subrange(data, off, off + 8);
        let word = u64_from_le_bytes(chunk);
        proof {
            assert(chunk@ =~= inner.subrange(8 * (w as int), 8 * (w as int) + 8));
        }
        words.push(word);
        w = w + 1;
    }
    proof {
        assert(words@ =~= words_of(inner));
    }
    Ok(words)
}

/// Word count of the base-layout market record.
pub const MARKET_STATE_WORDS: usize = 47;

/// Word count of the permissioned-market record: the base record, three
/// 32-byte authority addresses, and 992 reserved bytes.
pub const MARKET_STATE_V2_WORDS: usize = 183;

/// Account-flags bit: the account has been initialized.
pub const ACCOUNT_FLAG_INITIALIZED: u64 = 1u64 << 0;

/// Account-flags bit: the account is a market.
pub const ACCOUNT_FLAG_MARKET: u64 = 1u64 << 1;

/// Account-flags bit: the market is a permissioned market, i.e. the record
/// carries the extended schema.
pub const ACCOUNT_FLAG_PERMISSIONED: u64 = 1u64 << 9;

/// Account-flags bit: cranking the market requires its consume-events
/// authority.
pub const ACCOUNT_FLAG_CRANK_AUTHORITY: u64 = 1u64 << 10;

/// Every bit the exchange program ever assigns to an account-flags word:
/// the eleven bits up to and including the crank-authority bit.
pub const VALID_ACCOUNT_FLAGS_MASK: u64 = 2047;

/// Word offset of the account-flags word.
pub const ACCOUNT_FLAGS_WORD: usize = 0;

/// Word offset of the market's own address.
pub const OWN_ADDRESS_WORD: usize = 1;

/// Word offset of the vault-signer nonce.
pub const VAULT_SIGNER_NONCE_WORD: usize = 5;

/// Word offset of the base-currency mint address.
pub const COIN_MINT_WORD: usize = 6;

/// Word offset of the quote-currency mint address.
pub const PC_MINT_WORD: usize = 10;

/// Word offset of the base-currency vault address.
pub const COIN_VAULT_WORD: usize = 14;

/// Word offset of the quote-currency vault address.
pub const PC_VAULT_WORD: usize = 20;

/// Word offset of the request-queue address.
pub const REQ_Q_WORD: usize = 27;

/// Word offset of the event-queue address.
pub const EVENT_Q_WORD: usize = 31;

/// Word offset of the bid-book address.
pub const BIDS_WORD: usize = 35;

/// Word offset of the ask-book address.
pub const ASKS_WORD: usize = 39;

/// The base-layout market record, kept as its exact word sequence so that
/// every field, reserved words included, is preserved at its fixed offset.
#[derive(Debug)]
pub struct MarketState {
    pub words: Vec<u64>,
}

/// The permissioned-market record: its leading words are byte-identical to
/// the base layout, followed by the extension fields.
#[derive(Debug)]
pub struct MarketStateV2 {
    pub words: Vec<u64>,
}

/// A decoded market record of either schema version.
#[derive(Debug)]
pub enum Market {
    V1(MarketState),
    V2(MarketStateV2),
}

/// True when the flags word marks the record as a permissioned market.
pub open spec fn is_permissioned(flags: u64) -> bool {
    flags & ACCOUNT_FLAG_PERMISSIONED != 0
}

/// True when the flags word uses only bits the exchange program assigns.
pub open spec fn flags_in_valid_domain(flags: u64) -> bool {
    flags & VALID_ACCOUNT_FLAGS_MASK == flags
}

/// What decoding returns for any input buffer: the schema version (true for
/// the permissioned extension) and the record's words, or the first fault.
pub open spec fn deserialize_spec(data: Seq<u8>) -> Result<(bool, Seq<u64>), Error> {
    match strip_padding_spec(data) {
        Err(e) => Err(e),
        Ok(words) => {
            if words.len() < 1 {
                Err(Error::TransmuteGuard(
                    (data.len() - ACCOUNT_HEAD_PADDING_LEN - ACCOUNT_TAIL_PADDING_LEN) as usize,
                ))
            } else if !flags_in_valid_domain(words[0]) {
                Err(Error::TransmuteInvalidValue)
            } else if is_permissioned(words[0]) {
                if words.len() == MARKET_STATE_V2_WORDS {
                    Ok((true, words))
                } else {
                    Err(Error::TransmuteGuard(
                        (data.len() - ACCOUNT_HEAD_PADDING_LEN - ACCOUNT_TAIL_PADDING_LEN) as usize,
                    ))
                }
            } else {
                if words.len() == MARKET_STATE_WORDS {
                    Ok((false, words))
                } else {
                    Err(Error::TransmuteGuard(
                        (data.len() - ACCOUNT_HEAD_PADDING_LEN - ACCOUNT_TAIL_PADDING_LEN) as usize,
                    ))
                }
            }
        },
    }
}

/// The initialized flag combinations the validator accepts for each schema
/// version.  A disabled market (or any other combination) is rejected.
pub open spec fn flags_valid(flags: u64, permissioned_version: bool) -> bool {
    if permissioned_version {
        flags == ACCOUNT_FLAG_INITIALIZED | ACCOUNT_FLAG_MARKET | ACCOUNT_FLAG_PERMISSIONED
            || flags == ACCOUNT_FLAG_INITIALIZED | ACCOUNT_FLAG_MARKET
                | ACCOUNT_FLAG_PERMISSIONED | ACCOUNT_FLAG_CRANK_AUTHORITY
    } else {
        flags == ACCOUNT_FLAG_INITIALIZED | ACCOUNT_FLAG_MARKET
    }
}

/// The bytes of the 32-byte address stored at word offset `start`.
pub open spec fn key_bytes_at(words: Seq<u64>, start: int) -> Seq<u8> {
    Seq::new(32, |i: int| spec_u64_to_le_bytes(words[start + i / 8])[i % 8])
}

/// Reads the 32-byte address stored at word offset `start`.
fn read_key(words: &Vec<u64>, start: usize) -> (r: Pubkey)
    requires
        start + 4 <= words@.len(),
        words@.len() <= usize::MAX,
    ensures
        r@ == key_bytes_at(words@, start as int),
{
    let b0 = u64_to_le_bytes(words[start]);
    let b1 = u64_to_le_bytes(words[start + 1]);
    let b2 = u64_to_le_bytes(words[start + 2]);
    let b3 = u64_to_le_bytes(words[start + 3]);
    let mut arr = [0u8; 32];
    let mut i: usize = 0;
    while i < 8
        invariant
            0 <= i <= 8,
            b0@.len() == 8,
            b1@.len() == 8,
            b2@.len() == 8,
            b3@.len() == 8,
            forall|k: int| 0 <= k < i ==> arr@[k] == b0@[k],
            forall|k: int| 0 <= k < i ==> arr@[8 + k] == b1@[k],
            forall|k: int| 0 <= k < i ==> arr@[16 + k] == b2@[k],
            forall|k: int| 0 <= k < i ==> arr@[24 + k] == b3@[k],
        decreases 8 - i,
    {
        arr[i] = b0[i];
        arr[8 + i] = b1[i];
        arr[16 + i] = b2[i];
        arr[24 + i] = b3[i];
        i = i + 1;
    }
    proof {
        assert forall|k: int| 0 <= k < 32 implies arr@[k] == key_bytes_at(
            words@,
            start as int,
        )[k] by {
            if k < 8 {
                assert(k / 8 == 0 && k % 8 == k);
            } else if k < 16 {
                assert(k / 8 == 1 && k % 8 == k - 8);
            } else if k < 24 {
                assert(k / 8 == 2 && k % 8 == k - 16);
            } else {
                assert(k / 8 == 3 && k % 8 == k - 24);
            }
        }
        assert(arr@ =~= key_bytes_at(words@, start as int));
    }
    Pubkey { bytes: arr }
}

impl Market {
    /// The record's words, whichever schema version holds them.
    pub open spec fn words_view(self) -> Seq<u64> {
        match self {
            Market::V1(s) => s.words@,
            Market::V2(s) => s.words@,
        }
    }

    /// The record holds exactly its version's word count.
    pub open spec fn wf(self) -> bool {
        match self {
            Market::V1(s) => s.words@.len() == MARKET_STATE_WORDS,
            Market::V2(s) => s.words@.len() == MARKET_STATE_V2_WORDS,
        }
    }

    /// Validates the padding envelope, infers the schema version from the
    /// permissioned bit of the account-flags word, and checks that the word
    /// sequence is exactly the inferred record's size.
    pub fn deserialize(account_data: &[u8]) -> (r: Result<Market, Error>)
        ensures
            match r {
                Ok(m) => m.wf() && deserialize_spec(account_data@) == Ok::<
                    (bool, Seq<u64>),
                    Error,
                >((m is V2, m.words_view())),
                Err(e) => deserialize_spec(account_data@) == Err::<(bool, Seq<u64>), Error>(e),
            },
    {
        let n = account_data.len();
        let words = match remove_dex_account_padding(account_data) {
            Ok(w) => w,
            Err(e) => {
                return Err(e);
            },
        };
        let inner_len = n - ACCOUNT_HEAD_PADDING_LEN - ACCOUNT_TAIL_PADDING_LEN;
        if words.len() == 0 {
            return Err(Error::TransmuteGuard(inner_len));
        }
        let flags = words[0];
        if flags & VALID_ACCOUNT_FLAGS_MASK != flags {
            return Err(Error::TransmuteInvalidValue);
        }
        if flags & ACCOUNT_FLAG_PERMISSIONED != 0 {
            if words.len() == MARKET_STATE_V2_WORDS {
                Ok(Market::V2(MarketStateV2 { words }))
            } else {
                Err(Error::TransmuteGuard(inner_len))
            }
        } else {
            if words.len() == MARKET_STATE_WORDS {
                Ok(Market::V1(MarketState { words }))
            } else {
                Err(Error::TransmuteGuard(inner_len))
            }
        }
    }

    /// The record's words, shared by both schema versions.
    fn words_ref(&self) -> (r: &Vec<u64>)
        ensures
            r@ == self.words_view(),
    {
        match self {
            Market::V1(s) => &s.words,
            Market::V2(s) => &s.words,
        }
    }

    /// The account-flags word.
    pub fn account_flags(&self) -> (r: u64)
        requires
            self.wf(),
        ensures
            r == self.words_view()[ACCOUNT_FLAGS_WORD as int],
    {
        let w = self.words_ref();
        w[ACCOUNT_FLAGS_WORD]
    }

    /// Checks the flags word against the expected initialized, non-disabled
    /// state of the record's schema version.
    pub fn check_flags(&self) -> (r: Result<(), Error>)
        requires
            self.wf(),
        ensures
            r is Ok <==> flags_valid(self.words_view()[ACCOUNT_FLAGS_WORD as int], self is V2),
            r is Err ==> r == Err::<(), Error>(Error::InvalidMarketFlags),
    {
        let flags = self.account_flags();
        let ok = match self {
            Market::V1(_) => flags == ACCOUNT_FLAG_INITIALIZED | ACCOUNT_FLAG_MARKET,
            Market::V2(_) => flags == ACCOUNT_FLAG_INITIALIZED | ACCOUNT_FLAG_MARKET
                | ACCOUNT_FLAG_PERMISSIONED || flags == ACCOUNT_FLAG_INITIALIZED
                | ACCOUNT_FLAG_MARKET | ACCOUNT_FLAG_PERMISSIONED | ACCOUNT_FLAG_CRANK_AUTHORITY,
        };
        if ok {
            Ok(())
        } else {
            Err(Error::InvalidMarketFlags)
        }
    }

    /// The market's own address as recorded in the record.
    pub fn own_address(&self) -> (r: Pubkey)
        requires
            self.wf(),
        ensures
            r@ == key_bytes_at(self.words_view(), OWN_ADDRESS_WORD as int),
    {
        read_key(self.words_ref(), OWN_ADDRESS_WORD)
    }

    /// The nonce that seeds the vault-signer derivation.
    pub fn vault_signer_nonce(&self) -> (r: u64)
        requires
            self.wf(),
        ensures
            r == self.words_view()[VAULT_SIGNER_NONCE_WORD as int],
    {
        let w = self.words_ref();
        w[VAULT_SIGNER_NONCE_WORD]
    }

    /// The base-currency mint address.
    pub fn coin_mint(&self) -> (r: Pubkey)
        requires
            self.wf(),
        ensures
            r@ == key_bytes_at(self.words_view(), COIN_MINT_WORD as int),
    {
        read_key(self.words_ref(), COIN_MINT_WORD)
    }

    /// The quote-currency mint address.
    pub fn pc_mint(&self) -> (r: Pubkey)
        requires
            self.wf(),
        ensures
            r@ == key_bytes_at(self.words_view(), PC_MINT_WORD as int),
    {
        read_key(self.words_ref(), PC_MINT_WORD)
    }

    /// The base-currency vault address.
    pub fn coin_vault(&self) -> (r: Pubkey)
        requires
            self.wf(),
        ensures
            r@ == key_bytes_at(self.words_view(), COIN_VAULT_WORD as int),
    {
        read_key(self.words_ref(), COIN_VAULT_WORD)
    }

    /// The quote-currency vault address.
    pub fn pc_vault(&self) -> (r: Pubkey)
        requires
            self.wf(),
        ensures
            r@ == key_bytes_at(self.words_view(), PC_VAULT_WORD as int),
    {
        read_key(self.words_ref(), PC_VAULT_WORD)
    }

    /// The request-queue address.
    pub fn req_q(&self) -> (r: Pubkey)
        requires
            self.wf(),
        ensures
            r@ == key_bytes_at(self.words_view(), REQ_Q_WORD as int),
    {
        read_key(self.words_ref(), REQ_Q_WORD)
    }

    /// The event-queue address.
    pub fn event_q(&self) -> (r: Pubkey)
        requires
            self.wf(),
        ensures
            r@ == key_bytes_at(self.words_view(), EVENT_Q_WORD as int),
    {
        read_key(self.words_ref(), EVENT_Q_WORD)
    }

    /// The bid-book address.
    pub fn bids(&self) -> (r: Pubkey)
        requires
            self.wf(),
        ensures
            r@ == key_bytes_at(self.words_view(), BIDS_WORD as int),
    {
        read_key(self.words_ref(), BIDS_WORD)
    }

    /// The ask-book address.
    pub fn asks(&self) -> (r: Pubkey)
        requires
            self.wf(),
        ensures
            r@ == key_bytes_at(self.words_view(), ASKS_WORD as int),
    {
        read_key(self.words_ref(), ASKS_WORD)
    }
}

/// The decoder's externally visible output: a flat record of the market's
/// addresses, constructed fresh per decode call.
#[derive(Clone, Copy, Debug)]
pub struct MarketPubkeys {
    pub market: Pubkey,
    pub request_queue: Pubkey,
    pub event_queue: Pubkey,
    pub bids: Pubkey,
    pub asks: Pubkey,
    pub coin_mint: Pubkey,
    pub coin_vault: Pubkey,
    pub pc_mint: Pubkey,
    pub pc_vault: Pubkey,
    pub vault_signer: Pubkey,
}

/// The program-derived vault-signer address for a market address, a nonce
/// and the exchange program's address, or nothing where the bounded
/// derivation finds no valid off-curve address.  Deterministic in its three
/// arguments; its value is fixed by the derivation routine outside this
/// crate and is not stated here.
pub uninterp spec fn vault_signer_of(market: Seq<u8>, nonce: u64, dex_program_id: Seq<u8>) -> Option<
    Seq<u8>,
>;

/// Relies on serum_dex::state::gen_vault_signer_key: a deterministic
/// program-derived address computed from the nonce, the market address and
/// the exchange program address, failing for nonces that yield no valid
/// off-curve address.
#[verifier::external_body]
fn gen_vault_signer(nonce: u64, market: &Pubkey, dex_program_id: &Pubkey) -> (r: Option<Pubkey>)
    ensures
        match r {
            Some(k) => vault_signer_of(market@, nonce, dex_program_id@) == Some(k@),
            None => vault_signer_of(market@, nonce, dex_program_id@) is None,
        },
{
    let m = solana_program::pubkey::Pubkey::new_from_array(market.bytes);
    let p = solana_program::pubkey::Pubkey::new_from_array(dex_program_id.bytes);
    match serum_dex::state::gen_vault_signer_key(nonce, &m, &p) {
        Ok(k) => Some(Pubkey { bytes: k.to_bytes() }),
        Err(_) => None,
    }
}

/// Field-for-field: `p` is the derived view of the record words under the
/// given exchange program address.
pub open spec fn pubkeys_match(p: MarketPubkeys, words: Seq<u64>, dex_program_id: Seq<u8>) -> bool {
    &&& p.market@ == key_bytes_at(words, OWN_ADDRESS_WORD as int)
    &&& p.request_queue@ == key_bytes_at(words, REQ_Q_WORD as int)
    &&& p.event_queue@ == key_bytes_at(words, EVENT_Q_WORD as int)
    &&& p.bids@ == key_bytes_at(words, BIDS_WORD as int)
    &&& p.asks@ == key_bytes_at(words, ASKS_WORD as int)
    &&& p.coin_mint@ == key_bytes_at(words, COIN_MINT_WORD as int)
    &&& p.coin_vault@ == key_bytes_at(words, COIN_VAULT_WORD as int)
    &&& p.pc_mint@ == key_bytes_at(words, PC_MINT_WORD as int)
    &&& p.pc_vault@ == key_bytes_at(words, PC_VAULT_WORD as int)
    &&& Some(p.vault_signer@) == vault_signer_of(
        key_bytes_at(words, OWN_ADDRESS_WORD as int),
        words[VAULT_SIGNER_NONCE_WORD as int],
        dex_program_id,
    )
}

impl Market {
    /// Converts each address field into the address type and derives the
    /// vault-signer address from the record's own address, its nonce and
    /// the exchange program address.
    pub fn pubkeys(&self, dex_program_id: &Pubkey) -> (r: Result<MarketPubkeys, Error>)
        requires
            self.wf(),
        ensures
            match r {
                Ok(p) => pubkeys_match(p, self.words_view(), dex_program_id@),
                Err(e) => {
                    &&& e == Error::DerivationFailure
                    &&& vault_signer_of(
                        key_bytes_at(self.words_view(), OWN_ADDRESS_WORD as int),
                        self.words_view()[VAULT_SIGNER_NONCE_WORD as int],
                        dex_program_id@,
                    ) is None
                },
            },
    {
        let market = self.own_address();
        let vault_signer = match gen_vault_signer(self.vault_signer_nonce(), &market,
            dex_program_id) {
            Some(k) => k,
            None => {
                return Err(Error::DerivationFailure);
            },
        };
        Ok(
            MarketPubkeys {
                market,
                request_queue: self.req_q(),
                event_queue: self.event_q(),
                bids: self.bids(),
                asks: self.asks(),
                coin_mint: self.coin_mint(),
                coin_vault: self.coin_vault(),
                pc_mint: self.pc_mint(),
                pc_vault: self.pc_vault(),
                vault_signer,
            },
        )
    }
}

/// The full decode pipeline's contract: what `get_market_keys` returns for
/// any buffer, any exchange program address and any fetch address.
pub open spec fn market_keys_post(
    data: Seq<u8>,
    dex_program_id: Seq<u8>,
    market: Seq<u8>,
    r: Result<MarketPubkeys, Error>,
) -> bool {
    match deserialize_spec(data) {
        Err(e) => r == Err::<MarketPubkeys, Error>(e),
        Ok((permissioned, words)) => {
            if !flags_valid(words[ACCOUNT_FLAGS_WORD as int], permissioned) {
                r == Err::<MarketPubkeys, Error>(Error::InvalidMarketFlags)
            } else if key_bytes_at(words, OWN_ADDRESS_WORD as int) != market {
                r == Err::<MarketPubkeys, Error>(Error::OwnAddressMismatch)
            } else {
                match vault_signer_of(
                    key_bytes_at(words, OWN_ADDRESS_WORD as int),
                    words[VAULT_SIGNER_NONCE_WORD as int],
                    dex_program_id,
                ) {
                    Some(vs) => r matches Ok(p) && pubkeys_match(p, words, dex_program_id),
                    None => r == Err::<MarketPubkeys, Error>(Error::DerivationFailure),
                }
            }
        },
    }
}

/// Decodes a market account's raw bytes into its derived address view:
/// strips the padding envelope, infers the schema version, validates the
/// flags word, checks the record's own address against the address the
/// buffer was fetched under, and derives the vault-signer address.
pub fn get_market_keys(account_data: &[u8], dex_program_id: &Pubkey, market: &Pubkey) -> (r:
    Result<MarketPubkeys, Error>)
    ensures
        market_keys_post(account_data@, dex_program_id@, market@, r),
{
    let market_state = match Market::deserialize(account_data) {
        Ok(m) => m,
        Err(e) => {
            return Err(e);
        },
    };
    match market_state.check_flags() {
        Ok(u) => u,
        Err(e) => {
            return Err(e);
        },
    };
    let own = market_state.own_address();
    if !own.eq_bytes(market) {
        return Err(Error::OwnAddressMismatch);
    }
    market_state.pubkeys(dex_program_id)
}

/// Decoding is a pure function of its inputs: two results obtained for the
/// same bytes, the same exchange program address and the same fetch address
/// agree, and in the successful case their derived views agree field for
/// field.
pub proof fn lemma_market_keys_deterministic(
    data: Seq<u8>,
    dex_program_id: Seq<u8>,
    market: Seq<u8>,
    r1: Result<MarketPubkeys, Error>,
    r2: Result<MarketPubkeys, Error>,
)
    requires
        market_keys_post(data, dex_program_id, market, r1),
        market_keys_post(data, dex_program_id, market, r2),
    ensures
        r1 is Ok <==> r2 is Ok,
        r1 is Err ==> r1 == r2,
        r1 matches Ok(p1) ==> r2 matches Ok(p2) && p1.market@ == p2.market@
            && p1.request_queue@ == p2.request_queue@ && p1.event_queue@ == p2.event_queue@
            && p1.bids@ == p2.bids@ && p1.asks@ == p2.asks@ && p1.coin_mint@ == p2.coin_mint@
            && p1.coin_vault@ == p2.coin_vault@ && p1.pc_mint@ == p2.pc_mint@
            && p1.pc_vault@ == p2.pc_vault@ && p1.vault_signer@ == p2.vault_signer@,
{
}

/// A buffer too short for the two padding magics decodes to the
/// length-too-small fault, before any padding byte is compared.
pub proof fn lemma_length_fault(data: Seq<u8>)
    requires
        data.len() < ACCOUNT_HEAD_PADDING_LEN + ACCOUNT_TAIL_PADDING_LEN,
    ensures
        deserialize_spec(data) == Err::<(bool, Seq<u64>), Error>(
            Error::AccountLengthTooSmall(data.len() as usize),
        ),
{
}

/// A buffer long enough for the envelope whose head differs from the head
/// magic in at least one byte decodes to the head-mismatch fault and to no
/// other fault.
pub proof fn lemma_head_mismatch_fault(data: Seq<u8>)
    requires
        data.len() >= ACCOUNT_HEAD_PADDING_LEN + ACCOUNT_TAIL_PADDING_LEN,
        exists|i: int| 0 <= i < ACCOUNT_HEAD_PADDING_LEN && data[i] != head_padding()[i],
    ensures
        deserialize_spec(data) == Err::<(bool, Seq<u64>), Error>(Error::HeadPaddingMismatch),
{
    let i = choose|i: int| 0 <= i < ACCOUNT_HEAD_PADDING_LEN && data[i] != head_padding()[i];
    assert(data.subrange(0, ACCOUNT_HEAD_PADDING_LEN as int)[i] != head_padding()[i]);
}

/// The permissioned bit of the flags word routes decoding: set, with the
/// extended record's word count, to the permissioned version; clear, with
/// the base record's word count, to the base version.
pub proof fn lemma_permissioned_bit_routes_version(data: Seq<u8>, words: Seq<u64>)
    requires
        strip_padding_spec(data) == Ok::<Seq<u64>, Error>(words),
        words.len() >= 1,
        flags_in_valid_domain(words[ACCOUNT_FLAGS_WORD as int]),
    ensures
        is_permissioned(words[ACCOUNT_FLAGS_WORD as int]) && words.len() == MARKET_STATE_V2_WORDS
            ==> deserialize_spec(data) == Ok::<(bool, Seq<u64>), Error>((true, words)),
        !is_permissioned(words[ACCOUNT_FLAGS_WORD as int]) && words.len() == MARKET_STATE_WORDS
            ==> deserialize_spec(data) == Ok::<(bool, Seq<u64>), Error>((false, words)),
{
}

} // verus!
