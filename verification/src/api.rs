use vstd::prelude::*;
use crate::history::TransactionDetails;
use crate::payments::{get_lightning_history, transaction_of, LightningTransaction, PaymentInfo};
use crate::txid::txid_hex;
use crate::wallet::{
    after_init, balance_of, ldk_balance, supports_network, Balance, InitError, Network, WalletBalance,
    WalletError, WalletSlot,
};

verus! {

/// An on-chain address, as text.
pub struct Address {
    pub address: String,
}

impl Address {
    pub fn new(address: String) -> (a: Address)
        ensures
            a.address == address,
    {
        Address { address }
    }
}

/// One entry of the on-chain history shown to the user.
pub struct BitcoinTxHistoryItem {
    pub sent: u64,
    pub received: u64,
    pub txid: String,
    pub fee: u64,
    pub is_confirmed: bool,
    /// Timestamp since epoch
    ///
    /// Confirmation timestamp as prt blocktime if confirmed, otherwise current time since epoch is
    /// returned.
    pub timestamp: u64,
}

/// The history entry shown for a transaction, `now` being the current time:
/// the txid in hex, an unknown fee as zero, and the confirmation's timestamp
/// or, while unconfirmed, the current time.
pub open spec fn is_history_item(item: BitcoinTxHistoryItem, tx: TransactionDetails, now: u64) -> bool {
    &&& item.sent == tx.sent
    &&& item.received == tx.received
    &&& item.txid@ == txid_hex(tx.txid)
    &&& item.fee == (match tx.fee {
        Some(f) => f,
        None => 0,
    })
    &&& item.is_confirmed == tx.confirmation_time is Some
    &&& item.timestamp == (match tx.confirmation_time {
        Some(b) => b.timestamp,
        None => now,
    })
}

fn history_item(tx: &TransactionDetails, now: u64) -> (item: BitcoinTxHistoryItem)
    ensures
        is_history_item(item, *tx, now),
{
    let (is_confirmed, timestamp) = match tx.confirmation_time {
        None => (false, now),
        Some(blocktime) => (true, blocktime.timestamp),
    };
    let fee: u64 = match tx.fee {
        Some(f) => f,
        None => 0,
    };
    BitcoinTxHistoryItem {
        sent: tx.sent,
        received: tx.received,
        txid: tx.txid.to_hex_string(),
        fee,
        is_confirmed,
        timestamp,
    }
}

/// The on-chain history in the form shown to the user, one entry per
/// transaction and in the same order; `now` is the current time in seconds
/// since the epoch.
pub fn get_bitcoin_tx_history(history: &Vec<TransactionDetails>, now: u64) -> (items: Vec<
    BitcoinTxHistoryItem,
>)
    ensures
        items.len() == history.len(),
        forall|i: int| 0 <= i < history.len() ==> is_history_item(#[trigger] items@[i], history@[i], now),
        forall|i: int|
            0 <= i < history.len() ==> {
                &&& (#[trigger] items@[i]).sent == history@[i].sent
                &&& items@[i].received == history@[i].received
                &&& (history@[i].fee matches Some(f) ==> items@[i].fee == f)
                &&& (history@[i].fee is None ==> items@[i].fee == 0)
                &&& (items@[i].is_confirmed <==> history@[i].confirmation_time is Some)
                &&& (history@[i].confirmation_time matches Some(b) ==> items@[i].timestamp == b.timestamp)
                &&& (history@[i].confirmation_time is None ==> items@[i].timestamp == now)
            },
{
    let mut items: Vec<BitcoinTxHistoryItem> = Vec::new();
    let mut i: usize = 0;
    while i < history.len()
        invariant
            i <= history.len(),
            items.len() == i,
            forall|j: int| 0 <= j < i ==> is_history_item(#[trigger] items@[j], history@[j], now),
        decreases history.len() - i,
    {
        let item = history_item(&history[i], now);
        items.push(item);
        i = i + 1;
    }
    items
}

/// A history entry carries its transaction's amounts and fee whatever the
/// confirmation (an unknown fee as zero), is confirmed exactly when the
/// transaction is, and is dated by the confirming block or, while
/// unconfirmed, by the current time.
pub proof fn lemma_history_item_fields(item: BitcoinTxHistoryItem, tx: TransactionDetails, now: u64)
    requires
        is_history_item(item, tx, now),
    ensures
        item.sent == tx.sent,
        item.received == tx.received,
        tx.fee matches Some(f) ==> item.fee == f,
        tx.fee is None ==> item.fee == 0,
        item.is_confirmed <==> tx.confirmation_time is Some,
        tx.confirmation_time matches Some(b) ==> item.timestamp == b.timestamp,
        tx.confirmation_time is None ==> item.timestamp == now,
{
}

/// The Lightning history: one payment transaction per stored payment.
pub fn get_lightning_tx_history(payments: &Vec<PaymentInfo>) -> (r: Vec<LightningTransaction>)
    ensures
        r@ == payments@.map_values(|p: PaymentInfo| transaction_of(p)),
{
    get_lightning_history(payments)
}

/// The wallet's balance, or `BalanceUnavailable` where the on-chain wallet
/// could not report it.
pub fn get_balance(wallet: Option<WalletBalance>, channel_balances_msat: &Vec<u64>) -> (r: Result<Balance, WalletError>)
    requires
        wallet is Some ==> ldk_balance(channel_balances_msat@) <= u64::MAX,
    ensures
        wallet is None ==> r == Err::<Balance, WalletError>(WalletError::BalanceUnavailable),
        wallet matches Some(w) ==> r == Ok::<Balance, WalletError>(balance_of(w, channel_balances_msat@)),
        wallet matches Some(w) ==> (r matches Ok(b) && b.on_chain.confirmed == w.confirmed
            && b.on_chain.trusted_pending == w.trusted_pending
            && b.on_chain.untrusted_pending == w.untrusted_pending
            && b.off_chain == ldk_balance(channel_balances_msat@)),
{
    crate::wallet::get_balance(wallet, channel_balances_msat)
}

/// Initialises the wallet of the process on `network`; refused on regtest.
pub fn init_wallet<W, E>(slot: &mut WalletSlot<W>, network: Network, created: Result<W, E>) -> (r: Result<(), InitError<E>>)
    ensures
        !supports_network(network) ==> r == Err::<(), InitError<E>>(InitError::UnsupportedNetwork)
            && final(slot).contents() == old(slot).contents(),
        supports_network(network) ==> final(slot).contents() == after_init(old(slot).contents(), created),
        supports_network(network) ==> (created matches Err(e) ==> r == Err::<(), InitError<E>>(InitError::Creation(e))),
        supports_network(network) ==> (created is Ok ==> r is Ok),
{
    crate::wallet::init_wallet(slot, network, created)
}

/// Why an API call was refused.
#[derive(Clone, Copy, Debug, PartialEq, Eq, Structural)]
pub enum ApiError {
    /// A contract asked for a leverage above two.
    UnsupportedLeverage,
}

impl ApiError {
    /// The message that the error is reported with.
    pub fn message(&self) -> (s: &'static str)
        ensures
            s@ == "Only leverage x1 and x2 are supported at the moment"@,
    {
        match self {
            ApiError::UnsupportedLeverage => "Only leverage x1 and x2 are supported at the moment",
        }
    }
}

/// The amounts of a contract for difference.
#[derive(Clone, Copy, Debug, PartialEq, Eq, Structural)]
pub struct CfdAmounts {
    pub taker_amount: u64,
    pub maker_amount: u64,
}

/// The maker's amount for a contract: the taker's amount times the
/// leverage, saturating at `u64::MAX`.
pub open spec fn cfd_maker_amount(taker_amount: u64, leverage: u64) -> u64 {
    if taker_amount * leverage > u64::MAX {
        u64::MAX
    } else {
        (taker_amount * leverage) as u64
    }
}

/// The amounts of a contract opened with `taker_amount` at `leverage`:
/// refused for a leverage above two.
pub fn open_cfd(taker_amount: u64, leverage: u64) -> (r: Result<CfdAmounts, ApiError>)
    ensures
        leverage > 2 ==> r == Err::<CfdAmounts, ApiError>(ApiError::UnsupportedLeverage),
        leverage <= 2 ==> r == Ok::<CfdAmounts, ApiError>(
            CfdAmounts { taker_amount, maker_amount: cfd_maker_amount(taker_amount, leverage) },
        ),
        r matches Ok(a) ==> a.taker_amount == taker_amount && leverage <= 2,
        r matches Ok(a) ==> (taker_amount * leverage <= u64::MAX ==> a.maker_amount == taker_amount * leverage),
        r matches Ok(a) ==> (taker_amount * leverage > u64::MAX ==> a.maker_amount == u64::MAX),
{
    if leverage > 2 {
        return Err(ApiError::UnsupportedLeverage);
    }
    let maker_amount: u64 = match taker_amount.checked_mul(leverage) {
        Some(m) => m,
        None => u64::MAX,
    };
    Ok(CfdAmounts { taker_amount, maker_amount })
}

} // verus!
