use std::str::FromStr;
use ten_ten_one::api::{get_bitcoin_tx_history as shown_items, BitcoinTxHistoryItem};
use ten_ten_one::history::{
    get_bitcoin_tx_history, history_fits_check, BlockTime, FirstChannel, IgnoredFunding, TransactionDetails,
};
use ten_ten_one::txid::Txid;

fn txid(n: u128) -> Txid {
    Txid { hi: 0, lo: n }
}

fn tx(id: u128, received: u64, sent: u64) -> TransactionDetails {
    TransactionDetails {
        txid: txid(id),
        received,
        sent,
        fee: Some(100),
        confirmation_time: Some(BlockTime { height: 700_000, timestamp: 1_660_000_000 }),
    }
}

#[test]
fn maker_funding_is_hidden_and_opening_lowered() {
    let txs = vec![tx(1, 50_000, 0), tx(2, 30_000, 0), tx(3, 0, 45_000), tx(4, 0, 1_000)];
    let ignored = vec![IgnoredFunding {
        maker_funding_txid: txid(2),
        maker_funding_amount: 30_000,
        open_channel_txid: Some(txid(3)),
    }];
    let update = get_bitcoin_tx_history(txs, ignored, FirstChannel::NoChannel);
    assert_eq!(update.history, vec![tx(1, 50_000, 0), tx(3, 0, 15_000), tx(4, 0, 1_000)]);
    assert!(update.open_channel_txids.is_empty());
}

#[test]
fn opening_txid_is_learned_from_first_channel() {
    let txs = vec![tx(2, 30_000, 0), tx(3, 0, 45_000)];
    let ignored = vec![IgnoredFunding {
        maker_funding_txid: txid(2),
        maker_funding_amount: 30_000,
        open_channel_txid: None,
    }];
    let update = get_bitcoin_tx_history(txs, ignored, FirstChannel::Funded(txid(3)));
    assert_eq!(update.history, vec![tx(3, 0, 15_000)]);
    assert_eq!(update.open_channel_txids, vec![(txid(2), txid(3))]);
}

#[test]
fn unknown_opening_leaves_history_unlowered() {
    let txs = vec![tx(2, 30_000, 0), tx(3, 0, 45_000)];
    let ignored = vec![IgnoredFunding {
        maker_funding_txid: txid(2),
        maker_funding_amount: 30_000,
        open_channel_txid: None,
    }];
    let update = get_bitcoin_tx_history(txs.clone(), ignored.clone(), FirstChannel::NoFundingOutput);
    assert_eq!(update.history, vec![tx(3, 0, 45_000)]);
    assert!(update.open_channel_txids.is_empty());
    let update = get_bitcoin_tx_history(txs, ignored, FirstChannel::NoChannel);
    assert_eq!(update.history, vec![tx(3, 0, 45_000)]);
}

#[test]
fn two_fundings_into_one_opening_both_come_off() {
    let txs = vec![tx(3, 0, 100_000)];
    let ignored = vec![
        IgnoredFunding { maker_funding_txid: txid(7), maker_funding_amount: 20_000, open_channel_txid: Some(txid(3)) },
        IgnoredFunding { maker_funding_txid: txid(8), maker_funding_amount: 30_000, open_channel_txid: None },
    ];
    let update = get_bitcoin_tx_history(txs, ignored, FirstChannel::Funded(txid(3)));
    assert_eq!(update.history, vec![tx(3, 0, 50_000)]);
    assert_eq!(update.open_channel_txids, vec![(txid(8), txid(3))]);
}

#[test]
fn no_fundings_shows_history_as_listed() {
    let txs = vec![tx(5, 1, 2), tx(6, 3, 4)];
    let update = get_bitcoin_tx_history(txs.clone(), vec![], FirstChannel::Funded(txid(5)));
    assert_eq!(update.history, txs);
    assert!(update.open_channel_txids.is_empty());
}

#[test]
fn txid_hex_form() {
    let t = Txid { hi: 0x0123456789abcdef0011223344556677, lo: 0xfedcba98765432100000000000000001 };
    assert_eq!(
        t.to_hex_string(),
        "0123456789abcdef0011223344556677fedcba98765432100000000000000001"
    );
    assert_eq!(Txid { hi: 0, lo: 0 }.to_hex_string(), "0".repeat(64));
}

#[test]
fn history_items_shown_to_user() {
    let confirmed = tx(0xab, 10, 20);
    let unconfirmed = TransactionDetails { txid: txid(1), received: 5, sent: 0, fee: None, confirmation_time: None };
    let items: Vec<BitcoinTxHistoryItem> = shown_items(&vec![confirmed, unconfirmed], 1_700_000_000);
    assert_eq!(items.len(), 2);
    assert_eq!(items[0].sent, 20);
    assert_eq!(items[0].received, 10);
    assert_eq!(items[0].fee, 100);
    assert!(items[0].is_confirmed);
    assert_eq!(items[0].timestamp, 1_660_000_000);
    assert_eq!(items[0].txid, format!("{}ab", "0".repeat(62)));
    assert_eq!(items[1].fee, 0);
    assert!(!items[1].is_confirmed);
    assert_eq!(items[1].timestamp, 1_700_000_000);
    assert_eq!(items[1].txid, format!("{}1", "0".repeat(63)));
}

#[test]
fn stored_openings_learn_nothing() {
    let txs = vec![tx(3, 0, 10_000)];
    let ignored = vec![IgnoredFunding {
        maker_funding_txid: txid(2),
        maker_funding_amount: 4_000,
        open_channel_txid: Some(txid(3)),
    }];
    let update = get_bitcoin_tx_history(txs, ignored, FirstChannel::Funded(txid(9)));
    assert_eq!(update.history, vec![tx(3, 0, 6_000)]);
    assert!(update.open_channel_txids.is_empty());
}

#[test]
fn history_fit_is_checked() {
    let ignored = vec![IgnoredFunding {
        maker_funding_txid: txid(2),
        maker_funding_amount: 30_000,
        open_channel_txid: Some(txid(3)),
    }];
    assert!(history_fits_check(&vec![tx(3, 0, 30_000)], &ignored, FirstChannel::NoChannel));
    assert!(!history_fits_check(&vec![tx(3, 0, 29_999)], &ignored, FirstChannel::NoChannel));
    assert!(history_fits_check(&vec![tx(2, 0, 0)], &ignored, FirstChannel::NoChannel));
}

#[test]
fn txid_from_hash_bytes_matches_bitcoin() {
    let text = "4a5e1e4baab89f3a32518a88c31bc87f618f76673e2cc77ab2127b7afdeda33b";
    let btc = bitcoin::Txid::from_str(text).unwrap();
    let bytes = bitcoin::hashes::Hash::into_inner(btc);
    let t = Txid::from_hash_bytes(&bytes);
    assert_eq!(t.to_hex_string(), text);
    assert_eq!(t.to_hash_bytes(), bytes.to_vec());
}
