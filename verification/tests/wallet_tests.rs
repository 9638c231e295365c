use ten_ten_one::api::{self, open_cfd, Address, ApiError, CfdAmounts};
use ten_ten_one::channel::{open_channel_amounts, invoice_amount_msat, FundingStep, FundingWait};
use ten_ten_one::payments::{get_lightning_history, Flow, HTLCStatus, LightningTransaction, LightningTransactionType, PaymentInfo};
use ten_ten_one::wallet::{
    check_signed, get_balance, get_fee_recommendation, get_ldk_balance, init_wallet, ldk_balance_fits,
    spend_plan, sync, Balance, InitError, Network, OnChain, SpendPlan, WalletBalance, WalletError, WalletSlot,
};
use ten_ten_one::channel::{funding_outcome, record_maker_funding, MakerAnswer, OpenChannelError};
use ten_ten_one::history::IgnoredFunding;
use ten_ten_one::invoice::{parse_invoice, unitless_amount_overflows_check};
use ten_ten_one::txid::Txid;

#[test]
fn balance_counts_channels_in_whole_sats() {
    let wallet = WalletBalance { immature: 7, trusted_pending: 1, untrusted_pending: 2, confirmed: 3 };
    let b = get_balance(Some(wallet), &vec![1_999, 5_000_000, 999]);
    assert_eq!(
        b,
        Ok(Balance { on_chain: OnChain { trusted_pending: 1, untrusted_pending: 2, confirmed: 3 }, off_chain: 5_001 })
    );
    assert_eq!(get_ldk_balance(&vec![]), 0);
    assert_eq!(api::get_balance(Some(wallet), &vec![1_000]).unwrap().off_chain, 1);
}

#[test]
fn balance_unavailable_is_reported() {
    assert_eq!(get_balance(None, &vec![1_000]), Err(WalletError::BalanceUnavailable));
    assert_eq!(api::get_balance(None, &vec![]), Err(WalletError::BalanceUnavailable));
    assert_eq!(WalletError::BalanceUnavailable.message(), "Could not retrieve bdk wallet balance");
}

#[test]
fn channel_sum_fits_in_u64() {
    assert!(ldk_balance_fits(&vec![1_000, 2_000]));
    assert!(ldk_balance_fits(&vec![]));
    assert!(ldk_balance_fits(&vec![u64::MAX, u64::MAX]));
    let big = vec![u64::MAX; 1001];
    assert!(!ldk_balance_fits(&big));
}

#[test]
fn lightning_history_in_sats() {
    let payments = vec![
        PaymentInfo { flow: Flow::Inbound, status: HTLCStatus::Succeeded, amt_msat: Some(12_345_678), updated_timestamp: 9 },
        PaymentInfo { flow: Flow::Outbound, status: HTLCStatus::Failed, amt_msat: None, updated_timestamp: 10 },
    ];
    let expected = vec![
        LightningTransaction { tx_type: LightningTransactionType::Payment, flow: Flow::Inbound, sats: 12_345, status: HTLCStatus::Succeeded, timestamp: 9 },
        LightningTransaction { tx_type: LightningTransactionType::Payment, flow: Flow::Outbound, sats: 0, status: HTLCStatus::Failed, timestamp: 10 },
    ];
    assert_eq!(get_lightning_history(&payments), expected);
    assert_eq!(api::get_lightning_tx_history(&payments), expected);
}

#[test]
fn channel_amounts_triple_taker() {
    let a = open_channel_amounts(10_000);
    assert_eq!(a.maker_amount, 20_000);
    assert_eq!(a.channel_capacity, 30_000);
    assert_eq!(invoice_amount_msat(10_000), 10_000_000);
}

#[test]
fn funding_wait_gives_up_after_six_hundred_seconds() {
    let mut wait = FundingWait::new();
    for n in 1..120u64 {
        assert_eq!(wait.step(false), FundingStep::Sleep(5));
        assert_eq!(wait.waited_secs(), 5 * n);
    }
    assert_eq!(wait.step(false), FundingStep::GiveUp);
    assert_eq!(wait.waited_secs(), 600);
}

#[test]
fn funding_seen_opens_channel() {
    let mut wait = FundingWait::new();
    assert_eq!(wait.step(false), FundingStep::Sleep(5));
    assert_eq!(wait.step(true), FundingStep::OpenChannel);
    assert_eq!(wait.waited_secs(), 5);
}

#[test]
fn cfd_leverage() {
    assert_eq!(open_cfd(1_000, 2), Ok(CfdAmounts { taker_amount: 1_000, maker_amount: 2_000 }));
    assert_eq!(open_cfd(1_000, 1), Ok(CfdAmounts { taker_amount: 1_000, maker_amount: 1_000 }));
    assert_eq!(open_cfd(u64::MAX, 2), Ok(CfdAmounts { taker_amount: u64::MAX, maker_amount: u64::MAX }));
    assert_eq!(open_cfd(1_000, 3), Err(ApiError::UnsupportedLeverage));
    assert_eq!(ApiError::UnsupportedLeverage.message(), "Only leverage x1 and x2 are supported at the moment");
}

#[test]
fn spend_drains_on_full_balance() {
    assert_eq!(spend_plan(5_000, 5_000), SpendPlan::DrainWallet);
    assert_eq!(spend_plan(4_000, 5_000), SpendPlan::PayRecipient(4_000));
}

#[test]
fn wallet_slot_keeps_first_wallet() {
    let mut slot: WalletSlot<u32> = WalletSlot::new();
    assert_eq!(slot.get_wallet().err(), Some(WalletError::Uninitialised));
    assert_eq!(init_wallet::<u32, &str>(&mut slot, Network::Mainnet, Err("no disk")), Err(InitError::Creation("no disk")));
    assert_eq!(slot.get_wallet().err(), Some(WalletError::Uninitialised));
    assert_eq!(init_wallet::<u32, &str>(&mut slot, Network::Mainnet, Ok(1)), Ok(()));
    assert_eq!(init_wallet::<u32, &str>(&mut slot, Network::Testnet, Ok(2)), Ok(()));
    assert_eq!(slot.get_wallet().ok(), Some(&1));
}

#[test]
fn wallet_support_for_different_bitcoin_networks() {
    let mut slot: WalletSlot<u32> = WalletSlot::new();
    api::init_wallet::<u32, &str>(&mut slot, Network::Mainnet, Ok(1)).expect("wallet to be initialized");
    api::init_wallet::<u32, &str>(&mut slot, Network::Testnet, Ok(2)).expect("wallet to be initialized");
    api::init_wallet::<u32, &str>(&mut slot, Network::Regtest, Ok(3)).expect_err("wallet should not succeed to initialize");
}

#[test]
fn regtest_is_refused_and_leaves_slot_empty() {
    let mut slot: WalletSlot<u32> = WalletSlot::new();
    assert_eq!(init_wallet::<u32, &str>(&mut slot, Network::Regtest, Ok(3)), Err(InitError::UnsupportedNetwork));
    assert_eq!(slot.get_wallet().err(), Some(WalletError::Uninitialised));
}

#[test]
fn backend_failures_are_reported() {
    assert_eq!(sync(true), Ok(()));
    assert_eq!(sync(false), Err(WalletError::SyncFailed));
    assert_eq!(get_fee_recommendation(Some(12)), Ok(12));
    assert_eq!(get_fee_recommendation(None), Err(WalletError::FeeEstimationFailed));
    assert_eq!(WalletError::SyncFailed.message(), "Could lot sync bdk-ldk wallet");
    assert_eq!(WalletError::Uninitialised.message(), "Wallet uninitialised");
}

#[test]
fn invoices_are_parsed() {
    let good = "lnbc1pvjluezsp5zyg3zyg3zyg3zyg3zyg3zyg3zyg3zyg3zyg3zyg3zyg3zyg3zygspp5qqqsyqcyq5rqwzqfqqqsyqcyq5rqwzqfqqqsyqcyq5rqwzqfqypqdpl2pkx2ctnv5sxxmmwwd5kgetjypeh2ursdae8g6twvus8g6rfwvs8qun0dfjkxaq9qrsgq357wnc5r2ueh7ck6q93dj32dlqnls087fxdwk8qakdyafkq3yap9us6v52vjjsrvywa6rt52cm9r9zqt8r2t7mlcwspyetp5h2tztugp9lfyql";
    assert!(parse_invoice(good).is_ok());
    assert_eq!(parse_invoice("lnbc-not-an-invoice").err(), Some(WalletError::InvalidInvoice));
    assert_eq!(Address::new("bc1qexample".to_string()).address, "bc1qexample");
}

#[test]
fn lightning_seed_is_first_half() {
    let seed: Vec<u8> = (0u8..64).collect();
    let expected: Vec<u8> = (0u8..32).collect();
    assert_eq!(ten_ten_one::wallet::lightning_seed(&seed), expected);
}

#[test]
fn unsigned_transaction_is_refused() {
    assert_eq!(check_signed(true), Ok(()));
    assert_eq!(check_signed(false), Err(WalletError::SigningFailed));
    assert_eq!(WalletError::SigningFailed.message(), "Failed to sign psbt");
}

#[test]
fn maker_funding_is_recorded() {
    let amounts = open_channel_amounts(10_000);
    let t = Txid { hi: 1, lo: 2 };
    assert_eq!(
        record_maker_funding(amounts, MakerAnswer::Funded(t)),
        Ok(IgnoredFunding { maker_funding_txid: t, maker_funding_amount: 20_000, open_channel_txid: None })
    );
    assert_eq!(record_maker_funding(amounts, MakerAnswer::Refused), Err(OpenChannelError::MakerRefused));
    assert_eq!(funding_outcome(FundingStep::GiveUp), Err(OpenChannelError::FundingTimedOut));
    assert_eq!(funding_outcome(FundingStep::Sleep(5)), Ok(FundingStep::Sleep(5)));
    assert_eq!(
        OpenChannelError::FundingTimedOut.message(),
        "The maker screwed up, the funds did not arrive within 600 secs so we cannot open channel"
    );
}

#[test]
fn unitless_amounts_past_the_limit_are_caught() {
    assert!(unitless_amount_overflows_check("lnbc200000001qqqq"));
    assert!(!unitless_amount_overflows_check("lnbc184467441qqqq"));
    assert!(unitless_amount_overflows_check("lnbc184467451qqqq"));
    assert!(!unitless_amount_overflows_check("lnbc20000000u1qqqq"));
    assert!(!unitless_amount_overflows_check("lnbc1qqqq"));
    assert!(!unitless_amount_overflows_check("no separator here"));
    assert!(!unitless_amount_overflows_check("lnbc999999999999999999999991qq"));
    assert!(!unitless_amount_overflows_check("1abc"));
}
