use vstd::prelude::*;

verus! {

/// Errors of the wallet.
#[derive(Clone, Copy, Debug, PartialEq, Eq, Structural)]
pub enum WalletError {
    /// The wallet was not initialised.
    Uninitialised,
    /// The wallet's lock could not be acquired.
    LockPoisoned,
    /// The on-chain wallet could not be synced with the chain.
    SyncFailed,
    /// The chain backend gave no fee estimate.
    FeeEstimationFailed,
    /// A Lightning invoice could not be parsed.
    InvalidInvoice,
    /// The on-chain wallet could not report its balance.
    BalanceUnavailable,
    /// The wallet could not sign a transaction.
    SigningFailed,
    /// The wallet does not run on this network.
    UnsupportedNetwork,
}

impl WalletError {
    /// The message that the error is reported with.
    pub fn message(&self) -> (s: &'static str)
        ensures
            s@ == wallet_error_message(*self),
    {
        match self {
            WalletError::Uninitialised => "Wallet uninitialised",
            WalletError::LockPoisoned => "cannot acquire wallet lock",
            WalletError::SyncFailed => "Could lot sync bdk-ldk wallet",
            WalletError::FeeEstimationFailed => "Failed to estimate fee",
            WalletError::InvalidInvoice => "Could not parse Invoice string",
            WalletError::BalanceUnavailable => "Could not retrieve bdk wallet balance",
            WalletError::SigningFailed => "Failed to sign psbt",
            WalletError::UnsupportedNetwork => "The wallet does not support this network",
        }
    }
}

/// The message of each wallet error.
pub open spec fn wallet_error_message(e: WalletError) -> Seq<char> {
    match e {
        WalletError::Uninitialised => "Wallet uninitialised"@,
        WalletError::LockPoisoned => "cannot acquire wallet lock"@,
        WalletError::SyncFailed => "Could lot sync bdk-ldk wallet"@,
        WalletError::FeeEstimationFailed => "Failed to estimate fee"@,
        WalletError::InvalidInvoice => "Could not parse Invoice string"@,
        WalletError::BalanceUnavailable => "Could not retrieve bdk wallet balance"@,
        WalletError::SigningFailed => "Failed to sign psbt"@,
        WalletError::UnsupportedNetwork => "The wallet does not support this network"@,
    }
}

/// The wallet of the process: empty until the first initialisation that
/// succeeds, and kept from then on.
pub struct WalletSlot<W> {
    wallet: Option<W>,
}

impl<W> WalletSlot<W> {
    /// The wallet held, if any.
    pub closed spec fn contents(&self) -> Option<W> {
        self.wallet
    }

    /// A slot that holds no wallet yet.
    pub fn new() -> (s: WalletSlot<W>)
        ensures
            s.contents() is None,
    {
        WalletSlot { wallet: None }
    }

    /// The wallet, or `Uninitialised` while none was set.
    pub fn get_wallet(&self) -> (r: Result<&W, WalletError>)
        ensures
            self.contents() is None ==> (r matches Err(e) && e == WalletError::Uninitialised),
            self.contents() matches Some(w) ==> (r matches Ok(v) && *v == w),
    {
        match &self.wallet {
            Some(w) => Ok(w),
            None => Err(WalletError::Uninitialised),
        }
    }
}

/// The wallet held after an initialisation with `created`: a wallet already
/// held stays; else the created one, if creating it succeeded.
pub open spec fn after_init<W, E>(contents: Option<W>, created: Result<W, E>) -> Option<W> {
    match contents {
        Some(v) => Some(v),
        None => match created {
            Ok(w) => Some(w),
            Err(_) => None,
        },
    }
}

/// Why initialising the wallet failed.
#[derive(Debug, PartialEq, Eq)]
pub enum InitError<E> {
    /// The wallet does not run on the network asked for.
    UnsupportedNetwork,
    /// Creating the wallet failed.
    Creation(E),
}

/// Initialises the wallet of the process, on `network`, with a newly
/// created one. A network that the wallet does not run on (regtest) is
/// refused and nothing changes; where creating the wallet failed, that error
/// is returned and nothing changes. A slot that already holds a wallet keeps
/// it: only the first initialisation that succeeds takes effect, and later
/// ones still report success.
pub fn init_wallet<W, E>(slot: &mut WalletSlot<W>, network: Network, created: Result<W, E>) -> (r: Result<(), InitError<E>>)
    ensures
        !supports_network(network) ==> r == Err::<(), InitError<E>>(InitError::UnsupportedNetwork)
            && final(slot).contents() == old(slot).contents(),
        supports_network(network) ==> final(slot).contents() == after_init(old(slot).contents(), created),
        supports_network(network) ==> (created matches Err(e) ==> r == Err::<(), InitError<E>>(InitError::Creation(e))),
        supports_network(network) ==> (created is Ok ==> r is Ok),
{
    if !network_supported(network) {
        return Err(InitError::UnsupportedNetwork);
    }
    let wallet = match created {
        Ok(w) => w,
        Err(e) => return Err(InitError::Creation(e)),
    };
    if slot.wallet.is_none() {
        slot.wallet = Some(wallet);
    }
    Ok(())
}

/// Once a wallet is held, no later initialisation replaces it, whatever it
/// created; and a failed initialisation of an empty slot leaves it empty.
pub proof fn lemma_first_wallet_stays<W, E>(first: W, later: Result<W, E>, failure: E)
    ensures
        after_init(after_init(None, Ok::<W, E>(first)), later) == Some(first),
        after_init(None::<W>, Err::<W, E>(failure)) is None,
{
}

/// The outcome of syncing the on-chain wallet with the chain: a failed sync
/// is reported as `SyncFailed`.
pub fn sync(synced: bool) -> (r: Result<(), WalletError>)
    ensures
        synced ==> r is Ok,
        !synced ==> r == Err::<(), WalletError>(WalletError::SyncFailed),
{
    if synced {
        Ok(())
    } else {
        Err(WalletError::SyncFailed)
    }
}

/// The fee recommendation in sats per vbyte, from the chain backend's
/// estimate for a normal confirmation target; no estimate is reported as
/// `FeeEstimationFailed`.
pub fn get_fee_recommendation(estimate: Option<u32>) -> (r: Result<u32, WalletError>)
    ensures
        estimate matches Some(rate) ==> r == Ok::<u32, WalletError>(rate),
        estimate is None ==> r == Err::<u32, WalletError>(WalletError::FeeEstimationFailed),
{
    match estimate {
        Some(rate) => Ok(rate),
        None => Err(WalletError::FeeEstimationFailed),
    }
}

/// The seed of the Lightning node: the first 32 bytes of the wallet's seed,
/// as the node needs a shorter seed than the on-chain wallet.
pub fn lightning_seed(seed: &Vec<u8>) -> (r: Vec<u8>)
    requires
        seed.len() >= 32,
    ensures
        r@ == seed@.take(32),
{
    let mut r: Vec<u8> = Vec::new();
    let mut i: usize = 0;
    while i < 32
        invariant
            i <= 32,
            seed.len() >= 32,
            r@ == seed@.take(i as int),
        decreases 32 - i,
    {
        r.push(seed[i]);
        assert(seed@.take(i + 1) =~= seed@.take(i as int).push(seed@[i as int]));
        i = i + 1;
    }
    r
}

/// The balance that the on-chain wallet reports, in satoshis.
#[derive(Clone, Copy, Debug, PartialEq, Eq, Structural)]
pub struct WalletBalance {
    /// Coinbase outputs not yet matured.
    pub immature: u64,
    /// Unconfirmed UTXOs generated by a wallet tx.
    pub trusted_pending: u64,
    /// Unconfirmed UTXOs received from an external wallet.
    pub untrusted_pending: u64,
    /// Confirmed and immediately spendable balance.
    pub confirmed: u64,
}

/// The on-chain part of the balance shown to the user, in satoshis.
#[derive(Clone, Copy, Debug, PartialEq, Eq, Structural)]
pub struct OnChain {
    /// Unconfirmed UTXOs generated by a wallet tx
    pub trusted_pending: u64,
    /// Unconfirmed UTXOs received from an external wallet
    pub untrusted_pending: u64,
    /// Confirmed and immediately spendable balance
    pub confirmed: u64,
}

/// The balance shown to the user, in satoshis.
#[derive(Clone, Copy, Debug, PartialEq, Eq, Structural)]
pub struct Balance {
    pub on_chain: OnChain,
    /// What the node holds in its open channels.
    pub off_chain: u64,
}

/// The off-chain balance: the sum over the open channels of each channel's
/// balance in whole satoshis (its millisatoshi balance divided by 1000).
pub open spec fn ldk_balance(channel_balances_msat: Seq<u64>) -> int
    decreases channel_balances_msat.len(),
{
    if channel_balances_msat.len() == 0 {
        0
    } else {
        ldk_balance(channel_balances_msat.drop_last()) + channel_balances_msat.last() / 1000
    }
}

/// The balance made of what the on-chain wallet reports and of the open
/// channels' balances.
pub open spec fn balance_of(wallet: WalletBalance, channel_balances_msat: Seq<u64>) -> Balance {
    Balance {
        on_chain: OnChain {
            trusted_pending: wallet.trusted_pending,
            untrusted_pending: wallet.untrusted_pending,
            confirmed: wallet.confirmed,
        },
        off_chain: ldk_balance(channel_balances_msat) as u64,
    }
}

/// The Lightning balance: the total sum of money in all open channels, each
/// channel counted in whole satoshis.
pub fn get_ldk_balance(channel_balances_msat: &Vec<u64>) -> (total: u64)
    requires
        ldk_balance(channel_balances_msat@) <= u64::MAX,
    ensures
        total == ldk_balance(channel_balances_msat@),
{
    let mut total: u64 = 0;
    let mut i: usize = 0;
    while i < channel_balances_msat.len()
        invariant
            i <= channel_balances_msat.len(),
            ldk_balance(channel_balances_msat@) <= u64::MAX,
            total == ldk_balance(channel_balances_msat@.take(i as int)),
        decreases channel_balances_msat.len() - i,
    {
        let ghost s = channel_balances_msat@;
        assert(s.take(i + 1).drop_last() =~= s.take(i as int));
        proof {
            lemma_ldk_balance_prefix(s, i + 1);
        }
        total = total + channel_balances_msat[i] / 1000;
        i = i + 1;
    }
    assert(channel_balances_msat@.take(i as int) =~= channel_balances_msat@);
    total
}

proof fn lemma_ldk_balance_prefix(s: Seq<u64>, k: int)
    requires
        0 <= k <= s.len(),
    ensures
        0 <= ldk_balance(s.take(k)) <= ldk_balance(s),
    decreases s.len(),
{
    if s.len() > 0 {
        if k == s.len() {
            assert(s.take(k) =~= s);
            lemma_ldk_balance_prefix(s.drop_last(), k - 1);
            assert(s.drop_last().take(k - 1) =~= s.drop_last());
        } else {
            lemma_ldk_balance_prefix(s.drop_last(), k);
            assert(s.drop_last().take(k) =~= s.take(k));
        }
    }
}

/// The wallet's balance, from what the on-chain wallet reports (`None`
/// where it could not report it) and the open channels' balances: the
/// on-chain balance less its coinbase outputs not yet matured, and what the
/// channels hold.
pub fn get_balance(wallet: Option<WalletBalance>, channel_balances_msat: &Vec<u64>) -> (r: Result<Balance, WalletError>)
    requires
        wallet is Some ==> ldk_balance(channel_balances_msat@) <= u64::MAX,
    ensures
        wallet is None ==> r == Err::<Balance, WalletError>(WalletError::BalanceUnavailable),
        wallet matches Some(w) ==> r == Ok::<Balance, WalletError>(balance_of(w, channel_balances_msat@)),
        wallet matches Some(w) ==> (r matches Ok(b) && b.on_chain.confirmed == w.confirmed
            && b.on_chain.trusted_pending == w.trusted_pending
            && b.on_chain.untrusted_pending == w.untrusted_pending
            && b.off_chain == ldk_balance(channel_balances_msat@)),
{
    proof {
        if let Some(w) = wallet {
            lemma_balance_copies_report(w, channel_balances_msat@);
        }
    }
    let wallet = match wallet {
        Some(w) => w,
        None => return Err(WalletError::BalanceUnavailable),
    };
    let off_chain = get_ldk_balance(channel_balances_msat);
    Ok(
        Balance {
            on_chain: OnChain {
                trusted_pending: wallet.trusted_pending,
                untrusted_pending: wallet.untrusted_pending,
                confirmed: wallet.confirmed,
            },
            off_chain,
        },
    )
}

/// The balance shown copies the on-chain wallet's report field by field
/// (pending amounts stay pending, nothing is counted twice), leaves out the
/// immature coinbase outputs, and holds the channels' sum as its off-chain
/// part.
pub proof fn lemma_balance_copies_report(wallet: WalletBalance, channel_balances_msat: Seq<u64>)
    requires
        ldk_balance(channel_balances_msat) <= u64::MAX,
    ensures
        balance_of(wallet, channel_balances_msat).on_chain.confirmed == wallet.confirmed,
        balance_of(wallet, channel_balances_msat).on_chain.trusted_pending == wallet.trusted_pending,
        balance_of(wallet, channel_balances_msat).on_chain.untrusted_pending == wallet.untrusted_pending,
        balance_of(wallet, channel_balances_msat).off_chain == ldk_balance(channel_balances_msat),
{
    lemma_ldk_balance_prefix(channel_balances_msat, 0);
}

/// Whether the channels' balances sum, in satoshis, to at most `u64::MAX`,
/// which `get_ldk_balance` needs.
pub fn ldk_balance_fits(channel_balances_msat: &Vec<u64>) -> (fits: bool)
    ensures
        fits == (ldk_balance(channel_balances_msat@) <= u64::MAX),
{
    let ghost s = channel_balances_msat@;
    let mut total: u64 = 0;
    let mut i: usize = 0;
    while i < channel_balances_msat.len()
        invariant
            i <= channel_balances_msat.len(),
            s == channel_balances_msat@,
            total == ldk_balance(s.take(i as int)),
        decreases channel_balances_msat.len() - i,
    {
        assert(s.take(i + 1).drop_last() =~= s.take(i as int));
        let part: u64 = channel_balances_msat[i] / 1000;
        if total > u64::MAX - part {
            proof {
                lemma_ldk_balance_prefix(s, i + 1);
            }
            return false;
        }
        total = total + part;
        i = i + 1;
    }
    assert(s.take(i as int) =~= s);
    true
}

/// A transaction that the wallet could not finalise when signing is refused.
pub fn check_signed(finalized: bool) -> (r: Result<(), WalletError>)
    ensures
        finalized ==> r is Ok,
        !finalized ==> r == Err::<(), WalletError>(WalletError::SigningFailed),
{
    if finalized {
        Ok(())
    } else {
        Err(WalletError::SigningFailed)
    }
}

/// The networks that a wallet can be initialised on.
#[derive(Clone, Copy, Debug, PartialEq, Eq, Structural)]
pub enum Network {
    Mainnet,
    Testnet,
    Regtest,
}

/// A wallet runs on mainnet and testnet only.
pub open spec fn supports_network(network: Network) -> bool {
    !(network is Regtest)
}

/// Whether a wallet can be initialised on `network`.
pub fn network_supported(network: Network) -> (b: bool)
    ensures
        b == supports_network(network),
{
    match network {
        Network::Regtest => false,
        _ => true,
    }
}

/// How a payment to an address is built.
#[derive(Clone, Copy, Debug, PartialEq, Eq, Structural)]
pub enum SpendPlan {
    /// Spend the whole wallet to the address.
    DrainWallet,
    /// Pay this many satoshis to the address.
    PayRecipient(u64),
}

/// How a payment of `amount` satoshis is built when the wallet's confirmed
/// balance is `confirmed`: sending exactly the confirmed balance drains the
/// wallet, so that the fee comes out of the amount; any other amount is paid
/// as it is.
pub fn spend_plan(amount: u64, confirmed: u64) -> (p: SpendPlan)
    ensures
        amount == confirmed ==> p == SpendPlan::DrainWallet,
        amount != confirmed ==> p == SpendPlan::PayRecipient(amount),
{
    if amount == confirmed {
        SpendPlan::DrainWallet
    } else {
        SpendPlan::PayRecipient(amount)
    }
}

} // verus!
