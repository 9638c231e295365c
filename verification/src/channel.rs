use vstd::prelude::*;
use crate::history::{deduction_of, FirstChannel, IgnoredFunding};
use crate::txid::Txid;

verus! {

/// How long the taker waits for the maker's funding to show up, in seconds.
pub const FUNDING_TIMEOUT_SECS: u64 = 600;

/// How long the taker sleeps between two looks for the maker's funding.
pub const FUNDING_POLL_SECS: u64 = 5;

/// The amounts of a channel that the taker opens with the maker.
#[derive(Clone, Copy, Debug, PartialEq, Eq, Structural)]
pub struct ChannelAmounts {
    /// What the maker funds: twice the taker's amount.
    pub maker_amount: u64,
    /// The channel's capacity: the taker's and the maker's amounts together.
    pub channel_capacity: u64,
}

/// The amounts of a channel opened with `taker_amount` from the taker.
pub fn open_channel_amounts(taker_amount: u64) -> (r: ChannelAmounts)
    requires
        taker_amount * 3 <= u64::MAX,
    ensures
        r.maker_amount == taker_amount * 2,
        r.channel_capacity == taker_amount + r.maker_amount,
{
    let maker_amount = taker_amount * 2;
    let channel_capacity = taker_amount + maker_amount;
    ChannelAmounts { maker_amount, channel_capacity }
}

/// What the taker does after one look for the maker's funding.
#[derive(Clone, Copy, Debug, PartialEq, Eq, Structural)]
pub enum FundingStep {
    /// The funds were seen: open the channel.
    OpenChannel,
    /// Not seen yet: sleep this many seconds and look again.
    Sleep(u64),
    /// Not seen in time: give up the channel opening.
    GiveUp,
}

/// The taker's wait for the maker's funding transaction.
pub struct FundingWait {
    waited_secs: u64,
}

/// One look for the funding: the seconds counted after it and what to do.
pub open spec fn funding_step(waited_secs: u64, funds_seen: bool) -> (u64, FundingStep) {
    if funds_seen {
        (waited_secs, FundingStep::OpenChannel)
    } else if waited_secs + FUNDING_POLL_SECS >= FUNDING_TIMEOUT_SECS {
        ((waited_secs + FUNDING_POLL_SECS) as u64, FundingStep::GiveUp)
    } else {
        ((waited_secs + FUNDING_POLL_SECS) as u64, FundingStep::Sleep(FUNDING_POLL_SECS))
    }
}

impl FundingWait {
    /// The seconds counted so far.
    pub closed spec fn waited(&self) -> u64 {
        self.waited_secs
    }

    /// A wait that has not counted any second yet.
    pub fn new() -> (w: FundingWait)
        ensures
            w.waited() == 0,
    {
        FundingWait { waited_secs: 0 }
    }

    /// The seconds counted so far.
    pub fn waited_secs(&self) -> (s: u64)
        ensures
            s == self.waited(),
    {
        self.waited_secs
    }

    /// One look for the maker's funding: `funds_seen` tells whether the
    /// funding transaction has been seen for the taker's address. Each look
    /// that does not see it counts the poll interval; once the count reaches
    /// the timeout the wait gives up, else it sleeps one poll interval.
    pub fn step(&mut self, funds_seen: bool) -> (s: FundingStep)
        requires
            old(self).waited() < FUNDING_TIMEOUT_SECS,
        ensures
            (final(self).waited(), s) == funding_step(old(self).waited(), funds_seen),
    {
        if funds_seen {
            return FundingStep::OpenChannel;
        }
        self.waited_secs = self.waited_secs + FUNDING_POLL_SECS;
        if self.waited_secs >= FUNDING_TIMEOUT_SECS {
            FundingStep::GiveUp
        } else {
            FundingStep::Sleep(FUNDING_POLL_SECS)
        }
    }
}

/// The seconds counted and the last step after `n` looks, none of which saw
/// the funds, from a fresh wait.
pub open spec fn unseen_looks(n: nat) -> (u64, FundingStep)
    decreases n,
{
    if n == 0 {
        (0, FundingStep::Sleep(FUNDING_POLL_SECS))
    } else {
        funding_step(unseen_looks((n - 1) as nat).0, false)
    }
}

/// A taker that never sees the maker's funding sleeps after each of its
/// first 119 looks, 5 seconds each time, and gives up at the 120th look,
/// when 600 seconds have been counted.
pub proof fn lemma_funding_wait_gives_up(n: nat)
    requires
        1 <= n <= 120,
    ensures
        unseen_looks(n).0 == 5 * n,
        n < 120 ==> unseen_looks(n).1 == FundingStep::Sleep(5),
        n == 120 ==> unseen_looks(n).1 == FundingStep::GiveUp,
    decreases n,
{
    reveal_with_fuel(unseen_looks, 2);
    if n > 1 {
        lemma_funding_wait_gives_up((n - 1) as nat);
    }
}

/// Seeing the funds never moves the count and always opens the channel.
pub proof fn lemma_funding_seen_opens(waited_secs: u64)
    ensures
        funding_step(waited_secs, true) == (waited_secs, FundingStep::OpenChannel),
{
}

/// The millisatoshi amount of an invoice for `amount_sats` satoshis.
pub fn invoice_amount_msat(amount_sats: u64) -> (msat: u64)
    requires
        amount_sats * 1000 <= u64::MAX,
    ensures
        msat == amount_sats * 1000,
{
    amount_sats * 1000
}

/// What the maker answered to the request to fund a channel.
#[derive(Clone, Copy, Debug, PartialEq, Eq, Structural)]
pub enum MakerAnswer {
    /// The maker answered with an error status.
    Refused,
    /// The maker paid the taker's address in this transaction.
    Funded(Txid),
}

/// Why opening a channel with the maker failed.
#[derive(Clone, Copy, Debug, PartialEq, Eq, Structural)]
pub enum OpenChannelError {
    /// The maker refused to fund the channel.
    MakerRefused,
    /// The maker's funding was not seen in time.
    FundingTimedOut,
}

impl OpenChannelError {
    /// The message that the error is reported with.
    pub fn message(&self) -> (s: &'static str)
        ensures
            s@ == open_channel_error_message(*self),
    {
        match self {
            OpenChannelError::MakerRefused => "maker was unable to open a channel",
            OpenChannelError::FundingTimedOut => "The maker screwed up, the funds did not arrive within 600 secs so we cannot open channel",
        }
    }
}

/// The message of each error.
pub open spec fn open_channel_error_message(e: OpenChannelError) -> Seq<char> {
    match e {
        OpenChannelError::MakerRefused => "maker was unable to open a channel"@,
        OpenChannelError::FundingTimedOut => "The maker screwed up, the funds did not arrive within 600 secs so we cannot open channel"@,
    }
}

/// The maker funding that a channel opening records, for the history to
/// hide: the maker's funding transaction and amount, stored as a signed
/// integer; its channel-opening transaction is not known yet. A maker that
/// refused fails the opening.
pub fn record_maker_funding(amounts: ChannelAmounts, answer: MakerAnswer) -> (r: Result<IgnoredFunding, OpenChannelError>)
    ensures
        answer is Refused ==> r == Err::<IgnoredFunding, OpenChannelError>(OpenChannelError::MakerRefused),
        answer matches MakerAnswer::Funded(t) ==> r == Ok::<IgnoredFunding, OpenChannelError>(
            IgnoredFunding {
                maker_funding_txid: t,
                maker_funding_amount: #[verifier::truncate] (amounts.maker_amount as i64),
                open_channel_txid: None,
            },
        ),
{
    match answer {
        MakerAnswer::Refused => Err(OpenChannelError::MakerRefused),
        MakerAnswer::Funded(t) => Ok(
            IgnoredFunding {
                maker_funding_txid: t,
                maker_funding_amount: #[verifier::truncate] (amounts.maker_amount as i64),
                open_channel_txid: None,
            },
        ),
    }
}

/// The failure of an opening whose funding wait gave up; any other step
/// lets the opening go on.
pub fn funding_outcome(step: FundingStep) -> (r: Result<FundingStep, OpenChannelError>)
    ensures
        step is GiveUp ==> r == Err::<FundingStep, OpenChannelError>(OpenChannelError::FundingTimedOut),
        !(step is GiveUp) ==> r == Ok::<FundingStep, OpenChannelError>(step),
{
    match step {
        FundingStep::GiveUp => Err(OpenChannelError::FundingTimedOut),
        _ => Ok(step),
    }
}

/// The funding that an opening records takes off the channel-opening
/// transaction exactly the maker's amount, even though it is stored as a
/// signed integer: the history shows the taker's own share.
pub proof fn lemma_recorded_funding_deducts_maker_amount(amounts: ChannelAmounts, funding_txid: Txid, open_txid: Txid)
    ensures
        ({
            let recorded = IgnoredFunding {
                maker_funding_txid: funding_txid,
                maker_funding_amount: #[verifier::truncate] (amounts.maker_amount as i64),
                open_channel_txid: None,
            };
            deduction_of(open_txid, recorded, FirstChannel::Funded(open_txid)) == amounts.maker_amount
        }),
{
    let m = amounts.maker_amount;
    assert((#[verifier::truncate] ((#[verifier::truncate] (m as i64)) as u64)) == m) by (bit_vector);
}

} // verus!
