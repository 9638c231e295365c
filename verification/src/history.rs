use vstd::prelude::*;
use crate::txid::Txid;

verus! {

/// When a transaction was confirmed.
#[derive(Clone, Copy, Debug, PartialEq, Eq, Structural)]
pub struct BlockTime {
    /// Height of the confirming block.
    pub height: u32,
    /// Timestamp of the confirming block, in seconds since the epoch.
    pub timestamp: u64,
}

/// One on-chain transaction of the wallet, as the chain backend reports it.
#[derive(Clone, Copy, Debug, PartialEq, Eq, Structural)]
pub struct TransactionDetails {
    pub txid: Txid,
    /// Satoshis received by the wallet.
    pub received: u64,
    /// Satoshis sent by the wallet.
    pub sent: u64,
    /// Fee in satoshis, where known.
    pub fee: Option<u64>,
    /// Confirmation, or `None` while unconfirmed.
    pub confirmation_time: Option<BlockTime>,
}

/// A maker funding transaction that the history hides: the maker paid it
/// to the taker's address so that the taker could fund a channel.
#[derive(Clone, Copy, Debug, PartialEq, Eq, Structural)]
pub struct IgnoredFunding {
    pub maker_funding_txid: Txid,
    /// The amount the maker funded, as stored (a signed integer).
    pub maker_funding_amount: i64,
    /// The transaction that opened the channel with those funds, once known.
    pub open_channel_txid: Option<Txid>,
}

/// What the first open channel of the node tells about its funding.
#[derive(Clone, Copy, Debug, PartialEq, Eq, Structural)]
pub enum FirstChannel {
    /// The node has no channel.
    NoChannel,
    /// The first channel's funding output is not known yet.
    NoFundingOutput,
    /// The first channel was funded by this transaction.
    Funded(Txid),
}

/// The history that the user is shown, and the channel-opening txids that
/// were learned from the node and are to be stored with their funding.
pub struct HistoryUpdate {
    pub history: Vec<TransactionDetails>,
    /// Pairs of (maker funding txid, channel-opening txid).
    pub open_channel_txids: Vec<(Txid, Txid)>,
}

/// Is `txid` one of the maker funding transactions to hide?
pub open spec fn is_ignored(txid: Txid, ignored: Seq<IgnoredFunding>) -> bool {
    exists|i: int| 0 <= i < ignored.len() && (#[trigger] ignored[i]).maker_funding_txid == txid
}

/// The channel-opening transaction that a maker funding paid for: the stored
/// one, else the first channel's funding transaction, if there is one.
pub open spec fn resolved_open_txid(entry: IgnoredFunding, channel: FirstChannel) -> Option<Txid> {
    match entry.open_channel_txid {
        Some(t) => Some(t),
        None => match channel {
            FirstChannel::Funded(t) => Some(t),
            _ => None,
        },
    }
}

/// What one maker funding takes off the amount sent by transaction `txid`.
pub open spec fn deduction_of(txid: Txid, entry: IgnoredFunding, channel: FirstChannel) -> int {
    if resolved_open_txid(entry, channel) == Some(txid) {
        (entry.maker_funding_amount as u64) as int
    } else {
        0
    }
}

/// What all the maker fundings take off the amount sent by transaction `txid`.
pub open spec fn deduction(txid: Txid, ignored: Seq<IgnoredFunding>, channel: FirstChannel) -> int
    decreases ignored.len(),
{
    if ignored.len() == 0 {
        0
    } else {
        deduction(txid, ignored.drop_last(), channel) + deduction_of(txid, ignored.last(), channel)
    }
}

/// The transactions that are not hidden, in their order.
pub open spec fn kept(txs: Seq<TransactionDetails>, ignored: Seq<IgnoredFunding>) -> Seq<TransactionDetails>
    decreases txs.len(),
{
    if txs.len() == 0 {
        seq![]
    } else if is_ignored(txs.last().txid, ignored) {
        kept(txs.drop_last(), ignored)
    } else {
        kept(txs.drop_last(), ignored).push(txs.last())
    }
}

/// A transaction with the maker's share taken off what it sent.
pub open spec fn adjusted(tx: TransactionDetails, ignored: Seq<IgnoredFunding>, channel: FirstChannel) -> TransactionDetails {
    TransactionDetails { sent: (tx.sent - deduction(tx.txid, ignored, channel)) as u64, ..tx }
}

/// The history that the user is shown.
pub open spec fn adjusted_history(
    txs: Seq<TransactionDetails>,
    ignored: Seq<IgnoredFunding>,
    channel: FirstChannel,
) -> Seq<TransactionDetails> {
    kept(txs, ignored).map_values(|tx: TransactionDetails| adjusted(tx, ignored, channel))
}

/// The channel-opening txids that are learned from the first channel, each
/// paired with its maker funding txid, in the order of the fundings.
pub open spec fn learned_open_txids(ignored: Seq<IgnoredFunding>, channel: FirstChannel) -> Seq<(Txid, Txid)>
    decreases ignored.len(),
{
    if ignored.len() == 0 {
        seq![]
    } else {
        let rest = learned_open_txids(ignored.drop_last(), channel);
        match (ignored.last().open_channel_txid, channel) {
            (None, FirstChannel::Funded(t)) => rest.push((ignored.last().maker_funding_txid, t)),
            _ => rest,
        }
    }
}

/// No kept transaction sent less than the maker fundings take off it, so
/// that taking them off never goes below zero.
pub open spec fn history_fits(
    txs: Seq<TransactionDetails>,
    ignored: Seq<IgnoredFunding>,
    channel: FirstChannel,
) -> bool {
    forall|i: int|
        0 <= i < txs.len() && !is_ignored(#[trigger] txs[i].txid, ignored) ==> txs[i].sent >= deduction(
            txs[i].txid,
            ignored,
            channel,
        )
}

proof fn lemma_deduction_prefix(txid: Txid, ignored: Seq<IgnoredFunding>, channel: FirstChannel, k: int)
    requires
        0 <= k <= ignored.len(),
    ensures
        0 <= deduction(txid, ignored.take(k), channel) <= deduction(txid, ignored, channel),
    decreases ignored.len(),
{
    if ignored.len() > 0 {
        if k == ignored.len() {
            assert(ignored.take(k) =~= ignored);
            lemma_deduction_prefix(txid, ignored.drop_last(), channel, k - 1);
            assert(ignored.drop_last().take(k - 1) =~= ignored.drop_last());
        } else {
            lemma_deduction_prefix(txid, ignored.drop_last(), channel, k);
            assert(ignored.drop_last().take(k) =~= ignored.take(k));
        }
    }
}

proof fn lemma_kept_member(txs: Seq<TransactionDetails>, ignored: Seq<IgnoredFunding>, j: int)
    requires
        0 <= j < kept(txs, ignored).len(),
    ensures
        exists|i: int| 0 <= i < txs.len() && txs[i] == kept(txs, ignored)[j] && !is_ignored(#[trigger] txs[i].txid, ignored),
    decreases txs.len(),
{
    if txs.len() > 0 {
        let rest = kept(txs.drop_last(), ignored);
        if j < rest.len() {
            lemma_kept_member(txs.drop_last(), ignored, j);
            let i = choose|i: int| 0 <= i < txs.drop_last().len() && txs.drop_last()[i] == rest[j] && !is_ignored(#[trigger] txs.drop_last()[i].txid, ignored);
            assert(txs[i] == txs.drop_last()[i]);
        } else {
            assert(txs[txs.len() - 1] == txs.last());
        }
    }
}

fn is_ignored_txid(txid: Txid, ignored: &Vec<IgnoredFunding>) -> (r: bool)
    ensures
        r == is_ignored(txid, ignored@),
{
    let mut k: usize = 0;
    while k < ignored.len()
        invariant
            k <= ignored.len(),
            forall|i: int| 0 <= i < k ==> (#[trigger] ignored@[i]).maker_funding_txid != txid,
        decreases ignored.len() - k,
    {
        if ignored[k].maker_funding_txid == txid {
            assert(ignored@[k as int].maker_funding_txid == txid);
            return true;
        }
        k = k + 1;
    }
    false
}

fn keep_shown(txs: &Vec<TransactionDetails>, ignored: &Vec<IgnoredFunding>) -> (r: Vec<TransactionDetails>)
    ensures
        r@ == kept(txs@, ignored@),
{
    let mut shown: Vec<TransactionDetails> = Vec::new();
    let mut i: usize = 0;
    while i < txs.len()
        invariant
            i <= txs.len(),
            shown@ == kept(txs@.take(i as int), ignored@),
        decreases txs.len() - i,
    {
        let tx = txs[i];
        assert(txs@.take(i + 1).drop_last() =~= txs@.take(i as int));
        assert(txs@.take(i + 1).last() == tx);
        if !is_ignored_txid(tx.txid, ignored) {
            shown.push(tx);
        }
        i = i + 1;
    }
    assert(txs@.take(txs.len() as int) =~= txs@);
    shown
}

/// Builds the on-chain history that the user is shown from what the chain
/// backend lists.
///
/// The maker's funding transactions are hidden. Each channel-opening
/// transaction that spent such a funding shows as sending only the taker's
/// share: the maker's amount is taken off what it sent. Where a funding has
/// no channel-opening txid stored yet, the first channel's funding txid is
/// used and returned, to be stored; where that is not known either, the
/// funding is left out of the adjustment.
pub fn get_bitcoin_tx_history(
    txs: Vec<TransactionDetails>,
    ignored: Vec<IgnoredFunding>,
    channel: FirstChannel,
) -> (r: HistoryUpdate)
    requires
        history_fits(txs@, ignored@, channel),
    ensures
        r.history@ == adjusted_history(txs@, ignored@, channel),
        r.open_channel_txids@ == learned_open_txids(ignored@, channel),
        forall|j: int, i: int|
            0 <= j < r.history@.len() && 0 <= i < ignored@.len() ==> (#[trigger] r.history@[j]).txid
                != (#[trigger] ignored@[i]).maker_funding_txid,
        forall|i: int|
            0 <= i < txs@.len() && (forall|k: int|
                0 <= k < ignored@.len() ==> (#[trigger] ignored@[k]).maker_funding_txid != txs@[i].txid)
                ==> exists|j: int|
                0 <= j < r.history@.len() && (#[trigger] r.history@[j]).txid == (#[trigger] txs@[i]).txid
                    && r.history@[j].received == txs@[i].received,
{
    proof {
        lemma_history_shows_exactly_non_fundings(txs@, ignored@, channel);
    }
    let mut shown = keep_shown(&txs, &ignored);
    let ghost base = shown@;
    proof {
        assert forall|j: int| 0 <= j < base.len() implies (#[trigger] base[j]).sent >= deduction(base[j].txid, ignored@, channel) by {
            lemma_kept_member(txs@, ignored@, j);
        }
    }
    let mut learned: Vec<(Txid, Txid)> = Vec::new();
    let mut k: usize = 0;
    while k < ignored.len()
        invariant
            k <= ignored.len(),
            shown.len() == base.len(),
            forall|j: int| 0 <= j < base.len() ==> (#[trigger] base[j]).sent >= deduction(base[j].txid, ignored@, channel),
            forall|j: int| 0 <= j < base.len() ==> #[trigger] shown@[j] == adjusted(base[j], ignored@.take(k as int), channel),
            learned@ == learned_open_txids(ignored@.take(k as int), channel),
        decreases ignored.len() - k,
    {
        let entry = ignored[k];
        let ghost before = ignored@.take(k as int);
        let ghost after = ignored@.take(k + 1);
        assert(after.drop_last() =~= before);
        assert(after.last() == entry);
        let open: Option<Txid> = match entry.open_channel_txid {
            Some(t) => Some(t),
            None => match channel {
                FirstChannel::Funded(t) => {
                    learned.push((entry.maker_funding_txid, t));
                    Some(t)
                },
                _ => None,
            },
        };
        assert(open == resolved_open_txid(entry, channel));
        match open {
            Some(t) => {
                let amount: u64 = #[verifier::truncate] (entry.maker_funding_amount as u64);
                let mut j: usize = 0;
                while j < shown.len()
                    invariant
                        k < ignored.len(),
                        entry == ignored@[k as int],
                        before == ignored@.take(k as int),
                        after == ignored@.take(k + 1),
                        after.drop_last() == before,
                        after.last() == entry,
                        open == Some(t),
                        open == resolved_open_txid(entry, channel),
                        amount == #[verifier::truncate] (entry.maker_funding_amount as u64),
                        j <= shown.len(),
                        shown.len() == base.len(),
                        forall|j2: int| 0 <= j2 < base.len() ==> (#[trigger] base[j2]).sent >= deduction(base[j2].txid, ignored@, channel),
                        forall|j2: int| 0 <= j2 < j ==> #[trigger] shown@[j2] == adjusted(base[j2], after, channel),
                        forall|j2: int| j <= j2 < base.len() ==> #[trigger] shown@[j2] == adjusted(base[j2], before, channel),
                    decreases shown.len() - j,
                {
                    let tx = shown[j];
                    let ghost b = base[j as int];
                    proof {
                        lemma_deduction_prefix(b.txid, ignored@, channel, k + 1);
                        lemma_deduction_prefix(b.txid, ignored@, channel, k as int);
                    }
                    assert(tx == adjusted(b, before, channel));
                    assert(0 <= deduction(b.txid, before, channel));
                    assert(deduction(b.txid, after, channel) == deduction(b.txid, before, channel)
                        + deduction_of(b.txid, entry, channel));
                    assert(b.sent >= deduction(b.txid, ignored@, channel));
                    assert(tx.sent == b.sent - deduction(b.txid, before, channel));
                    if tx.txid == t {
                        assert(deduction_of(b.txid, entry, channel) == amount);
                        let updated = TransactionDetails { sent: tx.sent - amount, ..tx };
                        shown.set(j, updated);
                    } else {
                        assert(deduction(b.txid, after, channel) == deduction(b.txid, before, channel));
                    }
                    j = j + 1;
                }
            },
            None => {
                assert forall|j2: int| 0 <= j2 < base.len() implies #[trigger] shown@[j2] == adjusted(base[j2], after, channel) by {
                    assert(deduction(base[j2].txid, after, channel) == deduction(base[j2].txid, before, channel));
                }
            },
        }
        k = k + 1;
    }
    proof {
        assert(ignored@.take(ignored.len() as int) =~= ignored@);
        assert(shown@ =~= adjusted_history(txs@, ignored@, channel));
    }
    HistoryUpdate { history: shown, open_channel_txids: learned }
}

proof fn lemma_kept_not_ignored(txs: Seq<TransactionDetails>, ignored: Seq<IgnoredFunding>)
    ensures
        forall|j: int| 0 <= j < kept(txs, ignored).len() ==> !is_ignored(#[trigger] kept(txs, ignored)[j].txid, ignored),
    decreases txs.len(),
{
    if txs.len() > 0 {
        lemma_kept_not_ignored(txs.drop_last(), ignored);
    }
}

proof fn lemma_kept_all(txs: Seq<TransactionDetails>)
    ensures
        kept(txs, Seq::<IgnoredFunding>::empty()) == txs,
    decreases txs.len(),
{
    if txs.len() > 0 {
        lemma_kept_all(txs.drop_last());
        assert(txs.drop_last().push(txs.last()) =~= txs);
    }
}

/// The maker's funding transactions are hidden: no transaction of the shown
/// history is one of them.
pub proof fn lemma_history_hides_maker_funding(
    txs: Seq<TransactionDetails>,
    ignored: Seq<IgnoredFunding>,
    channel: FirstChannel,
)
    ensures
        forall|j: int|
            0 <= j < adjusted_history(txs, ignored, channel).len() ==> !is_ignored(
                #[trigger] adjusted_history(txs, ignored, channel)[j].txid,
                ignored,
            ),
{
    lemma_kept_not_ignored(txs, ignored);
}

/// Each shown transaction is a listed one that is not a maker funding, with
/// the same txid, received amount, fee and confirmation; only what it sent
/// is lowered, by what the maker fundings take off it.
pub proof fn lemma_history_only_lowers_sent(
    txs: Seq<TransactionDetails>,
    ignored: Seq<IgnoredFunding>,
    channel: FirstChannel,
    j: int,
)
    requires
        history_fits(txs, ignored, channel),
        0 <= j < adjusted_history(txs, ignored, channel).len(),
    ensures
        exists|i: int|
            #![trigger txs[i]]
            0 <= i < txs.len() && !is_ignored(txs[i].txid, ignored) && ({
                let shown = adjusted_history(txs, ignored, channel)[j];
                &&& shown.txid == txs[i].txid
                &&& shown.received == txs[i].received
                &&& shown.fee == txs[i].fee
                &&& shown.confirmation_time == txs[i].confirmation_time
                &&& shown.sent == txs[i].sent - deduction(txs[i].txid, ignored, channel)
                &&& shown.sent <= txs[i].sent
            }),
{
    lemma_kept_member(txs, ignored, j);
    let i = choose|i: int| 0 <= i < txs.len() && txs[i] == kept(txs, ignored)[j] && !is_ignored(#[trigger] txs[i].txid, ignored);
    lemma_deduction_prefix(txs[i].txid, ignored, channel, 0);
}

proof fn lemma_kept_contains(txs: Seq<TransactionDetails>, ignored: Seq<IgnoredFunding>, i: int)
    requires
        0 <= i < txs.len(),
        !is_ignored(txs[i].txid, ignored),
    ensures
        exists|j: int| 0 <= j < kept(txs, ignored).len() && #[trigger] kept(txs, ignored)[j] == txs[i],
    decreases txs.len(),
{
    if i == txs.len() - 1 {
        assert(txs.last() == txs[i]);
        let k = kept(txs, ignored);
        assert(k[k.len() - 1] == txs[i]);
    } else {
        lemma_kept_contains(txs.drop_last(), ignored, i);
        assert(txs.drop_last()[i] == txs[i]);
        let j = choose|j: int| 0 <= j < kept(txs.drop_last(), ignored).len() && #[trigger] kept(txs.drop_last(), ignored)[j] == txs.drop_last()[i];
        assert(kept(txs, ignored)[j] == txs[i]);
    }
}

/// The shown history holds no transaction whose txid is that of any stored
/// maker funding, and it shows every listed transaction whose txid is no
/// funding's, with the amount it received.
pub proof fn lemma_history_shows_exactly_non_fundings(
    txs: Seq<TransactionDetails>,
    ignored: Seq<IgnoredFunding>,
    channel: FirstChannel,
)
    ensures
        ({
            let shown = adjusted_history(txs, ignored, channel);
            &&& forall|j: int, i: int|
                0 <= j < shown.len() && 0 <= i < ignored.len() ==> (#[trigger] shown[j]).txid
                    != (#[trigger] ignored[i]).maker_funding_txid
            &&& forall|i: int|
                0 <= i < txs.len() && (forall|k: int|
                    0 <= k < ignored.len() ==> (#[trigger] ignored[k]).maker_funding_txid != txs[i].txid)
                    ==> exists|j: int|
                    0 <= j < shown.len() && (#[trigger] shown[j]).txid == (#[trigger] txs[i]).txid
                        && shown[j].received == txs[i].received
        }),
{
    let shown = adjusted_history(txs, ignored, channel);
    lemma_kept_not_ignored(txs, ignored);
    assert forall|j: int, i: int|
        0 <= j < shown.len() && 0 <= i < ignored.len() implies (#[trigger] shown[j]).txid
            != (#[trigger] ignored[i]).maker_funding_txid by {
        assert(!is_ignored(kept(txs, ignored)[j].txid, ignored));
    }
    assert forall|i: int|
        0 <= i < txs.len() && (forall|k: int|
            0 <= k < ignored.len() ==> (#[trigger] ignored[k]).maker_funding_txid != txs[i].txid)
        implies exists|j: int|
            0 <= j < shown.len() && (#[trigger] shown[j]).txid == (#[trigger] txs[i]).txid
                && shown[j].received == txs[i].received by {
        lemma_kept_contains(txs, ignored, i);
        let j = choose|j: int| 0 <= j < kept(txs, ignored).len() && #[trigger] kept(txs, ignored)[j] == txs[i];
        assert(shown[j].txid == txs[i].txid);
    }
}

proof fn lemma_deduction_zero(txid: Txid, ignored: Seq<IgnoredFunding>, channel: FirstChannel)
    requires
        forall|k: int|
            0 <= k < ignored.len() ==> (#[trigger] ignored[k]).open_channel_txid != Some(txid) && !(
            ignored[k].open_channel_txid is None && channel == FirstChannel::Funded(txid)),
    ensures
        deduction(txid, ignored, channel) == 0,
    decreases ignored.len(),
{
    if ignored.len() > 0 {
        assert(ignored.last() == ignored[ignored.len() - 1]);
        assert forall|k: int| 0 <= k < ignored.drop_last().len() implies (#[trigger] ignored.drop_last()[k]).open_channel_txid
            != Some(txid) && !(ignored.drop_last()[k].open_channel_txid is None && channel == FirstChannel::Funded(
            txid)) by {
            assert(ignored.drop_last()[k] == ignored[k]);
        }
        lemma_deduction_zero(txid, ignored.drop_last(), channel);
    }
}

/// A transaction that no maker funding names as its channel opening (neither
/// by a stored txid, nor, for a funding without one, as the first channel's
/// funding) is shown with what it sent unchanged.
pub proof fn lemma_history_unnamed_sent_unchanged(
    txs: Seq<TransactionDetails>,
    ignored: Seq<IgnoredFunding>,
    channel: FirstChannel,
    j: int,
)
    requires
        history_fits(txs, ignored, channel),
        0 <= j < adjusted_history(txs, ignored, channel).len(),
        forall|k: int|
            0 <= k < ignored.len() ==> (#[trigger] ignored[k]).open_channel_txid != Some(
                adjusted_history(txs, ignored, channel)[j].txid,
            ) && !(ignored[k].open_channel_txid is None && channel == FirstChannel::Funded(
                adjusted_history(txs, ignored, channel)[j].txid,
            )),
    ensures
        exists|i: int|
            0 <= i < txs.len() && #[trigger] txs[i] == adjusted_history(txs, ignored, channel)[j],
{
    lemma_kept_member(txs, ignored, j);
    let i = choose|i: int| 0 <= i < txs.len() && txs[i] == kept(txs, ignored)[j] && !is_ignored(#[trigger] txs[i].txid, ignored);
    lemma_deduction_zero(txs[i].txid, ignored, channel);
    assert(adjusted_history(txs, ignored, channel)[j] == txs[i]);
}

/// Without maker fundings to hide, the history is shown as it is listed.
pub proof fn lemma_history_without_fundings(txs: Seq<TransactionDetails>, channel: FirstChannel)
    ensures
        adjusted_history(txs, Seq::<IgnoredFunding>::empty(), channel) == txs,
        learned_open_txids(Seq::<IgnoredFunding>::empty(), channel) == Seq::<(Txid, Txid)>::empty(),
{
    lemma_kept_all(txs);
    let shown = adjusted_history(txs, Seq::<IgnoredFunding>::empty(), channel);
    assert forall|j: int| 0 <= j < txs.len() implies shown[j] == txs[j] by {
        assert(deduction(txs[j].txid, Seq::<IgnoredFunding>::empty(), channel) == 0);
    }
    assert(shown =~= txs);
}

/// Fundings whose channel-opening transaction is stored learn nothing from
/// the node: only fundings without it, and only while the first channel's
/// funding is known, yield a txid to store, one each.
pub proof fn lemma_learned_only_missing(ignored: Seq<IgnoredFunding>, channel: FirstChannel)
    ensures
        learned_open_txids(ignored, channel).len() <= ignored.len(),
        !(channel is Funded) ==> learned_open_txids(ignored, channel).len() == 0,
        (forall|i: int| 0 <= i < ignored.len() ==> (#[trigger] ignored[i]).open_channel_txid is Some)
            ==> learned_open_txids(ignored, channel).len() == 0,
    decreases ignored.len(),
{
    if ignored.len() > 0 {
        lemma_learned_only_missing(ignored.drop_last(), channel);
        if forall|i: int| 0 <= i < ignored.len() ==> (#[trigger] ignored[i]).open_channel_txid is Some {
            assert forall|i: int| 0 <= i < ignored.drop_last().len() implies (#[trigger] ignored.drop_last()[i]).open_channel_txid is Some by {
                assert(ignored.drop_last()[i] == ignored[i]);
            }
            assert(ignored.last() == ignored[ignored.len() - 1]);
        }
    }
}

/// Whether taking the maker fundings off each kept transaction stays at or
/// above zero, which `get_bitcoin_tx_history` needs.
pub fn history_fits_check(
    txs: &Vec<TransactionDetails>,
    ignored: &Vec<IgnoredFunding>,
    channel: FirstChannel,
) -> (fits: bool)
    ensures
        fits == history_fits(txs@, ignored@, channel),
{
    let mut i: usize = 0;
    while i < txs.len()
        invariant
            i <= txs.len(),
            forall|i2: int|
                0 <= i2 < i && !is_ignored(#[trigger] txs@[i2].txid, ignored@) ==> txs@[i2].sent
                    >= deduction(txs@[i2].txid, ignored@, channel),
        decreases txs.len() - i,
    {
        let tx = txs[i];
        if !is_ignored_txid(tx.txid, ignored) {
            let mut remaining: u64 = tx.sent;
            let mut k: usize = 0;
            while k < ignored.len()
                invariant
                    i < txs.len(),
                    tx == txs@[i as int],
                    !is_ignored(tx.txid, ignored@),
                    k <= ignored.len(),
                    remaining == tx.sent - deduction(tx.txid, ignored@.take(k as int), channel),
                decreases ignored.len() - k,
            {
                let entry = ignored[k];
                let ghost before = ignored@.take(k as int);
                let ghost after = ignored@.take(k + 1);
                assert(after.drop_last() =~= before);
                assert(after.last() == entry);
                let open: Option<Txid> = match entry.open_channel_txid {
                    Some(t) => Some(t),
                    None => match channel {
                        FirstChannel::Funded(t) => Some(t),
                        _ => None,
                    },
                };
                assert(open == resolved_open_txid(entry, channel));
                if open == Some(tx.txid) {
                    let amount: u64 = #[verifier::truncate] (entry.maker_funding_amount as u64);
                    if remaining < amount {
                        proof {
                            lemma_deduction_prefix(tx.txid, ignored@, channel, k + 1);
                            lemma_deduction_prefix(tx.txid, ignored@, channel, k as int);
                            assert(deduction_of(tx.txid, entry, channel) == amount);
                            assert(deduction(tx.txid, after, channel) == deduction(tx.txid, before, channel) + amount);
                            assert(!is_ignored(txs@[i as int].txid, ignored@));
                            assert(txs@[i as int].sent < deduction(txs@[i as int].txid, ignored@, channel));
                        }
                        return false;
                    }
                    remaining = remaining - amount;
                }
                k = k + 1;
            }
            assert(ignored@.take(ignored.len() as int) =~= ignored@);
        }
        i = i + 1;
    }
    true
}

} // verus!
