use vstd::prelude::*;

verus! {

/// The direction of a Lightning payment.
#[derive(Clone, Copy, Debug, PartialEq, Eq, Structural)]
pub enum Flow {
    Inbound,
    Outbound,
}

/// The state of a Lightning payment's HTLC.
#[derive(Clone, Copy, Debug, PartialEq, Eq, Structural)]
pub enum HTLCStatus {
    Pending,
    Succeeded,
    Failed,
}

/// A Lightning payment as it is stored.
#[derive(Clone, Copy, Debug, PartialEq, Eq, Structural)]
pub struct PaymentInfo {
    pub flow: Flow,
    pub status: HTLCStatus,
    /// The amount in millisatoshis, where known.
    pub amt_msat: Option<u64>,
    /// When the payment was last updated, in seconds since the epoch.
    pub updated_timestamp: u64,
}

/// The kind of a Lightning transaction shown to the user.
#[derive(Clone, Copy, Debug, PartialEq, Eq, Structural)]
pub enum LightningTransactionType {
    Payment,
    Cfd,
}

/// A Lightning transaction shown to the user.
#[derive(Clone, Copy, Debug, PartialEq, Eq, Structural)]
pub struct LightningTransaction {
    pub tx_type: LightningTransactionType,
    pub flow: Flow,
    pub sats: u64,
    pub status: HTLCStatus,
    pub timestamp: u64,
}

/// A millisatoshi amount in whole satoshis; an unknown amount counts as zero.
pub open spec fn msat_to_sats(amt_msat: Option<u64>) -> u64 {
    match amt_msat {
        Some(m) => m / 1000,
        None => 0,
    }
}

/// The transaction shown for a stored payment.
pub open spec fn transaction_of(p: PaymentInfo) -> LightningTransaction {
    LightningTransaction {
        tx_type: LightningTransactionType::Payment,
        flow: p.flow,
        sats: msat_to_sats(p.amt_msat),
        status: p.status,
        timestamp: p.updated_timestamp,
    }
}

/// The Lightning history: one payment transaction per stored payment, in
/// the order of the payments.
pub fn get_lightning_history(payments: &Vec<PaymentInfo>) -> (r: Vec<LightningTransaction>)
    ensures
        r@ == payments@.map_values(|p: PaymentInfo| transaction_of(p)),
        r.len() == payments.len(),
        forall|i: int|
            0 <= i < payments.len() ==> {
                &&& (#[trigger] r@[i]).tx_type == LightningTransactionType::Payment
                &&& r@[i].flow == payments@[i].flow
                &&& r@[i].status == payments@[i].status
                &&& r@[i].timestamp == payments@[i].updated_timestamp
                &&& (payments@[i].amt_msat matches Some(m) ==> r@[i].sats == m / 1000)
                &&& (payments@[i].amt_msat is None ==> r@[i].sats == 0)
            },
{
    proof {
        lemma_lightning_history_fields(payments@);
    }
    let mut r: Vec<LightningTransaction> = Vec::new();
    let mut i: usize = 0;
    while i < payments.len()
        invariant
            i <= payments.len(),
            r@ == payments@.take(i as int).map_values(|p: PaymentInfo| transaction_of(p)),
        decreases payments.len() - i,
    {
        let p = payments[i];
        let sats: u64 = match p.amt_msat {
            Some(m) => m / 1000,
            None => 0,
        };
        r.push(
            LightningTransaction {
                tx_type: LightningTransactionType::Payment,
                flow: p.flow,
                sats,
                status: p.status,
                timestamp: p.updated_timestamp,
            },
        );
        assert(payments@.take(i + 1).map_values(|p: PaymentInfo| transaction_of(p)) =~= payments@.take(
            i as int,
        ).map_values(|p: PaymentInfo| transaction_of(p)).push(transaction_of(p)));
        i = i + 1;
    }
    assert(payments@.take(i as int) =~= payments@);
    r
}

/// Each shown Lightning transaction is a payment that keeps the stored
/// payment's direction, HTLC status and time, and shows its amount in whole
/// satoshis (an unknown amount as zero), one for one and in order.
pub proof fn lemma_lightning_history_fields(payments: Seq<PaymentInfo>)
    ensures
        ({
            let shown = payments.map_values(|p: PaymentInfo| transaction_of(p));
            &&& shown.len() == payments.len()
            &&& forall|i: int|
                0 <= i < payments.len() ==> {
                    &&& (#[trigger] shown[i]).tx_type == LightningTransactionType::Payment
                    &&& shown[i].flow == payments[i].flow
                    &&& shown[i].status == payments[i].status
                    &&& shown[i].timestamp == payments[i].updated_timestamp
                    &&& (payments[i].amt_msat matches Some(m) ==> shown[i].sats == m / 1000)
                    &&& (payments[i].amt_msat is None ==> shown[i].sats == 0)
                }
        }),
{
}

} // verus!
