use vstd::prelude::*;
use crate::decimal::{
    checked_add, checked_mul, checked_sub, decimal_checked_add, decimal_checked_mul,
    decimal_checked_sub, decimal_of, DecimalValue,
};
use bitcoin::secp256k1::PublicKey;

verus! {

#[verifier::external_type_specification]
#[verifier::external_body]
pub struct ExPublicKey(bitcoin::secp256k1::PublicKey);

/// A quote of the market: the best bid, the best ask and the index price.
#[derive(Clone, Copy, Debug, PartialEq, Eq, Structural)]
pub struct Quote {
    pub bid: DecimalValue,
    pub ask: DecimalValue,
    pub index: DecimalValue,
}

/// The maker's offer: the quote widened by the spread.
#[derive(Clone, Copy, Debug, PartialEq, Eq, Structural)]
pub struct Offer {
    pub bid: DecimalValue,
    pub ask: DecimalValue,
    pub index: DecimalValue,
}

/// Why a request to the maker failed.
#[derive(Clone, Copy, Debug, PartialEq, Eq, Structural)]
pub enum RouteError {
    /// No quote has been received yet.
    NoQuote,
    /// The spread could not be turned into a decimal.
    SpreadUnparsable,
    /// The spread could not be set.
    SpreadNotSet,
    /// The wallet's balance could not be read.
    BalanceFailed,
    /// A new address could not be taken from the wallet.
    AddressFailed,
    /// The node's information could not be read for the wallet details.
    DetailsNodeInfoFailed,
    /// The remote node id of a channel to close is not a public key.
    InvalidNodeId,
    /// Force-closing the channel failed.
    ForceCloseFailed,
    /// Funding the taker's channel failed.
    OpenChannelFailed,
    /// Paying a Lightning invoice failed.
    PayInvoiceFailed,
    /// Creating a Lightning invoice failed.
    CreateInvoiceFailed,
    /// The channel manager could not be reached to list the channels.
    ChannelListFailed,
    /// The node's information could not be read.
    NodeInfoFailed,
}

impl RouteError {
    /// The HTTP status code that the error is answered with.
    pub fn status(&self) -> (code: u16)
        ensures
            code == route_error_status(*self),
    {
        match self {
            RouteError::NoQuote => 404,
            RouteError::InvalidNodeId => 400,
            _ => 500,
        }
    }

    /// The title of the problem that the error is answered with.
    pub fn title(&self) -> (t: &'static str)
        ensures
            t@ == route_error_title(*self),
    {
        match self {
            RouteError::NoQuote => "No quotes found",
            RouteError::SpreadUnparsable => "Failed to parse spread",
            RouteError::SpreadNotSet => "cannot set the spread",
            RouteError::BalanceFailed => "Failed get new balance",
            RouteError::AddressFailed => "Failed get new address",
            RouteError::DetailsNodeInfoFailed => "Failed get new address",
            RouteError::InvalidNodeId => "Failed to force-close channel",
            RouteError::ForceCloseFailed => "Failed to force-close channel",
            RouteError::OpenChannelFailed => "Failed to open channel with maker",
            RouteError::PayInvoiceFailed => "Failed to pay lightning invoice",
            RouteError::CreateInvoiceFailed => "Failed to create lightning invoice",
            RouteError::ChannelListFailed => "Failed to create lightning invoice",
            RouteError::NodeInfoFailed => "Failed to retrieve node info",
        }
    }
}

/// The HTTP status of each error: not found for a missing quote, bad
/// request for a malformed node id, internal server error for the rest.
pub open spec fn route_error_status(e: RouteError) -> u16 {
    match e {
        RouteError::NoQuote => 404,
        RouteError::InvalidNodeId => 400,
        _ => 500,
    }
}

/// The problem title of each error.
pub open spec fn route_error_title(e: RouteError) -> Seq<char> {
    match e {
        RouteError::NoQuote => "No quotes found"@,
        RouteError::SpreadUnparsable => "Failed to parse spread"@,
        RouteError::SpreadNotSet => "cannot set the spread"@,
        RouteError::BalanceFailed => "Failed get new balance"@,
        RouteError::AddressFailed => "Failed get new address"@,
        RouteError::DetailsNodeInfoFailed => "Failed get new address"@,
        RouteError::InvalidNodeId => "Failed to force-close channel"@,
        RouteError::ForceCloseFailed => "Failed to force-close channel"@,
        RouteError::OpenChannelFailed => "Failed to open channel with maker"@,
        RouteError::PayInvoiceFailed => "Failed to pay lightning invoice"@,
        RouteError::CreateInvoiceFailed => "Failed to create lightning invoice"@,
        RouteError::ChannelListFailed => "Failed to create lightning invoice"@,
        RouteError::NodeInfoFailed => "Failed to retrieve node info"@,
    }
}

/// The wallet details from the wallet's balance, a new address and the
/// node's information, each read as a result; the first that failed is
/// answered, in that order, with its error and the wallet's own error.
pub fn get_wallet_details<B, A, N, E>(balance: Result<B, E>, address: Result<A, E>, node_info: Result<N, E>) -> (r:
    Result<(B, A, N), (RouteError, E)>)
    ensures
        balance matches Err(e) ==> r == Err::<(B, A, N), (RouteError, E)>((RouteError::BalanceFailed, e)),
        balance matches Ok(b) ==> (address matches Err(e) ==> r == Err::<(B, A, N), (RouteError, E)>(
            (RouteError::AddressFailed, e),
        )),
        balance matches Ok(b) ==> (address matches Ok(a) ==> (node_info matches Err(e) ==> r == Err::<
            (B, A, N),
            (RouteError, E),
        >((RouteError::DetailsNodeInfoFailed, e)))),
        balance matches Ok(b) ==> (address matches Ok(a) ==> (node_info matches Ok(n) ==> r == Ok::<
            (B, A, N),
            (RouteError, E),
        >((b, a, n)))),
{
    let b = match balance {
        Ok(b) => b,
        Err(e) => return Err((RouteError::BalanceFailed, e)),
    };
    let a = match address {
        Ok(a) => a,
        Err(e) => return Err((RouteError::AddressFailed, e)),
    };
    let n = match node_info {
        Ok(n) => n,
        Err(e) => return Err((RouteError::DetailsNodeInfoFailed, e)),
    };
    Ok((b, a, n))
}

impl Quote {
    /// Each price has the parts of a decimal.
    pub open spec fn wf(self) -> bool {
        self.bid.wf() && self.ask.wf() && self.index.wf()
    }
}

/// The offer for a quote and a spread: the bid lowered to `bid * (1 - spread)`,
/// the ask raised to `ask * (1 + spread)`, the index kept; `None` where one
/// of these decimal operations overflows.
pub open spec fn spread_offer(quote: Quote, spread: DecimalValue) -> Option<Offer> {
    match decimal_checked_sub((1i128, 0u32), spread@) {
        None => None,
        Some(lower) => match decimal_checked_mul(quote.bid@, lower) {
            None => None,
            Some(bid) => match decimal_checked_add((1i128, 0u32), spread@) {
                None => None,
                Some(upper) => match decimal_checked_mul(quote.ask@, upper) {
                    None => None,
                    Some(ask) => Some(
                        Offer { bid: decimal_of(bid), ask: decimal_of(ask), index: quote.index },
                    ),
                },
            },
        },
    }
}

/// An offer's bid is exactly the decimal product of the quote's bid and
/// `1 - spread`, its ask that of the quote's ask and `1 + spread`, and its
/// index the quote's; it exists exactly where each of its four decimal
/// operations succeeds.
pub proof fn lemma_offer_keeps_index(quote: Quote, spread: DecimalValue)
    ensures
        spread_offer(quote, spread) matches Some(o) ==> o.index == quote.index,
        spread_offer(quote, spread) matches Some(o) ==> decimal_checked_mul(
            quote.bid@,
            decimal_checked_sub((1i128, 0u32), spread@)->0,
        ) == Some(o.bid@),
        spread_offer(quote, spread) matches Some(o) ==> decimal_checked_mul(
            quote.ask@,
            decimal_checked_add((1i128, 0u32), spread@)->0,
        ) == Some(o.ask@),
        spread_offer(quote, spread) is Some <==> ({
            &&& decimal_checked_sub((1i128, 0u32), spread@) is Some
            &&& decimal_checked_mul(quote.bid@, decimal_checked_sub((1i128, 0u32), spread@)->0) is Some
            &&& decimal_checked_add((1i128, 0u32), spread@) is Some
            &&& decimal_checked_mul(quote.ask@, decimal_checked_add((1i128, 0u32), spread@)->0) is Some
        }),
{
}

/// The offer for a quote and a spread, or `None` where a decimal operation
/// overflows.
pub fn apply_spread(quote: Quote, spread: DecimalValue) -> (r: Option<Offer>)
    requires
        quote.wf(),
        spread.wf(),
    ensures
        r == spread_offer(quote, spread),
        r matches Some(o) ==> {
            &&& decimal_checked_sub((1i128, 0u32), spread@) is Some
            &&& decimal_checked_add((1i128, 0u32), spread@) is Some
            &&& decimal_checked_mul(quote.bid@, decimal_checked_sub((1i128, 0u32), spread@)->0) == Some(o.bid@)
            &&& decimal_checked_mul(quote.ask@, decimal_checked_add((1i128, 0u32), spread@)->0) == Some(o.ask@)
            &&& o.index == quote.index
        },
        r is None <==> !({
            &&& decimal_checked_sub((1i128, 0u32), spread@) is Some
            &&& decimal_checked_mul(quote.bid@, decimal_checked_sub((1i128, 0u32), spread@)->0) is Some
            &&& decimal_checked_add((1i128, 0u32), spread@) is Some
            &&& decimal_checked_mul(quote.ask@, decimal_checked_add((1i128, 0u32), spread@)->0) is Some
        }),
{
    proof {
        lemma_offer_keeps_index(quote, spread);
    }
    let one = DecimalValue::one();
    let lower = match checked_sub(one, spread) {
        Some(d) => d,
        None => return None,
    };
    let bid = match checked_mul(quote.bid, lower) {
        Some(d) => d,
        None => return None,
    };
    let upper = match checked_add(one, spread) {
        Some(d) => d,
        None => return None,
    };
    let ask = match checked_mul(quote.ask, upper) {
        Some(d) => d,
        None => return None,
    };
    Some(Offer { bid, ask, index: quote.index })
}

/// The maker's current offer: the latest quote widened by the spread, or
/// `NoQuote` while no quote has been received.
pub fn get_offer(quote: Option<Quote>, spread: DecimalValue) -> (r: Result<Offer, RouteError>)
    requires
        spread.wf(),
        quote matches Some(q) ==> q.wf() && spread_offer(q, spread) is Some,
    ensures
        quote is None ==> r == Err::<Offer, RouteError>(RouteError::NoQuote),
        quote matches Some(q) ==> r == Ok::<Offer, RouteError>(spread_offer(q, spread)->0),
{
    match quote {
        None => Err(RouteError::NoQuote),
        Some(q) => Ok(apply_spread(q, spread).unwrap()),
    }
}

/// The maker's current offer where it can be computed: `None` where the
/// spread makes a decimal operation overflow, else what `get_offer` answers.
pub fn checked_get_offer(quote: Option<Quote>, spread: DecimalValue) -> (r: Option<
    Result<Offer, RouteError>,
>)
    requires
        spread.wf(),
        quote matches Some(q) ==> q.wf(),
    ensures
        r is None <==> (quote matches Some(q) && spread_offer(q, spread) is None),
        quote is None ==> r == Some(Err::<Offer, RouteError>(RouteError::NoQuote)),
        quote matches Some(q) ==> (spread_offer(q, spread) is Some ==> r == Some(
            Ok::<Offer, RouteError>(spread_offer(q, spread)->0),
        )),
{
    match quote {
        Some(q) => {
            if apply_spread(q, spread).is_none() {
                return None;
            }
        },
        None => {},
    }
    Some(get_offer(quote, spread))
}

/// Whether `PublicKey::from_str` accepts the text: 66 or 130 hex digits
/// that encode a point of the curve.
pub uninterp spec fn public_key_parses(s: Seq<char>) -> bool;

/// `secp256k1::PublicKey::from_str` (through `str::parse`).
/// Claimed: it succeeds exactly where `public_key_parses` holds of the text;
/// nothing is claimed of the key it returns.
#[verifier::external_body]
fn public_key_from_str(s: &str) -> (r: Option<PublicKey>)
    ensures
        r is Some <==> public_key_parses(s@),
{
    s.parse::<PublicKey>().ok()
}

/// The node id of a channel to force-close, parsed from the request path.
pub fn parse_remote_node_id(remote_node_id: &str) -> (r: Result<PublicKey, RouteError>)
    ensures
        r is Ok <==> public_key_parses(remote_node_id@),
        r matches Err(e) ==> e == RouteError::InvalidNodeId,
{
    match public_key_from_str(remote_node_id) {
        Some(key) => Ok(key),
        None => Err(RouteError::InvalidNodeId),
    }
}

} // verus!
