use vstd::prelude::*;
use vstd::string::StrSliceExecFns;
use lightning_invoice::Invoice;
use crate::wallet::WalletError;

verus! {

#[verifier::external_type_specification]
#[verifier::external_body]
pub struct ExInvoice(lightning_invoice::Invoice);

/// The largest amount that an invoice may write without a unit: the parser
/// turns it into picobitcoins by multiplying it by `10^12`, unchecked.
pub const MAX_UNITLESS_AMOUNT: u64 = 18_446_744;

/// The position of the last `'1'` of the text (the separator of the
/// human-readable part), or `-1` where there is none.
pub open spec fn last_separator(s: Seq<char>) -> int
    decreases s.len(),
{
    if s.len() == 0 {
        -1
    } else if s.last() == '1' {
        s.len() - 1
    } else {
        last_separator(s.drop_last())
    }
}

pub open spec fn is_digit(c: char) -> bool {
    '0' <= c <= '9'
}

/// Where the run of digits that ends the text starts.
pub open spec fn digit_run_start(h: Seq<char>) -> int
    decreases h.len(),
{
    if h.len() == 0 || !is_digit(h.last()) {
        h.len() as int
    } else {
        digit_run_start(h.drop_last())
    }
}

/// The number that the digits `h[start..end]` spell.
pub open spec fn digits_value(h: Seq<char>, start: int, end: int) -> nat
    decreases end - start,
{
    if end <= start {
        0
    } else {
        (digits_value(h, start, end - 1) * 10 + ((h[end - 1] as u32) - 48)) as nat
    }
}

/// The text's human-readable part ends in an amount written without a unit
/// that fits in a `u64` but is above `MAX_UNITLESS_AMOUNT`: once the rest of
/// such an invoice parses, `Invoice::from_str` multiplies that amount past
/// `u64::MAX` and panics.
pub open spec fn unitless_amount_overflows(s: Seq<char>) -> bool {
    let sep = last_separator(s);
    let hrp = s.take(sep);
    &&& sep >= 0
    &&& hrp.len() > 0
    &&& is_digit(hrp.last())
    &&& MAX_UNITLESS_AMOUNT < digits_value(hrp, digit_run_start(hrp), hrp.len() as int) <= u64::MAX
}

proof fn lemma_last_separator(s: Seq<char>, k: int)
    requires
        -1 <= k < s.len(),
        k >= 0 ==> s[k] == '1',
        forall|j: int| k < j < s.len() ==> s[j] != '1',
    ensures
        last_separator(s) == k,
    decreases s.len(),
{
    if s.len() > 0 && k < s.len() - 1 {
        assert(s.last() == s[s.len() - 1]);
        lemma_last_separator(s.drop_last(), k);
    }
}

proof fn lemma_digit_run_start(h: Seq<char>, j: int)
    requires
        0 <= j <= h.len(),
        j > 0 ==> !is_digit(h[j - 1]),
        forall|i: int| j <= i < h.len() ==> is_digit(#[trigger] h[i]),
    ensures
        digit_run_start(h) == j,
    decreases h.len(),
{
    if h.len() > 0 && j < h.len() {
        assert(is_digit(h[h.len() - 1]));
        lemma_digit_run_start(h.drop_last(), j);
    }
}

proof fn lemma_digits_value_monotone(h: Seq<char>, start: int, mid: int, end: int)
    requires
        start <= mid <= end <= h.len(),
        forall|i: int| start <= i < end ==> is_digit(#[trigger] h[i]),
    ensures
        digits_value(h, start, mid) <= digits_value(h, start, end),
    decreases end - mid,
{
    if mid < end {
        lemma_digits_value_monotone(h, start, mid, end - 1);
        assert(is_digit(h[end - 1]));
    }
}

/// Whether `unitless_amount_overflows` holds of the text.
pub fn unitless_amount_overflows_check(s: &str) -> (b: bool)
    ensures
        b == unitless_amount_overflows(s@),
{
    let n = s.unicode_len();
    // The last separator.
    let mut k: usize = n;
    let mut sep: usize = 0;
    let mut found = false;
    while k > 0 && !found
        invariant
            k <= n,
            n == s@.len(),
            !found ==> forall|j: int| k <= j < n ==> s@[j] != '1',
            found ==> sep < n && s@[sep as int] == '1' && forall|j: int| sep < j < n ==> s@[j] != '1',
        decreases k,
    {
        if s.get_char(k - 1) == '1' {
            sep = k - 1;
            found = true;
        }
        k = k - 1;
    }
    if !found {
        proof {
            lemma_last_separator(s@, -1);
        }
        return false;
    }
    proof {
        lemma_last_separator(s@, sep as int);
    }
    let ghost hrp = s@.take(sep as int);
    if sep == 0 {
        return false;
    }
    // The run of digits that ends the human-readable part.
    let mut j: usize = sep;
    let mut run_ended = false;
    while j > 0 && !run_ended
        invariant
            j <= sep,
            sep < n,
            n == s@.len(),
            hrp == s@.take(sep as int),
            forall|i: int| j <= i < sep ==> is_digit(#[trigger] hrp[i]),
            run_ended ==> j > 0 && !is_digit(hrp[j - 1]),
        decreases j + if run_ended { 0int } else { 1int },
    {
        let c = s.get_char(j - 1);
        assert(hrp[j - 1] == c);
        if !('0' <= c && c <= '9') {
            run_ended = true;
        } else {
            j = j - 1;
        }
    }
    proof {
        lemma_digit_run_start(hrp, j as int);
    }
    if j == sep {
        return false;
    }
    // The number that the run spells, stopping once it passes `u64::MAX`.
    let mut value: u64 = 0;
    let mut i: usize = j;
    while i < sep
        invariant
            j <= i <= sep,
            sep < n,
            n == s@.len(),
            hrp == s@.take(sep as int),
            forall|i2: int| j <= i2 < sep ==> is_digit(#[trigger] hrp[i2]),
            value == digits_value(hrp, j as int, i as int),
            digit_run_start(hrp) == j,
            last_separator(s@) == sep as int,
        decreases sep - i,
    {
        let c = s.get_char(i);
        assert(hrp[i as int] == c);
        let d: u32 = (c as u32) - 48;
        if value > (u64::MAX - d as u64) / 10 {
            proof {
                assert(hrp.len() == sep);
                assert(digits_value(hrp, j as int, i + 1) == digits_value(hrp, j as int, i as int) * 10 + d);
                assert(digits_value(hrp, j as int, i + 1) > u64::MAX);
                lemma_digits_value_monotone(hrp, j as int, i + 1, sep as int);
            }
            return false;
        }
        value = value * 10 + d as u64;
        i = i + 1;
    }
    value > MAX_UNITLESS_AMOUNT
}

/// Whether `Invoice::from_str` accepts the text as a BOLT 11 invoice.
pub uninterp spec fn invoice_parses(s: Seq<char>) -> bool;

/// `lightning_invoice::Invoice::from_str` (through `str::parse`).
/// Claimed: it succeeds exactly where `invoice_parses` holds of the text;
/// nothing is claimed of the invoice it returns. It panics on texts with a
/// unit-less amount past `MAX_UNITLESS_AMOUNT` (the parser's amount check
/// multiplies it by `10^12` unchecked), which `requires` leaves out.
#[verifier::external_body]
fn invoice_from_str(s: &str) -> (r: Option<Invoice>)
    requires
        !unitless_amount_overflows(s@),
    ensures
        r is Some <==> invoice_parses(s@),
{
    s.parse::<Invoice>().ok()
}

/// The invoice to pay, parsed from its text.
pub fn parse_invoice(invoice: &str) -> (r: Result<Invoice, WalletError>)
    requires
        !unitless_amount_overflows(invoice@),
    ensures
        r is Ok <==> invoice_parses(invoice@),
        r matches Err(e) ==> e == WalletError::InvalidInvoice,
{
    match invoice_from_str(invoice) {
        Some(i) => Ok(i),
        None => Err(WalletError::InvalidInvoice),
    }
}

} // verus!
