use vstd::prelude::*;
use crate::meta::{Frequency, Txn_Type, txn_type_next, txn_type_prev};
use crate::app::Currency;
use crate::fields::{
    now_micros, new_uuid, opt_view, copy_opt_string, text_after, opt_text_after, edit_text,
    edit_opt_text, is_press,
};
use crate::keys::{KeyCode, KeyEvent};
use crate::text::{push_char, pop_char, decimal};
use crate::todo::{due_text, due_parse, format_due_text};

verus! {

// ------------------------------------------------------------------------
// Amounts: `rust_decimal::Decimal` values as mantissa and scale
// ------------------------------------------------------------------------

/// A decimal amount `mantissa / 10^scale`, as `rust_decimal::Decimal` holds it.
pub type Amount = (i128, u32);

/// The largest mantissa a decimal holds: 96 bits.
pub open spec fn max_mantissa() -> int {
    0xFFFF_FFFF_FFFF_FFFF_FFFF_FFFF
}

/// A mantissa of at most 96 bits and a scale of at most 28, as every decimal has.
pub open spec fn amount_ok(a: Amount) -> bool {
    -max_mantissa() <= a.0 <= max_mantissa() && a.1 <= 28
}

/// The value of an amount, as a fraction.
pub open spec fn amount_value(a: Amount) -> (int, nat) {
    (a.0 as int, vstd::arithmetic::power::pow(10, a.1 as nat) as nat)
}

/// What `Decimal::checked_add` gives for two nonzero amounts whose aligned sum does not
/// fit 96 bits (it then rounds to a smaller scale, or overflows).
pub uninterp spec fn decimal_sum_rescaled(a: Amount, b: Amount) -> Option<Amount>;

/// What `Decimal::checked_sub` gives for two nonzero amounts whose aligned difference does
/// not fit 96 bits.
pub uninterp spec fn decimal_difference_rescaled(a: Amount, b: Amount) -> Option<Amount>;

/// The mantissa an amount has when written at the larger scale `s`.
pub open spec fn scaled_to(a: Amount, s: nat) -> int {
    a.0 * vstd::arithmetic::power::pow(10, (s - a.1) as nat)
}

pub open spec fn max_scale(a: Amount, b: Amount) -> nat {
    if a.1 >= b.1 { a.1 as nat } else { b.1 as nat }
}

pub open spec fn fits96(x: int) -> bool {
    -max_mantissa() <= x <= max_mantissa()
}

/// The two amounts brought to the larger of their scales, and their sum there, all fit
/// 96 bits.
pub open spec fn aligned_sum_fits(a: Amount, b: Amount) -> bool {
    let s = max_scale(a, b);
    fits96(scaled_to(a, s)) && fits96(scaled_to(b, s)) && fits96(scaled_to(a, s) + scaled_to(b, s))
}

pub open spec fn aligned_difference_fits(a: Amount, b: Amount) -> bool {
    let s = max_scale(a, b);
    fits96(scaled_to(a, s)) && fits96(scaled_to(b, s)) && fits96(scaled_to(a, s) - scaled_to(b, s))
}

/// What `Decimal::checked_add` gives for two amounts: zero plus an amount is that
/// amount, an amount plus zero is the amount, and two amounts brought to the larger of
/// their scales add exactly at that scale while the operands and the sum fit 96 bits.
pub open spec fn amount_sum(a: Amount, b: Amount) -> Option<Amount> {
    if a.0 == 0 {
        Some(b)
    } else if b.0 == 0 {
        Some(a)
    } else if aligned_sum_fits(a, b) {
        let s = max_scale(a, b);
        Some(((scaled_to(a, s) + scaled_to(b, s)) as i128, s as u32))
    } else {
        decimal_sum_rescaled(a, b)
    }
}

/// What `Decimal::checked_sub` gives for two amounts: zero minus an amount is its
/// negation, an amount minus zero is the amount, and two amounts brought to the larger
/// of their scales subtract exactly at that scale while the operands and the difference
/// fit 96 bits.
pub open spec fn amount_difference(a: Amount, b: Amount) -> Option<Amount> {
    if a.0 == 0 {
        Some(((-b.0) as i128, b.1))
    } else if b.0 == 0 {
        Some(a)
    } else if aligned_difference_fits(a, b) {
        let s = max_scale(a, b);
        Some(((scaled_to(a, s) - scaled_to(b, s)) as i128, s as u32))
    } else {
        decimal_difference_rescaled(a, b)
    }
}

/// What `Decimal::from_str_exact` reads from a text.
pub uninterp spec fn amount_parse(s: Seq<char>) -> Option<Amount>;

/// The digits of a decimal's mantissa: none for zero, padded with zeros on the left to
/// at least the scale.
pub open spec fn mantissa_digits(a: Amount) -> Seq<char> {
    let m: nat = if a.0 < 0 { (-a.0) as nat } else { a.0 as nat };
    let d = if m == 0 { Seq::<char>::empty() } else { decimal(m) };
    if d.len() >= a.1 {
        d
    } else {
        Seq::new((a.1 - d.len()) as nat, |i: int| '0') + d
    }
}

/// What `Decimal::to_string` writes for an amount: a minus sign for a negative one, the
/// whole part (`0` when empty), and with a scale above zero a point followed by as many
/// fractional digits as the scale.
pub open spec fn amount_text(a: Amount) -> Seq<char> {
    let p = mantissa_digits(a);
    let whole = p.take(p.len() - a.1);
    let frac = p.skip(p.len() - a.1);
    let sign = if a.0 < 0 { seq!['-'] } else { Seq::<char>::empty() };
    let w = if whole.len() == 0 { seq!['0'] } else { whole };
    if a.1 == 0 {
        sign + w
    } else {
        sign + w + seq!['.'] + frac
    }
}

/// `Decimal::checked_add`; `None` where the sum overflows. A decimal read back gives its
/// mantissa and scale, which are within the bounds every decimal keeps; a negative
/// zero reads back as zero. The cases `amount_sum` spells out are the source's zero
/// shortcuts and its addition after bringing the smaller-scale operand to the larger
/// scale (in 32, 64 or 96 bits), exact while that operand and the sum fit 96 bits; of
/// sums that do not fit (rounded to a smaller scale, or overflowing) only the name
/// speaks.
#[verifier::external_body]
fn checked_add_amount(a: Amount, b: Amount) -> (r: Option<Amount>)
    requires
        amount_ok(a),
        amount_ok(b),
    ensures
        r == amount_sum(a, b),
        a.0 != 0 && b.0 != 0 && !aligned_sum_fits(a, b) ==> r == decimal_sum_rescaled(a, b),
        r matches Some(s) ==> amount_ok(s),
{
    let x = rust_decimal::Decimal::from_i128_with_scale(a.0, a.1);
    let y = rust_decimal::Decimal::from_i128_with_scale(b.0, b.1);
    match x.checked_add(y) {
        Some(d) => Some((d.mantissa(), d.scale())),
        None => None,
    }
}

/// `Decimal::checked_sub`; `None` where the difference overflows. The cases
/// `amount_difference` spells out are the source's zero shortcuts and its subtraction
/// at the larger scale; of differences that do not fit only the name speaks.
#[verifier::external_body]
fn checked_sub_amount(a: Amount, b: Amount) -> (r: Option<Amount>)
    requires
        amount_ok(a),
        amount_ok(b),
    ensures
        r == amount_difference(a, b),
        a.0 != 0 && b.0 != 0 && !aligned_difference_fits(a, b) ==> r == decimal_difference_rescaled(a, b),
        r matches Some(s) ==> amount_ok(s),
{
    let x = rust_decimal::Decimal::from_i128_with_scale(a.0, a.1);
    let y = rust_decimal::Decimal::from_i128_with_scale(b.0, b.1);
    match x.checked_sub(y) {
        Some(d) => Some((d.mantissa(), d.scale())),
        None => None,
    }
}

/// `Decimal::from_str_exact`: the text read as a decimal, or `None` where it does not
/// read as one.
#[verifier::external_body]
pub(crate) fn parse_amount(s: &str) -> (r: Option<Amount>)
    ensures
        r == amount_parse(s@),
        r matches Some(a) ==> amount_ok(a),
{
    match rust_decimal::Decimal::from_str_exact(s) {
        Ok(d) => Some((d.mantissa(), d.scale())),
        Err(_) => None,
    }
}

/// `Decimal::to_string`.
#[verifier::external_body]
pub(crate) fn amount_to_string(a: Amount) -> (r: String)
    requires
        amount_ok(a),
    ensures
        r@ == amount_text(a),
{
    rust_decimal::Decimal::from_i128_with_scale(a.0, a.1).to_string()
}

/// What `Decimal::checked_div` gives for two amounts.
pub uninterp spec fn amount_quotient(a: Amount, b: Amount) -> Option<Amount>;

/// What `Decimal::checked_mul` gives for two amounts.
pub uninterp spec fn amount_product(a: Amount, b: Amount) -> Option<Amount>;

/// `Decimal::checked_div`; `None` where the divisor is zero or the quotient overflows.
#[verifier::external_body]
fn checked_div_amount(a: Amount, b: Amount) -> (r: Option<Amount>)
    requires
        amount_ok(a),
        amount_ok(b),
    ensures
        r == amount_quotient(a, b),
        r matches Some(s) ==> amount_ok(s),
{
    let x = rust_decimal::Decimal::from_i128_with_scale(a.0, a.1);
    let y = rust_decimal::Decimal::from_i128_with_scale(b.0, b.1);
    match x.checked_div(y) {
        Some(d) => Some((d.mantissa(), d.scale())),
        None => None,
    }
}

/// `Decimal::checked_mul`; `None` where the product overflows.
#[verifier::external_body]
fn checked_mul_amount(a: Amount, b: Amount) -> (r: Option<Amount>)
    requires
        amount_ok(a),
        amount_ok(b),
    ensures
        r == amount_product(a, b),
        r matches Some(s) ==> amount_ok(s),
{
    let x = rust_decimal::Decimal::from_i128_with_scale(a.0, a.1);
    let y = rust_decimal::Decimal::from_i128_with_scale(b.0, b.1);
    match x.checked_mul(y) {
        Some(d) => Some((d.mantissa(), d.scale())),
        None => None,
    }
}

/// The rate listed first for a currency, if any.
pub open spec fn rate_of(rates: Seq<(Currency, Amount)>, c: Currency) -> Option<Amount>
    decreases rates.len(),
{
    if rates.len() == 0 {
        None
    } else if rates[0].0 == c {
        Some(rates[0].1)
    } else {
        rate_of(rates.skip(1), c)
    }
}

/// An amount as the ledger shows it in the chosen currency: multiplied by that
/// currency's rate (units per US dollar). `None` where the rate is missing or the
/// product fails.
pub open spec fn shown_in(amount: Amount, to: Currency, rates: Seq<(Currency, Amount)>) -> Option<Amount> {
    match rate_of(rates, to) {
        Some(r) => amount_product(amount, r),
        None => None,
    }
}

/// An amount in rupees converted to `to` by the rates (units per US dollar): divided
/// by the rupee's rate and multiplied by the target's. `Some(None)` where a rate is
/// missing; `None` where the division or the product fails.
pub open spec fn converted(amount: Amount, to: Currency, rates: Seq<(Currency, Amount)>) -> Option<Option<Amount>> {
    match (rate_of(rates, Currency::INR), rate_of(rates, to)) {
        (Some(from_rate), Some(to_rate)) => match amount_quotient(amount, from_rate) {
            Some(q) => match amount_product(q, to_rate) {
                Some(p) => Some(Some(p)),
                None => None,
            },
            None => None,
        },
        _ => Some(None),
    }
}

pub open spec fn rates_ok(rates: Seq<(Currency, Amount)>) -> bool {
    forall|i: int| 0 <= i < rates.len() ==> amount_ok(#[trigger] rates[i].1)
}

fn find_rate(rates: &Vec<(Currency, Amount)>, c: Currency) -> (r: Option<Amount>)
    requires
        rates_ok(rates@),
    ensures
        r == rate_of(rates@, c),
        r matches Some(a) ==> amount_ok(a),
{
    let mut i: usize = 0;
    assert(rates@.skip(0) =~= rates@);
    while i < rates.len()
        invariant
            i <= rates@.len(),
            rates_ok(rates@),
            rate_of(rates@, c) == rate_of(rates@.skip(i as int), c),
        decreases rates.len() - i,
    {
        assert(rates@.skip(i as int)[0] == rates@[i as int]);
        assert(rates@.skip(i as int).skip(1) =~= rates@.skip(i + 1));
        if rates[i].0 == c {
            return Some(rates[i].1);
        }
        i = i + 1;
    }
    None
}

/// Converts an amount in rupees to another currency; `Some(None)` where a rate is
/// missing, `None` where the arithmetic fails.
pub fn convert_checked(amount: Amount, to: Currency, rates: &Vec<(Currency, Amount)>) -> (r: Option<Option<Amount>>)
    requires
        amount_ok(amount),
        rates_ok(rates@),
    ensures
        r == converted(amount, to, rates@),
{
    let from_rate = find_rate(rates, Currency::INR);
    let to_rate = find_rate(rates, to);
    match (from_rate, to_rate) {
        (Some(f), Some(t)) => match checked_div_amount(amount, f) {
            Some(q) => match checked_mul_amount(q, t) {
                Some(p) => Some(Some(p)),
                None => None,
            },
            None => None,
        },
        _ => Some(None),
    }
}

/// An amount as the ledger list shows it in the chosen currency.
pub fn shown_amount(amount: Amount, to: Currency, rates: &Vec<(Currency, Amount)>) -> (r: Option<Amount>)
    requires
        amount_ok(amount),
        rates_ok(rates@),
    ensures
        r == shown_in(amount, to, rates@),
        r matches Some(a) ==> amount_ok(a),
{
    match find_rate(rates, to) {
        Some(rate) => checked_mul_amount(amount, rate),
        None => None,
    }
}

/// Converts an amount in rupees to another currency by the rates; `None` where either
/// currency has no rate.
pub fn convert(amount: Amount, to: Currency, rates: &Vec<(Currency, Amount)>) -> (r: Option<Amount>)
    requires
        amount_ok(amount),
        rates_ok(rates@),
        converted(amount, to, rates@) is Some,
    ensures
        Some(r) == converted(amount, to, rates@),
{
    match convert_checked(amount, to, rates) {
        Some(r) => r,
        None => None,
    }
}

// ------------------------------------------------------------------------
// Transactions
// ------------------------------------------------------------------------

/// A transaction. The time is in microseconds since the Unix epoch.
pub struct Finance_task {
    pub id: u128,
    pub item: String,
    pub desc: Option<String>,
    pub txn_type: Txn_Type,
    pub amnt: Amount,
    pub freq: Frequency,
    pub txn_time: i64,
}

pub struct FinanceView {
    pub id: u128,
    pub item: Seq<char>,
    pub desc: Option<Seq<char>>,
    pub txn_type: Txn_Type,
    pub amnt: Amount,
    pub freq: Frequency,
    pub txn_time: i64,
}

impl View for Finance_task {
    type V = FinanceView;

    open spec fn view(&self) -> FinanceView {
        FinanceView {
            id: self.id,
            item: self.item@,
            desc: opt_view(self.desc),
            txn_type: self.txn_type,
            amnt: self.amnt,
            freq: self.freq,
            txn_time: self.txn_time,
        }
    }
}

pub open spec fn or_once(f: Option<Frequency>) -> Frequency {
    match f {
        Some(x) => x,
        None => Frequency::Once,
    }
}

impl Finance_task {
    pub fn get_id(&self) -> (r: u128)
        ensures
            r == self.id,
    {
        self.id
    }

    pub fn get_item(&self) -> (r: String)
        ensures
            r@ == self.item@,
    {
        self.item.clone()
    }

    /// The description, or an empty text where there is none.
    pub fn get_desc(&self) -> (r: String)
        ensures
            r@ == (match self.desc {
                Some(d) => d@,
                None => Seq::empty(),
            }),
    {
        match &self.desc {
            Some(d) => d.clone(),
            None => String::new(),
        }
    }

    pub fn get_txn_type(&self) -> (r: Txn_Type)
        ensures
            r == self.txn_type,
    {
        self.txn_type
    }

    pub fn get_amnt(&self) -> (r: Amount)
        ensures
            r == self.amnt,
    {
        self.amnt
    }

    pub fn get_freq(&self) -> (r: Frequency)
        ensures
            r == self.freq,
    {
        self.freq
    }

    pub fn get_txn_time(&self) -> (r: i64)
        ensures
            r == self.txn_time,
    {
        self.txn_time
    }

    /// A transaction identified by `id` at time `now`, once unless a frequency is given.
    pub fn new_with(
        id: u128,
        now: i64,
        item: String,
        desc: Option<String>,
        txn_type: Txn_Type,
        amnt: Amount,
        freq: Option<Frequency>,
    ) -> (t: Finance_task)
        ensures
            t@ == (FinanceView { id, item: item@, desc: opt_view(desc), txn_type, amnt, freq: or_once(freq), txn_time: now }),
    {
        Finance_task {
            id,
            item,
            desc,
            txn_type,
            amnt,
            freq: match freq {
                Some(f) => f,
                None => Frequency::Once,
            },
            txn_time: now,
        }
    }

    /// A transaction with a fresh random identifier, at the current time.
    pub fn new(item: String, desc: Option<String>, txn_type: Txn_Type, amnt: Amount, freq: Option<Frequency>) -> (t:
        Finance_task)
        ensures
            t@ == (FinanceView {
                id: t.id,
                item: item@,
                desc: opt_view(desc),
                txn_type,
                amnt,
                freq: or_once(freq),
                txn_time: t.txn_time,
            }),
    {
        let id = new_uuid();
        let now = now_micros();
        Finance_task::new_with(id, now, item, desc, txn_type, amnt, freq)
    }

    /// A copy of the transaction.
    pub fn duplicate(&self) -> (r: Finance_task)
        ensures
            r@ == self@,
    {
        Finance_task {
            id: self.id,
            item: self.item.clone(),
            desc: copy_opt_string(&self.desc),
            txn_type: self.txn_type,
            amnt: self.amnt,
            freq: self.freq,
            txn_time: self.txn_time,
        }
    }
}

// ------------------------------------------------------------------------
// The ledger
// ------------------------------------------------------------------------

/// The transactions, in the order they were added.
pub struct Ledger {
    txns: Vec<Finance_task>,
}

impl View for Ledger {
    type V = Seq<FinanceView>;

    closed spec fn view(&self) -> Seq<FinanceView> {
        self.txns@.map_values(|t: Finance_task| t@)
    }
}

/// A transaction copied into a ledger: same item, description, kind, amount and
/// frequency; the identifier and time are the copy's own.
pub open spec fn copied(t: FinanceView, id: u128, now: i64) -> FinanceView {
    FinanceView { id, txn_time: now, ..t }
}

/// Every amount of the ledger is a valid decimal.
pub open spec fn amounts_ok(s: Seq<FinanceView>) -> bool {
    forall|i: int| 0 <= i < s.len() ==> amount_ok(#[trigger] s[i].amnt)
}

/// Credits added, debits taken away, blocked amounts left out, in order; `None` where a
/// step overflows.
pub open spec fn ledger_balance(s: Seq<FinanceView>) -> Option<Amount>
    decreases s.len(),
{
    if s.len() == 0 {
        Some((0, 0))
    } else {
        match ledger_balance(s.drop_last()) {
            Some(b) => match s.last().txn_type {
                Txn_Type::CREDIT => amount_sum(b, s.last().amnt),
                Txn_Type::DEBIT => amount_difference(b, s.last().amnt),
                Txn_Type::BLOCKED => Some(b),
            },
            None => None,
        }
    }
}

/// The blocked amounts added up, in order; `None` where a step overflows.
pub open spec fn ledger_blocked(s: Seq<FinanceView>) -> Option<Amount>
    decreases s.len(),
{
    if s.len() == 0 {
        Some((0, 0))
    } else {
        match ledger_blocked(s.drop_last()) {
            Some(b) => if s.last().txn_type == Txn_Type::BLOCKED {
                amount_sum(b, s.last().amnt)
            } else {
                Some(b)
            },
            None => None,
        }
    }
}

/// The transactions from `start` to `end`, both included, in order.
pub open spec fn txns_between(s: Seq<FinanceView>, start: i64, end: i64) -> Seq<FinanceView>
    decreases s.len(),
{
    if s.len() == 0 {
        s
    } else {
        let rest = txns_between(s.drop_last(), start, end);
        if start <= s.last().txn_time <= end {
            rest.push(s.last())
        } else {
            rest
        }
    }
}

/// A blocked amount leaves the balance as it was, and only blocked amounts count among
/// the blocked.
pub proof fn lemma_blocked_not_in_balance(s: Seq<FinanceView>, t: FinanceView)
    ensures
        t.txn_type == Txn_Type::BLOCKED ==> ledger_balance(s.push(t)) == ledger_balance(s),
        t.txn_type != Txn_Type::BLOCKED ==> ledger_blocked(s.push(t)) == ledger_blocked(s),
{
    assert(s.push(t).drop_last() =~= s);
}

/// The signed total of the transactions written at scale `scale`: credits added, debits
/// taken away, blocked amounts left out.
pub open spec fn signed_total(s: Seq<FinanceView>, scale: nat) -> int
    decreases s.len(),
{
    if s.len() == 0 {
        0
    } else {
        signed_total(s.drop_last(), scale) + match s.last().txn_type {
            Txn_Type::CREDIT => scaled_to(s.last().amnt, scale),
            Txn_Type::DEBIT => -scaled_to(s.last().amnt, scale),
            Txn_Type::BLOCKED => 0,
        }
    }
}

/// Writing an amount at scale `hi` is writing it at `mid`, then shifting by the rest.
proof fn lemma_scale_through(a: Amount, mid: nat, hi: nat)
    requires
        a.1 <= mid <= hi,
    ensures
        scaled_to(a, hi) == scaled_to(a, mid) * vstd::arithmetic::power::pow(10, (hi - mid) as nat),
        vstd::arithmetic::power::pow(10, (hi - mid) as nat) >= 1,
{
    let p1 = vstd::arithmetic::power::pow(10, (mid - a.1) as nat);
    let p2 = vstd::arithmetic::power::pow(10, (hi - mid) as nat);
    vstd::arithmetic::power::lemma_pow_adds(10, (mid - a.1) as nat, (hi - mid) as nat);
    vstd::arithmetic::power::lemma_pow_positive(10, (hi - mid) as nat);
    assert(((mid - a.1) as nat + (hi - mid) as nat) as nat == (hi - a.1) as nat);
    vstd::arithmetic::mul::lemma_mul_is_associative(a.0 as int, p1, p2);
}

proof fn lemma_scaled_zero_neg(a: Amount, s: nat)
    ensures
        a.0 == 0 ==> scaled_to(a, s) == 0,
        a.0 > i128::MIN ==> scaled_to(((-a.0) as i128, a.1), s) == -scaled_to(a, s),
{
    let p = vstd::arithmetic::power::pow(10, (s - a.1) as nat);
    let m = a.0 as int;
    assert(0 * p == 0) by (nonlinear_arith);
    assert((-m) * p == -(m * p)) by (nonlinear_arith);
}

/// An amount written at its own scale is its mantissa.
proof fn lemma_scaled_same(a: Amount, s: nat)
    requires
        s == a.1,
    ensures
        scaled_to(a, s) == a.0,
{
    assert((s - a.1) as nat == 0nat);
    vstd::arithmetic::power::lemma_pow0(10);
    assert(vstd::arithmetic::power::pow(10, 0) == 1);
    assert(a.0 * 1 == a.0);
}

/// A number that fits 96 bits after multiplying by a positive factor fits before.
proof fn lemma_fits_down(x: int, k: int)
    requires
        k >= 1,
        fits96(x * k),
    ensures
        fits96(x),
{
    assert(x >= 0 ==> x <= x * k) by (nonlinear_arith)
        requires
            k >= 1,
    ;
    assert(x < 0 ==> x * k <= x) by (nonlinear_arith)
        requires
            k >= 1,
    ;
}

/// Where every amount has a scale of at most `scale`, and each amount and every running
/// total written at that scale fits 96 bits, the balance is exact: written at `scale`,
/// its mantissa is the signed total of credits and debits, blocked amounts left out.
pub proof fn lemma_balance_exact(s: Seq<FinanceView>, scale: nat)
    requires
        forall|i: int| 0 <= i < s.len() ==> #[trigger] s[i].amnt.1 <= scale && fits96(scaled_to(s[i].amnt, scale)),
        forall|i: int| 0 <= i <= s.len() ==> fits96(#[trigger] signed_total(s.take(i), scale)),
    ensures
        ledger_balance(s) matches Some(b) && b.1 <= scale && scaled_to(b, scale) == signed_total(s, scale),
    decreases s.len(),
{
    if s.len() == 0 {
        lemma_scaled_zero_neg((0i128, 0u32), scale);
    } else {
        let f = s.drop_last();
        assert forall|i: int| 0 <= i <= f.len() implies fits96(#[trigger] signed_total(f.take(i), scale)) by {
            assert(f.take(i) =~= s.take(i));
        }
        assert forall|i: int| 0 <= i < f.len() implies #[trigger] f[i].amnt.1 <= scale && fits96(scaled_to(f[i].amnt, scale)) by {
            assert(f[i] == s[i]);
        }
        lemma_balance_exact(f, scale);
        assert(s.take(s.len() as int) =~= s);
        assert(f.take(f.len() as int) =~= f);
        let b = ledger_balance(f).unwrap();
        let t = s.last().amnt;
        assert(s.last() == s[s.len() - 1]);
        let tt = scaled_to(b, scale);
        let uu = scaled_to(t, scale);
        assert(fits96(signed_total(s, scale)));
        if s.last().txn_type != Txn_Type::BLOCKED && b.0 != 0 && t.0 != 0 {
            let m = max_scale(b, t);
            lemma_scale_through(b, m, scale);
            lemma_scale_through(t, m, scale);
            let k = vstd::arithmetic::power::pow(10, (scale - m) as nat);
            let x = scaled_to(b, m);
            let y = scaled_to(t, m);
            lemma_fits_down(x, k);
            lemma_fits_down(y, k);
            if s.last().txn_type == Txn_Type::CREDIT {
                assert((x + y) * k == x * k + y * k) by (nonlinear_arith);
                lemma_fits_down(x + y, k);
                let r = ((x + y) as i128, m as u32);
                lemma_scaled_same(r, m);
                lemma_scale_through(r, m, scale);
            } else {
                assert((x - y) * k == x * k - y * k) by (nonlinear_arith);
                lemma_fits_down(x - y, k);
                let r = ((x - y) as i128, m as u32);
                lemma_scaled_same(r, m);
                lemma_scale_through(r, m, scale);
            }
        } else if s.last().txn_type != Txn_Type::BLOCKED && b.0 == 0 {
            lemma_scaled_zero_neg(b, scale);
            lemma_scale_through(t, t.1 as nat, scale);
            lemma_scaled_same(t, t.1 as nat);
            lemma_fits_down(t.0 as int, vstd::arithmetic::power::pow(10, (scale - t.1) as nat));
            lemma_scaled_zero_neg(t, scale);
        } else if s.last().txn_type != Txn_Type::BLOCKED {
            lemma_scaled_zero_neg(t, scale);
        }
    }
}

proof fn lemma_ledger_prefix(s: Seq<FinanceView>, i: int)
    requires
        0 <= i < s.len(),
    ensures
        s.take(i + 1).drop_last() == s.take(i),
        s.take(i + 1).last() == s[i],
{
    assert(s.take(i + 1).drop_last() =~= s.take(i));
}

impl Ledger {
    pub fn new() -> (l: Ledger)
        ensures
            l@ == Seq::<FinanceView>::empty(),
    {
        Ledger { txns: Vec::new() }
    }

    /// Adds a transaction identified by `id` at time `now`.
    pub fn add_txn_at(
        &mut self,
        id: u128,
        now: i64,
        item: String,
        desc: Option<String>,
        txn_type: Txn_Type,
        amnt: Amount,
        freq: Option<Frequency>,
    )
        ensures
            final(self)@ == old(self)@.push(
                FinanceView { id, item: item@, desc: opt_view(desc), txn_type, amnt, freq: or_once(freq), txn_time: now },
            ),
    {
        let t = Finance_task::new_with(id, now, item, desc, txn_type, amnt, freq);
        self.txns.push(t);
        proof {
            assert(self@ =~= old(self)@.push(t@));
        }
    }

    /// Adds a transaction with a fresh random identifier at the current time.
    pub fn add_txn(&mut self, item: String, desc: Option<String>, txn_type: Txn_Type, amnt: Amount, freq: Option<Frequency>)
        ensures
            final(self)@ == old(self)@.push(
                FinanceView {
                    id: final(self)@.last().id,
                    item: item@,
                    desc: opt_view(desc),
                    txn_type,
                    amnt,
                    freq: or_once(freq),
                    txn_time: final(self)@.last().txn_time,
                },
            ),
    {
        let id = new_uuid();
        let now = now_micros();
        self.add_txn_at(id, now, item, desc, txn_type, amnt, freq);
    }

    /// Adds a copy of a transaction, with its own identifier `id` and time `now`.
    pub fn from_txn_at(&mut self, id: u128, now: i64, txn: &Finance_task)
        ensures
            final(self)@ == old(self)@.push(copied(txn@, id, now)),
    {
        self.add_txn_at(id, now, txn.item.clone(), copy_opt_string(&txn.desc), txn.txn_type, txn.amnt, Some(txn.freq));
    }

    /// Adds a copy of a transaction, with a fresh identifier and the current time.
    pub fn from_txn(&mut self, txn: &Finance_task)
        ensures
            final(self)@ == old(self)@.push(copied(txn@, final(self)@.last().id, final(self)@.last().txn_time)),
    {
        let id = new_uuid();
        let now = now_micros();
        self.from_txn_at(id, now, txn);
    }

    /// A ledger holding a copy of each transaction, in order, each with a fresh
    /// identifier and the current time.
    pub fn from_txns(txns: Vec<Finance_task>) -> (l: Ledger)
        ensures
            l@.len() == txns@.len(),
            forall|i: int| 0 <= i < txns@.len() ==> #[trigger] l@[i] == copied(txns@[i]@, l@[i].id, l@[i].txn_time),
    {
        let mut ret = Ledger::new();
        let mut i: usize = 0;
        while i < txns.len()
            invariant
                i <= txns@.len(),
                ret@.len() == i,
                forall|k: int| 0 <= k < i ==> #[trigger] ret@[k] == copied(txns@[k]@, ret@[k].id, ret@[k].txn_time),
            decreases txns.len() - i,
        {
            ret.from_txn(&txns[i]);
            i = i + 1;
        }
        ret
    }

    /// Releasing a blocked amount gives nothing back.
    pub fn unblock(id: u128) -> (r: Amount)
        ensures
            r == (0i128, 0u32),
    {
        (0, 0)
    }

    pub fn retrive_txn(&self) -> (r: &Vec<Finance_task>)
        ensures
            r@.map_values(|t: Finance_task| t@) == self@,
    {
        &self.txns
    }

    /// The balance, where no step of it overflows; `None` otherwise.
    pub fn checked_balance(&self) -> (r: Option<Amount>)
        requires
            amounts_ok(self@),
        ensures
            r == ledger_balance(self@),
    {
        let mut ret: Amount = (0, 0);
        let mut i: usize = 0;
        while i < self.txns.len()
            invariant
                i <= self@.len(),
                amounts_ok(self@),
                ledger_balance(self@.take(i as int)) == Some(ret),
                amount_ok(ret),
            decreases self.txns.len() - i,
        {
            proof {
                lemma_ledger_prefix(self@, i as int);
                assert(self@[i as int].amnt == self.txns@[i as int].amnt);
            }
            let x = &self.txns[i];
            let next = match x.txn_type {
                Txn_Type::CREDIT => checked_add_amount(ret, x.amnt),
                Txn_Type::DEBIT => checked_sub_amount(ret, x.amnt),
                Txn_Type::BLOCKED => Some(ret),
            };
            match next {
                Some(b) => {
                    ret = b;
                },
                None => {
                    proof {
                        lemma_balance_stays_none(self@, i as int + 1);
                        assert(self@.take(self@.len() as int) =~= self@);
                    }
                    return None;
                },
            }
            i = i + 1;
        }
        proof {
            assert(self@.take(i as int) =~= self@);
        }
        Some(ret)
    }

    /// Credits added, debits taken away, blocked amounts left out.
    pub fn balance(&self) -> (r: Amount)
        requires
            amounts_ok(self@),
            ledger_balance(self@) is Some,
        ensures
            Some(r) == ledger_balance(self@),
    {
        match self.checked_balance() {
            Some(b) => b,
            None => (0, 0),
        }
    }

    /// The blocked amounts added up, where no step overflows; `None` otherwise.
    pub fn checked_blocked(&self) -> (r: Option<Amount>)
        requires
            amounts_ok(self@),
        ensures
            r == ledger_blocked(self@),
    {
        let mut ret: Amount = (0, 0);
        let mut i: usize = 0;
        while i < self.txns.len()
            invariant
                i <= self@.len(),
                amounts_ok(self@),
                ledger_blocked(self@.take(i as int)) == Some(ret),
                amount_ok(ret),
            decreases self.txns.len() - i,
        {
            proof {
                lemma_ledger_prefix(self@, i as int);
                assert(self@[i as int].amnt == self.txns@[i as int].amnt);
            }
            let x = &self.txns[i];
            if x.txn_type == Txn_Type::BLOCKED {
                match checked_add_amount(ret, x.amnt) {
                    Some(b) => {
                        ret = b;
                    },
                    None => {
                        proof {
                            lemma_blocked_stays_none(self@, i as int + 1);
                            assert(self@.take(self@.len() as int) =~= self@);
                        }
                        return None;
                    },
                }
            }
            i = i + 1;
        }
        proof {
            assert(self@.take(i as int) =~= self@);
        }
        Some(ret)
    }

    /// The blocked amounts added up.
    pub fn get_blocked(&self) -> (r: Amount)
        requires
            amounts_ok(self@),
            ledger_blocked(self@) is Some,
        ensures
            Some(r) == ledger_blocked(self@),
    {
        match self.checked_blocked() {
            Some(b) => b,
            None => (0, 0),
        }
    }

    /// The transactions from `start` to `end`, both included, in order.
    pub fn get_txns_between(&self, start: i64, end: i64) -> (r: Vec<&Finance_task>)
        ensures
            r@.map_values(|t: &Finance_task| t@) == txns_between(self@, start, end),
    {
        let mut r: Vec<&Finance_task> = Vec::new();
        let mut i: usize = 0;
        while i < self.txns.len()
            invariant
                i <= self@.len(),
                r@.map_values(|t: &Finance_task| t@) == txns_between(self@.take(i as int), start, end),
            decreases self.txns.len() - i,
        {
            proof {
                lemma_ledger_prefix(self@, i as int);
            }
            let x = &self.txns[i];
            let ghost before = r@;
            if start <= x.txn_time && x.txn_time <= end {
                r.push(x);
                proof {
                    assert(r@.map_values(|t: &Finance_task| t@) =~= before.map_values(|t: &Finance_task| t@).push(x@));
                }
            }
            i = i + 1;
        }
        proof {
            assert(self@.take(i as int) =~= self@);
        }
        r
    }
}

proof fn lemma_balance_stays_none(s: Seq<FinanceView>, i: int)
    requires
        0 <= i <= s.len(),
        ledger_balance(s.take(i)) is None,
    ensures
        ledger_balance(s.take(s.len() as int)) is None,
    decreases s.len() - i,
{
    if i < s.len() {
        lemma_ledger_prefix(s, i);
        lemma_balance_stays_none(s, i + 1);
    }
}

proof fn lemma_blocked_stays_none(s: Seq<FinanceView>, i: int)
    requires
        0 <= i <= s.len(),
        ledger_blocked(s.take(i)) is None,
    ensures
        ledger_blocked(s.take(s.len() as int)) is None,
    decreases s.len() - i,
{
    if i < s.len() {
        lemma_ledger_prefix(s, i);
        lemma_blocked_stays_none(s, i + 1);
    }
}

// ------------------------------------------------------------------------
// The ledger page
// ------------------------------------------------------------------------

#[derive(Debug, Clone, Copy, PartialEq, Eq, Structural)]
pub enum LedgerMode {
    Load,
    Edit,
}

/// The field of the transaction form that has the focus, in screen order.
#[derive(Debug, Clone, Copy, PartialEq, Eq, Structural)]
pub enum LedgerFocus {
    Item,
    Description,
    Amount,
    TxnType,
    Frequency,
    TxnTime,
    Add,
    Load,
}

pub open spec fn ledger_focus_next(f: LedgerFocus) -> LedgerFocus {
    match f {
        LedgerFocus::Item => LedgerFocus::Description,
        LedgerFocus::Description => LedgerFocus::Amount,
        LedgerFocus::Amount => LedgerFocus::TxnType,
        LedgerFocus::TxnType => LedgerFocus::Frequency,
        LedgerFocus::Frequency => LedgerFocus::TxnTime,
        LedgerFocus::TxnTime => LedgerFocus::Add,
        LedgerFocus::Add => LedgerFocus::Load,
        LedgerFocus::Load => LedgerFocus::Item,
    }
}

pub open spec fn ledger_focus_prev(f: LedgerFocus) -> LedgerFocus {
    match f {
        LedgerFocus::Item => LedgerFocus::Load,
        LedgerFocus::Description => LedgerFocus::Item,
        LedgerFocus::Amount => LedgerFocus::Description,
        LedgerFocus::TxnType => LedgerFocus::Amount,
        LedgerFocus::Frequency => LedgerFocus::TxnType,
        LedgerFocus::TxnTime => LedgerFocus::Frequency,
        LedgerFocus::Add => LedgerFocus::TxnTime,
        LedgerFocus::Load => LedgerFocus::Add,
    }
}

impl LedgerFocus {
    pub fn next(self) -> (r: LedgerFocus)
        ensures
            r == ledger_focus_next(self),
    {
        match self {
            LedgerFocus::Item => LedgerFocus::Description,
            LedgerFocus::Description => LedgerFocus::Amount,
            LedgerFocus::Amount => LedgerFocus::TxnType,
            LedgerFocus::TxnType => LedgerFocus::Frequency,
            LedgerFocus::Frequency => LedgerFocus::TxnTime,
            LedgerFocus::TxnTime => LedgerFocus::Add,
            LedgerFocus::Add => LedgerFocus::Load,
            LedgerFocus::Load => LedgerFocus::Item,
        }
    }

    pub fn prev(self) -> (r: LedgerFocus)
        ensures
            r == ledger_focus_prev(self),
    {
        match self {
            LedgerFocus::Item => LedgerFocus::Load,
            LedgerFocus::Description => LedgerFocus::Item,
            LedgerFocus::Amount => LedgerFocus::Description,
            LedgerFocus::TxnType => LedgerFocus::Amount,
            LedgerFocus::Frequency => LedgerFocus::TxnType,
            LedgerFocus::TxnTime => LedgerFocus::Frequency,
            LedgerFocus::Add => LedgerFocus::TxnTime,
            LedgerFocus::Load => LedgerFocus::Add,
        }
    }
}

/// Moving the focus forward and back, or back and forward, returns to the same field.
pub proof fn lemma_ledger_focus_cycle(f: LedgerFocus)
    ensures
        ledger_focus_prev(ledger_focus_next(f)) == f,
        ledger_focus_next(ledger_focus_prev(f)) == f,
{
}

/// The state of the ledger page.
pub struct LedgerUi {
    pub mode: LedgerMode,
    pub focus: LedgerFocus,
    pub list: Ledger,
    pub list_selected: usize,
    pub editing: Finance_task,
    pub amnt_input: String,
    pub amnt_valid: bool,
    pub txn_time_input: String,
    pub txn_time_valid: bool,
}

pub struct LedgerUiView {
    pub mode: LedgerMode,
    pub focus: LedgerFocus,
    pub list: Seq<FinanceView>,
    pub list_selected: usize,
    pub editing: FinanceView,
    pub amnt_input: Seq<char>,
    pub amnt_valid: bool,
    pub txn_time_input: Seq<char>,
    pub txn_time_valid: bool,
}

impl View for LedgerUi {
    type V = LedgerUiView;

    open spec fn view(&self) -> LedgerUiView {
        LedgerUiView {
            mode: self.mode,
            focus: self.focus,
            list: self.list@,
            list_selected: self.list_selected,
            editing: self.editing@,
            amnt_input: self.amnt_input@,
            amnt_valid: self.amnt_valid,
            txn_time_input: self.txn_time_input@,
            txn_time_valid: self.txn_time_valid,
        }
    }
}

/// What the caller of a ledger key handler has to do afterwards.
#[derive(Debug, Clone, Copy, PartialEq, Eq, Structural)]
pub enum LedgerEffect {
    Nothing,
    /// Save everything and leave the program.
    QuitAndSave,
    /// Store the transaction being edited.
    SaveEditing,
    /// Reload the ledger from the store.
    Reload,
}

/// The ledger list after a key: `q` quits, `n` opens a new debit of zero dated `now`,
/// Up and Down move the selection, and Enter opens the selected transaction.
pub open spec fn ledger_list_step(ui: LedgerUiView, code: KeyCode, now: i64, id: u128) -> (LedgerUiView, LedgerEffect) {
    let len = ui.list.len();
    if code == KeyCode::Char('q') {
        (ui, LedgerEffect::QuitAndSave)
    } else if code == KeyCode::Char('n') {
        (
            LedgerUiView {
                editing: FinanceView {
                    id,
                    item: Seq::empty(),
                    desc: None,
                    txn_type: Txn_Type::DEBIT,
                    amnt: (0, 0),
                    freq: Frequency::Once,
                    txn_time: now,
                },
                amnt_input: Seq::empty(),
                amnt_valid: true,
                txn_time_input: due_text(now),
                txn_time_valid: true,
                mode: LedgerMode::Edit,
                focus: LedgerFocus::Item,
                ..ui
            },
            LedgerEffect::Nothing,
        )
    } else if len == 0 {
        (ui, LedgerEffect::Nothing)
    } else {
        match code {
            KeyCode::Up => (
                LedgerUiView { list_selected: if ui.list_selected > 0 { (ui.list_selected - 1) as usize } else { 0 }, ..ui },
                LedgerEffect::Nothing,
            ),
            KeyCode::Down => (
                LedgerUiView {
                    list_selected: if ui.list_selected + 1 < len { (ui.list_selected + 1) as usize } else { (len - 1) as usize },
                    ..ui
                },
                LedgerEffect::Nothing,
            ),
            KeyCode::Enter => {
                let t = ui.list[ui.list_selected as int];
                (
                    LedgerUiView {
                        amnt_input: amount_text(t.amnt),
                        amnt_valid: true,
                        txn_time_input: due_text(t.txn_time),
                        txn_time_valid: true,
                        editing: t,
                        mode: LedgerMode::Edit,
                        focus: LedgerFocus::Item,
                        ..ui
                    },
                    LedgerEffect::Nothing,
                )
            },
            _ => (ui, LedgerEffect::Nothing),
        }
    }
}

pub open spec fn amount_char(c: char) -> bool {
    ('0' <= c <= '9') || c == '.' || c == '-'
}

/// The amount field after a key: digits, `.` and `-` are taken, Backspace removes.
pub open spec fn amount_input_after(s: Seq<char>, code: KeyCode) -> Seq<char> {
    match code {
        KeyCode::Char(c) => if amount_char(c) {
            s.push(c)
        } else {
            s
        },
        KeyCode::Backspace => if s.len() > 0 {
            s.drop_last()
        } else {
            s
        },
        _ => s,
    }
}

pub open spec fn ledger_text_field(f: LedgerFocus) -> bool {
    f == LedgerFocus::Item || f == LedgerFocus::Description || f == LedgerFocus::Amount || f == LedgerFocus::TxnTime
}

/// The transaction form after a key press on the focused field. Left and Right on the
/// frequency change nothing.
pub open spec fn ledger_field_step(ui: LedgerUiView, code: KeyCode, now: i64, id: u128) -> (LedgerUiView, LedgerEffect) {
    let ed = ui.editing;
    match ui.focus {
        LedgerFocus::Item => (
            LedgerUiView { editing: FinanceView { item: text_after(ed.item, code), ..ed }, ..ui },
            LedgerEffect::Nothing,
        ),
        LedgerFocus::Description => (
            LedgerUiView { editing: FinanceView { desc: opt_text_after(ed.desc, code, false), ..ed }, ..ui },
            LedgerEffect::Nothing,
        ),
        LedgerFocus::Amount => {
            let input = amount_input_after(ui.amnt_input, code);
            match amount_parse(input) {
                Some(a) => (
                    LedgerUiView { amnt_input: input, amnt_valid: true, editing: FinanceView { amnt: a, ..ed }, ..ui },
                    LedgerEffect::Nothing,
                ),
                None => (LedgerUiView { amnt_input: input, amnt_valid: false, ..ui }, LedgerEffect::Nothing),
            }
        },
        LedgerFocus::TxnType => if code == KeyCode::Left {
            (LedgerUiView { editing: FinanceView { txn_type: txn_type_prev(ed.txn_type), ..ed }, ..ui }, LedgerEffect::Nothing)
        } else if code == KeyCode::Right {
            (LedgerUiView { editing: FinanceView { txn_type: txn_type_next(ed.txn_type), ..ed }, ..ui }, LedgerEffect::Nothing)
        } else {
            (ui, LedgerEffect::Nothing)
        },
        LedgerFocus::Frequency => (ui, LedgerEffect::Nothing),
        LedgerFocus::TxnTime => {
            let input = text_after(ui.txn_time_input, code);
            match due_parse(input) {
                Some(t) => (
                    LedgerUiView { txn_time_input: input, txn_time_valid: true, editing: FinanceView { txn_time: t, ..ed }, ..ui },
                    LedgerEffect::Nothing,
                ),
                None => (LedgerUiView { txn_time_input: input, txn_time_valid: false, ..ui }, LedgerEffect::Nothing),
            }
        },
        LedgerFocus::Add => if is_press(code) {
            (
                LedgerUiView { list: ui.list.push(copied(ed, id, now)), mode: LedgerMode::Load, ..ui },
                LedgerEffect::SaveEditing,
            )
        } else {
            (ui, LedgerEffect::Nothing)
        },
        LedgerFocus::Load => if is_press(code) {
            (LedgerUiView { list_selected: 0, mode: LedgerMode::Load, ..ui }, LedgerEffect::Reload)
        } else {
            (ui, LedgerEffect::Nothing)
        },
    }
}

/// The transaction form after a key: Ctrl with n/Down or p/Up, and plain Up and Down,
/// move the focus, Esc goes back to the list, `q` quits outside the text fields, and any
/// other key goes to the focused field.
pub open spec fn ledger_edit_step(ui: LedgerUiView, key: KeyEvent, now: i64, id: u128) -> (LedgerUiView, LedgerEffect) {
    let code = key.code;
    if key.modifiers.control && (code == KeyCode::Char('n') || code == KeyCode::Down) {
        (LedgerUiView { focus: ledger_focus_next(ui.focus), ..ui }, LedgerEffect::Nothing)
    } else if key.modifiers.control && (code == KeyCode::Char('p') || code == KeyCode::Up) {
        (LedgerUiView { focus: ledger_focus_prev(ui.focus), ..ui }, LedgerEffect::Nothing)
    } else if code == KeyCode::Up {
        (LedgerUiView { focus: ledger_focus_prev(ui.focus), ..ui }, LedgerEffect::Nothing)
    } else if code == KeyCode::Down {
        (LedgerUiView { focus: ledger_focus_next(ui.focus), ..ui }, LedgerEffect::Nothing)
    } else if code == KeyCode::Esc {
        (LedgerUiView { mode: LedgerMode::Load, ..ui }, LedgerEffect::Nothing)
    } else if code == KeyCode::Char('q') && !ledger_text_field(ui.focus) {
        (ui, LedgerEffect::QuitAndSave)
    } else {
        ledger_field_step(ui, code, now, id)
    }
}

/// The ledger page after a key.
pub open spec fn ledger_key_step(ui: LedgerUiView, key: KeyEvent, now: i64, id: u128) -> (LedgerUiView, LedgerEffect) {
    match ui.mode {
        LedgerMode::Load => ledger_list_step(ui, key.code, now, id),
        LedgerMode::Edit => ledger_edit_step(ui, key, now, id),
    }
}

/// The requirements of the ledger key handler: the selection can move down, Enter
/// opens a transaction that exists, and the amounts are valid decimals.
pub open spec fn ledger_key_ok(ui: LedgerUiView, key: KeyEvent) -> bool {
    &&& ui.list_selected < usize::MAX
    &&& amounts_ok(ui.list)
    &&& amount_ok(ui.editing.amnt)
    &&& (ui.mode == LedgerMode::Load && key.code == KeyCode::Enter && ui.list.len() > 0) ==> ui.list_selected < ui.list.len()
}

impl Ledger {
    /// A copy of the transaction at an index.
    fn txn_copy(&self, i: usize) -> (r: Finance_task)
        requires
            i < self@.len(),
        ensures
            r@ == self@[i as int],
    {
        self.txns[i].duplicate()
    }

    fn len(&self) -> (n: usize)
        ensures
            n == self@.len(),
    {
        self.txns.len()
    }
}

fn edit_amount_input(s: &mut String, code: KeyCode)
    ensures
        final(s)@ == amount_input_after(old(s)@, code),
{
    match code {
        KeyCode::Char(c) => {
            if ('0' <= c && c <= '9') || c == '.' || c == '-' {
                push_char(s, c);
            }
        },
        KeyCode::Backspace => {
            pop_char(s);
        },
        _ => {},
    }
}

fn handle_ledger_list_key(ui: &mut LedgerUi, key: KeyEvent, now: i64, id: u128) -> (e: LedgerEffect)
    requires
        old(ui).mode == LedgerMode::Load,
        ledger_key_ok(old(ui)@, key),
    ensures
        (final(ui)@, e) == ledger_list_step(old(ui)@, key.code, now, id),
        amount_ok(final(ui)@.editing.amnt),
{
    if key.code == KeyCode::Char('q') {
        return LedgerEffect::QuitAndSave;
    }
    if key.code == KeyCode::Char('n') {
        ui.editing = Finance_task::new_with(id, now, String::new(), None, Txn_Type::DEBIT, (0, 0), None);
        ui.amnt_input = String::new();
        ui.amnt_valid = true;
        ui.txn_time_input = format_due_text(now);
        ui.txn_time_valid = true;
        ui.mode = LedgerMode::Edit;
        ui.focus = LedgerFocus::Item;
        return LedgerEffect::Nothing;
    }
    let len = ui.list.len();
    if len == 0 {
        return LedgerEffect::Nothing;
    }
    match key.code {
        KeyCode::Up => {
            ui.list_selected = if ui.list_selected > 0 { ui.list_selected - 1 } else { 0 };
        },
        KeyCode::Down => {
            ui.list_selected = if ui.list_selected + 1 < len { ui.list_selected + 1 } else { len - 1 };
        },
        KeyCode::Enter => {
            let task = ui.list.txn_copy(ui.list_selected);
            proof {
                assert(amount_ok(ui.list@[ui.list_selected as int].amnt));
            }
            ui.amnt_input = amount_to_string(task.amnt);
            ui.amnt_valid = true;
            ui.txn_time_input = format_due_text(task.txn_time);
            ui.txn_time_valid = true;
            ui.editing = task;
            ui.mode = LedgerMode::Edit;
            ui.focus = LedgerFocus::Item;
        },
        _ => {},
    }
    LedgerEffect::Nothing
}

fn parse_time_text(s: &str) -> (r: Option<i64>)
    ensures
        r == due_parse(s@),
{
    crate::todo::parse_due_date_text(s)
}

fn handle_ledger_edit_key(ui: &mut LedgerUi, key: KeyEvent, now: i64, id: u128) -> (e: LedgerEffect)
    requires
        old(ui).mode == LedgerMode::Edit,
        ledger_key_ok(old(ui)@, key),
    ensures
        (final(ui)@, e) == ledger_edit_step(old(ui)@, key, now, id),
        amount_ok(final(ui)@.editing.amnt),
        amounts_ok(final(ui)@.list),
{
    let code = key.code;
    if key.modifiers.control && (code == KeyCode::Char('n') || code == KeyCode::Down) {
        ui.focus = ui.focus.next();
        return LedgerEffect::Nothing;
    }
    if key.modifiers.control && (code == KeyCode::Char('p') || code == KeyCode::Up) {
        ui.focus = ui.focus.prev();
        return LedgerEffect::Nothing;
    }
    match code {
        KeyCode::Up => {
            ui.focus = ui.focus.prev();
            return LedgerEffect::Nothing;
        },
        KeyCode::Down => {
            ui.focus = ui.focus.next();
            return LedgerEffect::Nothing;
        },
        _ => {},
    }
    if code == KeyCode::Esc {
        ui.mode = LedgerMode::Load;
        return LedgerEffect::Nothing;
    }
    let text_field = match ui.focus {
        LedgerFocus::Item | LedgerFocus::Description | LedgerFocus::Amount | LedgerFocus::TxnTime => true,
        _ => false,
    };
    if code == KeyCode::Char('q') && !text_field {
        return LedgerEffect::QuitAndSave;
    }
    let pressed = code == KeyCode::Enter || code == KeyCode::Char(' ');
    match ui.focus {
        LedgerFocus::Item => {
            edit_text(&mut ui.editing.item, code);
        },
        LedgerFocus::Description => {
            edit_opt_text(&mut ui.editing.desc, code, false);
        },
        LedgerFocus::Amount => {
            edit_amount_input(&mut ui.amnt_input, code);
            match parse_amount(ui.amnt_input.as_str()) {
                Some(a) => {
                    ui.amnt_valid = true;
                    ui.editing.amnt = a;
                },
                None => {
                    ui.amnt_valid = false;
                },
            }
        },
        LedgerFocus::TxnType => {
            if code == KeyCode::Left {
                ui.editing.txn_type = ui.editing.txn_type.prev();
            } else if code == KeyCode::Right {
                ui.editing.txn_type = ui.editing.txn_type.next();
            }
        },
        LedgerFocus::Frequency => {},
        LedgerFocus::TxnTime => {
            edit_text(&mut ui.txn_time_input, code);
            match parse_time_text(ui.txn_time_input.as_str()) {
                Some(t) => {
                    ui.txn_time_valid = true;
                    ui.editing.txn_time = t;
                },
                None => {
                    ui.txn_time_valid = false;
                },
            }
        },
        LedgerFocus::Add => {
            if pressed {
                ui.list.from_txn_at(id, now, &ui.editing);
                ui.mode = LedgerMode::Load;
                return LedgerEffect::SaveEditing;
            }
        },
        LedgerFocus::Load => {
            if pressed {
                ui.list_selected = 0;
                ui.mode = LedgerMode::Load;
                return LedgerEffect::Reload;
            }
        },
    }
    LedgerEffect::Nothing
}

/// Handles a key on the ledger page at time `now`; a new or added transaction gets the
/// identifier `id`. The caller fills an empty ledger from the store before a key on the
/// list.
pub fn handle_ledger_at(ui: &mut LedgerUi, key: KeyEvent, now: i64, id: u128) -> (e: LedgerEffect)
    requires
        ledger_key_ok(old(ui)@, key),
    ensures
        (final(ui)@, e) == ledger_key_step(old(ui)@, key, now, id),
        amounts_ok(final(ui)@.list),
        amount_ok(final(ui)@.editing.amnt),
{
    match ui.mode {
        LedgerMode::Load => handle_ledger_list_key(ui, key, now, id),
        LedgerMode::Edit => handle_ledger_edit_key(ui, key, now, id),
    }
}

/// Handles a key on the ledger page, reading the clock and drawing a fresh identifier.
pub fn handle_ledger(ui: &mut LedgerUi, key: KeyEvent) -> (e: LedgerEffect)
    requires
        ledger_key_ok(old(ui)@, key),
    ensures
        exists|now: i64, id: u128| (final(ui)@, e) == #[trigger] ledger_key_step(old(ui)@, key, now, id),
{
    let now = now_micros();
    let id = new_uuid();
    handle_ledger_at(ui, key, now, id)
}


/// On a non-empty ledger list, Up moves the selection to the previous transaction (it
/// stays on the first), Down to the next (it stays on the last), and Enter opens the
/// selected transaction in the form, its amount written out as decimal text; none of
/// them changes the transactions.
pub proof fn lemma_ledger_list_keys(ui: LedgerUiView, now: i64, id: u128)
    requires
        ui.mode == LedgerMode::Load,
        0 < ui.list.len() <= usize::MAX,
        ui.list_selected < ui.list.len(),
    ensures
        ({
            let (r, e) = ledger_list_step(ui, KeyCode::Up, now, id);
            &&& ui.list_selected > 0 ==> r.list_selected == ui.list_selected - 1
            &&& ui.list_selected == 0 ==> r.list_selected == 0
            &&& r.list == ui.list && r.mode == ui.mode && r.editing == ui.editing && e == LedgerEffect::Nothing
        }),
        ({
            let (r, e) = ledger_list_step(ui, KeyCode::Down, now, id);
            &&& ui.list_selected + 1 < ui.list.len() ==> r.list_selected == ui.list_selected + 1
            &&& ui.list_selected + 1 == ui.list.len() ==> r.list_selected == ui.list_selected
            &&& r.list == ui.list && r.mode == ui.mode && r.editing == ui.editing && e == LedgerEffect::Nothing
        }),
        ({
            let (r, e) = ledger_list_step(ui, KeyCode::Enter, now, id);
            &&& r.editing == ui.list[ui.list_selected as int]
            &&& r.amnt_input == amount_text(ui.list[ui.list_selected as int].amnt)
            &&& r.mode == LedgerMode::Edit && r.list == ui.list && r.list_selected == ui.list_selected
            &&& e == LedgerEffect::Nothing
        }),
{
}

} // verus!
