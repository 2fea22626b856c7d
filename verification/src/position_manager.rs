//! The position entity: lifecycle state machine, fill accounting, and the
//! risk engine, plus the order sub-entity that tracks partial fills.
//!
//! All money-bearing fields are fixed-point [`Decimal`] values. The effect
//! of a fill on the money-bearing core is specified by [`fill_book`] over
//! the plain-integer model [`Book`]; the laws module proves conservation,
//! blending and inversion properties over that same model.
use crate::decimal::{
    fdiv, fits_i128, fmul, in_bounds, lemma_abs_mul, lemma_tdiv_bound, lemma_tdiv_exact,
    lemma_wavg_bounds, wavg, weighted_average, Decimal, HALF_SCALE, MAX_RAW, SCALE,
};
use crate::PositionType;
use vstd::prelude::*;
use vstd::string::StringExecFns;

verus! {

/// Why a position was, or should be, closed.
#[derive(Debug, Clone, PartialEq)]
pub enum ReasonForClose {
    Liquidated,
    Expired,
    TakeProfit,
    CutLoss,
    Other(String),
}

impl ReasonForClose {
    /// A printable label for the reason.
    pub fn label(&self) -> (r: &str)
        ensures
            self is Liquidated ==> r@ == "Liquidated"@,
            self is Expired ==> r@ == "Expired"@,
            self is TakeProfit ==> r@ == "TakeProfit"@,
            self is CutLoss ==> r@ == "CutLoss"@,
            self is Other ==> r@ == self->Other_0@,
    {
        match self {
            ReasonForClose::Liquidated => "Liquidated",
            ReasonForClose::Expired => "Expired",
            ReasonForClose::TakeProfit => "TakeProfit",
            ReasonForClose::CutLoss => "CutLoss",
            ReasonForClose::Other(s) => s.as_str(),
        }
    }
}

/// Lifecycle state of a position. `Opening` is the phase before the first
/// fill; `Closing` and `Closed` carry the reason that drove the exit.
#[derive(Debug, Clone, PartialEq, Eq, Default)]
pub enum PositionState {
    #[default]
    Opening,
    Open,
    Closing(String),
    Closed(String),
}

impl PositionState {
    /// A printable label for the state, without its reason.
    pub fn label(&self) -> (r: &'static str)
        ensures
            self is Opening ==> r@ == "Opening"@,
            self is Open ==> r@ == "Open"@,
            self is Closing ==> r@ == "Closing"@,
            self is Closed ==> r@ == "Closed"@,
    {
        match self {
            PositionState::Opening => "Opening",
            PositionState::Open => "Open",
            PositionState::Closing(_) => "Closing",
            PositionState::Closed(_) => "Closed",
        }
    }
}

/// The lifecycle stage without the diagnostic reason strings; the shape the
/// accounting model reasons over.
pub enum Stage {
    Opening,
    Open,
    Closing,
    Closed,
}

/// The closed set of failures a position operation can report.
#[derive(Clone, Copy, Debug, PartialEq, Eq, Structural)]
pub enum PositionError {
    /// The operation is not permitted in the position's current state.
    InvalidStateTransition,
    /// The fill's arguments cannot yield a consistent update.
    InvalidFill,
}

/// Lifecycle state of a resting order.
#[derive(Clone, Copy, Debug, PartialEq, Eq, Structural, Default)]
pub enum OrderState {
    #[default]
    Open,
    Filled,
}

impl OrderState {
    /// A printable label for the state.
    pub fn label(&self) -> (r: &'static str)
        ensures
            self is Open ==> r@ == "Open"@,
            self is Filled ==> r@ == "Filled"@,
    {
        match self {
            OrderState::Open => "Open",
            OrderState::Filled => "Filled",
        }
    }
}

/// Which leg of a position an order belongs to.
pub enum OrderType {
    OpenOrder,
    CloseOrder,
}

/// The decimal digit `d` as text; ten and above never occur.
fn digit_str(d: u128) -> &'static str {
    match d {
        0 => "0",
        1 => "1",
        2 => "2",
        3 => "3",
        4 => "4",
        5 => "5",
        6 => "6",
        7 => "7",
        8 => "8",
        _ => "9",
    }
}

/// Appends the decimal digits of `n` to `s`; diagnostic rendering only.
fn push_u128(s: &mut String, n: u128) {
    if n == 0 {
        s.append("0");
        return ;
    }
    let mut digits: Vec<&'static str> = Vec::new();
    let mut m: u128 = n;
    while m > 0
        decreases m,
    {
        let d: u128 = m % 10;
        digits.push(digit_str(d));
        proof {
            vstd::arithmetic::div_mod::lemma_div_decreases(m as int, 10);
        }
        m = m / 10;
    }
    let mut i: usize = digits.len();
    while i > 0
        invariant
            i <= digits@.len(),
        decreases i,
    {
        i = i - 1;
        s.append(digits[i]);
    }
}

/// Appends a fixed-point decimal to `s`: sign, whole part, and nine
/// fractional digits when any are set; diagnostic rendering only.
fn push_decimal(s: &mut String, d: Decimal)
    requires
        fits_i128(d@),
{
    let raw: i128 = d.to_raw();
    let mag: u128 = if raw >= 0 {
        raw as u128
    } else {
        s.append("-");
        (-raw) as u128
    };
    let whole: u128 = mag / 1_000_000_000;
    let frac: u128 = mag % 1_000_000_000;
    push_u128(s, whole);
    if frac > 0 {
        s.append(".");
        let mut div: u128 = 100_000_000;
        let mut rem: u128 = frac;
        while div > 0
            decreases div,
        {
            let digit: u128 = rem / div;
            s.append(digit_str(digit));
            rem = rem % div;
            proof {
                vstd::arithmetic::div_mod::lemma_div_decreases(div as int, 10);
            }
            div = div / 10;
        }
    }
}

/// Appends an optional decimal to `s`, or a dash when unset.
fn push_opt_decimal(s: &mut String, d: Option<Decimal>)
    requires
        d matches Option::Some(v) ==> fits_i128(v@),
{
    match d {
        Some(v) => push_decimal(s, v),
        None => s.append("-"),
    }
}

/// How a counter-side fill left the position.
enum UpdateResult {
    Closed,
    Decreased,
    Inverted,
}

/// The money-bearing core of a position as plain integers (raw fixed-point
/// ticks); every fill-accounting contract is stated over this model.
pub ghost struct Book {
    pub stage: Stage,
    pub position_type: PositionType,
    pub amount: int,
    pub asset_in_usd: int,
    pub average_open_price: int,
    pub pnl: int,
    pub fee: int,
    pub close_asset_in_usd: int,
    pub close_price: int,
    pub take_profit_price: Option<int>,
    pub cut_loss_price: Option<int>,
}

/// One fill event, as plain integers.
pub ghost struct FillSpec {
    pub position_type: PositionType,
    pub price: int,
    pub amount: int,
    pub notional: int,
    pub fee: int,
    pub take_profit_price: Option<int>,
    pub cut_loss_price: Option<int>,
}

/// The integer views of an optional decimal.
pub open spec fn opt_view(o: Option<Decimal>) -> Option<int> {
    match o {
        Option::Some(d) => Option::Some(d@),
        Option::None => Option::None,
    }
}

/// The stage a state belongs to.
pub open spec fn stage_of(s: PositionState) -> Stage {
    match s {
        PositionState::Opening => Stage::Opening,
        PositionState::Open => Stage::Open,
        PositionState::Closing(_) => Stage::Closing,
        PositionState::Closed(_) => Stage::Closed,
    }
}

/// Sign of an integer: -1, 0 or 1.
pub open spec fn sgn(x: int) -> int {
    if x > 0 {
        1
    } else if x < 0 {
        -1
    } else {
        0
    }
}

/// Absolute value of an integer.
pub open spec fn iabs(x: int) -> int {
    if x >= 0 {
        x
    } else {
        -x
    }
}

/// Cash-equivalent value of a holding at `price`: the quantity marked at
/// the current price plus the (signed) notional already booked against it.
pub open spec fn spec_unrealized(price: int, amount: int, asset: int) -> int {
    fmul(amount, price) + asset
}

/// Signed amount and notional change of a fill: an outright long fill
/// buys, adding quantity and paying cash; every other stance, the hedge
/// ones included, follows the sell convention.
pub open spec fn upd_amount(b: Book, f: FillSpec) -> (int, int) {
    if f.position_type is Long {
        (b.amount + f.amount, b.asset_in_usd - f.notional)
    } else {
        (b.amount - f.amount, b.asset_in_usd + f.notional)
    }
}

/// Threshold blending on a same-direction fill: a fill that carries no
/// threshold clears it; otherwise the new value is averaged into the held
/// one, weighted by the held and filled amounts.
pub open spec fn blend(cur: Option<int>, new: Option<int>, cur_amt: int, a: int) -> Option<int> {
    match new {
        Option::None => Option::None,
        Option::Some(np) => match cur {
            Option::None => Option::Some(np),
            Option::Some(cp) => Option::Some(wavg(cp, cur_amt, np, a)),
        },
    }
}

/// Effect of a same-direction fill: the average open price and both
/// thresholds are re-blended, quantity and notional grow, and a position
/// still in its opening phase becomes open.
pub open spec fn inc_book(b: Book, f: FillSpec) -> Book {
    let cur = iabs(b.amount);
    let am_as = upd_amount(b, f);
    Book {
        stage: if b.stage is Opening {
            Stage::Open
        } else {
            b.stage
        },
        average_open_price: wavg(b.average_open_price, cur, f.price, f.amount),
        take_profit_price: blend(b.take_profit_price, f.take_profit_price, cur, f.amount),
        cut_loss_price: blend(b.cut_loss_price, f.cut_loss_price, cur, f.amount),
        amount: am_as.0,
        asset_in_usd: am_as.1,
        ..b
    }
}

/// Whether a counter-side fill would leave the position closed (the net
/// quantity reaches exactly zero).
pub open spec fn dec_closes(b: Book, f: FillSpec) -> bool {
    upd_amount(b, f).0 == 0
}

/// Whether a counter-side fill would invert the position (the net quantity
/// changes sign without reaching zero).
pub open spec fn dec_inverts(b: Book, f: FillSpec) -> bool {
    !dec_closes(b, f) && sgn(b.amount) != sgn(upd_amount(b, f).0)
}

/// Profit realized by a counter-side fill: the whole holding's unrealized
/// value when it closes or inverts, or the decreased slice priced against
/// the average open price otherwise.
pub open spec fn dec_delta(b: Book, f: FillSpec) -> int {
    if dec_closes(b, f) || dec_inverts(b, f) {
        spec_unrealized(f.price, b.amount, b.asset_in_usd)
    } else {
        fmul(f.price - b.average_open_price, b.amount - upd_amount(b, f).0)
    }
}

/// Whether the realized profit right after a closing counter-fill is
/// positive; decides the default close reason.
pub open spec fn close_is_profit(b: Book, f: FillSpec) -> bool {
    b.pnl + dec_delta(b, f) > 0
}

/// The profit expected at the take-profit line, relative to the entry
/// price.
pub open spec fn spec_expected_profit(avg: int, tp: int, long: bool) -> int {
    if long {
        tp - avg
    } else {
        avg - tp
    }
}

/// The trailing retracement allowance: half the expected profit, as a
/// fraction of the entry price.
pub open spec fn spec_trailing_ratio(avg: int, tp: int, long: bool) -> int {
    fmul(fdiv(spec_expected_profit(avg, tp, long), avg), HALF_SCALE as int)
}

/// The dynamic stop: the recorded extreme pulled back toward the entry by
/// the trailing ratio.
pub open spec fn spec_stop_price(peak: int, ratio: int, long: bool) -> int {
    if long {
        fmul(peak, SCALE as int - ratio)
    } else {
        fmul(peak, SCALE as int + ratio)
    }
}

/// Whether the trailing stop fires: a take-profit line and an extreme must
/// both be recorded, the price must have retraced past the dynamic stop,
/// and the exit must still be profitable against the entry price.
pub open spec fn trailing_triggered(
    avg: int,
    tp: Option<int>,
    peak: Option<int>,
    long: bool,
    cp: int,
) -> bool {
    match tp {
        Option::None => false,
        Option::Some(tpv) => match peak {
            Option::None => false,
            Option::Some(pk) => {
                let ratio = spec_trailing_ratio(avg, tpv, long);
                let stop = spec_stop_price(pk, ratio, long);
                if long {
                    cp <= stop && cp > avg
                } else {
                    cp >= stop && cp < avg
                }
            },
        },
    }
}

/// Effect of a counter-side fill: realize profit on the part that offsets
/// the holding, then close, invert or merely shrink the position.
pub open spec fn dec_book(b: Book, f: FillSpec) -> Book {
    let am_as = upd_amount(b, f);
    let am2 = am_as.0;
    let ca2 = b.close_asset_in_usd + f.notional;
    let delta = dec_delta(b, f);
    let pnl2 = b.pnl + delta;
    let as3 = am_as.1 - delta;
    if dec_closes(b, f) {
        Book {
            stage: Stage::Closed,
            amount: 0,
            asset_in_usd: 0,
            pnl: pnl2 + as3 - b.fee,
            close_asset_in_usd: ca2,
            close_price: f.price,
            ..b
        }
    } else if dec_inverts(b, f) {
        Book {
            amount: am2,
            asset_in_usd: as3,
            pnl: pnl2,
            close_asset_in_usd: ca2,
            average_open_price: f.price,
            take_profit_price: f.take_profit_price,
            cut_loss_price: f.cut_loss_price,
            position_type: b.position_type.spec_opposite(),
            ..b
        }
    } else {
        Book { amount: am2, asset_in_usd: as3, pnl: pnl2, close_asset_in_usd: ca2, ..b }
    }
}

/// A fill is accepted in every stage but `Closed`.
pub open spec fn fill_allowed(b: Book) -> bool {
    !(b.stage is Closed)
}

/// Effect of a fill on the money-bearing core: the fee accumulates, a
/// position in its opening phase adopts the fill's direction, and the fill
/// then increases or decreases the position.
pub open spec fn fill_book(b: Book, f: FillSpec) -> Book {
    let b1 = Book {
        fee: b.fee + f.fee,
        position_type: if b.stage is Opening {
            f.position_type
        } else {
            b.position_type
        },
        ..b
    };
    if b1.position_type == f.position_type {
        inc_book(b1, f)
    } else {
        dec_book(b1, f)
    }
}

/// The argument ranges a fill must respect: positive quantity and price,
/// non-negative notional and fee, thresholds positive when given, all
/// within the accounting range.
pub open spec fn fill_ok(f: FillSpec) -> bool {
    &&& 1 <= f.amount <= MAX_RAW
    &&& 1 <= f.price <= MAX_RAW
    &&& 0 <= f.notional <= MAX_RAW
    &&& 0 <= f.fee
    &&& (f.take_profit_price matches Option::Some(v) ==> 1 <= v <= MAX_RAW)
    &&& (f.cut_loss_price matches Option::Some(v) ==> 1 <= v <= MAX_RAW)
}

/// The machine limits a fill must respect on top of [`fill_ok`]: running
/// sums and the resulting profit and notional stay in the accounting range.
pub open spec fn fill_fits(b: Book, f: FillSpec) -> bool {
    let r = fill_book(b, f);
    &&& in_bounds(b.amount + f.amount)
    &&& in_bounds(b.amount - f.amount)
    &&& in_bounds(b.asset_in_usd + f.notional)
    &&& in_bounds(b.asset_in_usd - f.notional)
    &&& in_bounds(b.fee + f.fee)
    &&& in_bounds(b.close_asset_in_usd + f.notional)
    &&& in_bounds(r.pnl)
    &&& in_bounds(r.asset_in_usd)
}

/// A fill model carrying only what the amount-and-profit update reads:
/// direction, price, quantity and notional.
pub open spec fn counter_fill(pt: PositionType, price: int, amount: int, notional: int) -> FillSpec {
    FillSpec {
        position_type: pt,
        price: price,
        amount: amount,
        notional: notional,
        fee: 0,
        take_profit_price: Option::None,
        cut_loss_price: Option::None,
    }
}

/// The fill model of one `on_filled` call's arguments.
pub open spec fn fill_of(
    pt: PositionType,
    price: Decimal,
    amount: Decimal,
    notional: Decimal,
    fee: int,
    tp: Option<Decimal>,
    cl: Option<Decimal>,
) -> FillSpec {
    FillSpec {
        position_type: pt,
        price: price@,
        amount: amount@,
        notional: notional@,
        fee: fee,
        take_profit_price: opt_view(tp),
        cut_loss_price: opt_view(cl),
    }
}

/// The profit a counter-side fill realizes is bounded by a fixed multiple
/// of the squared accounting range.
pub proof fn lemma_dec_delta_bound(b: Book, f: FillSpec)
    requires
        in_bounds(b.amount),
        in_bounds(b.asset_in_usd),
        0 <= b.average_open_price <= MAX_RAW,
        1 <= f.price <= MAX_RAW,
        1 <= f.amount <= MAX_RAW,
    ensures
        -2 * MAX_RAW as int * MAX_RAW as int <= dec_delta(b, f) <= 2 * MAX_RAW as int * MAX_RAW
            as int,
{
    let m = MAX_RAW as int;
    if dec_closes(b, f) || dec_inverts(b, f) {
        lemma_abs_mul(b.amount, f.price, m, m);
        lemma_tdiv_bound(b.amount * f.price, SCALE as int, m * m);
    } else {
        lemma_abs_mul(f.price - b.average_open_price, b.amount - upd_amount(b, f).0, m, m);
        lemma_tdiv_bound(
            (f.price - b.average_open_price) * (b.amount - upd_amount(b, f).0),
            SCALE as int,
            m * m,
        );
    }
}

/// Declares the candle-pattern diagnostic type of `debot_db`; values of it
/// are carried through untouched, never inspected.
#[verifier::external_type_specification]
#[verifier::external_body]
pub struct ExCandlePattern(debot_db::CandlePattern);

/// Relies on `debot_utils::get_local_time`: the current wall-clock time as
/// a unix timestamp and a formatted string. Nothing is promised of the
/// values; they only feed diagnostic fields.
#[verifier::external_body]
fn local_time() -> (r: (i64, String)) {
    debot_utils::get_local_time()
}

/// One tradable position: identity, fill accounting, risk thresholds,
/// lifecycle state and tick counters, plus opaque indicator snapshots
/// carried for reporting only.
pub struct Position {
    pub id: u32,
    pub fund_name: String,
    pub state: PositionState,
    pub token_name: String,
    pub tick_count: u32,
    pub actual_entry_tick: u32,
    pub actual_hold_tick: u32,
    pub max_holding_tick_count: u32,
    pub exit_timeout_tick_count: u32,
    pub open_time_str: String,
    pub open_timestamp: i64,
    pub close_time_str: String,
    pub average_open_price: Decimal,
    pub position_type: PositionType,
    pub target_price: Decimal,
    pub take_profit_price: Option<Decimal>,
    pub cut_loss_price: Option<Decimal>,
    pub close_price: Decimal,
    pub close_asset_in_usd: Decimal,
    pub amount: Decimal,
    pub asset_in_usd: Decimal,
    pub pnl: Decimal,
    pub fee: Decimal,
    /// Running favourable extreme (peak for a long, trough for a short),
    /// recorded once the take-profit line has been crossed. Updated during
    /// risk evaluation, which therefore takes `&mut self`.
    pub trailing_peak_price: Option<Decimal>,
    pub atr: (Decimal, Decimal, Decimal, Decimal, Decimal, Decimal),
    pub adx: (Decimal, Decimal, Decimal, Decimal, Decimal, Decimal),
    pub rsi: (Decimal, Decimal, Decimal, Decimal, Decimal, Decimal),
    pub stochastic: (Decimal, Decimal, Decimal, Decimal, Decimal, Decimal),
    pub price: (Decimal, Decimal, Decimal, Decimal, Decimal, Decimal),
    pub candle_pattern: (
        debot_db::CandlePattern,
        debot_db::CandlePattern,
        debot_db::CandlePattern,
        debot_db::CandlePattern,
        debot_db::CandlePattern,
        debot_db::CandlePattern,
    ),
    pub take_profit_ratio: Decimal,
    pub atr_spread: Decimal,
    pub risk_reward: Decimal,
    pub atr_term: Decimal,
    pub tick_spread: i64,
    pub bias_ticks: i64,
    pub last_volume: Option<Decimal>,
    pub last_num_trades: Option<u64>,
    pub last_funding_rate: Option<Decimal>,
    pub last_open_interest: Option<Decimal>,
    pub last_oracle_price: Option<Decimal>,
}

impl Position {
    /// The money-bearing core of the position.
    pub open spec fn book(self) -> Book {
        Book {
            stage: stage_of(self.state),
            position_type: self.position_type,
            amount: self.amount@,
            asset_in_usd: self.asset_in_usd@,
            average_open_price: self.average_open_price@,
            pnl: self.pnl@,
            fee: self.fee@,
            close_asset_in_usd: self.close_asset_in_usd@,
            close_price: self.close_price@,
            take_profit_price: opt_view(self.take_profit_price),
            cut_loss_price: opt_view(self.cut_loss_price),
        }
    }

    /// Well-formedness: every money-bearing field stays in the accounting
    /// range, the fee is non-negative, and the average open price is
    /// positive whenever quantity is held or a take-profit line is set.
    pub open spec fn wf(self) -> bool {
        &&& in_bounds(self.amount@)
        &&& in_bounds(self.asset_in_usd@)
        &&& in_bounds(self.pnl@)
        &&& 0 <= self.fee@ <= MAX_RAW
        &&& in_bounds(self.close_asset_in_usd@)
        &&& 0 <= self.average_open_price@ <= MAX_RAW
        &&& (self.amount@ != 0 ==> 1 <= self.average_open_price@)
        &&& (self.take_profit_price matches Option::Some(tp) ==> 1 <= tp@ <= MAX_RAW
            && 1 <= self.average_open_price@)
        &&& (self.cut_loss_price matches Option::Some(cl) ==> 1 <= cl@ <= MAX_RAW)
        &&& (self.trailing_peak_price matches Option::Some(pk) ==> 0 <= pk@ <= MAX_RAW)
    }

    /// Creates a position in its opening phase with empty accounting and
    /// the given identity, configuration and indicator snapshots.
    pub fn new(
        id: u32,
        fund_name: &str,
        exit_timeout_tick_count: u32,
        max_holding_tick_count: u32,
        token_name: &str,
        position_type: PositionType,
        target_price: Decimal,
        atr: (Decimal, Decimal, Decimal, Decimal, Decimal, Decimal),
        adx: (Decimal, Decimal, Decimal, Decimal, Decimal, Decimal),
        rsi: (Decimal, Decimal, Decimal, Decimal, Decimal, Decimal),
        stochastic: (Decimal, Decimal, Decimal, Decimal, Decimal, Decimal),
        price: (Decimal, Decimal, Decimal, Decimal, Decimal, Decimal),
        candle_pattern: (
            debot_db::CandlePattern,
            debot_db::CandlePattern,
            debot_db::CandlePattern,
            debot_db::CandlePattern,
            debot_db::CandlePattern,
            debot_db::CandlePattern,
        ),
        take_profit_ratio: Decimal,
        atr_spread: Decimal,
        risk_reward: Decimal,
        atr_term: Decimal,
        tick_spread: i64,
        bias_ticks: i64,
        last_volume: Option<Decimal>,
        last_num_trades: Option<u64>,
        last_funding_rate: Option<Decimal>,
        last_open_interest: Option<Decimal>,
        last_oracle_price: Option<Decimal>,
    ) -> (r: Position)
        ensures
            r.wf(),
            r.book() == (Book {
                stage: Stage::Opening,
                position_type: position_type,
                amount: 0,
                asset_in_usd: 0,
                average_open_price: 0,
                pnl: 0,
                fee: 0,
                close_asset_in_usd: 0,
                close_price: 0,
                take_profit_price: Option::None,
                cut_loss_price: Option::None,
            }),
            r.id == id,
            r.fund_name@ == fund_name@,
            r.token_name@ == token_name@,
            r.state is Opening,
            r.tick_count == 0,
            r.actual_entry_tick == 0,
            r.actual_hold_tick == 0,
            r.max_holding_tick_count == max_holding_tick_count,
            r.exit_timeout_tick_count == exit_timeout_tick_count,
            r.open_time_str@ == Seq::<char>::empty(),
            r.open_timestamp == 0,
            r.close_time_str@ == Seq::<char>::empty(),
            r.position_type == position_type,
            r.target_price == target_price,
            r.trailing_peak_price is None,
            r.atr == atr,
            r.adx == adx,
            r.rsi == rsi,
            r.stochastic == stochastic,
            r.price == price,
            r.candle_pattern == candle_pattern,
            r.take_profit_ratio == take_profit_ratio,
            r.atr_spread == atr_spread,
            r.risk_reward == risk_reward,
            r.atr_term == atr_term,
            r.tick_spread == tick_spread,
            r.bias_ticks == bias_ticks,
            r.last_volume == last_volume,
            r.last_num_trades == last_num_trades,
            r.last_funding_rate == last_funding_rate,
            r.last_open_interest == last_open_interest,
            r.last_oracle_price == last_oracle_price,
    {
        let decimal_0 = Decimal::zero();
        Position {
            id,
            fund_name: fund_name.to_owned(),
            tick_count: 0,
            actual_entry_tick: 0,
            actual_hold_tick: 0,
            max_holding_tick_count,
            exit_timeout_tick_count,
            state: PositionState::Opening,
            token_name: token_name.to_owned(),
            open_time_str: String::new(),
            open_timestamp: 0,
            close_time_str: String::new(),
            average_open_price: decimal_0,
            position_type,
            target_price,
            take_profit_price: None,
            cut_loss_price: None,
            close_price: decimal_0,
            close_asset_in_usd: decimal_0,
            amount: decimal_0,
            asset_in_usd: decimal_0,
            pnl: decimal_0,
            fee: decimal_0,
            trailing_peak_price: None,
            atr,
            adx,
            rsi,
            price,
            candle_pattern,
            take_profit_ratio,
            stochastic,
            atr_spread,
            risk_reward,
            atr_term,
            tick_spread,
            bias_ticks,
            last_volume,
            last_num_trades,
            last_funding_rate,
            last_open_interest,
            last_oracle_price,
        }
    }

    /// Stamps the open time from the wall clock; diagnostic only.
    fn set_open_time(&mut self)
        ensures
            (*final(self)) == (Position {
                open_timestamp: final(self).open_timestamp,
                open_time_str: final(self).open_time_str,
                ..(*old(self))
            }),
    {
        let t = local_time();
        self.open_timestamp = t.0;
        self.open_time_str = t.1;
    }

    /// Stamps the close time from the wall clock; diagnostic only.
    fn set_close_time(&mut self)
        ensures
            (*final(self)) == (Position { close_time_str: final(self).close_time_str, ..(*old(self)) }),
    {
        let t = local_time();
        self.close_time_str = t.1;
    }

    /// Moves the state machine. Entering `Closing` records the held tick
    /// count and restarts the counter; the first entry into `Open` records
    /// the entry tick count, restarts the counter and stamps the open
    /// time; requesting `Open` while `Closing` is ignored (fills during an
    /// exit leave the exit in progress); entering `Closed` stamps the
    /// close time.
    fn update_state(&mut self, new_state: PositionState)
        ensures
            new_state is Closing ==> (*final(self)) == (Position {
                state: new_state,
                actual_hold_tick: old(self).tick_count,
                tick_count: 0,
                ..(*old(self))
            }),
            new_state is Open && old(self).state is Opening ==> (*final(self)) == (Position {
                state: new_state,
                actual_entry_tick: old(self).tick_count,
                tick_count: 0,
                open_timestamp: final(self).open_timestamp,
                open_time_str: final(self).open_time_str,
                ..(*old(self))
            }),
            new_state is Open && old(self).state is Closing ==> (*final(self)) == (*old(self)),
            new_state is Open && !(old(self).state is Opening) && !(old(self).state is Closing)
                ==> (*final(self)) == (Position { state: new_state, ..(*old(self)) }),
            new_state is Closed ==> (*final(self)) == (Position {
                state: new_state,
                close_time_str: final(self).close_time_str,
                ..(*old(self))
            }),
            new_state is Opening ==> (*final(self)) == (Position { state: new_state, ..(*old(self)) }),
    {
        match &new_state {
            PositionState::Closing(_) => {
                self.actual_hold_tick = self.tick_count;
                self.tick_count = 0;
            },
            PositionState::Open => {
                match &self.state {
                    PositionState::Opening => {
                        self.actual_entry_tick = self.tick_count;
                        self.tick_count = 0;
                        self.set_open_time();
                    },
                    PositionState::Closing(_) => {
                        return ;
                    },
                    _ => {},
                }
            },
            PositionState::Closed(_) => {
                self.set_close_time();
            },
            _ => {},
        }
        self.state = new_state;
    }

    /// Asks the position to start closing for `reason`. Only an open
    /// position may do so; in any other state the request is rejected and
    /// nothing changes.
    pub fn request_close(&mut self, reason: &str) -> (r: Result<(), PositionError>)
        ensures
            r is Ok <==> old(self).state is Open,
            r is Err ==> (*final(self)) == (*old(self)) && r == Err::<(), PositionError>(
                PositionError::InvalidStateTransition,
            ),
            r is Ok ==> final(self).state is Closing && final(self).state->Closing_0@ == reason@
                && final(self).actual_hold_tick == old(self).tick_count
                && final(self).tick_count == 0
                && (*final(self)) == (Position {
                state: final(self).state,
                actual_hold_tick: old(self).tick_count,
                tick_count: 0,
                ..(*old(self))
            }),
    {
        if !(matches!(self.state, PositionState::Open)) {
            return Err(PositionError::InvalidStateTransition);
        }
        self.update_state(PositionState::Closing(reason.to_owned()));
        Ok(())
    }

    /// Abandons a close request, returning the position to `Open`. The
    /// tick counter restarts at the maximum holding count, so the position
    /// is immediately eligible for the next expiry window instead of
    /// regaining its full holding budget. In any state but `Closing` the
    /// call is rejected and nothing changes.
    pub fn cancel_closing(&mut self) -> (r: Result<(), PositionError>)
        ensures
            r is Ok <==> old(self).state is Closing,
            r is Err ==> (*final(self)) == (*old(self)) && r == Err::<(), PositionError>(
                PositionError::InvalidStateTransition,
            ),
            r is Ok ==> (*final(self)) == (Position {
                state: PositionState::Open,
                tick_count: old(self).max_holding_tick_count,
                ..(*old(self))
            }),
    {
        if !(matches!(self.state, PositionState::Closing(_))) {
            return Err(PositionError::InvalidStateTransition);
        }
        self.state = PositionState::Open;
        self.tick_count = self.max_holding_tick_count;
        Ok(())
    }

    /// Whether a pending close request has waited past its timeout.
    pub fn should_cancel_closing(&self) -> (r: bool)
        ensures
            r == (self.state is Closing && self.tick_count > self.exit_timeout_tick_count),
    {
        match &self.state {
            PositionState::Closing(_) => self.tick_count > self.exit_timeout_tick_count,
            _ => false,
        }
    }

    /// Cash-equivalent value of `amount` units booked at `asset_in_usd`,
    /// marked at `price`.
    fn unrealized_pnl(price: Decimal, amount: Decimal, asset_in_usd: Decimal) -> (r: Decimal)
        requires
            fits_i128(amount@ * price@),
            fits_i128(fmul(amount@, price@) + asset_in_usd@),
        ensures
            r@ == spec_unrealized(price@, amount@, asset_in_usd@),
    {
        amount.mul(price).add(asset_in_usd)
    }

    /// Books `pnl` as realized: it moves out of the open notional.
    fn realize_pnl(&mut self, pnl: Decimal)
        requires
            fits_i128(old(self).pnl@ + pnl@),
            fits_i128(old(self).asset_in_usd@ - pnl@),
        ensures
            final(self).pnl@ == old(self).pnl@ + pnl@,
            final(self).asset_in_usd@ == old(self).asset_in_usd@ - pnl@,
            (*final(self)) == (Position {
                pnl: final(self).pnl,
                asset_in_usd: final(self).asset_in_usd,
                ..(*old(self))
            }),
    {
        self.pnl = self.pnl.add(pnl);
        self.asset_in_usd = self.asset_in_usd.sub(pnl);
    }

    /// Applies a fill's quantity and notional: buying adds quantity and
    /// pays cash, selling removes quantity and receives cash.
    fn update_amount(&mut self, position_type: PositionType, amount: Decimal, asset_in_usd: Decimal)
        requires
            fits_i128(old(self).amount@ + amount@),
            fits_i128(old(self).amount@ - amount@),
            fits_i128(old(self).asset_in_usd@ + asset_in_usd@),
            fits_i128(old(self).asset_in_usd@ - asset_in_usd@),
        ensures
            position_type is Long ==> final(self).amount@ == old(self).amount@ + amount@
                && final(self).asset_in_usd@ == old(self).asset_in_usd@ - asset_in_usd@,
            !(position_type is Long) ==> final(self).amount@ == old(self).amount@ - amount@
                && final(self).asset_in_usd@ == old(self).asset_in_usd@ + asset_in_usd@,
            (*final(self)) == (Position {
                amount: final(self).amount,
                asset_in_usd: final(self).asset_in_usd,
                ..(*old(self))
            }),
    {
        if matches!(position_type, PositionType::Long) {
            self.amount = self.amount.add(amount);
            self.asset_in_usd = self.asset_in_usd.sub(asset_in_usd);
        } else {
            self.amount = self.amount.sub(amount);
            self.asset_in_usd = self.asset_in_usd.add(asset_in_usd);
        }
    }

    /// Profit realized by a counter-side fill: the decreased slice priced
    /// against the average open price, or the whole prior holding's
    /// unrealized value when the fill closes or inverts the position.
    fn calculate_pnl_for_update(
        &self,
        update_result: &UpdateResult,
        prev_amount: Decimal,
        close_price: Decimal,
        prev_asset_in_usd: Decimal,
    ) -> (r: Decimal)
        requires
            fits_i128(close_price@ - self.average_open_price@),
            fits_i128(prev_amount@ - self.amount@),
            fits_i128((close_price@ - self.average_open_price@) * (prev_amount@ - self.amount@)),
            fits_i128(prev_amount@ * close_price@),
            fits_i128(fmul(prev_amount@, close_price@) + prev_asset_in_usd@),
        ensures
            update_result is Decreased ==> r@ == fmul(
                close_price@ - self.average_open_price@,
                prev_amount@ - self.amount@,
            ),
            !(update_result is Decreased) ==> r@ == spec_unrealized(
                close_price@,
                prev_amount@,
                prev_asset_in_usd@,
            ),
    {
        match update_result {
            UpdateResult::Decreased => {
                close_price.sub(self.average_open_price).mul(prev_amount.sub(self.amount))
            },
            _ => Self::unrealized_pnl(close_price, prev_amount, prev_asset_in_usd),
        }
    }

    /// Applies a counter-side fill to quantity, notional and realized
    /// profit, and classifies the outcome as closed, inverted or merely
    /// decreased.
    fn update_amount_and_pnl(
        &mut self,
        position_type: PositionType,
        amount: Decimal,
        asset_in_usd: Decimal,
        close_price: Decimal,
    ) -> (res: UpdateResult)
        requires
            in_bounds(old(self).amount@),
            in_bounds(old(self).asset_in_usd@),
            in_bounds(old(self).pnl@),
            0 <= old(self).average_open_price@ <= MAX_RAW,
            1 <= amount@ <= MAX_RAW,
            0 <= asset_in_usd@ <= MAX_RAW,
            1 <= close_price@ <= MAX_RAW,
            in_bounds(old(self).amount@ + amount@),
            in_bounds(old(self).amount@ - amount@),
            in_bounds(old(self).asset_in_usd@ + asset_in_usd@),
            in_bounds(old(self).asset_in_usd@ - asset_in_usd@),
        ensures
            ({
                let b = old(self).book();
                let f = counter_fill(position_type, close_price@, amount@, asset_in_usd@);
                &&& (res is Closed <==> dec_closes(b, f))
                &&& (res is Inverted <==> dec_inverts(b, f))
                &&& (res is Decreased <==> !dec_closes(b, f) && !dec_inverts(b, f))
                &&& final(self).amount@ == upd_amount(b, f).0
                &&& final(self).asset_in_usd@ == upd_amount(b, f).1 - dec_delta(b, f)
                &&& final(self).pnl@ == old(self).pnl@ + dec_delta(b, f)
                &&& (*final(self)) == (Position {
                    amount: final(self).amount,
                    asset_in_usd: final(self).asset_in_usd,
                    pnl: final(self).pnl,
                    ..(*old(self))
                })
            }),
    {
        let prev_asset_in_usd = self.asset_in_usd;
        let prev_amount = self.amount;

        self.update_amount(position_type, amount, asset_in_usd);

        let update_result = if self.amount.is_zero() {
            UpdateResult::Closed
        } else if (prev_amount.lt(Decimal::zero()) != self.amount.lt(Decimal::zero())) || (
        prev_amount.is_zero() != self.amount.is_zero()) {
            UpdateResult::Inverted
        } else {
            UpdateResult::Decreased
        };

        proof {
            lemma_abs_mul(
                close_price@ - self.average_open_price@,
                prev_amount@ - self.amount@,
                2 * MAX_RAW as int,
                2 * MAX_RAW as int,
            );
            lemma_abs_mul(prev_amount@, close_price@, MAX_RAW as int, MAX_RAW as int);
            lemma_tdiv_bound(
                (close_price@ - self.average_open_price@) * (prev_amount@ - self.amount@),
                SCALE as int,
                4 * MAX_RAW as int * MAX_RAW as int,
            );
            lemma_tdiv_bound(
                prev_amount@ * close_price@,
                SCALE as int,
                MAX_RAW as int * MAX_RAW as int,
            );
        }
        let pnl = self.calculate_pnl_for_update(
            &update_result,
            prev_amount,
            close_price,
            prev_asset_in_usd,
        );
        self.realize_pnl(pnl);

        update_result
    }

    /// Settles and closes the position at `close_price`: the remaining
    /// holding's unrealized value and the open notional are folded into
    /// the realized profit, the accumulated fee is charged, and the
    /// position ends `Closed`. A reason recorded by an active close
    /// request wins over the `reason` supplied here.
    fn delete(&mut self, close_price: Decimal, reason: &str)
        requires
            fits_i128(old(self).amount@ * close_price@),
            fits_i128(fmul(old(self).amount@, close_price@) + old(self).asset_in_usd@),
            fits_i128(
                old(self).pnl@ + spec_unrealized(
                    close_price@,
                    old(self).amount@,
                    old(self).asset_in_usd@,
                ),
            ),
            fits_i128(
                old(self).pnl@ + spec_unrealized(
                    close_price@,
                    old(self).amount@,
                    old(self).asset_in_usd@,
                ) - old(self).fee@,
            ),
        ensures
            final(self).state is Closed,
            old(self).state is Closing ==> final(self).state->Closed_0@ == old(
                self,
            ).state->Closing_0@,
            !(old(self).state is Closing) ==> final(self).state->Closed_0@ == reason@,
            final(self).close_price@ == close_price@,
            final(self).pnl@ == old(self).pnl@ + spec_unrealized(
                close_price@,
                old(self).amount@,
                old(self).asset_in_usd@,
            ) - old(self).fee@,
            final(self).amount@ == 0,
            final(self).asset_in_usd@ == 0,
            (*final(self)) == (Position {
                state: final(self).state,
                close_time_str: final(self).close_time_str,
                close_price: close_price,
                pnl: final(self).pnl,
                amount: final(self).amount,
                asset_in_usd: final(self).asset_in_usd,
                ..(*old(self))
            }),
    {
        let closing_reason: Option<String> = match &self.state {
            PositionState::Closing(r0) => Some(r0.clone()),
            _ => None,
        };
        match closing_reason {
            Some(r1) => self.update_state(PositionState::Closed(r1)),
            None => self.update_state(PositionState::Closed(reason.to_owned())),
        }

        self.close_price = close_price;
        let u = Self::unrealized_pnl(close_price, self.amount, self.asset_in_usd);
        self.pnl = self.pnl.add(u);
        self.pnl = self.pnl.sub(self.fee);
        self.amount = Decimal::zero();
        self.asset_in_usd = Decimal::zero();
    }

    /// Applies a same-direction fill: the average open price and both
    /// thresholds are re-blended as amount-weighted averages, quantity and
    /// notional grow, and a position still opening becomes open.
    fn increase(
        &mut self,
        position_type: PositionType,
        filled_price: Decimal,
        take_profit_price: Option<Decimal>,
        cut_loss_price: Option<Decimal>,
        amount: Decimal,
        asset_in_usd: Decimal,
        current_price: Decimal,
    )
        requires
            old(self).wf(),
            !(old(self).state is Closed),
            1 <= filled_price@ <= MAX_RAW,
            1 <= amount@ <= MAX_RAW,
            0 <= asset_in_usd@ <= MAX_RAW,
            take_profit_price matches Option::Some(v) ==> 1 <= v@ <= MAX_RAW,
            cut_loss_price matches Option::Some(v) ==> 1 <= v@ <= MAX_RAW,
            in_bounds(old(self).amount@ + amount@),
            in_bounds(old(self).amount@ - amount@),
            in_bounds(old(self).asset_in_usd@ + asset_in_usd@),
            in_bounds(old(self).asset_in_usd@ - asset_in_usd@),
        ensures
            final(self).wf(),
            final(self).book() == inc_book(
                old(self).book(),
                fill_of(
                    position_type,
                    filled_price,
                    amount,
                    asset_in_usd,
                    0,
                    take_profit_price,
                    cut_loss_price,
                ),
            ),
            old(self).state is Closing ==> final(self).state == old(self).state,
            !(old(self).state is Closing) ==> final(self).state == PositionState::Open,
            old(self).state is Opening ==> final(self).actual_entry_tick == old(self).tick_count
                && final(self).tick_count == 0,
            !(old(self).state is Opening) ==> final(self).tick_count == old(self).tick_count
                && final(self).actual_entry_tick == old(self).actual_entry_tick
                && final(self).open_time_str == old(self).open_time_str
                && final(self).open_timestamp == old(self).open_timestamp,
            final(self).actual_hold_tick == old(self).actual_hold_tick,
            final(self).close_time_str == old(self).close_time_str,
            (*final(self)) == (Position {
                state: final(self).state,
                tick_count: final(self).tick_count,
                actual_entry_tick: final(self).actual_entry_tick,
                open_time_str: final(self).open_time_str,
                open_timestamp: final(self).open_timestamp,
                average_open_price: final(self).average_open_price,
                take_profit_price: final(self).take_profit_price,
                cut_loss_price: final(self).cut_loss_price,
                amount: final(self).amount,
                asset_in_usd: final(self).asset_in_usd,
                ..(*old(self))
            }),
    {
        let current_amount = self.amount.abs();

        let new_avg = weighted_average(
            self.average_open_price,
            current_amount,
            filled_price,
            amount,
        );
        proof {
            if current_amount@ == 0 {
                lemma_tdiv_exact(filled_price@, amount@);
            } else {
                lemma_wavg_bounds(
                    self.average_open_price@,
                    current_amount@,
                    filled_price@,
                    amount@,
                    1,
                    MAX_RAW as int,
                );
            }
        }
        self.average_open_price = new_avg;

        self.take_profit_price = match take_profit_price {
            Some(new_price) => match self.take_profit_price {
                Some(current) => {
                    proof {
                        lemma_wavg_bounds(
                            current@,
                            current_amount@,
                            new_price@,
                            amount@,
                            1,
                            MAX_RAW as int,
                        );
                    }
                    Some(weighted_average(current, current_amount, new_price, amount))
                },
                None => Some(new_price),
            },
            None => None,
        };

        self.cut_loss_price = match cut_loss_price {
            Some(new_price) => match self.cut_loss_price {
                Some(current) => {
                    proof {
                        lemma_wavg_bounds(
                            current@,
                            current_amount@,
                            new_price@,
                            amount@,
                            1,
                            MAX_RAW as int,
                        );
                    }
                    Some(weighted_average(current, current_amount, new_price, amount))
                },
                None => Some(new_price),
            },
            None => None,
        };

        self.update_amount(position_type, amount, asset_in_usd);
        self.update_state(PositionState::Open);
    }

    /// Applies a counter-side fill: profit is realized on the offset part,
    /// and the position closes, inverts or shrinks. An inversion re-seeds
    /// the average open price at the fill price and takes the newly
    /// supplied thresholds unblended.
    fn decrease(
        &mut self,
        position_type: PositionType,
        filled_price: Decimal,
        take_profit_price: Option<Decimal>,
        cut_loss_price: Option<Decimal>,
        amount: Decimal,
        asset_in_usd: Decimal,
        current_price: Decimal,
    )
        requires
            old(self).wf(),
            1 <= filled_price@ <= MAX_RAW,
            1 <= amount@ <= MAX_RAW,
            0 <= asset_in_usd@ <= MAX_RAW,
            take_profit_price matches Option::Some(v) ==> 1 <= v@ <= MAX_RAW,
            cut_loss_price matches Option::Some(v) ==> 1 <= v@ <= MAX_RAW,
            in_bounds(old(self).amount@ + amount@),
            in_bounds(old(self).amount@ - amount@),
            in_bounds(old(self).asset_in_usd@ + asset_in_usd@),
            in_bounds(old(self).asset_in_usd@ - asset_in_usd@),
            in_bounds(old(self).close_asset_in_usd@ + asset_in_usd@),
            in_bounds(
                dec_book(
                    old(self).book(),
                    fill_of(
                        position_type,
                        filled_price,
                        amount,
                        asset_in_usd,
                        0,
                        take_profit_price,
                        cut_loss_price,
                    ),
                ).pnl,
            ),
            in_bounds(
                dec_book(
                    old(self).book(),
                    fill_of(
                        position_type,
                        filled_price,
                        amount,
                        asset_in_usd,
                        0,
                        take_profit_price,
                        cut_loss_price,
                    ),
                ).asset_in_usd,
            ),
        ensures
            final(self).wf(),
            final(self).book() == dec_book(
                old(self).book(),
                fill_of(
                    position_type,
                    filled_price,
                    amount,
                    asset_in_usd,
                    0,
                    take_profit_price,
                    cut_loss_price,
                ),
            ),
            ({
                let pre = *old(self);
                let post = *final(self);
                let b = pre.book();
                let f = counter_fill(position_type, filled_price@, amount@, asset_in_usd@);
                &&& (dec_closes(b, f) ==> {
                    &&& post.state is Closed
                    &&& (pre.state is Closing ==> post.state->Closed_0@ == pre.state->Closing_0@)
                    &&& (!(pre.state is Closing) ==> post.state->Closed_0@ == (
                    if close_is_profit(b, f) {
                        "TakeProfit"@
                    } else {
                        "CutLoss"@
                    }))
                })
                &&& (!dec_closes(b, f) ==> post.state == pre.state && post.close_time_str
                    == pre.close_time_str)
            }),
            final(self).tick_count == old(self).tick_count,
            final(self).actual_entry_tick == old(self).actual_entry_tick,
            final(self).actual_hold_tick == old(self).actual_hold_tick,
            final(self).open_time_str == old(self).open_time_str,
            final(self).open_timestamp == old(self).open_timestamp,
            (*final(self)) == (Position {
                state: final(self).state,
                close_time_str: final(self).close_time_str,
                average_open_price: final(self).average_open_price,
                take_profit_price: final(self).take_profit_price,
                cut_loss_price: final(self).cut_loss_price,
                position_type: final(self).position_type,
                amount: final(self).amount,
                asset_in_usd: final(self).asset_in_usd,
                pnl: final(self).pnl,
                close_asset_in_usd: final(self).close_asset_in_usd,
                close_price: final(self).close_price,
                ..(*old(self))
            }),
    {
        proof {
            lemma_dec_delta_bound(
                old(self).book(),
                counter_fill(position_type, filled_price@, amount@, asset_in_usd@),
            );
        }
        self.close_asset_in_usd = self.close_asset_in_usd.add(asset_in_usd);

        let result = self.update_amount_and_pnl(position_type, amount, asset_in_usd, filled_price);

        match result {
            UpdateResult::Closed => {
                proof {
                    lemma_tdiv_bound(0, SCALE as int, 0);
                }
                let reason = if self.pnl.gt(Decimal::zero()) {
                    "TakeProfit"
                } else {
                    "CutLoss"
                };
                self.delete(filled_price, reason);
            },
            UpdateResult::Inverted => {
                self.average_open_price = filled_price;
                self.take_profit_price = take_profit_price;
                self.cut_loss_price = cut_loss_price;
                self.position_type = self.position_type.opposite();
            },
            UpdateResult::Decreased => {},
        }
    }

    /// Books one fill event. Rejected, leaving the position untouched, in
    /// any terminal state, or when the fill's arguments are malformed: the
    /// quantity and price must be positive, the notional and fee
    /// non-negative, thresholds positive where given, all within the
    /// accounting range. Otherwise the fee accumulates, a position still
    /// opening adopts the fill's direction, and the fill increases the
    /// position when its direction matches, or decreases, inverts or
    /// closes it when it runs counter. The money-bearing effect is exactly
    /// [`fill_book`] on the position's [`Book`].
    pub fn on_filled(
        &mut self,
        position_type: PositionType,
        filled_price: Decimal,
        amount: Decimal,
        asset_in_usd: Decimal,
        fee: Decimal,
        take_profit_price: Option<Decimal>,
        cut_loss_price: Option<Decimal>,
        current_price: Decimal,
    ) -> (r: Result<(), PositionError>)
        requires
            old(self).wf(),
            fill_allowed(old(self).book()) && fill_ok(
                fill_of(
                    position_type,
                    filled_price,
                    amount,
                    asset_in_usd,
                    fee@,
                    take_profit_price,
                    cut_loss_price,
                ),
            ) ==> fill_fits(
                old(self).book(),
                fill_of(
                    position_type,
                    filled_price,
                    amount,
                    asset_in_usd,
                    fee@,
                    take_profit_price,
                    cut_loss_price,
                ),
            ),
        ensures
            r is Ok <==> fill_allowed(old(self).book()) && fill_ok(
                fill_of(
                    position_type,
                    filled_price,
                    amount,
                    asset_in_usd,
                    fee@,
                    take_profit_price,
                    cut_loss_price,
                ),
            ),
            r is Err ==> (*final(self)) == (*old(self)),
            !fill_allowed(old(self).book()) ==> r == Err::<(), PositionError>(
                PositionError::InvalidStateTransition,
            ),
            r is Err && fill_allowed(old(self).book()) ==> r == Err::<(), PositionError>(
                PositionError::InvalidFill,
            ),
            r is Ok ==> final(self).wf() && final(self).book() == fill_book(
                old(self).book(),
                fill_of(
                    position_type,
                    filled_price,
                    amount,
                    asset_in_usd,
                    fee@,
                    take_profit_price,
                    cut_loss_price,
                ),
            ),
            r is Ok ==> ({
                let pre = *old(self);
                let post = *final(self);
                &&& (pre.state is Opening ==> post.actual_entry_tick == pre.tick_count
                    && post.tick_count == 0)
                &&& (!(pre.state is Opening) ==> {
                    &&& post.tick_count == pre.tick_count
                    &&& post.actual_entry_tick == pre.actual_entry_tick
                    &&& post.open_time_str == pre.open_time_str
                    &&& post.open_timestamp == pre.open_timestamp
                })
                &&& post.actual_hold_tick == pre.actual_hold_tick
                &&& (!(post.state is Closed) ==> post.close_time_str == pre.close_time_str)
                &&& (post.state is Closing ==> post.state == pre.state)
                &&& (post.state is Closed ==> {
                    &&& (pre.state is Closing ==> post.state->Closed_0@ == pre.state->Closing_0@)
                    &&& (!(pre.state is Closing) ==> post.state->Closed_0@ == (
                    if close_is_profit(
                        pre.book(),
                        counter_fill(position_type, filled_price@, amount@, asset_in_usd@),
                    ) {
                        "TakeProfit"@
                    } else {
                        "CutLoss"@
                    }))
                })
            }),
            r is Ok ==> (*final(self)) == (Position {
                state: final(self).state,
                tick_count: final(self).tick_count,
                actual_entry_tick: final(self).actual_entry_tick,
                open_time_str: final(self).open_time_str,
                open_timestamp: final(self).open_timestamp,
                close_time_str: final(self).close_time_str,
                average_open_price: final(self).average_open_price,
                position_type: final(self).position_type,
                take_profit_price: final(self).take_profit_price,
                cut_loss_price: final(self).cut_loss_price,
                close_price: final(self).close_price,
                close_asset_in_usd: final(self).close_asset_in_usd,
                amount: final(self).amount,
                asset_in_usd: final(self).asset_in_usd,
                pnl: final(self).pnl,
                fee: final(self).fee,
                ..(*old(self))
            }),
    {
        if !(matches!(
            self.state,
            PositionState::Opening | PositionState::Open | PositionState::Closing(_)
        )) {
            return Err(PositionError::InvalidStateTransition);
        }

        let thresholds_valid = (match take_profit_price {
            Some(v) => v.to_raw() >= 1 && v.to_raw() <= MAX_RAW,
            None => true,
        }) && (match cut_loss_price {
            Some(v) => v.to_raw() >= 1 && v.to_raw() <= MAX_RAW,
            None => true,
        });
        if !(thresholds_valid && amount.to_raw() >= 1 && amount.to_raw() <= MAX_RAW
            && filled_price.to_raw() >= 1 && filled_price.to_raw() <= MAX_RAW
            && asset_in_usd.to_raw() >= 0 && asset_in_usd.to_raw() <= MAX_RAW
            && fee.to_raw() >= 0) {
            return Err(PositionError::InvalidFill);
        }

        self.fee = self.fee.add(fee);

        if matches!(self.state, PositionState::Opening) {
            self.position_type = position_type;
        }

        if self.position_type == position_type {
            self.increase(
                position_type,
                filled_price,
                take_profit_price,
                cut_loss_price,
                amount,
                asset_in_usd,
                current_price,
            );
        } else {
            self.decrease(
                position_type,
                filled_price,
                take_profit_price,
                cut_loss_price,
                amount,
                asset_in_usd,
                current_price,
            );
        }

        Ok(())
    }

    /// Settles the position at `close_price` after an external
    /// liquidation or the completion of a requested close. With
    /// `do_liquidate` the close is forced in any live state and recorded
    /// as a liquidation (an active close request's reason still wins);
    /// without it the position must be `Closing` and its recorded reason
    /// is kept. In any other state the call is rejected and nothing
    /// changes.
    pub fn on_liquidated(
        &mut self,
        close_price: Decimal,
        fee: Decimal,
        do_liquidate: bool,
        liquidated_reason: Option<String>,
    ) -> (r: Result<(), PositionError>)
        requires
            old(self).wf(),
            0 <= fee@,
            in_bounds(old(self).fee@ + fee@),
            1 <= close_price@ <= MAX_RAW,
            in_bounds(
                old(self).pnl@ + spec_unrealized(
                    close_price@,
                    old(self).amount@,
                    old(self).asset_in_usd@,
                ) - (old(self).fee@ + fee@),
            ),
        ensures
            r is Ok <==> (if do_liquidate {
                !(old(self).state is Closed)
            } else {
                old(self).state is Closing
            }),
            r is Err ==> (*final(self)) == (*old(self)) && r == Err::<(), PositionError>(
                PositionError::InvalidStateTransition,
            ),
            r is Ok ==> ({
                let pre = *old(self);
                let post = *final(self);
                &&& post.wf()
                &&& post.state is Closed
                &&& (pre.state is Closing ==> post.state->Closed_0@ == pre.state->Closing_0@)
                &&& (!(pre.state is Closing) ==> (match liquidated_reason {
                    Option::Some(s) => post.state->Closed_0@ == "Liquidated, "@ + s@,
                    Option::None => post.state->Closed_0@ == "Liquidated"@,
                }))
                &&& post.fee@ == pre.fee@ + fee@
                &&& post.pnl@ == pre.pnl@ + spec_unrealized(close_price@, pre.amount@, pre.asset_in_usd@)
                    - (pre.fee@ + fee@)
                &&& post.amount@ == 0
                &&& post.asset_in_usd@ == 0
                &&& post.close_price@ == close_price@
                &&& post == (Position {
                    state: post.state,
                    close_time_str: post.close_time_str,
                    close_price: post.close_price,
                    pnl: post.pnl,
                    amount: post.amount,
                    asset_in_usd: post.asset_in_usd,
                    fee: post.fee,
                    ..pre
                })
            }),
    {
        if matches!(self.state, PositionState::Closed(_)) {
            return Err(PositionError::InvalidStateTransition);
        }
        if !do_liquidate && !(matches!(self.state, PositionState::Closing(_))) {
            return Err(PositionError::InvalidStateTransition);
        }

        self.fee = self.fee.add(fee);

        let reason: String = if do_liquidate {
            match liquidated_reason {
                Some(rs) => String::from_str("Liquidated, ").concat(rs.as_str()),
                None => String::from_str("Liquidated"),
            }
        } else {
            String::new()
        };

        proof {
            let m = MAX_RAW as int;
            lemma_abs_mul(self.amount@, close_price@, m, m);
            lemma_tdiv_bound(self.amount@ * close_price@, SCALE as int, m * m);
        }
        self.delete(close_price, reason.as_str());

        Ok(())
    }

    /// The realized profit, absolute and as a fraction of the notional
    /// traded while reducing the position; the fraction is zero before
    /// any reduction.
    pub fn pnl(&self) -> (r: (Decimal, Decimal))
        requires
            self.wf(),
        ensures
            r.0 == self.pnl,
            self.close_asset_in_usd@ == 0 ==> r.1@ == 0,
            self.close_asset_in_usd@ != 0 ==> r.1@ == fdiv(
                self.pnl@,
                iabs(self.close_asset_in_usd@),
            ),
    {
        if self.close_asset_in_usd.is_zero() {
            (self.pnl, Decimal::zero())
        } else {
            (self.pnl, self.pnl.div(self.close_asset_in_usd.abs()))
        }
    }

    /// Advances the tick counter; it only counts while the position is
    /// open or closing.
    pub fn update_counter(&mut self)
        requires
            (old(self).state is Open || old(self).state is Closing) ==> old(self).tick_count
                < u32::MAX,
        ensures
            (old(self).state is Open || old(self).state is Closing) ==> (*final(self)) == (Position {
                tick_count: (old(self).tick_count + 1) as u32,
                ..(*old(self))
            }),
            !(old(self).state is Open || old(self).state is Closing) ==> (*final(self)) == (*old(
                self,
            )),
    {
        if matches!(self.state, PositionState::Open | PositionState::Closing(_)) {
            self.tick_count = self.tick_count + 1;
        }
    }

    /// The position's numeric identifier.
    pub fn id(&self) -> (r: u32)
        ensures
            r == self.id,
    {
        self.id
    }

    /// The owning fund or strategy's name.
    pub fn fund_name(&self) -> (r: &str)
        ensures
            r@ == self.fund_name@,
    {
        self.fund_name.as_str()
    }

    /// The amount-weighted average entry price.
    pub fn average_open_price(&self) -> (r: Decimal)
        ensures
            r == self.average_open_price,
    {
        self.average_open_price
    }

    /// The price the strategy originally targeted; diagnostic.
    pub fn target_price(&self) -> (r: Decimal)
        ensures
            r == self.target_price,
    {
        self.target_price
    }

    /// The lifecycle state, with its reason where one is recorded.
    pub fn state(&self) -> (r: PositionState)
        ensures
            r == self.state,
    {
        match &self.state {
            PositionState::Opening => PositionState::Opening,
            PositionState::Open => PositionState::Open,
            PositionState::Closing(s) => PositionState::Closing(s.clone()),
            PositionState::Closed(s) => PositionState::Closed(s.clone()),
        }
    }

    /// The traded token's name.
    pub fn token_name(&self) -> (r: &str)
        ensures
            r@ == self.token_name@,
    {
        self.token_name.as_str()
    }

    /// The signed net filled quantity.
    pub fn amount(&self) -> (r: Decimal)
        ensures
            r == self.amount,
    {
        self.amount
    }

    /// The position's directional stance.
    pub fn position_type(&self) -> (r: PositionType)
        ensures
            r == self.position_type,
    {
        self.position_type
    }

    /// The running cash-equivalent exposure.
    pub fn asset_in_usd(&self) -> (r: Decimal)
        ensures
            r == self.asset_in_usd,
    {
        self.asset_in_usd
    }

    /// The cumulative notional traded while reducing the position.
    pub fn close_asset_in_usd(&self) -> (r: Decimal)
        ensures
            r == self.close_asset_in_usd,
    {
        self.close_asset_in_usd
    }

    /// The unix timestamp recorded when the position opened; diagnostic.
    pub fn open_timestamp(&self) -> (r: i64)
        ensures
            r == self.open_timestamp,
    {
        self.open_timestamp
    }

    /// The wall-clock string recorded when the position opened.
    pub fn open_time_str(&self) -> (r: &str)
        ensures
            r@ == self.open_time_str@,
    {
        self.open_time_str.as_str()
    }

    /// The wall-clock string recorded when the position closed.
    pub fn close_time_str(&self) -> (r: &str)
        ensures
            r@ == self.close_time_str@,
    {
        self.close_time_str.as_str()
    }

    /// The price the position was settled at.
    pub fn close_price(&self) -> (r: Decimal)
        ensures
            r == self.close_price,
    {
        self.close_price
    }

    /// Market volume snapshot at entry; diagnostic.
    pub fn last_volume(&self) -> (r: Option<Decimal>)
        ensures
            r == self.last_volume,
    {
        self.last_volume
    }

    /// Trade-count snapshot at entry; diagnostic.
    pub fn last_num_trades(&self) -> (r: Option<u64>)
        ensures
            r == self.last_num_trades,
    {
        self.last_num_trades
    }

    /// Funding-rate snapshot at entry; diagnostic.
    pub fn last_funding_rate(&self) -> (r: Option<Decimal>)
        ensures
            r == self.last_funding_rate,
    {
        self.last_funding_rate
    }

    /// Open-interest snapshot at entry; diagnostic.
    pub fn last_open_interest(&self) -> (r: Option<Decimal>)
        ensures
            r == self.last_open_interest,
    {
        self.last_open_interest
    }

    /// Oracle-price snapshot at entry; diagnostic.
    pub fn last_oracle_price(&self) -> (r: Option<Decimal>)
        ensures
            r == self.last_oracle_price,
    {
        self.last_oracle_price
    }

    /// Relative-strength-index snapshots at entry; diagnostic.
    pub fn rsi(&self) -> (r: (Decimal, Decimal, Decimal, Decimal, Decimal, Decimal))
        ensures
            r == self.rsi,
    {
        self.rsi
    }

    /// Average-true-range snapshots at entry; diagnostic.
    pub fn atr(&self) -> (r: (Decimal, Decimal, Decimal, Decimal, Decimal, Decimal))
        ensures
            r == self.atr,
    {
        self.atr
    }

    /// Directional-index snapshots at entry; diagnostic.
    pub fn adx(&self) -> (r: (Decimal, Decimal, Decimal, Decimal, Decimal, Decimal))
        ensures
            r == self.adx,
    {
        self.adx
    }

    /// Stochastic-oscillator snapshots at entry; diagnostic.
    pub fn stochastic(&self) -> (r: (Decimal, Decimal, Decimal, Decimal, Decimal, Decimal))
        ensures
            r == self.stochastic,
    {
        self.stochastic
    }

    /// Price snapshots at entry; diagnostic.
    pub fn price(&self) -> (r: (Decimal, Decimal, Decimal, Decimal, Decimal, Decimal))
        ensures
            r == self.price,
    {
        self.price
    }

    /// Candle-pattern snapshots at entry; diagnostic.
    pub fn candle_pattern(&self) -> (r: (
        debot_db::CandlePattern,
        debot_db::CandlePattern,
        debot_db::CandlePattern,
        debot_db::CandlePattern,
        debot_db::CandlePattern,
        debot_db::CandlePattern,
    ))
        ensures
            r == self.candle_pattern,
    {
        self.candle_pattern
    }

    /// The configured take-profit ratio; diagnostic.
    pub fn take_profit_ratio(&self) -> (r: Decimal)
        ensures
            r == self.take_profit_ratio,
    {
        self.take_profit_ratio
    }

    /// The volatility spread used when the entry was chosen; diagnostic.
    pub fn atr_spread(&self) -> (r: Decimal)
        ensures
            r == self.atr_spread,
    {
        self.atr_spread
    }

    /// The risk-reward figure used when the entry was chosen; diagnostic.
    pub fn risk_reward(&self) -> (r: Decimal)
        ensures
            r == self.risk_reward,
    {
        self.risk_reward
    }

    /// The volatility averaging term used at entry; diagnostic.
    pub fn atr_term(&self) -> (r: Decimal)
        ensures
            r == self.atr_term,
    {
        self.atr_term
    }

    /// The cumulative fee charged so far.
    pub fn fee(&self) -> (r: Decimal)
        ensures
            r == self.fee,
    {
        self.fee
    }

    /// Ticks the position spent opening before its first full fill.
    pub fn actual_entry_tick(&self) -> (r: u32)
        ensures
            r == self.actual_entry_tick,
    {
        self.actual_entry_tick
    }

    /// Ticks the position was held before a close was requested.
    pub fn actual_hold_tick(&self) -> (r: u32)
        ensures
            r == self.actual_hold_tick,
    {
        self.actual_hold_tick
    }

    /// The tick spread recorded at entry; diagnostic.
    pub fn tick_spread(&self) -> (r: i64)
        ensures
            r == self.tick_spread,
    {
        self.tick_spread
    }

    /// The tick bias recorded at entry; diagnostic.
    pub fn bias_ticks(&self) -> (r: i64)
        ensures
            r == self.bias_ticks,
    {
        self.bias_ticks
    }

    /// The take-profit line, if one is set.
    pub fn take_profit_price(&self) -> (r: Option<Decimal>)
        ensures
            r == self.take_profit_price,
    {
        self.take_profit_price
    }

    /// The cut-loss line, if one is set.
    pub fn cut_loss_price(&self) -> (r: Option<Decimal>)
        ensures
            r == self.cut_loss_price,
    {
        self.cut_loss_price
    }

    /// A one-line readable snapshot of the position at `current_price`;
    /// diagnostic only.
    fn format_position(&self, current_price: Decimal) -> (r: String)
        requires
            self.wf(),
            in_bounds(current_price@),
    {
        proof {
            let m = MAX_RAW as int;
            lemma_abs_mul(self.amount@, current_price@, m, m);
            lemma_tdiv_bound(self.amount@ * current_price@, SCALE as int, m * m);
        }
        let unrealized = Self::unrealized_pnl(current_price, self.amount, self.asset_in_usd);
        let mut s = String::new();
        s.append("ID:");
        push_u128(&mut s, self.id as u128);
        s.append(" ");
        s.append(self.token_name.as_str());
        s.append("(");
        s.append(self.state.label());
        s.append(") tick: ");
        push_u128(&mut s, self.tick_count as u128);
        s.append("/");
        let limit: u32 = if matches!(self.state, PositionState::Closing(_)) {
            self.exit_timeout_tick_count
        } else {
            self.max_holding_tick_count
        };
        push_u128(&mut s, limit as u128);
        s.append(", un-pnl: ");
        push_decimal(&mut s, unrealized);
        s.append(", re-pnl: ");
        push_decimal(&mut s, self.pnl);
        s.append(", [");
        s.append(self.position_type.label());
        s.append("] price: ");
        push_decimal(&mut s, current_price);
        s.append("/");
        push_decimal(&mut s, self.average_open_price);
        s.append(", cut: ");
        push_opt_decimal(&mut s, self.cut_loss_price);
        s.append(", take: ");
        push_opt_decimal(&mut s, self.take_profit_price);
        s.append(", amount: ");
        push_decimal(&mut s, self.amount);
        s.append("/");
        push_decimal(&mut s, self.asset_in_usd);
        s
    }

    /// A readable snapshot while any quantity is held; `None` once the
    /// position holds nothing.
    pub fn get_info(&self, current_price: Decimal) -> (r: Option<String>)
        requires
            self.wf(),
            in_bounds(current_price@),
        ensures
            r is Some <==> self.amount@ != 0,
    {
        if self.amount.is_zero() {
            None
        } else {
            Some(self.format_position(current_price))
        }
    }

    /// Whether the trailing stop fires for this position at `cp`.
    pub open spec fn spec_trailing_triggered(self, cp: int) -> bool {
        trailing_triggered(
            self.average_open_price@,
            opt_view(self.take_profit_price),
            opt_view(self.trailing_peak_price),
            self.position_type is Long,
            cp,
        )
    }

    /// The machine limit the trailing computation needs: the recorded
    /// extreme times the retracement factor must fit the arithmetic. Holds
    /// vacuously without a take-profit line.
    pub open spec fn trailing_fits(self) -> bool {
        match self.take_profit_price {
            Option::Some(tp) => fits_i128(
                MAX_RAW as int * ((SCALE as int) + iabs(
                    spec_trailing_ratio(
                        self.average_open_price@,
                        tp@,
                        self.position_type is Long,
                    ),
                )),
            ),
            Option::None => true,
        }
    }

    /// The favourable extreme after a risk check at `cp`: while the
    /// position is open with a take-profit line and the price is at or
    /// past it, the extreme ratchets to the most favourable of the
    /// recorded extreme, the price and the entry price; otherwise it is
    /// untouched.
    pub open spec fn spec_peak_after(self, cp: int) -> Option<int> {
        if !(self.state is Open) || !(self.take_profit_price is Some) {
            opt_view(self.trailing_peak_price)
        } else {
            let tp = opt_view(self.take_profit_price)->Some_0;
            let avg = self.average_open_price@;
            if self.position_type is Long {
                if cp >= tp {
                    match opt_view(self.trailing_peak_price) {
                        Option::Some(pk) => Option::Some(
                            if cp > pk {
                                cp
                            } else {
                                pk
                            },
                        ),
                        Option::None => Option::Some(
                            if cp > avg {
                                cp
                            } else {
                                avg
                            },
                        ),
                    }
                } else {
                    opt_view(self.trailing_peak_price)
                }
            } else {
                if cp <= tp {
                    match opt_view(self.trailing_peak_price) {
                        Option::Some(pk) => Option::Some(
                            if cp < pk {
                                cp
                            } else {
                                pk
                            },
                        ),
                        Option::None => Option::Some(
                            if cp < avg {
                                cp
                            } else {
                                avg
                            },
                        ),
                    }
                } else {
                    opt_view(self.trailing_peak_price)
                }
            }
        }
    }

    /// Whether a take-profit exit is due at `cp`: without trailing, as
    /// soon as the line is reached; with trailing, once the stop computed
    /// from the updated extreme fires.
    pub open spec fn spec_should_take_profit(self, cp: int, use_trailing: bool) -> bool {
        if !(self.state is Open) || !(self.take_profit_price is Some) {
            false
        } else {
            let tp = opt_view(self.take_profit_price)->Some_0;
            let reached = if self.position_type is Long {
                cp >= tp
            } else {
                cp <= tp
            };
            if !use_trailing {
                reached
            } else {
                trailing_triggered(
                    self.average_open_price@,
                    opt_view(self.take_profit_price),
                    self.spec_peak_after(cp),
                    self.position_type is Long,
                    cp,
                )
            }
        }
    }

    /// Whether the cut-loss line is breached at `cp`, while open.
    pub open spec fn spec_should_cut_loss(self, cp: int) -> bool {
        &&& self.state is Open
        &&& match opt_view(self.cut_loss_price) {
            Option::Some(cl) => if self.position_type is Long {
                cp <= cl
            } else {
                cp >= cl
            },
            Option::None => false,
        }
    }

    /// Whether the take-profit line has been reached at `cp`, or the
    /// trailing stop fires on the recorded extreme; checked regardless of
    /// lifecycle state.
    pub open spec fn spec_has_reached_take_profit(self, cp: int) -> bool {
        ||| match opt_view(self.take_profit_price) {
            Option::Some(tp) => if self.position_type is Long {
                cp >= tp
            } else {
                cp <= tp
            },
            Option::None => false,
        }
        ||| self.spec_trailing_triggered(cp)
    }

    /// Whether the trailing stop fires at `close_price` on the recorded
    /// extreme: the price must have retraced past the dynamic stop while
    /// the exit is still profitable against the entry.
    fn is_trailing_stop_triggered(&self, close_price: Decimal) -> (r: bool)
        requires
            self.wf(),
            self.trailing_fits(),
        ensures
            r == self.spec_trailing_triggered(close_price@),
    {
        let open_price = self.average_open_price;

        let tp_price = match self.take_profit_price {
            Some(tp) => tp,
            None => {
                return false;
            },
        };

        let expected_profit = if matches!(self.position_type, PositionType::Long) {
            tp_price.sub(open_price)
        } else {
            open_price.sub(tp_price)
        };

        proof {
            lemma_tdiv_bound(
                expected_profit@ * (SCALE as int),
                open_price@,
                2 * MAX_RAW as int * SCALE as int,
            );
        }
        let ratio0 = expected_profit.div(open_price);
        proof {
            lemma_tdiv_bound(
                ratio0@ * (HALF_SCALE as int),
                SCALE as int,
                MAX_RAW as int * MAX_RAW as int,
            );
        }
        let trailing_stop_ratio = ratio0.mul(Decimal::from_raw(HALF_SCALE));

        match self.trailing_peak_price {
            Some(peak) => {
                if matches!(self.position_type, PositionType::Long) {
                    proof {
                        lemma_abs_mul(
                            peak@,
                            SCALE as int - trailing_stop_ratio@,
                            MAX_RAW as int,
                            SCALE as int + iabs(trailing_stop_ratio@),
                        );
                    }
                    let stop_price = peak.mul(Decimal::one().sub(trailing_stop_ratio));
                    close_price.le(stop_price) && close_price.gt(open_price)
                } else {
                    proof {
                        lemma_abs_mul(
                            peak@,
                            SCALE as int + trailing_stop_ratio@,
                            MAX_RAW as int,
                            SCALE as int + iabs(trailing_stop_ratio@),
                        );
                    }
                    let stop_price = peak.mul(Decimal::one().add(trailing_stop_ratio));
                    close_price.ge(stop_price) && close_price.lt(open_price)
                }
            },
            None => false,
        }
    }

    /// Evaluates the take-profit rule at `close_price`, ratcheting the
    /// favourable extreme as a side effect. Without trailing the result is
    /// simply whether the line is reached; with trailing the position is
    /// allowed to run and the result is whether the dynamic stop fires.
    pub fn should_take_profit(&mut self, close_price: Decimal, use_trailing: bool) -> (r: bool)
        requires
            old(self).wf(),
            old(self).trailing_fits(),
            0 <= close_price@ <= MAX_RAW,
        ensures
            final(self).wf(),
            opt_view(final(self).trailing_peak_price) == old(self).spec_peak_after(close_price@),
            r == old(self).spec_should_take_profit(close_price@, use_trailing),
            (*final(self)) == (Position {
                trailing_peak_price: final(self).trailing_peak_price,
                ..(*old(self))
            }),
    {
        if !(matches!(self.state, PositionState::Open)) {
            return false;
        }

        let open_price = self.average_open_price;
        let mut reached_tp = false;

        let tp_price = match self.take_profit_price {
            Some(tp) => tp,
            None => {
                return false;
            },
        };

        if matches!(self.position_type, PositionType::Long) {
            if close_price.ge(tp_price) {
                reached_tp = true;
                let base = match self.trailing_peak_price {
                    Some(pk) => pk,
                    None => if close_price.gt(open_price) {
                        close_price
                    } else {
                        open_price
                    },
                };
                let new_peak = if close_price.gt(base) {
                    close_price
                } else {
                    base
                };
                self.trailing_peak_price = Some(new_peak);
            }
        } else {
            if close_price.le(tp_price) {
                reached_tp = true;
                let base = match self.trailing_peak_price {
                    Some(pk) => pk,
                    None => if close_price.lt(open_price) {
                        close_price
                    } else {
                        open_price
                    },
                };
                let new_peak = if close_price.lt(base) {
                    close_price
                } else {
                    base
                };
                self.trailing_peak_price = Some(new_peak);
            }
        }

        if !use_trailing {
            return reached_tp;
        }

        self.is_trailing_stop_triggered(close_price)
    }

    /// Whether the take-profit line has been reached at `close_price`, or
    /// the trailing stop fires on the already recorded extreme.
    fn has_reached_take_profit(&self, close_price: Decimal) -> (r: bool)
        requires
            self.wf(),
            self.trailing_fits(),
        ensures
            r == self.spec_has_reached_take_profit(close_price@),
    {
        if matches!(self.position_type, PositionType::Long) {
            if let Some(tp) = self.take_profit_price {
                if close_price.ge(tp) {
                    return true;
                }
            }
        } else {
            if let Some(tp) = self.take_profit_price {
                if close_price.le(tp) {
                    return true;
                }
            }
        }

        self.is_trailing_stop_triggered(close_price)
    }

    /// Whether the cut-loss line is breached at `close_price`, while open.
    fn should_cut_loss(&self, close_price: Decimal) -> (r: bool)
        ensures
            r == self.spec_should_cut_loss(close_price@),
    {
        if !(matches!(self.state, PositionState::Open)) {
            return false;
        }

        match self.cut_loss_price {
            Some(cut_loss_price) => {
                if matches!(self.position_type, PositionType::Long) {
                    close_price.le(cut_loss_price)
                } else {
                    close_price.ge(cut_loss_price)
                }
            },
            None => false,
        }
    }

    /// The risk decision at `close_price`: a take-profit exit wins over a
    /// cut-loss exit; no exit is requested otherwise. Ratchets the
    /// favourable extreme as a side effect of the take-profit evaluation.
    pub fn should_close(&mut self, close_price: Decimal, use_trailing: bool) -> (r: Option<
        ReasonForClose,
    >)
        requires
            old(self).wf(),
            old(self).trailing_fits(),
            0 <= close_price@ <= MAX_RAW,
        ensures
            final(self).wf(),
            opt_view(final(self).trailing_peak_price) == old(self).spec_peak_after(close_price@),
            (*final(self)) == (Position {
                trailing_peak_price: final(self).trailing_peak_price,
                ..(*old(self))
            }),
            r == (if old(self).spec_should_take_profit(close_price@, use_trailing) {
                Option::Some(ReasonForClose::TakeProfit)
            } else if old(self).spec_should_cut_loss(close_price@) {
                Option::Some(ReasonForClose::CutLoss)
            } else {
                Option::None::<ReasonForClose>
            }),
    {
        if self.should_take_profit(close_price, use_trailing) {
            return Some(ReasonForClose::TakeProfit);
        }

        if self.should_cut_loss(close_price) {
            Some(ReasonForClose::CutLoss)
        } else {
            None
        }
    }

    /// Whether the position has been held past its maximum holding budget
    /// without its take-profit ever being reached; an expired but
    /// profitable position is left to the take-profit logic instead.
    pub fn should_open_expired(&self, close_price: Decimal) -> (r: bool)
        requires
            self.wf(),
            self.trailing_fits(),
        ensures
            r == (self.state is Open && self.tick_count > self.max_holding_tick_count
                && !self.spec_has_reached_take_profit(close_price@)),
    {
        if matches!(self.state, PositionState::Open) {
            self.tick_count > self.max_holding_tick_count && !self.has_reached_take_profit(
                close_price,
            )
        } else {
            false
        }
    }
}

/// A resting order: its remaining unfilled quantity and entry timeout.
pub struct Order {
    pub id: String,
    pub unfilled_amount: Decimal,
    pub state: OrderState,
    pub tick_count: u32,
    pub entry_timeout_tick_count: u32,
}

impl Order {
    /// A fresh open order for `amount` units.
    pub fn new(id: String, amount: Decimal, entry_timeout_tick_count: u32) -> (r: Order)
        ensures
            r.id@ == id@,
            r.unfilled_amount == amount,
            r.state is Open,
            r.tick_count == 0,
            r.entry_timeout_tick_count == entry_timeout_tick_count,
    {
        Order {
            id,
            unfilled_amount: amount,
            state: OrderState::Open,
            tick_count: 0,
            entry_timeout_tick_count,
        }
    }

    /// Books a partial fill: the unfilled quantity shrinks by `amount` and
    /// the order becomes `Filled` when it reaches exactly zero. Filling an
    /// already filled order is rejected and changes nothing.
    pub fn on_filled(&mut self, amount: Decimal) -> (r: Result<(), PositionError>)
        requires
            fits_i128(old(self).unfilled_amount@ - amount@),
        ensures
            r is Ok <==> old(self).state is Open,
            r is Err ==> (*final(self)) == (*old(self)) && r == Err::<(), PositionError>(
                PositionError::InvalidStateTransition,
            ),
            r is Ok ==> final(self).unfilled_amount@ == old(self).unfilled_amount@ - amount@
                && final(self).state == (if old(self).unfilled_amount@ - amount@ == 0 {
                OrderState::Filled
            } else {
                OrderState::Open
            }) && (*final(self)) == (Order {
                unfilled_amount: final(self).unfilled_amount,
                state: final(self).state,
                ..(*old(self))
            }),
    {
        if matches!(self.state, OrderState::Filled) {
            return Err(PositionError::InvalidStateTransition);
        }
        self.unfilled_amount = self.unfilled_amount.sub(amount);
        if self.unfilled_amount.is_zero() {
            self.state = OrderState::Filled;
        }
        Ok(())
    }

    /// Whether the order has waited past its entry timeout while still
    /// open.
    pub fn should_cancel_order(&self) -> (r: bool)
        ensures
            r == (self.state is Open && self.tick_count > self.entry_timeout_tick_count),
    {
        if matches!(self.state, OrderState::Open) {
            self.tick_count > self.entry_timeout_tick_count
        } else {
            false
        }
    }

    /// Advances the tick counter; it only counts while the order is open.
    pub fn update_counter(&mut self)
        requires
            old(self).state is Open ==> old(self).tick_count < u32::MAX,
        ensures
            old(self).state is Open ==> (*final(self)) == (Order {
                tick_count: (old(self).tick_count + 1) as u32,
                ..(*old(self))
            }),
            !(old(self).state is Open) ==> (*final(self)) == (*old(self)),
    {
        if matches!(self.state, OrderState::Open) {
            self.tick_count = self.tick_count + 1;
        }
    }

    /// The order's identifier.
    pub fn id(&self) -> (r: &str)
        ensures
            r@ == self.id@,
    {
        self.id.as_str()
    }

    /// The order's lifecycle state.
    pub fn state(&self) -> (r: OrderState)
        ensures
            r == self.state,
    {
        self.state
    }
}

} // verus!
