//! Laws the accounting obeys, stated and proved over the same fill model
//! the position's contracts are written in.
use crate::decimal::{fmul, lemma_tdiv_exact, lemma_tdiv_multiple, lemma_tdiv_ordered, tdiv, SCALE};
use crate::position_manager::{
    fill_allowed, fill_book, spec_stop_price, spec_unrealized, Book, FillSpec, Position,
};
use crate::PositionType;
use vstd::prelude::*;

verus! {

/// The cash a fill moves: a buy pays its notional out, a sell takes it in.
pub open spec fn signed_notional(f: FillSpec) -> int {
    if f.position_type is Long {
        -f.notional
    } else {
        f.notional
    }
}

/// The book after a whole sequence of fills.
pub open spec fn run_fills(b: Book, fs: Seq<FillSpec>) -> Book
    decreases fs.len(),
{
    if fs.len() == 0 {
        b
    } else {
        fill_book(run_fills(b, fs.drop_last()), fs.last())
    }
}

/// Total cash moved by a sequence of fills.
pub open spec fn sum_signed_notional(fs: Seq<FillSpec>) -> int
    decreases fs.len(),
{
    if fs.len() == 0 {
        0
    } else {
        sum_signed_notional(fs.drop_last()) + signed_notional(fs.last())
    }
}

/// Total fee charged by a sequence of fills.
pub open spec fn sum_fees(fs: Seq<FillSpec>) -> int
    decreases fs.len(),
{
    if fs.len() == 0 {
        0
    } else {
        sum_fees(fs.drop_last()) + fs.last().fee
    }
}

/// One fill preserves the accounting identity: the fee accumulates, and
/// realized profit plus open notional moves exactly by the fill's signed
/// notional — until the fill closes the position, when the accumulated fee
/// is charged and the open notional is emptied into realized profit.
pub proof fn lemma_fill_accounting(b: Book, f: FillSpec)
    requires
        fill_allowed(b),
    ensures
        fill_book(b, f).fee == b.fee + f.fee,
        !(fill_book(b, f).stage is Closed) ==> fill_book(b, f).pnl + fill_book(b, f).asset_in_usd
            == b.pnl + b.asset_in_usd + signed_notional(f),
        fill_book(b, f).stage is Closed ==> fill_book(b, f).pnl == b.pnl + b.asset_in_usd
            + signed_notional(f) - fill_book(b, f).fee && fill_book(b, f).asset_in_usd == 0
            && fill_book(b, f).amount == 0,
{
}

/// The accounting identity extended over a whole run of fills that the
/// position accepts.
pub proof fn lemma_run_accounting(b: Book, fs: Seq<FillSpec>)
    requires
        forall|i: int| 0 <= i < fs.len() ==> fill_allowed(run_fills(b, #[trigger] fs.take(i))),
    ensures
        run_fills(b, fs).fee == b.fee + sum_fees(fs),
        !(run_fills(b, fs).stage is Closed) ==> run_fills(b, fs).pnl + run_fills(
            b,
            fs,
        ).asset_in_usd == b.pnl + b.asset_in_usd + sum_signed_notional(fs),
        run_fills(b, fs).stage is Closed && !(b.stage is Closed) ==> run_fills(b, fs).pnl == b.pnl
            + b.asset_in_usd + sum_signed_notional(fs) - run_fills(b, fs).fee && run_fills(
            b,
            fs,
        ).asset_in_usd == 0 && run_fills(b, fs).amount == 0,
    decreases fs.len(),
{
    if fs.len() == 0 {
        assert(fs.take(0) =~= fs);
    } else {
        let l = fs.len() as int;
        let head = fs.drop_last();
        let f = fs.last();
        assert forall|i: int| 0 <= i < head.len() implies fill_allowed(
            run_fills(b, #[trigger] head.take(i)),
        ) by {
            assert(head.take(i) =~= fs.take(i));
        }
        lemma_run_accounting(b, head);
        assert(fs.take(l - 1) =~= head);
        lemma_fill_accounting(run_fills(b, head), f);
    }
}

/// Conservation: from a fresh book, over any accepted run of fills, the
/// realized profit plus the open notional always equals the total cash the
/// fills moved; once a fill closes the position, the realized profit is
/// exactly that total minus every fee charged, and nothing is left open.
pub proof fn lemma_conservation(b0: Book, fs: Seq<FillSpec>)
    requires
        b0.stage is Opening,
        b0.pnl == 0,
        b0.asset_in_usd == 0,
        b0.fee == 0,
        forall|i: int| 0 <= i < fs.len() ==> fill_allowed(run_fills(b0, #[trigger] fs.take(i))),
    ensures
        run_fills(b0, fs).fee == sum_fees(fs),
        !(run_fills(b0, fs).stage is Closed) ==> run_fills(b0, fs).pnl + run_fills(
            b0,
            fs,
        ).asset_in_usd == sum_signed_notional(fs),
        run_fills(b0, fs).stage is Closed ==> run_fills(b0, fs).pnl == sum_signed_notional(fs)
            - sum_fees(fs) && run_fills(b0, fs).asset_in_usd == 0 && run_fills(b0, fs).amount == 0,
{
    lemma_run_accounting(b0, fs);
}

/// Granularity independence: two accepted runs of fills that move the same
/// total cash and charge the same total fee close with the same realized
/// profit, however differently the fills were batched or ordered.
pub proof fn lemma_granularity_independence(b0: Book, fs1: Seq<FillSpec>, fs2: Seq<FillSpec>)
    requires
        b0.stage is Opening,
        b0.pnl == 0,
        b0.asset_in_usd == 0,
        b0.fee == 0,
        forall|i: int| 0 <= i < fs1.len() ==> fill_allowed(run_fills(b0, #[trigger] fs1.take(i))),
        forall|i: int| 0 <= i < fs2.len() ==> fill_allowed(run_fills(b0, #[trigger] fs2.take(i))),
        run_fills(b0, fs1).stage is Closed,
        run_fills(b0, fs2).stage is Closed,
        sum_signed_notional(fs1) == sum_signed_notional(fs2),
        sum_fees(fs1) == sum_fees(fs2),
    ensures
        run_fills(b0, fs1).pnl == run_fills(b0, fs2).pnl,
{
    lemma_conservation(b0, fs1);
    lemma_conservation(b0, fs2);
}

/// A round trip at exact notionals: one opening fill at `p1` and one full
/// closing counter-fill at `p2`, each with notional exactly price times
/// amount, leave the position closed with realized profit
/// `(p2 - p1) * a` minus both fees — the conservation identity in its
/// price-difference form.
pub proof fn lemma_round_trip(b0: Book, p1: int, p2: int, a: int, fee1: int, fee2: int)
    requires
        b0.stage is Opening,
        b0.amount == 0,
        b0.asset_in_usd == 0,
        b0.pnl == 0,
        b0.fee == 0,
        1 <= a,
        (p1 * a) % (SCALE as int) == 0,
        (p2 * a) % (SCALE as int) == 0,
    ensures
        ({
            let f1 = FillSpec {
                position_type: PositionType::Long,
                price: p1,
                amount: a,
                notional: fmul(p1, a),
                fee: fee1,
                take_profit_price: Option::None,
                cut_loss_price: Option::None,
            };
            let f2 = FillSpec {
                position_type: PositionType::Short,
                price: p2,
                amount: a,
                notional: fmul(p2, a),
                fee: fee2,
                take_profit_price: Option::None,
                cut_loss_price: Option::None,
            };
            let r = fill_book(fill_book(b0, f1), f2);
            &&& r.stage is Closed
            &&& r.amount == 0
            &&& r.asset_in_usd == 0
            &&& r.pnl == fmul(p2 - p1, a) - fee1 - fee2
        }),
{
    let s = SCALE as int;
    let q1 = (p1 * a) / s;
    let q2 = (p2 * a) / s;
    vstd::arithmetic::div_mod::lemma_fundamental_div_mod(p1 * a, s);
    vstd::arithmetic::div_mod::lemma_fundamental_div_mod(p2 * a, s);
    assert(s * q2 - s * q1 == (q2 - q1) * s) by (nonlinear_arith);
    assert(a * p2 == p2 * a) by (nonlinear_arith);
    assert((p2 - p1) * a == p2 * a - p1 * a) by (nonlinear_arith);
    lemma_tdiv_multiple(p1 * a, s);
    lemma_tdiv_multiple(p2 * a, s);
    lemma_tdiv_exact(q2 - q1, s);
}

/// A same-direction opening fill at price `p` and amount `a`, applied to a
/// fresh book.
pub open spec fn opening_fill(p: int, a: int) -> FillSpec {
    FillSpec {
        position_type: PositionType::Long,
        price: p,
        amount: a,
        notional: 0,
        fee: 0,
        take_profit_price: Option::None,
        cut_loss_price: Option::None,
    }
}

/// Average-price blending: two opening fills `(p1, a1)` and `(p2, a2)` on a
/// fresh book leave the amount-weighted average `(p1*a1 + p2*a2)/(a1+a2)`
/// (rounded toward zero), in either order.
pub proof fn lemma_average_price_blending(b0: Book, p1: int, a1: int, p2: int, a2: int)
    requires
        b0.stage is Opening,
        b0.amount == 0,
        1 <= a1,
        1 <= a2,
    ensures
        fill_book(fill_book(b0, opening_fill(p1, a1)), opening_fill(p2, a2)).average_open_price
            == tdiv(p1 * a1 + p2 * a2, a1 + a2),
        fill_book(fill_book(b0, opening_fill(p1, a1)), opening_fill(p2, a2)).average_open_price
            == fill_book(
            fill_book(b0, opening_fill(p2, a2)),
            opening_fill(p1, a1),
        ).average_open_price,
{
    lemma_tdiv_exact(p1, a1);
    lemma_tdiv_exact(p2, a2);
    assert(b0.average_open_price * 0 == 0) by (nonlinear_arith);
    let b1 = fill_book(b0, opening_fill(p1, a1));
    let b2 = fill_book(b0, opening_fill(p2, a2));
    assert(b1.average_open_price == p1);
    assert(b2.average_open_price == p2);
    assert(p1 * a1 + p2 * a2 == p2 * a2 + p1 * a1);
}

/// Inversion: an oversized counter-fill flips a long position short. Only
/// the quantity that offset the prior holding realizes profit; the average
/// open price re-seeds at the fill price, and the newly supplied thresholds
/// replace the old ones unblended.
pub proof fn lemma_inversion(b: Book, f: FillSpec)
    requires
        b.stage is Open,
        b.position_type is Long,
        b.amount > 0,
        f.position_type is Short,
        f.amount > b.amount,
    ensures
        fill_book(b, f).amount == b.amount - f.amount,
        fill_book(b, f).amount < 0,
        fill_book(b, f).position_type is Short,
        fill_book(b, f).average_open_price == f.price,
        fill_book(b, f).take_profit_price == f.take_profit_price,
        fill_book(b, f).cut_loss_price == f.cut_loss_price,
        fill_book(b, f).pnl == b.pnl + spec_unrealized(f.price, b.amount, b.asset_in_usd),
        fill_book(b, f).stage is Open,
{
}

/// Once a favourable extreme is recorded, a risk check can only ratchet it
/// further from the entry: a long position's peak never decreases and a
/// short position's trough never increases, whatever the price does.
pub proof fn lemma_peak_monotone(p: Position, cp: int)
    requires
        p.trailing_peak_price is Some,
    ensures
        p.spec_peak_after(cp) is Some,
        p.position_type is Long ==> p.spec_peak_after(cp)->Some_0 >= p.trailing_peak_price->Some_0@,
        !(p.position_type is Long) ==> p.spec_peak_after(cp)->Some_0
            <= p.trailing_peak_price->Some_0@,
{
}

/// With the retracement factor fixed and non-negative, the dynamic stop is
/// monotone in the recorded extreme: a higher peak can only raise a long
/// position's stop, and a lower trough can only lower a short position's
/// stop. Together with the peak ratchet, the stop only moves in the
/// profit-protecting direction.
pub proof fn lemma_stop_price_monotone(pk1: int, pk2: int, ratio: int, long: bool)
    requires
        pk1 <= pk2,
        (if long {
            SCALE as int - ratio
        } else {
            SCALE as int + ratio
        }) >= 0,
    ensures
        spec_stop_price(pk1, ratio, long) <= spec_stop_price(pk2, ratio, long),
{
    let fct = if long {
        SCALE as int - ratio
    } else {
        SCALE as int + ratio
    };
    assert(pk1 * fct <= pk2 * fct) by (nonlinear_arith)
        requires
            pk1 <= pk2,
            fct >= 0,
    ;
    lemma_tdiv_ordered(pk1 * fct, pk2 * fct, SCALE as int);
}

/// The two ratchets composed: a risk check at any price leaves a long
/// position's dynamic stop at or above where it stood, and a short
/// position's at or below, as long as the retracement factor keeps its
/// sign. The stop never gives back locked-in profit.
pub proof fn lemma_trailing_stop_ratchets(p: Position, cp: int, ratio: int)
    requires
        p.trailing_peak_price is Some,
        p.position_type is Long ==> SCALE as int - ratio >= 0,
        !(p.position_type is Long) ==> SCALE as int + ratio >= 0,
    ensures
        p.position_type is Long ==> spec_stop_price(
            p.trailing_peak_price->Some_0@,
            ratio,
            true,
        ) <= spec_stop_price(p.spec_peak_after(cp)->Some_0, ratio, true),
        !(p.position_type is Long) ==> spec_stop_price(
            p.spec_peak_after(cp)->Some_0,
            ratio,
            false,
        ) <= spec_stop_price(p.trailing_peak_price->Some_0@, ratio, false),
{
    lemma_peak_monotone(p, cp);
    if p.position_type is Long {
        lemma_stop_price_monotone(
            p.trailing_peak_price->Some_0@,
            p.spec_peak_after(cp)->Some_0,
            ratio,
            true,
        );
    } else {
        lemma_stop_price_monotone(
            p.spec_peak_after(cp)->Some_0,
            p.trailing_peak_price->Some_0@,
            ratio,
            false,
        );
    }
}

/// Flipping a stance twice returns it: `opposite` is an involution.
pub proof fn lemma_opposite_involutive(pt: PositionType)
    ensures
        pt.spec_opposite().spec_opposite() == pt,
{
}

} // verus!
