use debot_db::CandlePattern;
use position_manager::{
    Decimal, OrderState, Position, PositionError, PositionState, PositionType, ReasonForClose,
};

fn dec(num: i64, scale: u32) -> Decimal {
    Decimal::new(num, scale)
}

fn six(v: Decimal) -> (Decimal, Decimal, Decimal, Decimal, Decimal, Decimal) {
    (v, v, v, v, v, v)
}

fn make_position(position_type: PositionType) -> Position {
    let z = dec(0, 0);
    let cp = CandlePattern::default();
    Position::new(
        7,
        "alpha",
        5,
        20,
        "TKN",
        position_type,
        dec(10, 0),
        six(z),
        six(z),
        six(z),
        six(z),
        six(z),
        (cp, cp, cp, cp, cp, cp),
        z,
        z,
        z,
        z,
        0,
        0,
        None,
        None,
        None,
        None,
        None,
    )
}

fn open_long(tp: Option<Decimal>, cl: Option<Decimal>) -> Position {
    let mut p = make_position(PositionType::Long);
    p.on_filled(
        PositionType::Long,
        dec(10, 0),
        dec(100, 0),
        dec(1000, 0),
        dec(0, 0),
        tp,
        cl,
        dec(10, 0),
    )
    .unwrap();
    p
}

#[test]
fn new_position_is_opening_and_empty() {
    let p = make_position(PositionType::Long);
    assert_eq!(p.id(), 7);
    assert_eq!(p.fund_name(), "alpha");
    assert_eq!(p.token_name(), "TKN");
    assert_eq!(p.state(), PositionState::Opening);
    assert!(p.amount().is_zero());
    assert!(p.fee().is_zero());
    assert_eq!(p.take_profit_price(), None);
    assert_eq!(p.cut_loss_price(), None);
    assert_eq!(p.pnl().0, dec(0, 0));
    assert_eq!(p.pnl().1, dec(0, 0));
}

#[test]
fn first_fill_opens_the_position() {
    let p = open_long(None, None);
    assert_eq!(p.state(), PositionState::Open);
    assert_eq!(p.amount(), dec(100, 0));
    assert_eq!(p.average_open_price(), dec(10, 0));
    assert_eq!(p.asset_in_usd(), dec(-1000, 0));
    assert!(!p.open_time_str().is_empty());
}

#[test]
fn average_price_blending_formula() {
    // (10*2 + 16*4) / (2+4) = 84/6 = 14
    let mut p = make_position(PositionType::Long);
    p.on_filled(
        PositionType::Long,
        dec(10, 0),
        dec(2, 0),
        dec(20, 0),
        dec(0, 0),
        None,
        None,
        dec(10, 0),
    )
    .unwrap();
    p.on_filled(
        PositionType::Long,
        dec(16, 0),
        dec(4, 0),
        dec(64, 0),
        dec(0, 0),
        None,
        None,
        dec(16, 0),
    )
    .unwrap();
    assert_eq!(p.average_open_price(), dec(14, 0));
    assert_eq!(p.amount(), dec(6, 0));
}

#[test]
fn average_price_blending_commutes() {
    let fills = [(dec(10, 0), dec(2, 0), dec(20, 0)), (dec(16, 0), dec(4, 0), dec(64, 0))];
    let mut first = make_position(PositionType::Long);
    let mut second = make_position(PositionType::Long);
    for (price, amount, notional) in fills.iter() {
        first
            .on_filled(PositionType::Long, *price, *amount, *notional, dec(0, 0), None, None, *price)
            .unwrap();
    }
    for (price, amount, notional) in fills.iter().rev() {
        second
            .on_filled(PositionType::Long, *price, *amount, *notional, dec(0, 0), None, None, *price)
            .unwrap();
    }
    assert_eq!(first.average_open_price(), second.average_open_price());
}

#[test]
fn threshold_blending_waits_for_first_value() {
    let mut p = make_position(PositionType::Long);
    p.on_filled(
        PositionType::Long,
        dec(10, 0),
        dec(10, 0),
        dec(100, 0),
        dec(0, 0),
        None,
        None,
        dec(10, 0),
    )
    .unwrap();
    assert_eq!(p.take_profit_price(), None);
    p.on_filled(
        PositionType::Long,
        dec(10, 0),
        dec(10, 0),
        dec(100, 0),
        dec(0, 0),
        Some(dec(12, 0)),
        Some(dec(9, 0)),
        dec(10, 0),
    )
    .unwrap();
    assert_eq!(p.take_profit_price(), Some(dec(12, 0)));
    assert_eq!(p.cut_loss_price(), Some(dec(9, 0)));
    // 20 units at 12 blended with 20 units at 15 -> 13.5
    p.on_filled(
        PositionType::Long,
        dec(10, 0),
        dec(20, 0),
        dec(200, 0),
        dec(0, 0),
        Some(dec(15, 0)),
        Some(dec(9, 0)),
        dec(10, 0),
    )
    .unwrap();
    assert_eq!(p.take_profit_price(), Some(dec(135, 1)));
}

#[test]
fn round_trip_conserves_pnl() {
    let mut p = make_position(PositionType::Long);
    p.on_filled(
        PositionType::Long,
        dec(10, 0),
        dec(100, 0),
        dec(1000, 0),
        dec(1, 0),
        None,
        None,
        dec(10, 0),
    )
    .unwrap();
    p.on_filled(
        PositionType::Short,
        dec(12, 0),
        dec(100, 0),
        dec(1200, 0),
        dec(2, 0),
        None,
        None,
        dec(12, 0),
    )
    .unwrap();
    // 1200 received - 1000 paid - 3 fees
    assert_eq!(p.state(), PositionState::Closed("TakeProfit".to_string()));
    assert_eq!(p.pnl().0, dec(197, 0));
    assert!(p.amount().is_zero());
    assert!(p.asset_in_usd().is_zero());
    assert_eq!(p.close_price(), dec(12, 0));
}

#[test]
fn partial_decrease_realizes_the_slice_only() {
    let mut p = make_position(PositionType::Long);
    p.on_filled(
        PositionType::Long,
        dec(10, 0),
        dec(10, 0),
        dec(100, 0),
        dec(0, 0),
        None,
        None,
        dec(10, 0),
    )
    .unwrap();
    p.on_filled(
        PositionType::Short,
        dec(12, 0),
        dec(4, 0),
        dec(48, 0),
        dec(0, 0),
        None,
        None,
        dec(12, 0),
    )
    .unwrap();
    // (12 - 10) * 4 = 8 realized, position still open with 6 units at 10
    assert_eq!(p.pnl().0, dec(8, 0));
    assert_eq!(p.amount(), dec(6, 0));
    assert_eq!(p.average_open_price(), dec(10, 0));
    assert_eq!(p.state(), PositionState::Open);
    // closing the rest at 12 brings the total to (12 - 10) * 10 = 20
    p.on_filled(
        PositionType::Short,
        dec(12, 0),
        dec(6, 0),
        dec(72, 0),
        dec(0, 0),
        None,
        None,
        dec(12, 0),
    )
    .unwrap();
    assert_eq!(p.pnl().0, dec(20, 0));
    assert!(matches!(p.state(), PositionState::Closed(_)));
}

#[test]
fn batch_and_incremental_closes_realize_the_same_pnl() {
    let mut batch = make_position(PositionType::Long);
    let mut steps = make_position(PositionType::Long);
    for p in [&mut batch, &mut steps] {
        p.on_filled(
            PositionType::Long,
            dec(10, 0),
            dec(10, 0),
            dec(100, 0),
            dec(0, 0),
            None,
            None,
            dec(10, 0),
        )
        .unwrap();
    }
    batch
        .on_filled(
            PositionType::Short,
            dec(12, 0),
            dec(10, 0),
            dec(120, 0),
            dec(0, 0),
            None,
            None,
            dec(12, 0),
        )
        .unwrap();
    for (amount, notional) in [(dec(4, 0), dec(48, 0)), (dec(6, 0), dec(72, 0))] {
        steps
            .on_filled(
                PositionType::Short,
                dec(12, 0),
                amount,
                notional,
                dec(0, 0),
                None,
                None,
                dec(12, 0),
            )
            .unwrap();
    }
    assert!(matches!(batch.state(), PositionState::Closed(_)));
    assert!(matches!(steps.state(), PositionState::Closed(_)));
    assert_eq!(batch.pnl().0, dec(20, 0));
    assert_eq!(steps.pnl().0, dec(20, 0));
}

#[test]
fn losing_round_trip_closes_with_cut_loss_reason() {
    let mut p = make_position(PositionType::Long);
    p.on_filled(
        PositionType::Long,
        dec(10, 0),
        dec(10, 0),
        dec(100, 0),
        dec(0, 0),
        None,
        None,
        dec(10, 0),
    )
    .unwrap();
    p.on_filled(
        PositionType::Short,
        dec(8, 0),
        dec(10, 0),
        dec(80, 0),
        dec(0, 0),
        None,
        None,
        dec(8, 0),
    )
    .unwrap();
    assert_eq!(p.state(), PositionState::Closed("CutLoss".to_string()));
    assert_eq!(p.pnl().0, dec(-20, 0));
}

#[test]
fn inversion_flips_side_and_reseeds_thresholds() {
    let mut p = make_position(PositionType::Long);
    p.on_filled(
        PositionType::Long,
        dec(10, 0),
        dec(10, 0),
        dec(100, 0),
        dec(0, 0),
        Some(dec(12, 0)),
        Some(dec(9, 0)),
        dec(10, 0),
    )
    .unwrap();
    p.on_filled(
        PositionType::Short,
        dec(11, 0),
        dec(15, 0),
        dec(165, 0),
        dec(0, 0),
        Some(dec(9, 0)),
        Some(dec(13, 0)),
        dec(11, 0),
    )
    .unwrap();
    assert_eq!(p.amount(), dec(-5, 0));
    assert_eq!(p.position_type(), PositionType::Short);
    assert_eq!(p.average_open_price(), dec(11, 0));
    assert_eq!(p.take_profit_price(), Some(dec(9, 0)));
    assert_eq!(p.cut_loss_price(), Some(dec(13, 0)));
    // only the 10 units that closed the long realize: (11 - 10) * 10 = 10
    assert_eq!(p.pnl().0, dec(10, 0));
    assert_eq!(p.state(), PositionState::Open);
}

#[test]
fn fill_on_closed_position_is_rejected() {
    let mut p = make_position(PositionType::Long);
    p.on_filled(
        PositionType::Long,
        dec(10, 0),
        dec(1, 0),
        dec(10, 0),
        dec(0, 0),
        None,
        None,
        dec(10, 0),
    )
    .unwrap();
    p.on_filled(
        PositionType::Short,
        dec(10, 0),
        dec(1, 0),
        dec(10, 0),
        dec(0, 0),
        None,
        None,
        dec(10, 0),
    )
    .unwrap();
    let before = p.state();
    assert!(matches!(before, PositionState::Closed(_)));
    let r = p.on_filled(
        PositionType::Long,
        dec(10, 0),
        dec(1, 0),
        dec(10, 0),
        dec(0, 0),
        None,
        None,
        dec(10, 0),
    );
    assert!(r.is_err());
    assert_eq!(p.state(), before);
}

#[test]
fn malformed_fills_are_rejected() {
    let mut p = open_long(None, None);
    let before = p.amount();
    // a fill of nothing
    let r = p.on_filled(
        PositionType::Long,
        dec(10, 0),
        dec(0, 0),
        dec(0, 0),
        dec(0, 0),
        None,
        None,
        dec(10, 0),
    );
    assert_eq!(r, Err(PositionError::InvalidFill));
    // a negative price
    let r = p.on_filled(
        PositionType::Long,
        dec(-10, 0),
        dec(1, 0),
        dec(10, 0),
        dec(0, 0),
        None,
        None,
        dec(10, 0),
    );
    assert_eq!(r, Err(PositionError::InvalidFill));
    assert_eq!(p.amount(), before);
    assert_eq!(p.state(), PositionState::Open);
}

#[test]
fn request_close_only_from_open() {
    let mut p = make_position(PositionType::Long);
    assert!(p.request_close("early").is_err());
    assert_eq!(p.state(), PositionState::Opening);

    let mut p = open_long(None, None);
    assert!(p.request_close("drift").is_ok());
    assert_eq!(p.state(), PositionState::Closing("drift".to_string()));
    // a second request while already closing is rejected
    assert!(p.request_close("again").is_err());
    assert_eq!(p.state(), PositionState::Closing("drift".to_string()));
}

#[test]
fn closing_reason_survives_the_final_fill() {
    let mut p = open_long(None, None);
    p.request_close("drift").unwrap();
    p.on_filled(
        PositionType::Short,
        dec(11, 0),
        dec(100, 0),
        dec(1100, 0),
        dec(0, 0),
        None,
        None,
        dec(11, 0),
    )
    .unwrap();
    assert_eq!(p.state(), PositionState::Closed("drift".to_string()));
}

#[test]
fn cancel_closing_restores_open_at_expiry_edge() {
    let mut p = open_long(None, None);
    assert!(p.cancel_closing().is_err());
    p.request_close("drift").unwrap();
    assert!(p.cancel_closing().is_ok());
    assert_eq!(p.state(), PositionState::Open);
    // the tick counter restarts at the maximum holding count
    assert_eq!(p.actual_hold_tick(), 0);
    assert!(!p.should_open_expired(dec(10, 0)));
    p.update_counter();
    assert!(p.should_open_expired(dec(10, 0)));
}

#[test]
fn counters_only_run_while_open_or_closing() {
    let mut p = make_position(PositionType::Long);
    p.update_counter();
    assert!(!p.should_cancel_closing());
    let mut p = open_long(None, None);
    for _ in 0..6 {
        p.update_counter();
    }
    assert!(!p.should_cancel_closing());
    p.request_close("drift").unwrap();
    assert_eq!(p.actual_hold_tick(), 6);
    for _ in 0..5 {
        p.update_counter();
    }
    assert!(!p.should_cancel_closing());
    p.update_counter();
    assert!(p.should_cancel_closing());
}

#[test]
fn trailing_stop_scenario_locks_in_profit() {
    let mut p = open_long(Some(dec(12, 0)), Some(dec(9, 0)));
    // price rises through the take-profit line; trailing keeps it running
    assert!(!p.should_take_profit(dec(125, 1), true));
    assert_eq!(p.trailing_peak_price, Some(dec(125, 1)));
    // retracing to 11.2 crosses the stop 12.5 * 0.90 = 11.25, still above
    // the entry at 10, so the close fires as a take-profit
    assert_eq!(p.should_close(dec(112, 1), true), Some(ReasonForClose::TakeProfit));
}

#[test]
fn without_trailing_first_touch_takes_profit() {
    let mut p = open_long(Some(dec(12, 0)), Some(dec(9, 0)));
    assert_eq!(p.should_close(dec(119, 1), false), None);
    assert_eq!(p.should_close(dec(12, 0), false), Some(ReasonForClose::TakeProfit));
}

#[test]
fn peak_never_decreases() {
    let mut p = open_long(Some(dec(12, 0)), Some(dec(9, 0)));
    assert!(!p.should_take_profit(dec(125, 1), true));
    assert_eq!(p.trailing_peak_price, Some(dec(125, 1)));
    // a dip back to the line does not lower the peak
    assert!(!p.should_take_profit(dec(12, 0), true));
    assert_eq!(p.trailing_peak_price, Some(dec(125, 1)));
    // a higher price raises it
    assert!(!p.should_take_profit(dec(13, 0), true));
    assert_eq!(p.trailing_peak_price, Some(dec(13, 0)));
}

#[test]
fn trailing_retracement_below_entry_is_not_take_profit() {
    let mut p = open_long(Some(dec(12, 0)), Some(dec(9, 0)));
    assert!(!p.should_take_profit(dec(125, 1), true));
    // far retracement: under the entry price the trailing exit is no
    // longer profitable, so it falls through to the cut-loss rule
    assert_eq!(p.should_close(dec(9, 0), true), Some(ReasonForClose::CutLoss));
}

#[test]
fn cut_loss_triggers_on_the_line() {
    let mut p = open_long(Some(dec(12, 0)), Some(dec(9, 0)));
    assert_eq!(p.should_close(dec(91, 1), true), None);
    assert_eq!(p.should_close(dec(9, 0), true), Some(ReasonForClose::CutLoss));
}

#[test]
fn short_side_rules_mirror_long() {
    let mut p = make_position(PositionType::Short);
    p.on_filled(
        PositionType::Short,
        dec(10, 0),
        dec(100, 0),
        dec(1000, 0),
        dec(0, 0),
        Some(dec(8, 0)),
        Some(dec(11, 0)),
        dec(10, 0),
    )
    .unwrap();
    assert_eq!(p.amount(), dec(-100, 0));
    assert_eq!(p.should_close(dec(11, 0), false), Some(ReasonForClose::CutLoss));
    assert_eq!(p.should_close(dec(8, 0), false), Some(ReasonForClose::TakeProfit));
    // trailing on the short side tracks a trough
    assert!(!p.should_take_profit(dec(75, 1), true));
    assert_eq!(p.trailing_peak_price, Some(dec(75, 1)));
    // stop = 7.5 * (1 + 0.10) = 8.25; rising back to 8.3 fires while
    // still below the entry at 10
    assert!(p.should_take_profit(dec(83, 1), true));
}

#[test]
fn expiry_spares_profitable_positions() {
    let mut p = open_long(Some(dec(12, 0)), Some(dec(9, 0)));
    for _ in 0..21 {
        p.update_counter();
    }
    assert!(p.should_open_expired(dec(10, 0)));
    // at or past the take-profit line the expiry path stands back
    assert!(!p.should_open_expired(dec(12, 0)));
    // not yet past its holding budget
    let mut q = open_long(Some(dec(12, 0)), Some(dec(9, 0)));
    q.update_counter();
    assert!(!q.should_open_expired(dec(10, 0)));
}

#[test]
fn liquidation_records_reason_strings() {
    let mut p = open_long(None, None);
    p.on_liquidated(dec(9, 0), dec(1, 0), true, Some("margin call".to_string())).unwrap();
    assert_eq!(p.state(), PositionState::Closed("Liquidated, margin call".to_string()));
    // 900 - 1000 - 1 fee
    assert_eq!(p.pnl().0, dec(-101, 0));
    assert!(p.amount().is_zero());

    let mut q = open_long(None, None);
    q.on_liquidated(dec(9, 0), dec(0, 0), true, None).unwrap();
    assert_eq!(q.state(), PositionState::Closed("Liquidated".to_string()));
}

#[test]
fn settling_a_requested_close_keeps_its_reason() {
    let mut p = open_long(None, None);
    p.request_close("drift").unwrap();
    p.on_liquidated(dec(11, 0), dec(0, 0), false, None).unwrap();
    assert_eq!(p.state(), PositionState::Closed("drift".to_string()));
    assert_eq!(p.pnl().0, dec(100, 0));
}

#[test]
fn liquidation_rejected_in_wrong_states() {
    let mut p = open_long(None, None);
    // not closing, and not a forced liquidation
    assert!(p.on_liquidated(dec(9, 0), dec(1, 0), false, None).is_err());
    assert_eq!(p.state(), PositionState::Open);
    assert!(p.fee().is_zero());

    p.on_liquidated(dec(9, 0), dec(0, 0), true, None).unwrap();
    // already closed: rejected either way
    assert!(p.on_liquidated(dec(9, 0), dec(0, 0), true, None).is_err());
    assert!(p.on_liquidated(dec(9, 0), dec(0, 0), false, None).is_err());
}

#[test]
fn pnl_ratio_is_profit_over_reduced_notional() {
    let mut p = make_position(PositionType::Long);
    p.on_filled(
        PositionType::Long,
        dec(10, 0),
        dec(100, 0),
        dec(1000, 0),
        dec(1, 0),
        None,
        None,
        dec(10, 0),
    )
    .unwrap();
    p.on_filled(
        PositionType::Short,
        dec(12, 0),
        dec(100, 0),
        dec(1200, 0),
        dec(2, 0),
        None,
        None,
        dec(12, 0),
    )
    .unwrap();
    let (absolute, ratio) = p.pnl();
    assert_eq!(absolute, dec(197, 0));
    // 197 / 1200, truncated at nine digits
    assert_eq!(ratio, Decimal::from_raw(164_166_666));
}

#[test]
fn fees_accumulate_across_fills() {
    let mut p = make_position(PositionType::Long);
    for _ in 0..3 {
        p.on_filled(
            PositionType::Long,
            dec(10, 0),
            dec(1, 0),
            dec(10, 0),
            dec(25, 2),
            None,
            None,
            dec(10, 0),
        )
        .unwrap();
    }
    assert_eq!(p.fee(), dec(75, 2));
}

#[test]
fn get_info_reports_only_live_positions() {
    let p = make_position(PositionType::Long);
    assert!(p.get_info(dec(10, 0)).is_none());
    let q = open_long(None, None);
    let info = q.get_info(dec(11, 0)).unwrap();
    assert!(info.contains("ID:7"));
    assert!(info.contains("TKN"));
    assert!(info.contains("[Long]"));
    assert!(info.contains("100"));
}

#[test]
fn labels_match_variants() {
    assert_eq!(PositionType::Long.label(), "Long");
    assert_eq!(PositionType::HedgeShort.label(), "HedgeShort");
    assert_eq!(PositionState::Opening.label(), "Opening");
    assert_eq!(PositionState::Closing("x".to_string()).label(), "Closing");
    assert_eq!(OrderState::Filled.label(), "Filled");
    assert_eq!(ReasonForClose::TakeProfit.label(), "TakeProfit");
    assert_eq!(ReasonForClose::Other("odd".to_string()).label(), "odd");
}

#[test]
fn opposite_is_an_involution() {
    let sides = [
        PositionType::Long,
        PositionType::Short,
        PositionType::HedgeLong,
        PositionType::HedgeShort,
    ];
    assert_eq!(PositionType::Long.opposite(), PositionType::Short);
    assert_eq!(PositionType::HedgeLong.opposite(), PositionType::HedgeShort);
    for s in sides.iter() {
        assert_eq!(s.opposite().opposite(), *s);
    }
}
