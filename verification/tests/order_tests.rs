use position_manager::{Decimal, Order, OrderState};

fn dec(num: i64, scale: u32) -> Decimal {
    Decimal::new(num, scale)
}

#[test]
fn order_fills_to_zero_in_two_steps() {
    let mut o = Order::new("ord-1".to_string(), dec(50, 0), 10);
    assert_eq!(o.id(), "ord-1");
    assert_eq!(o.state(), OrderState::Open);

    o.on_filled(dec(20, 0)).unwrap();
    assert_eq!(o.state(), OrderState::Open);
    assert_eq!(o.unfilled_amount, dec(30, 0));

    o.on_filled(dec(30, 0)).unwrap();
    assert_eq!(o.state(), OrderState::Filled);
    assert!(o.unfilled_amount.is_zero());
}

#[test]
fn filling_a_filled_order_is_rejected() {
    let mut o = Order::new("ord-2".to_string(), dec(5, 0), 10);
    o.on_filled(dec(5, 0)).unwrap();
    assert_eq!(o.state(), OrderState::Filled);
    assert!(o.on_filled(dec(1, 0)).is_err());
    assert!(o.unfilled_amount.is_zero());
}

#[test]
fn overfill_leaves_the_order_open() {
    let mut o = Order::new("ord-3".to_string(), dec(5, 0), 10);
    o.on_filled(dec(6, 0)).unwrap();
    assert_eq!(o.state(), OrderState::Open);
    assert_eq!(o.unfilled_amount, dec(-1, 0));
}

#[test]
fn order_times_out_only_while_open() {
    let mut o = Order::new("ord-4".to_string(), dec(5, 0), 2);
    for _ in 0..3 {
        o.update_counter();
    }
    assert!(o.should_cancel_order());

    let mut f = Order::new("ord-5".to_string(), dec(5, 0), 2);
    f.on_filled(dec(5, 0)).unwrap();
    for _ in 0..3 {
        f.update_counter();
    }
    assert!(!f.should_cancel_order());
    assert_eq!(f.tick_count, 0);
}
