//! Resolver-level behaviour: ratchet mechanics, the surge table, and
//! cross-family independence.
use perk_engine::state::{emp_buff, gbl_debuff, surge_buff, surge_multiplier, CategoryState};

#[test]
fn ratchet_returns_ratio_once_then_exactly_one() {
    let mut st = CategoryState::new();
    let f1 = emp_buff(&mut st, 1350);
    assert_eq!(f1.num, 1350);
    assert_eq!(f1.den, 1000);
    let f2 = emp_buff(&mut st, 1350);
    assert_eq!(f2.num, 1000);
    assert_eq!(f2.den, 1000);
    assert_eq!(st.empowering, 1350);
}

#[test]
fn ratchet_products_are_order_invariant() {
    let orders: [[u32; 3]; 3] = [[1350, 1150, 1250], [1150, 1250, 1350], [1250, 1350, 1150]];
    let mut products: Vec<(u128, u128)> = Vec::new();
    for order in orders.iter() {
        let mut st = CategoryState::new();
        let mut num: u128 = 1;
        let mut den: u128 = 1;
        for d in order.iter() {
            let f = emp_buff(&mut st, *d);
            num *= f.num;
            den *= f.den;
        }
        products.push((num, den));
        // every run's product is exactly max / 1.0
        assert_eq!(num * 1000, 1350 * den);
    }
    for p in products.iter() {
        assert_eq!(p.0 * products[0].1, products[0].0 * p.1);
    }
}

#[test]
fn weaker_request_after_stronger_is_subsumed() {
    let mut st = CategoryState::new();
    let f1 = emp_buff(&mut st, 1350);
    let f2 = emp_buff(&mut st, 1150);
    assert_eq!(f1.num, 1350);
    assert_eq!(f1.den, 1000);
    assert_eq!(f2.num, 1000);
    assert_eq!(f2.den, 1000);
    assert_eq!(st.empowering, 1350);
}

#[test]
fn surge_table_anchors_and_saturation() {
    assert_eq!(surge_multiplier(false, 4), 1250);
    assert_eq!(surge_multiplier(true, 4), 1060);
    assert_eq!(surge_multiplier(false, 9), 1250);
    assert_eq!(surge_multiplier(true, 250), 1060);
    assert_eq!(surge_multiplier(false, 0), 1000);
    assert_eq!(surge_multiplier(true, 0), 1000);
    assert_eq!(surge_multiplier(false, 2), 1170);
    assert_eq!(surge_multiplier(true, 2), 1045);
}

#[test]
fn surge_tier_zero_grants_nothing() {
    let mut st = CategoryState::new();
    let f = surge_buff(&mut st, 0, false);
    assert_eq!(f.num, 1000);
    assert_eq!(f.den, 1000);
    assert_eq!(st.surge, 1000);
}

#[test]
fn surge_and_debuff_do_not_suppress_each_other() {
    // surge first, debuff second
    let mut st = CategoryState::new();
    let fs = surge_buff(&mut st, 2, false);
    let fd = gbl_debuff(&mut st, 1150);
    assert_eq!((fs.num, fs.den), (1170, 1000));
    assert_eq!((fd.num, fd.den), (1150, 1000));
    // the other order yields the same two factors
    let mut st2 = CategoryState::new();
    let fd2 = gbl_debuff(&mut st2, 1150);
    let fs2 = surge_buff(&mut st2, 2, false);
    assert_eq!((fs2.num, fs2.den), (fs.num, fs.den));
    assert_eq!((fd2.num, fd2.den), (fd.num, fd.den));
    // and the composition is straight multiplication: 1.17 * 1.15 = 1.3455
    assert_eq!(fs.num * fd.num * 10000, 13455 * fs.den * fd.den);
    assert_eq!(st.surge, st2.surge);
    assert_eq!(st.debuff, st2.debuff);
}

#[test]
fn ratchet_state_never_decreases() {
    let mut st = CategoryState::new();
    emp_buff(&mut st, 1350);
    emp_buff(&mut st, 1100);
    assert_eq!(st.empowering, 1350);
    gbl_debuff(&mut st, 1300);
    gbl_debuff(&mut st, 1075);
    assert_eq!(st.debuff, 1300);
}
