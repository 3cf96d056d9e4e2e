use plrs::pv::singletons::{divide, remain};
use plrs::{Pv, PvBool, PvInt, PvString};

#[test]
fn sums_differences_and_products_wrap() {
    assert_eq!(PvInt::new(isize::MAX) + PvInt::new(1), PvInt::new(isize::MIN));
    assert_eq!(PvInt::new(isize::MIN) - PvInt::new(1), PvInt::new(isize::MAX));
    assert_eq!(PvInt::new(isize::MAX) * PvInt::new(2), PvInt::new(-2));
    assert_eq!(PvInt::new(7) - PvInt::new(9), PvInt::new(-2));
    assert_eq!(PvInt::new(-4) * PvInt::new(6), PvInt::new(-24));
    assert_eq!(PvInt::new(15) + &PvInt::new(3), PvInt::new(18));
    assert_eq!(PvInt::new(15) - &PvInt::new(3), PvInt::new(12));
    assert_eq!(PvInt::new(15) * &PvInt::new(3), PvInt::new(45));
}

#[test]
fn quotients_round_towards_zero() {
    assert_eq!(divide(7, 2), 3);
    assert_eq!(divide(-7, 2), -3);
    assert_eq!(divide(7, -2), -3);
    assert_eq!(divide(-7, -2), 3);
    assert_eq!(divide(0, 5), 0);
    assert_eq!(divide(isize::MIN, 1), isize::MIN);
    assert_eq!(divide(isize::MAX, -1), -isize::MAX);
    assert_eq!(PvInt::new(15) / PvInt::new(4), PvInt::new(3));
    assert_eq!(PvInt::new(-15) / &PvInt::new(4), PvInt::new(-3));
}

#[test]
fn remainders_have_the_sign_of_the_dividend() {
    assert_eq!(remain(7, 2), 1);
    assert_eq!(remain(-7, 2), -1);
    assert_eq!(remain(7, -2), 1);
    assert_eq!(remain(-7, -2), -1);
    assert_eq!(remain(6, 3), 0);
    assert_eq!(PvInt::new(15) % PvInt::new(4), PvInt::new(3));
    assert_eq!(PvInt::new(-15) % &PvInt::new(4), PvInt::new(-3));
}

#[test]
fn numbers_from_plain_values() {
    assert_eq!(PvInt::from(4), PvInt(4));
    assert_eq!(PvBool::from(false), PvBool(false));
}

#[test]
fn value_operators_on_integers() {
    assert_eq!(Pv::integer(15) - Pv::integer(3), Pv::integer(12));
    assert_eq!(Pv::integer(15) * Pv::integer(3), Pv::integer(45));
    assert_eq!(Pv::integer(15) / Pv::integer(3), Pv::integer(5));
    assert_eq!(Pv::integer(-15) / Pv::integer(4), Pv::integer(-3));
    assert_eq!(Pv::integer(15) % Pv::integer(4), Pv::integer(3));
    assert_eq!(Pv::integer(isize::MAX) + Pv::integer(1), Pv::integer(isize::MIN));
    assert_eq!(Pv::integer(15) + &Pv::integer(3), Pv::integer(18));
    assert_eq!(Pv::integer(15) - &Pv::integer(3), Pv::integer(12));
    assert_eq!(Pv::integer(15) * &Pv::integer(3), Pv::integer(45));
    assert_eq!(Pv::integer(15) / &Pv::integer(3), Pv::integer(5));
    assert_eq!(Pv::integer(15) % &Pv::integer(3), Pv::integer(0));
}

#[test]
fn value_operators_on_other_kinds_give_the_invalid_value() {
    assert_eq!(Pv::integer(1) - Pv::bool(true), Pv::invalid());
    assert_eq!(Pv::null() * Pv::integer(2), Pv::invalid());
    assert_eq!(Pv::from("a") / Pv::integer(2), Pv::invalid());
    assert_eq!(Pv::integer(2) % Pv::null(), Pv::invalid());
    assert_eq!(Pv::from("a") - Pv::from("a"), Pv::invalid());
    assert_eq!(Pv::from("a") + Pv::integer(1), Pv::invalid());
    assert_eq!(Pv::array() + Pv::array(), Pv::invalid());
    assert_eq!(Pv::invalid() + Pv::invalid(), Pv::invalid());
    // a division of other kinds does not look at the divisor
    assert_eq!(Pv::null() / Pv::integer(0), Pv::invalid());
    assert_eq!(Pv::integer(1) % Pv::from("0"), Pv::invalid());
}

#[test]
fn invalid_spreads_through_later_operations() {
    let poisoned = Pv::integer(1) + Pv::null();
    assert_eq!(poisoned.clone() + Pv::integer(1), Pv::invalid());
    assert_eq!(Pv::integer(1) * poisoned, Pv::invalid());
}

#[test]
fn value_sum_of_texts() {
    assert_eq!(Pv::from("ab") + Pv::from("cd"), Pv::from("abcd"));
    assert_eq!(Pv::from("") + &Pv::from(""), Pv::String(PvString::new_empty()));
    let a = Pv::from("x");
    let sum = a.clone() + &a;
    assert_eq!(sum, Pv::from("xx"));
    assert_eq!(a, Pv::from("x"));
}

#[test]
fn values_say_what_can_be_computed() {
    assert!(Pv::integer(1).can_divide(&Pv::integer(2)));
    assert!(!Pv::integer(1).can_divide(&Pv::integer(0)));
    assert!(!Pv::integer(0).can_divide(&Pv::integer(0)));
    assert!(!Pv::integer(isize::MIN).can_divide(&Pv::integer(-1)));
    assert!(Pv::integer(isize::MIN).can_divide(&Pv::integer(1)));
    assert!(Pv::integer(isize::MIN + 1).can_divide(&Pv::integer(-1)));
    assert!(Pv::null().can_divide(&Pv::integer(0)));
    assert!(Pv::integer(1).can_divide(&Pv::null()));
    assert!(Pv::from("a").can_add(&Pv::from("b")));
    assert!(Pv::integer(isize::MAX).can_add(&Pv::integer(isize::MAX)));
    assert!(Pv::null().can_add(&Pv::object()));
}
