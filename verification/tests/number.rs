use azul_layout::number::Number;
use std::cell::Cell;

#[test]
fn combine_with_undefined_on_the_left_is_undefined() {
    let r = Number::Undefined.combine(Number::Defined(4.0f32), |x, y| x + y);
    assert_eq!(r, Number::Undefined);
}

#[test]
fn combine_with_undefined_on_the_right_is_undefined() {
    let r = Number::Defined(4.0f32).combine(Number::Undefined, |x, y| x + y);
    assert_eq!(r, Number::Undefined);
}

#[test]
fn combine_of_two_undefined_is_undefined() {
    let r = Number::<f32>::Undefined.combine(Number::Undefined, |x, y| x * y);
    assert_eq!(r, Number::Undefined);
}

#[test]
fn combine_of_two_defined_applies_the_operation() {
    let a = Number::Defined(7.5f32);
    let b = Number::Defined(2.5f32);
    assert_eq!(a.combine(b, |x, y| x + y), Number::Defined(10.0));
    assert_eq!(a.combine(b, |x, y| x - y), Number::Defined(5.0));
    assert_eq!(a.combine(b, |x, y| x * y), Number::Defined(18.75));
    assert_eq!(a.combine(b, |x, y| x / y), Number::Defined(3.0));
}

#[test]
fn combine_hands_the_operands_over_in_order() {
    let r = Number::Defined(9i64).combine(Number::Defined(2), |x, y| x * 10 + y);
    assert_eq!(r, Number::Defined(92));
}

#[test]
fn combine_does_not_run_the_operation_on_an_undefined_operand() {
    let calls = Cell::new(0u32);
    let count = |x: i32, y: i32| {
        calls.set(calls.get() + 1);
        x + y
    };
    assert_eq!(Number::Undefined.combine(Number::Defined(1), &count), Number::Undefined);
    assert_eq!(Number::Defined(1).combine(Number::Undefined, &count), Number::Undefined);
    assert_eq!(calls.get(), 0);
    assert_eq!(Number::Defined(1).combine(Number::Defined(2), &count), Number::Defined(3));
    assert_eq!(calls.get(), 1);
}

#[test]
fn combine_never_turns_undefined_into_zero() {
    let r = Number::Undefined.combine(Number::Defined(0.0f32), |x, y| x + y);
    assert_ne!(r, Number::Defined(0.0));
    assert!(r.is_undefined());
}

#[test]
fn sum_of_two_defined_numbers_is_the_defined_sum() {
    assert_eq!(Number::Defined(1.5f32) + Number::Defined(2.25), Number::Defined(3.75));
    assert_eq!(Number::Defined(40u8) + Number::Defined(2), Number::Defined(42));
    assert_eq!(Number::Defined(-3i32) + Number::Defined(3), Number::Defined(0));
}

#[test]
fn sum_with_an_undefined_operand_is_undefined() {
    assert_eq!(Number::Defined(1.5f32) + Number::Undefined, Number::Undefined);
    assert_eq!(Number::Undefined + Number::Defined(1.5f32), Number::Undefined);
    assert_eq!(Number::<f32>::Undefined + Number::Undefined, Number::Undefined);
}

#[test]
fn is_defined_tells_the_two_states_apart() {
    assert!(Number::Defined(0.0f32).is_defined());
    assert!(!Number::Defined(0.0f32).is_undefined());
    assert!(Number::<f32>::Undefined.is_undefined());
    assert!(!Number::<f32>::Undefined.is_defined());
}

#[test]
fn numbers_compare_by_state_and_value() {
    assert!(Number::Defined(3.0f32) == Number::Defined(3.0));
    assert!(Number::Defined(3.0f32) != Number::Defined(3.5));
    assert!(Number::Defined(0.0f32) != Number::Undefined);
    assert!(Number::Undefined != Number::Defined(0.0f32));
    assert!(Number::<f32>::Undefined == Number::Undefined);
}

#[test]
fn a_defined_number_compares_as_its_value_does() {
    assert!(Number::Defined(f32::NAN) != Number::Defined(f32::NAN));
    assert!(Number::Defined(0.0f32) == Number::Defined(-0.0));
}

#[test]
fn a_number_is_copied_and_cloned_unchanged() {
    let a = Number::Defined(12.5f32);
    let b = a;
    let c = a.clone();
    assert_eq!(a, b);
    assert_eq!(a, c);
    let u = Number::<f32>::Undefined;
    assert_eq!(u.clone(), Number::Undefined);
    let s = Number::Defined(String::from("wide"));
    assert_eq!(s.clone(), s);
}

#[test]
fn a_number_formats_for_debugging() {
    assert_eq!(format!("{:?}", Number::Defined(2u8)), "Defined(2)");
    assert_eq!(format!("{:?}", Number::<u8>::Undefined), "Undefined");
}
