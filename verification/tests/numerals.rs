use inheritance::text::push_decimal;

#[test]
fn decimal_of_zero_is_one_digit() {
    let mut out = String::new();
    push_decimal(&mut out, 0);
    assert_eq!(out, "0");
}

#[test]
fn decimal_keeps_every_digit_in_order() {
    let mut out = String::from("arg_");
    push_decimal(&mut out, 1203);
    assert_eq!(out, "arg_1203");
}
