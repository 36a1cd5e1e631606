use up_transport_iceoryx2_rust::text::append_decimal;

fn decimal(n: usize) -> String {
    let mut s = String::new();
    append_decimal(&mut s, n);
    s
}

#[test]
fn decimal_of_small_numbers() {
    assert_eq!(decimal(0), "0");
    assert_eq!(decimal(7), "7");
    assert_eq!(decimal(10), "10");
    assert_eq!(decimal(4096), "4096");
}

#[test]
fn decimal_of_largest_number() {
    assert_eq!(decimal(usize::MAX), usize::MAX.to_string());
}

#[test]
fn decimal_appends_to_existing_text() {
    let mut s = String::from("size ");
    append_decimal(&mut s, 305);
    assert_eq!(s, "size 305");
}
