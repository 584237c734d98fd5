use dslite_b4::text::{push_decimal, text_with_number};

#[test]
fn numbers_are_rendered_in_decimal() {
    assert_eq!(text_with_number("status ", 0), "status 0");
    assert_eq!(text_with_number("status ", 7), "status 7");
    assert_eq!(text_with_number("", 10), "10");
    assert_eq!(text_with_number("s=", 4294967295), "s=4294967295");
    let mut s = String::from("a");
    push_decimal(&mut s, 1024);
    assert_eq!(s, "a1024");
}
