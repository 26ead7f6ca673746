use djoc::kebab;
use djoc::utils::append_dec;

#[test]
fn test_kebab() {
    assert_eq!(kebab("Hello, world!"), "hello-world");
    assert_eq!(kebab("こんにちは"), "こんにちは");
    assert_eq!(kebab("Hello\tworld"), "hello-world");
    assert_eq!(kebab("Hello\rworld"), "hello-world");
    assert_eq!(kebab("Hello\nworld"), "hello-world");
    assert_eq!(kebab("!\"#$%&'()*+,-./:;<=>?@[\\]^_`{|}~"), "-");
}

#[test]
fn kebab_keeps_digits_and_lowers_ascii() {
    assert_eq!(kebab("Report 2020"), "report-2020");
    assert_eq!(kebab("ABC"), "abc");
    assert_eq!(kebab(""), "");
}

#[test]
fn decimal_formatting() {
    let mut s = String::new();
    append_dec(&mut s, 0);
    assert_eq!(s, "0");
    let mut s = String::new();
    append_dec(&mut s, 42);
    assert_eq!(s, "42");
    let mut s = String::new();
    append_dec(&mut s, 18446744073709551615);
    assert_eq!(s, "18446744073709551615");
}
