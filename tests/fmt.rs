use flex::Flex;

#[test]
fn str() {
    let flex = Flex::Lend("hello world");
    assert_eq!(flex.to_string(), "hello world");
}

#[test]
fn number() {
    let value = 42;
    let flex = Flex::Lend(&value);
    assert_eq!(flex.to_string(), "42");
}

#[test]
fn give_display_matches_value() {
    let flex: Flex<i32> = Flex::Give(Box::new(-7));
    assert_eq!(flex.to_string(), format!("{}", -7));
}

#[test]
fn binary() {
    let value = 42;
    let flex = Flex::Lend(&value);
    assert_eq!(format!("{:b}", flex), "101010");
}

#[test]
fn octal() {
    let value = 64;
    let flex = Flex::Lend(&value);
    assert_eq!(format!("{:o}", flex), "100");
}

#[test]
fn lower_hex() {
    let value = 255;
    let flex = Flex::Lend(&value);
    assert_eq!(format!("{:x}", flex), "ff");
}

#[test]
fn upper_hex() {
    let value = 255;
    let flex = Flex::Lend(&value);
    assert_eq!(format!("{:X}", flex), "FF");
}

#[test]
fn give_formats_match_value() {
    let flex: Flex<u32> = Flex::Give(Box::new(3054));
    assert_eq!(format!("{:b}", flex), format!("{:b}", 3054u32));
    assert_eq!(format!("{:o}", flex), format!("{:o}", 3054u32));
    assert_eq!(format!("{:x}", flex), format!("{:x}", 3054u32));
    assert_eq!(format!("{:X}", flex), format!("{:X}", 3054u32));
}

#[test]
fn lower_exp() {
    let value = 1234.5f64;
    let flex = Flex::Lend(&value);
    let formatted = format!("{:e}", flex);
    assert!(formatted.starts_with("1.2345e"));
}

#[test]
fn upper_exp() {
    let value = 1234.5f64;
    let flex = Flex::Lend(&value);
    let formatted = format!("{:E}", flex);
    assert!(formatted.starts_with("1.2345E"));
}

#[test]
fn pointer_format() {
    let value = 42;
    let flex = Flex::Lend(&value);
    let formatted = format!("{:p}", flex);
    assert!(formatted.starts_with("0x"));
}

#[test]
fn pointer_is_address_of_value() {
    let value = 42;
    let flex = Flex::Lend(&value);
    assert_eq!(format!("{:p}", flex), format!("{:p}", &value));
}
