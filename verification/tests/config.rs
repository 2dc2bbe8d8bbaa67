use rust_tmpl::config::parse_port;

#[test]
fn ports_parse_as_u16_does() {
    for text in ["3000", "0", "65535", "+80", "0080", "65536", "", "+", "-1", " 80", "80 ", "8a", "99999999999", "٣"] {
        assert_eq!(parse_port(text), text.parse::<u16>().ok(), "input {text:?}");
    }
    assert_eq!(parse_port("3000"), Some(3000));
    assert_eq!(parse_port("65536"), None);
}
