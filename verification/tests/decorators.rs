use naughty_attributes::attributes::decorator::horizontal_line::{HorizontalLine, Rgba8};
use naughty_attributes::attributes::decorator::info_box::{InfoBox, Severity};
use naughty_attributes::attributes::decorator::message_box::{
    MessageBox, KEY_ERROR_BOX, KEY_INFO_BOX, KEY_WARNING_BOX,
};

#[test]
fn defaults_to_the_info_severity() {
    let info_box = InfoBox::parse("Plain information").unwrap();
    assert_eq!(info_box.text, "Plain information");
    assert_eq!(info_box.severity, Severity::Info);
}

#[test]
fn reads_every_severity() {
    assert_eq!(InfoBox::parse("A,info").unwrap().severity, Severity::Info);
    assert_eq!(
        InfoBox::parse("A,warning").unwrap().severity,
        Severity::Warning
    );
    assert_eq!(
        InfoBox::parse("A, error").unwrap().severity,
        Severity::Error
    );
}

#[test]
fn keeps_an_escaped_comma_in_the_message() {
    let info_box = InfoBox::parse(r"Careful\, really").unwrap();
    assert_eq!(info_box.text, "Careful, really");
}

#[test]
fn info_box_rejects_an_empty_message() {
    assert!(InfoBox::parse("").is_err());
    assert!(InfoBox::parse("   ").is_err());
    assert!(InfoBox::parse(",warning").is_err());
}

#[test]
fn rejects_an_unknown_severity() {
    assert!(InfoBox::parse("A,fatal").is_err());
}

#[test]
fn rejects_more_than_a_message_and_a_severity() {
    assert!(InfoBox::parse("A,warning,extra").is_err());
}

#[test]
fn info_box_error_messages() {
    assert_eq!(InfoBox::parse("").err().unwrap(), "expected a message");
    assert_eq!(
        InfoBox::parse("A,fatal").err().unwrap(),
        "expected a severity of info, warning or error, got 'fatal'"
    );
    assert_eq!(
        InfoBox::parse("A,b,c").err().unwrap(),
        "expected a message and an optional severity"
    );
    assert_eq!(
        InfoBox::parse(",fatal").err().unwrap(),
        "expected a severity of info, warning or error, got 'fatal'"
    );
}

#[test]
fn keeps_a_bare_comma_in_the_message() {
    let message_box = MessageBox::parse("Careful, really", Severity::Info).unwrap();
    assert_eq!(message_box.text, "Careful, really");
}

#[test]
fn message_box_unescapes_an_escaped_semicolon() {
    let message_box = MessageBox::parse(r"Careful\; really", Severity::Info).unwrap();
    assert_eq!(message_box.text, "Careful; really");
}

#[test]
fn message_box_rejects_an_empty_message() {
    assert!(MessageBox::parse("", Severity::Info).is_err());
    assert!(MessageBox::parse("   ", Severity::Warning).is_err());
}

#[test]
fn reports_the_key_of_its_severity() {
    let info_box = MessageBox::parse("Msg", Severity::Info).unwrap();
    let warning_box = MessageBox::parse("Msg", Severity::Warning).unwrap();
    let error_box = MessageBox::parse("Msg", Severity::Error).unwrap();
    assert_eq!(info_box.get_key(), KEY_INFO_BOX);
    assert_eq!(warning_box.get_key(), KEY_WARNING_BOX);
    assert_eq!(error_box.get_key(), KEY_ERROR_BOX);
}

#[test]
fn leaves_the_colour_to_the_theme_without_args() {
    assert!(HorizontalLine::parse("").unwrap().color.is_none());
    assert!(HorizontalLine::parse("   ").unwrap().color.is_none());
}

#[test]
fn parses_a_six_digit_hex_as_opaque() {
    let line = HorizontalLine::parse("#5a5a5a").unwrap();
    assert_eq!(
        line.color,
        Some(Rgba8 { red: 0x5a, green: 0x5a, blue: 0x5a, alpha: 0xff })
    );
}

#[test]
fn parses_an_eight_digit_hex_with_alpha() {
    let line = HorizontalLine::parse("1a2b3c80").unwrap();
    assert_eq!(
        line.color,
        Some(Rgba8 { red: 0x1a, green: 0x2b, blue: 0x3c, alpha: 0x80 })
    );
}

#[test]
fn rejects_a_malformed_colour() {
    assert!(HorizontalLine::parse("#5a5a5").is_err());
    assert!(HorizontalLine::parse("#gggggg").is_err());
    assert!(HorizontalLine::parse("dim_gray").is_err());
    assert!(HorizontalLine::parse("#5a5a5\u{00e9}").is_err());
}

#[test]
fn reads_channels_as_from_str_radix_does() {
    let line = HorizontalLine::parse("+a+b+c").unwrap();
    assert_eq!(
        line.color,
        Some(Rgba8 { red: 0x0a, green: 0x0b, blue: 0x0c, alpha: 0xff })
    );
    assert!(HorizontalLine::parse("-a0000").is_err());
    assert!(HorizontalLine::parse("éa5a5a5").is_err());
    assert_eq!(
        HorizontalLine::parse("#FFffFF").unwrap().color,
        Some(Rgba8 { red: 0xff, green: 0xff, blue: 0xff, alpha: 0xff })
    );
    assert_eq!(
        HorizontalLine::parse("x").err().unwrap(),
        "expected a colour like #5a5a5a or #5a5a5a80"
    );
}

#[test]
fn message_box_error_text() {
    assert_eq!(
        MessageBox::parse(r"\", Severity::Error).err().unwrap(),
        "expected a message"
    );
}
