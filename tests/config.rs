use jinglepi::config::{is_duty, is_gpio, parse_i2c_address, parse_u8, Config, Mode, Wave};

#[test]
fn duty_cycle_checks() {
    assert_eq!(is_duty("50".to_string()), Ok(()));
    assert_eq!(is_duty("1".to_string()), Ok(()));
    assert_eq!(is_duty("99".to_string()), Ok(()));
    assert_eq!(is_duty("+07".to_string()), Ok(()));
    assert_eq!(is_duty("0".to_string()), Err("Duty cycle has to be a value between 0 and 100".to_string()));
    assert_eq!(is_duty("100".to_string()), Err("Duty cycle has to be a value between 0 and 100".to_string()));
    assert_eq!(is_duty("255".to_string()), Err("Duty cycle has to be a value between 0 and 100".to_string()));
    assert_eq!(is_duty("256".to_string()), Err("Duty cycle has to be an unsigned integer (u8).".to_string()));
    assert_eq!(is_duty("-5".to_string()), Err("Duty cycle has to be an unsigned integer (u8).".to_string()));
    assert_eq!(is_duty("fifty".to_string()), Err("Duty cycle has to be an unsigned integer (u8).".to_string()));
}

#[test]
fn gpio_checks() {
    assert_eq!(is_gpio("2".to_string()), Ok(()));
    assert_eq!(is_gpio("255".to_string()), Ok(()));
    assert_eq!(is_gpio("256".to_string()), Err("ggio has to be an unsigned integer (u8).".to_string()));
    assert_eq!(is_gpio("".to_string()), Err("ggio has to be an unsigned integer (u8).".to_string()));
}

#[test]
fn u8_parsing_follows_std() {
    for text in ["0", "7", "+7", "007", "255", "256", "", "+", "-0", " 1", "1 ", "1_0", "12a", "é", "99999999999"] {
        assert_eq!(parse_u8(text), text.parse::<u8>().ok(), "{:?}", text);
    }
}

#[test]
fn i2c_address_from_hex() {
    assert_eq!(parse_i2c_address("62"), Ok(98));
    assert_eq!(parse_i2c_address("1a"), Ok(26));
    assert_eq!(parse_i2c_address("FF"), Ok(255));
    assert_eq!(parse_i2c_address("0162"), Ok(0x162));
    assert_eq!(parse_i2c_address("0a0a"), Ok(0x0a0a));
    assert_eq!(parse_i2c_address("ffff"), Ok(0xffff));
    assert_eq!(parse_i2c_address("00ffff"), Ok(0xffff));
    assert_eq!(parse_i2c_address(""), Ok(0));
    assert_eq!(parse_i2c_address("6"), Err("i2c address has to be a hex string.".to_string()));
    assert_eq!(parse_i2c_address("zz"), Err("i2c address has to be a hex string.".to_string()));
    assert_eq!(parse_i2c_address("010000"), Err("i2c address has to fit in 16 bits.".to_string()));
}

#[test]
fn config_from_command_line_values() {
    let c = Config::new("jingle.csv".to_string(), Mode::Analog, "2", "50", "62", Wave::Saw).unwrap();
    assert_eq!(c.filename, "jingle.csv");
    assert_eq!(c.mode, Mode::Analog);
    assert_eq!(c.gpio, 2);
    assert_eq!(c.duty_cycle, 50);
    assert_eq!(c.i2c_address, 98);
    assert_eq!(c.wave, Wave::Saw);
}

#[test]
fn config_reports_first_bad_value() {
    let bad = |g: &str, d: &str, i: &str| Config::new("j.csv".to_string(), Mode::Digital, g, d, i, Wave::Square).unwrap_err();
    assert_eq!(bad("x", "0", "zz"), "ggio has to be an unsigned integer (u8).");
    assert_eq!(bad("3", "x", "zz"), "Duty cycle has to be an unsigned integer (u8).");
    assert_eq!(bad("3", "0", "zz"), "Duty cycle has to be a value between 0 and 100");
    assert_eq!(bad("3", "30", "zz"), "i2c address has to be a hex string.");
    assert_eq!(bad("3", "30", "10000a"), "i2c address has to fit in 16 bits.");
}
