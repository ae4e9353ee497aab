//! The playback configuration and the checks on its command-line values.
use vstd::prelude::*;
use vstd::string::*;

verus! {

/// Which output renders the jingle.
#[derive(Debug, Clone, Copy, PartialEq, Eq)]
pub enum Mode {
    /// A square wave on a GPIO pin.
    Digital,
    /// A sampled waveform written to a DAC over I2C.
    Analog,
}

/// The waveform of the analog output.
#[derive(Debug, Clone, Copy, PartialEq, Eq)]
pub enum Wave {
    Square,
    Sine,
    Triangle,
    Saw,
}

/// Whether `c` is an ASCII decimal digit.
pub open spec fn is_decimal_digit(c: char) -> bool {
    '0' <= c <= '9'
}

/// The value of a string of decimal digits (0 for the empty string).
pub open spec fn decimal_value(s: Seq<char>) -> int
    decreases s.len(),
{
    if s.len() == 0 {
        0
    } else {
        10 * decimal_value(s.drop_last()) + (s.last() as int - '0' as int)
    }
}

/// The digits of an unsigned number: the text after an optional leading `+`.
pub open spec fn unsigned_digits(s: Seq<char>) -> Seq<char> {
    if s.len() > 0 && s[0] == '+' {
        s.drop_first()
    } else {
        s
    }
}

/// The `u8` that a text denotes: an optional `+` followed by one or more
/// decimal digits whose value is at most 255. Nothing else, not even
/// surrounding whitespace, is accepted.
pub open spec fn parse_u8_spec(s: Seq<char>) -> Option<u8> {
    let d = unsigned_digits(s);
    if d.len() > 0 && (forall|i: int| 0 <= i < d.len() ==> is_decimal_digit(#[trigger] d[i]))
        && decimal_value(d) <= 255 {
        Some(decimal_value(d) as u8)
    } else {
        None
    }
}

proof fn lemma_decimal_value_nonneg(s: Seq<char>)
    requires
        forall|i: int| 0 <= i < s.len() ==> is_decimal_digit(#[trigger] s[i]),
    ensures
        decimal_value(s) >= 0,
    decreases s.len(),
{
    if s.len() > 0 {
        lemma_decimal_value_nonneg(s.drop_last());
    }
}

/// Parses an unsigned 8-bit decimal number.
pub fn parse_u8(s: &str) -> (r: Option<u8>)
    ensures
        r == parse_u8_spec(s@),
{
    let ghost d = unsigned_digits(s@);
    if !s.is_ascii() {
        proof {
            let k = choose|k: int| 0 <= k < s@.len() && !('\0' <= #[trigger] s@[k] <= '\u{7f}');
            if s@.len() > 0 && s@[0] == '+' {
                assert(d[k - 1] == s@[k]);
            } else {
                assert(d[k] == s@[k]);
            }
        }
        return None;
    }
    let bytes = s.as_bytes();
    proof {
        vstd::string::is_ascii_spec_bytes(s);
    }
    let n = bytes.len();
    assert(n == s@.len());
    let mut i: usize = 0;
    if n > 0 && bytes[0] == 43u8 {
        i = 1;
    }
    let start = i;
    assert(d =~= s@.skip(start as int));
    if start == n {
        return None;
    }
    let mut v: u16 = 0;
    while i < n
        invariant
            bytes@ == Seq::new(s@.len(), |j: int| s@[j] as u8),
            is_ascii(s),
            n == s@.len(),
            d == unsigned_digits(s@),
            d =~= s@.skip(start as int),
            start <= i <= n,
            forall|j: int| 0 <= j < i - start ==> is_decimal_digit(#[trigger] d[j]),
            v == if decimal_value(d.take(i - start)) > 255 {
                256
            } else {
                decimal_value(d.take(i - start))
            },
        decreases n - i,
    {
        let b = bytes[i];
        assert(b == s@[i as int] as u8);
        assert('\0' <= s@[i as int] <= '\u{7f}');
        assert(b as int == s@[i as int] as int);
        assert(d[i - start] == s@[i as int]);
        if b < 48u8 || b > 57u8 {
            assert(!is_decimal_digit(d[i - start]));
            return None;
        }
        let digit: u16 = (b - 48u8) as u16;
        let ghost p = d.take(i - start);
        let ghost q = d.take(i - start + 1);
        assert(q.drop_last() =~= p);
        assert(q.last() == d[i - start]);
        assert(decimal_value(q) == 10 * decimal_value(p) + digit);
        proof {
            lemma_decimal_value_nonneg(p);
        }
        if v * 10 + digit > 255 {
            v = 256;
        } else {
            v = v * 10 + digit;
        }
        i = i + 1;
    }
    assert(d.take(n - start) =~= d);
    if v > 255 {
        None
    } else {
        Some(v as u8)
    }
}

/// The error for a duty cycle that is not a `u8`.
pub const DUTY_TYPE_MESSAGE: &'static str = "Duty cycle has to be an unsigned integer (u8).";

/// The error for a duty cycle outside `1..=99`.
pub const DUTY_RANGE_MESSAGE: &'static str = "Duty cycle has to be a value between 0 and 100";

/// The error for a GPIO pin number that is not a `u8`.
pub const GPIO_TYPE_MESSAGE: &'static str = "ggio has to be an unsigned integer (u8).";

/// The duty cycle, in percent, that a text denotes: a `u8` strictly between
/// 0 and 100.
pub open spec fn duty_spec(s: Seq<char>) -> Option<u8> {
    match parse_u8_spec(s) {
        Some(d) => if 0 < d < 100 {
            Some(d)
        } else {
            None
        },
        None => None,
    }
}

/// The error for a duty cycle text that `duty_spec` rejects.
pub open spec fn duty_error(s: Seq<char>) -> Seq<char> {
    if parse_u8_spec(s) is None {
        DUTY_TYPE_MESSAGE@
    } else {
        DUTY_RANGE_MESSAGE@
    }
}

/// Reads a duty cycle in percent: a `u8` strictly between 0 and 100.
fn duty_value(val: &str) -> (r: Result<u8, String>)
    ensures
        match duty_spec(val@) {
            Some(d) => r == Ok::<u8, String>(d),
            None => r matches Err(m) && m@ == duty_error(val@),
        },
{
    let duty_cycle = match parse_u8(val) {
        Some(i) => i,
        None => {
            return Err(String::from_str(DUTY_TYPE_MESSAGE));
        },
    };
    if duty_cycle == 0 || duty_cycle >= 100 {
        Err(String::from_str(DUTY_RANGE_MESSAGE))
    } else {
        Ok(duty_cycle)
    }
}

/// Reads a GPIO pin number: a `u8`.
fn gpio_value(val: &str) -> (r: Result<u8, String>)
    ensures
        match parse_u8_spec(val@) {
            Some(g) => r == Ok::<u8, String>(g),
            None => r matches Err(m) && m@ == GPIO_TYPE_MESSAGE@,
        },
{
    match parse_u8(val) {
        Some(g) => Ok(g),
        None => Err(String::from_str(GPIO_TYPE_MESSAGE)),
    }
}

/// Checks a duty cycle given on the command line: it must be a `u8`
/// strictly between 0 and 100.
pub fn is_duty(val: String) -> (r: Result<(), String>)
    ensures
        r is Ok <==> duty_spec(val@) is Some,
        r matches Err(m) ==> m@ == duty_error(val@),
{
    match duty_value(val.as_str()) {
        Ok(_) => Ok(()),
        Err(m) => Err(m),
    }
}

/// Checks a GPIO pin number given on the command line: it must be a `u8`.
pub fn is_gpio(val: String) -> (r: Result<(), String>)
    ensures
        r is Ok <==> parse_u8_spec(val@) is Some,
        r matches Err(m) ==> m@ == GPIO_TYPE_MESSAGE@,
{
    match gpio_value(val.as_str()) {
        Ok(_) => Ok(()),
        Err(m) => Err(m),
    }
}

/// Whether `c` is an ASCII hex digit, in either case.
pub open spec fn is_hex_digit(c: char) -> bool {
    ('0' <= c <= '9') || ('a' <= c <= 'f') || ('A' <= c <= 'F')
}

/// The value of a hex digit.
pub open spec fn hex_value(c: char) -> int {
    if '0' <= c <= '9' {
        c as int - '0' as int
    } else if 'a' <= c <= 'f' {
        c as int - 'a' as int + 10
    } else {
        c as int - 'A' as int + 10
    }
}

/// The bytes that a hex string denotes, two digits per byte, the high
/// nibble first; `None` for an odd length or a character that is no hex
/// digit.
pub open spec fn hex_decode_spec(s: Seq<char>) -> Option<Seq<u8>> {
    if s.len() % 2 == 0 && forall|i: int| 0 <= i < s.len() ==> is_hex_digit(#[trigger] s[i]) {
        Some(Seq::new(s.len() / 2, |i: int| (16 * hex_value(s[2 * i]) + hex_value(s[2 * i + 1])) as u8))
    } else {
        None
    }
}

/// The error of `hex::decode`, carried through opaque.
#[verifier::external_type_specification]
#[verifier::external_body]
pub struct ExFromHexError(hex::FromHexError);

/// Relies on `hex::decode`: a string of even length made of hex digits of
/// either case decodes to one byte per pair of digits, the first digit
/// giving the high nibble; anything else is an error.
#[verifier::external_body]
fn decode_hex(s: &str) -> (r: Result<Vec<u8>, hex::FromHexError>)
    ensures
        match hex_decode_spec(s@) {
            Some(b) => r matches Ok(v) && v@ == b,
            None => r is Err,
        },
{
    hex::decode(s)
}

/// The number that bytes denote, the first byte the most significant.
pub open spec fn bytes_value(b: Seq<u8>) -> int
    decreases b.len(),
{
    if b.len() == 0 {
        0
    } else {
        256 * bytes_value(b.drop_last()) + b.last()
    }
}

/// The I2C address that a hex string denotes: the value of its bytes, which
/// must fit in 16 bits.
pub open spec fn i2c_address_spec(s: Seq<char>) -> Option<u16> {
    match hex_decode_spec(s) {
        Some(b) => if bytes_value(b) <= u16::MAX {
            Some(bytes_value(b) as u16)
        } else {
            None
        },
        None => None,
    }
}

/// The error for an I2C address that is not a hex string.
pub const I2C_HEX_MESSAGE: &'static str = "i2c address has to be a hex string.";

/// The error for an I2C address whose value does not fit in 16 bits.
pub const I2C_RANGE_MESSAGE: &'static str = "i2c address has to fit in 16 bits.";

/// Parses the I2C address given on the command line as a hex number.
pub fn parse_i2c_address(s: &str) -> (r: Result<u16, String>)
    ensures
        match i2c_address_spec(s@) {
            Some(a) => r == Ok::<u16, String>(a),
            None => r matches Err(m) && m@ == if hex_decode_spec(s@) is None {
                I2C_HEX_MESSAGE@
            } else {
                I2C_RANGE_MESSAGE@
            },
        },
{
    let bytes = match decode_hex(s) {
        Ok(b) => b,
        Err(_) => {
            return Err(String::from_str(I2C_HEX_MESSAGE));
        },
    };
    let n = bytes.len();
    let mut acc: u32 = 0;
    let mut i: usize = 0;
    while i < n
        invariant
            n == bytes@.len(),
            0 <= i <= n,
            hex_decode_spec(s@) == Some(bytes@),
            acc == bytes_value(bytes@.take(i as int)),
            acc <= u16::MAX,
        decreases n - i,
    {
        let ghost p = bytes@.take(i as int);
        let ghost q = bytes@.take(i + 1);
        assert(q.drop_last() =~= p);
        assert(bytes_value(q) == 256 * acc + bytes[i as int]);
        if acc * 256 + (bytes[i] as u32) > 0xFFFF {
            proof {
                lemma_bytes_value_grows(bytes@, i + 1);
            }
            return Err(String::from_str(I2C_RANGE_MESSAGE));
        }
        acc = acc * 256 + (bytes[i] as u32);
        i = i + 1;
    }
    assert(bytes@.take(n as int) =~= bytes@);
    Ok(acc as u16)
}

/// Taking more bytes never gives a smaller value.
proof fn lemma_bytes_value_grows(b: Seq<u8>, k: int)
    requires
        0 <= k <= b.len(),
    ensures
        bytes_value(b.take(k)) <= bytes_value(b),
    decreases b.len() - k,
{
    if k < b.len() {
        lemma_bytes_value_grows(b, k + 1);
        assert(b.take(k + 1).drop_last() =~= b.take(k));
        lemma_bytes_value_nonneg(b.take(k));
    } else {
        assert(b.take(k) =~= b);
    }
}

proof fn lemma_bytes_value_nonneg(b: Seq<u8>)
    ensures
        bytes_value(b) >= 0,
    decreases b.len(),
{
    if b.len() > 0 {
        lemma_bytes_value_nonneg(b.drop_last());
    }
}

/// The playback configuration.
#[derive(Debug, PartialEq, Eq)]
pub struct Config {
    pub filename: String,
    pub mode: Mode,
    pub gpio: u8,
    pub duty_cycle: u8,
    pub i2c_address: u16,
    pub wave: Wave,
}

/// The error for the first command-line value that fails its check: the
/// GPIO pin, then the duty cycle, then the I2C address.
pub open spec fn config_error(gpio: Seq<char>, duty: Seq<char>, i2c_address: Seq<char>) -> Seq<
    char,
> {
    if parse_u8_spec(gpio) is None {
        GPIO_TYPE_MESSAGE@
    } else if parse_u8_spec(duty) is None {
        DUTY_TYPE_MESSAGE@
    } else if duty_spec(duty) is None {
        DUTY_RANGE_MESSAGE@
    } else if hex_decode_spec(i2c_address) is None {
        I2C_HEX_MESSAGE@
    } else {
        I2C_RANGE_MESSAGE@
    }
}

impl Config {
    /// A configuration is well formed when its duty cycle lies strictly
    /// between 0 and 100 percent.
    pub open spec fn wf(&self) -> bool {
        0 < self.duty_cycle < 100
    }

    /// Builds the configuration from the values given on the command line,
    /// checking the GPIO pin, the duty cycle and the I2C address.
    pub fn new(
        filename: String,
        mode: Mode,
        gpio: &str,
        duty: &str,
        i2c_address: &str,
        wave: Wave,
    ) -> (r: Result<Config, String>)
        ensures
            r is Ok <==> parse_u8_spec(gpio@) is Some && duty_spec(duty@) is Some
                && i2c_address_spec(i2c_address@) is Some,
            r matches Ok(c) ==> c.wf() && c.filename == filename && c.mode == mode && c.gpio
                == parse_u8_spec(gpio@)->Some_0 && c.duty_cycle == duty_spec(duty@)->Some_0
                && c.i2c_address == i2c_address_spec(i2c_address@)->Some_0 && c.wave == wave,
            r matches Err(m) ==> m@ == config_error(gpio@, duty@, i2c_address@),
    {
        let gpio_pin = gpio_value(gpio)?;
        let duty_cycle = duty_value(duty)?;
        let i2c = parse_i2c_address(i2c_address)?;
        Ok(Config { filename, mode, gpio: gpio_pin, duty_cycle, i2c_address: i2c, wave })
    }
}

} // verus!
