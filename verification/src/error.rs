use vstd::prelude::*;

verus! {

/// Why a driver operation failed.
#[derive(Copy, Clone, Debug, Eq, PartialEq)]
pub enum FtdiError {
    /// The device was unplugged, never opened, or is otherwise out of reach.
    UsbDeviceUnavailable,
    /// Any other failure: the driver's status code and its message.
    Other(i32, &'static str),
}

/// The character of one decimal digit.
pub open spec fn digit(d: nat) -> char {
    (48 + d) as char
}

/// A number in decimal digits, without leading zeros.
pub open spec fn digits(n: nat) -> Seq<char>
    decreases n,
{
    if n < 10 {
        seq![digit(n)]
    } else {
        digits(n / 10).push(digit(n % 10))
    }
}

/// A status code in decimal, with a minus sign where it is negative.
pub open spec fn decimal(code: int) -> Seq<char> {
    if code < 0 {
        seq!['-'] + digits((-code) as nat)
    } else {
        digits(code as nat)
    }
}

/// `String::push`: the character is appended and nothing else changes.
#[verifier::external_body]
fn push_char(text: &mut String, c: char)
    ensures
        final(text)@ == old(text)@.push(c),
{
    text.push(c)
}

/// `String::push_str`: the slice is appended and nothing else changes.
#[verifier::external_body]
fn push_text(text: &mut String, more: &str)
    ensures
        final(text)@ == old(text)@ + more@,
{
    text.push_str(more)
}

/// Appends a number in decimal.
fn push_digits(text: &mut String, n: u32)
    ensures
        final(text)@ == old(text)@ + digits(n as nat),
    decreases n,
{
    if n >= 10 {
        push_digits(text, n / 10);
    }
    let d: u8 = (n % 10) as u8;
    let c: char = (48u8 + d) as char;
    push_char(text, c);
    proof {
        assert(text@ =~= old(text)@ + digits(n as nat));
    }
}

impl FtdiError {
    /// The error in words.
    pub open spec fn text(self) -> Seq<char> {
        match self {
            FtdiError::UsbDeviceUnavailable => "USB device unavailable"@,
            FtdiError::Other(code, message) => "libftdi1 error code "@ + decimal(code as int)
                + ": "@ + message@,
        }
    }

    /// The error in words: that the device is unavailable, or the driver's
    /// status code in decimal and its message.
    pub fn describe(&self) -> (r: String)
        ensures
            r@ == self.text(),
    {
        let mut text = String::new();
        match self {
            FtdiError::UsbDeviceUnavailable => {
                push_text(&mut text, "USB device unavailable");
                assert(text@ =~= "USB device unavailable"@);
            },
            FtdiError::Other(code, message) => {
                push_text(&mut text, "libftdi1 error code ");
                let wide: i64 = *code as i64;
                if wide < 0 {
                    push_char(&mut text, '-');
                    push_digits(&mut text, (-wide) as u32);
                } else {
                    push_digits(&mut text, wide as u32);
                }
                push_text(&mut text, ": ");
                push_text(&mut text, message);
                assert(text@ =~= self.text());
            },
        }
        text
    }

    /// The driver's status code, where the error carries one.
    pub open spec fn code_spec(self) -> Option<i32> {
        match self {
            FtdiError::UsbDeviceUnavailable => None,
            FtdiError::Other(code, _) => Some(code),
        }
    }

    /// The driver's status code, where the error carries one.
    pub fn code(&self) -> (r: Option<i32>)
        ensures
            r == self.code_spec(),
    {
        match self {
            FtdiError::UsbDeviceUnavailable => None,
            FtdiError::Other(code, _) => Some(*code),
        }
    }

    /// Whether the error says that the device is out of reach.
    pub fn is_unavailable(&self) -> (r: bool)
        ensures
            r == (*self == FtdiError::UsbDeviceUnavailable),
    {
        match self {
            FtdiError::UsbDeviceUnavailable => true,
            FtdiError::Other(_, _) => false,
        }
    }
}

} // verus!
