use vstd::prelude::*;
use vstd::string::StringExecFns;

verus! {

/// The provider's error code for "authorization pending": the user has not
/// yet approved the device, and polling should go on.
pub const AUTHORIZATION_PENDING: i64 = 8;

/// Every way an operation of this library can fail.
#[derive(Debug, Clone)]
pub enum RealDebridError {
    /// The HTTP layer failed; holds its message.
    Reqwest(String),
    /// A response body could not be decoded; holds the decoder's message.
    SerdeJson(String),
    /// Local input or output failed.
    Io(String),
    /// The host application's messaging failed.
    Tauri(String),
    /// The provider answered with an error.
    Api { message: String, code: i64 },
    /// The authorization flow failed; holds the reason.
    Auth(String),
    /// Nothing more is known.
    Unknown,
}

impl RealDebridError {
    /// An `Api` error with the "authorization pending" code.
    pub open spec fn spec_is_authorization_pending(&self) -> bool {
        match self {
            RealDebridError::Api { code, .. } => *code == AUTHORIZATION_PENDING,
            _ => false,
        }
    }

    /// Whether this is the one expected, non-fatal condition of polling.
    #[verifier::when_used_as_spec(spec_is_authorization_pending)]
    pub fn is_authorization_pending(&self) -> (r: bool)
        ensures
            r == self.spec_is_authorization_pending(),
    {
        match self {
            RealDebridError::Api { code, .. } => *code == AUTHORIZATION_PENDING,
            _ => false,
        }
    }

    /// An `Auth` error whose reason is `reason`.
    pub open spec fn is_auth_with(&self, reason: Seq<char>) -> bool {
        match self {
            RealDebridError::Auth(m) => m@ == reason,
            _ => false,
        }
    }
}

/// The character of the decimal digit `d`.
pub open spec fn digit_char(d: nat) -> char {
    if d == 0 { '0' }
    else if d == 1 { '1' }
    else if d == 2 { '2' }
    else if d == 3 { '3' }
    else if d == 4 { '4' }
    else if d == 5 { '5' }
    else if d == 6 { '6' }
    else if d == 7 { '7' }
    else if d == 8 { '8' }
    else { '9' }
}

/// `n` in decimal, without leading zeros.
pub open spec fn decimal(n: nat) -> Seq<char>
    decreases n,
{
    if n < 10 {
        seq![digit_char(n)]
    } else {
        decimal(n / 10) + seq![digit_char(n % 10)]
    }
}

/// `n` in decimal, with a leading `-` when negative.
pub open spec fn signed_decimal(n: int) -> Seq<char> {
    if n < 0 {
        seq!['-'] + decimal((-n) as nat)
    } else {
        decimal(n as nat)
    }
}

/// The text of each error, as shown to the user.
pub open spec fn message_of(e: RealDebridError) -> Seq<char> {
    match e {
        RealDebridError::Reqwest(m) => "Reqwest error: "@ + m@,
        RealDebridError::SerdeJson(m) => "Serde JSON error: "@ + m@,
        RealDebridError::Io(m) => "IO error: "@ + m@,
        RealDebridError::Tauri(m) => "Tauri API error: "@ + m@,
        RealDebridError::Api { message, code } => "API returned an error: "@ + message@
            + " (Code: "@ + signed_decimal(code as int) + ")"@,
        RealDebridError::Auth(m) => "Authentication failed: "@ + m@,
        RealDebridError::Unknown => "An unknown error occurred"@,
    }
}

fn digit_str(d: u64) -> (r: &'static str)
    requires
        d < 10,
    ensures
        r@ == seq![digit_char(d as nat)],
{
    proof {
        reveal_strlit("0");
        reveal_strlit("1");
        reveal_strlit("2");
        reveal_strlit("3");
        reveal_strlit("4");
        reveal_strlit("5");
        reveal_strlit("6");
        reveal_strlit("7");
        reveal_strlit("8");
        reveal_strlit("9");
    }
    if d == 0 { "0" }
    else if d == 1 { "1" }
    else if d == 2 { "2" }
    else if d == 3 { "3" }
    else if d == 4 { "4" }
    else if d == 5 { "5" }
    else if d == 6 { "6" }
    else if d == 7 { "7" }
    else if d == 8 { "8" }
    else { "9" }
}

/// Appends `n` in decimal to `s`.
fn append_decimal(s: &mut String, n: u64)
    ensures
        final(s)@ == old(s)@ + decimal(n as nat),
    decreases n,
{
    if n < 10 {
        s.append(digit_str(n));
    } else {
        append_decimal(s, n / 10);
        s.append(digit_str(n % 10));
        proof {
            assert(old(s)@ + decimal((n / 10) as nat) + seq![digit_char((n % 10) as nat)]
                =~= old(s)@ + decimal(n as nat));
        }
    }
}

/// Appends `n` in decimal to `s`, with a leading `-` when negative.
fn append_signed_decimal(s: &mut String, n: i64)
    ensures
        final(s)@ == old(s)@ + signed_decimal(n as int),
{
    if n < 0 {
        s.append("-");
        proof {
            reveal_strlit("-");
        }
        let magnitude: u64 = if n == i64::MIN {
            9223372036854775808u64
        } else {
            (-n) as u64
        };
        append_decimal(s, magnitude);
        proof {
            assert(old(s)@ + seq!['-'] + decimal(magnitude as nat)
                =~= old(s)@ + signed_decimal(n as int));
        }
    } else {
        append_decimal(s, n as u64);
    }
}

impl RealDebridError {
    /// The text of the error, as shown to the user.
    pub fn to_message(&self) -> (r: String)
        ensures
            r@ == message_of(*self),
    {
        match self {
            RealDebridError::Reqwest(m) => String::from_str("Reqwest error: ").concat(m.as_str()),
            RealDebridError::SerdeJson(m) => String::from_str("Serde JSON error: ").concat(m.as_str()),
            RealDebridError::Io(m) => String::from_str("IO error: ").concat(m.as_str()),
            RealDebridError::Tauri(m) => String::from_str("Tauri API error: ").concat(m.as_str()),
            RealDebridError::Api { message, code } => {
                let mut s = String::from_str("API returned an error: ");
                s.append(message.as_str());
                s.append(" (Code: ");
                append_signed_decimal(&mut s, *code);
                s.append(")");
                s
            },
            RealDebridError::Auth(m) => String::from_str("Authentication failed: ").concat(m.as_str()),
            RealDebridError::Unknown => String::from_str("An unknown error occurred"),
        }
    }
}

} // verus!
