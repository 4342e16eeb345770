//! The failure taxonomy of a publication check.
use vstd::prelude::*;

verus! {

/// Why a publication check failed.
///
/// - `Io`: network or transport failure that survived the one protocol
///   downgrade retry. Aborts a polling loop; never treated as "not yet
///   published".
/// - `Parse`: a registry response body could not be decoded into a record.
///   Propagates immediately, never retried.
/// - `Timeout`: a bound was exceeded, either the per-check bound or the
///   total poll bound. Carries the package identity and the bound so a
///   user-actionable message can be produced.
/// - `Auth`: the supplied token cannot form a valid request header.
///   Raised at request-construction time, before any network call.
#[derive(Debug)]
pub enum CheckError {
    Io,
    Parse,
    Timeout { package_name: String, timeout_secs: u64 },
    Auth,
}

/// What a timeout report must say: the bound in seconds, the package that
/// was being awaited, and guidance that the bound is configurable.
pub open spec fn spec_timeout_message(package_name: Seq<char>, timeout_secs: nat) -> Seq<char> {
    "timeout of "@ + decimal_digits(timeout_secs) + "s elapsed while publishing the package "@
        + package_name + ". You can increase the publish timeout in the configuration."@
}

impl CheckError {
    /// A user-actionable description of the failure. A timeout names the
    /// package, the elapsed bound in seconds, and says the bound can be
    /// raised.
    pub fn message(&self) -> (r: String)
        ensures
            match self {
                CheckError::Io => r@ == "network error while reaching the registry"@,
                CheckError::Parse => r@ == "invalid registry response body"@,
                CheckError::Timeout { package_name, timeout_secs } => r@
                    == spec_timeout_message(package_name@, timeout_secs as nat),
                CheckError::Auth => r@ == "token cannot be used as an authorization header"@,
            },
    {
        match self {
            CheckError::Io => "network error while reaching the registry".to_owned(),
            CheckError::Parse => "invalid registry response body".to_owned(),
            CheckError::Timeout { package_name, timeout_secs } => {
                let part = "timeout of ".to_owned().concat(u64_to_string(*timeout_secs).as_str());
                let part = part.concat("s elapsed while publishing the package ");
                let part = part.concat(package_name.as_str());
                part.concat(". You can increase the publish timeout in the configuration.")
            },
            CheckError::Auth => "token cannot be used as an authorization header".to_owned(),
        }
    }
}

/// The character for one decimal digit.
pub open spec fn digit_char(d: nat) -> char {
    if d == 0 {
        '0'
    } else if d == 1 {
        '1'
    } else if d == 2 {
        '2'
    } else if d == 3 {
        '3'
    } else if d == 4 {
        '4'
    } else if d == 5 {
        '5'
    } else if d == 6 {
        '6'
    } else if d == 7 {
        '7'
    } else if d == 8 {
        '8'
    } else {
        '9'
    }
}

/// The usual decimal rendering of a natural number, most significant digit
/// first, with no leading zeros (a single '0' for zero).
pub open spec fn decimal_digits(n: nat) -> Seq<char>
    decreases n,
{
    if n < 10 {
        seq![digit_char(n)]
    } else {
        decimal_digits(n / 10) + seq![digit_char(n % 10)]
    }
}

/// One decimal digit as a string slice.
fn digit_str(d: u64) -> (r: &'static str)
    requires
        d < 10,
    ensures
        r@ == seq![digit_char(d as nat)],
{
    if d == 0 {
        proof {
            reveal_strlit("0");
        }
        "0"
    } else if d == 1 {
        proof {
            reveal_strlit("1");
        }
        "1"
    } else if d == 2 {
        proof {
            reveal_strlit("2");
        }
        "2"
    } else if d == 3 {
        proof {
            reveal_strlit("3");
        }
        "3"
    } else if d == 4 {
        proof {
            reveal_strlit("4");
        }
        "4"
    } else if d == 5 {
        proof {
            reveal_strlit("5");
        }
        "5"
    } else if d == 6 {
        proof {
            reveal_strlit("6");
        }
        "6"
    } else if d == 7 {
        proof {
            reveal_strlit("7");
        }
        "7"
    } else if d == 8 {
        proof {
            reveal_strlit("8");
        }
        "8"
    } else {
        proof {
            reveal_strlit("9");
        }
        "9"
    }
}

/// Render a number in decimal, exactly as `decimal_digits` describes.
pub fn u64_to_string(n: u64) -> (r: String)
    ensures
        r@ == decimal_digits(n as nat),
    decreases n,
{
    if n < 10 {
        digit_str(n).to_owned()
    } else {
        let prefix = u64_to_string(n / 10);
        prefix.concat(digit_str(n % 10))
    }
}

} // verus!
