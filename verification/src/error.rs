//! The error taxonomy of the authentication flow.

use vstd::prelude::*;
use vstd::string::StringExecFns;

verus! {

/// The six query parameters that the approval redirect must carry.
#[derive(Clone, Copy, Debug, PartialEq, Eq, Structural)]
pub enum ParamName {
    CodeChallenge,
    CodeChallengeMethod,
    RedirectUri,
    ResponseType,
    State,
    TenantId,
}

impl ParamName {
    /// The parameter's name as it appears in the redirect query string.
    pub fn text(&self) -> (r: &'static str)
        ensures
            r@ == self.spec_text(),
    {
        match self {
            ParamName::CodeChallenge => "code_challenge",
            ParamName::CodeChallengeMethod => "code_challenge_method",
            ParamName::RedirectUri => "redirect_uri",
            ParamName::ResponseType => "response_type",
            ParamName::State => "state",
            ParamName::TenantId => "tenantId",
        }
    }

    /// The parameter's name, at the specification level.
    pub open spec fn spec_text(self) -> Seq<char> {
        match self {
            ParamName::CodeChallenge => "code_challenge"@,
            ParamName::CodeChallengeMethod => "code_challenge_method"@,
            ParamName::RedirectUri => "redirect_uri"@,
            ParamName::ResponseType => "response_type"@,
            ParamName::State => "state"@,
            ParamName::TenantId => "tenantId"@,
        }
    }
}

/// The character of one decimal digit.
pub open spec fn spec_digit_char(d: int) -> char {
    if d == 0 {
        '0'
    } else if d == 1 {
        '1'
    } else if d == 2 {
        '2'
    } else if d == 3 {
        '3'
    } else if d == 4 {
        '4'
    } else if d == 5 {
        '5'
    } else if d == 6 {
        '6'
    } else if d == 7 {
        '7'
    } else if d == 8 {
        '8'
    } else {
        '9'
    }
}

/// The decimal digits of a number, most significant first.
pub open spec fn spec_decimal(n: int) -> Seq<char>
    decreases n,
{
    if n < 10 {
        seq![spec_digit_char(n)]
    } else {
        spec_decimal(n / 10).push(spec_digit_char(n % 10))
    }
}

/// One digit as a string slice.
fn digit_str(d: u16) -> (r: &'static str)
    requires
        d < 10,
    ensures
        r@ == seq![spec_digit_char(d as int)],
{
    if d == 0 {
        proof {
            reveal_strlit("0");
            assert("0"@ =~= seq!['0']);
        }
        "0"
    } else if d == 1 {
        proof {
            reveal_strlit("1");
            assert("1"@ =~= seq!['1']);
        }
        "1"
    } else if d == 2 {
        proof {
            reveal_strlit("2");
            assert("2"@ =~= seq!['2']);
        }
        "2"
    } else if d == 3 {
        proof {
            reveal_strlit("3");
            assert("3"@ =~= seq!['3']);
        }
        "3"
    } else if d == 4 {
        proof {
            reveal_strlit("4");
            assert("4"@ =~= seq!['4']);
        }
        "4"
    } else if d == 5 {
        proof {
            reveal_strlit("5");
            assert("5"@ =~= seq!['5']);
        }
        "5"
    } else if d == 6 {
        proof {
            reveal_strlit("6");
            assert("6"@ =~= seq!['6']);
        }
        "6"
    } else if d == 7 {
        proof {
            reveal_strlit("7");
            assert("7"@ =~= seq!['7']);
        }
        "7"
    } else if d == 8 {
        proof {
            reveal_strlit("8");
            assert("8"@ =~= seq!['8']);
        }
        "8"
    } else {
        proof {
            reveal_strlit("9");
            assert("9"@ =~= seq!['9']);
        }
        "9"
    }
}

/// Render a number in decimal, digit by repeated division.
pub fn decimal_string(n: u16) -> (r: String)
    ensures
        r@ == spec_decimal(n as int),
    decreases n,
{
    if n < 10 {
        digit_str(n).to_owned()
    } else {
        let prefix = decimal_string(n / 10);
        let r = prefix.concat(digit_str(n % 10));
        proof {
            assert(spec_decimal(n as int / 10).push(spec_digit_char(n as int % 10))
                =~= spec_decimal(n as int / 10) + seq![spec_digit_char(n as int % 10)]);
        }
        r
    }
}

/// Authentication errors.
///
/// Transport-level failures are carried as plain values: an optional HTTP
/// status and a human-readable message supplied by the transport.
#[derive(Debug)]
pub enum AuthError {
    /// The HTTP exchange itself failed, or a response had a failure status.
    Http { status: Option<u16>, message: String },
    /// A response header could not be decoded as text.
    HttpHeader,
    /// A required parameter was missing from the approval redirect.
    MissingParam(ParamName),
    /// The device grant expired before approval completed.
    Timeout,
    /// A response shape outside the expected success or pending cases.
    UnexpectedStatus(u16, String),
    /// A constructed or extracted URL was malformed.
    UrlParse,
}

impl AuthError {
    /// Whether this error reports an HTTP failure with the given status
    /// and no further message.
    pub open spec fn is_status_failure(self, code: u16) -> bool {
        self matches AuthError::Http { status, message } && status == Some(code) && message@
            == Seq::<char>::empty()
    }

    /// The error described in words, at the specification level.
    pub open spec fn spec_text(self) -> Seq<char> {
        match self {
            AuthError::Http { status: _, message } => "HTTP error: "@ + message@,
            AuthError::HttpHeader => "an HTTP header could not be decoded as text"@,
            AuthError::MissingParam(name) => "missing required parameter "@ + name.spec_text(),
            AuthError::Timeout => "device auth flow took too long to complete"@,
            AuthError::UnexpectedStatus(status, url) => "unexpected auth API status "@
                + spec_decimal(status as int) + " for URL "@ + url@,
            AuthError::UrlParse => "failed to parse a URL"@,
        }
    }

    /// The error described in words, for logging and display.
    pub fn text(&self) -> (r: String)
        ensures
            r@ == self.spec_text(),
    {
        match self {
            AuthError::Http { status: _, message } => "HTTP error: ".to_owned().concat(
                message.as_str(),
            ),
            AuthError::HttpHeader => "an HTTP header could not be decoded as text".to_owned(),
            AuthError::MissingParam(name) => "missing required parameter ".to_owned().concat(
                name.text(),
            ),
            AuthError::Timeout => "device auth flow took too long to complete".to_owned(),
            AuthError::UnexpectedStatus(status, url) => "unexpected auth API status "
                .to_owned()
                .concat(decimal_string(*status).as_str())
                .concat(" for URL ")
                .concat(url.as_str()),
            AuthError::UrlParse => "failed to parse a URL".to_owned(),
        }
    }

    /// Whether this error reports the given missing redirect parameter.
    pub fn is_missing_param(&self, name: ParamName) -> (r: bool)
        ensures
            r == (self is MissingParam && self->MissingParam_0 == name),
    {
        match self {
            AuthError::MissingParam(n) => *n == name,
            _ => false,
        }
    }
}

} // verus!
