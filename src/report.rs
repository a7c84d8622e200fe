//! Failure conditions of a probe and the text that reports them.
use vstd::prelude::*;

verus! {

/// A field of the outgoing request that is set before it is sent.
#[derive(Clone, Copy, Debug, PartialEq, Eq, Structural)]
pub enum Field {
    Method,
    Scheme,
    Authority,
    PathWithQuery,
}

/// Why a probe failed.
#[derive(Debug, PartialEq, Eq)]
pub enum ProbeError {
    /// The host refused a field of the request, which was then never sent.
    RequestBuild(Field),
    /// The request could not be sent; the host's own account of why.
    TransportSubmit(String),
    /// The host reported an HTTP-level failure for the pending response.
    HttpProtocol(String),
    /// The pending response had already been taken.
    ResponseAlreadyConsumed,
    /// After waiting, the pending response was still not a response or an error.
    UnexpectedPollResult,
    /// The response arrived with a status other than 200.
    UnexpectedStatus(u16),
    /// The body of the response could not be taken.
    BodyUnavailable,
    /// The body's byte stream could not be opened.
    StreamUnavailable,
    /// The body's bytes are not UTF-8.
    NotUtf8,
}

impl ProbeError {
    /// The human-readable account of the failure.
    pub open spec fn text(self) -> Seq<char> {
        match self {
            ProbeError::RequestBuild(Field::Method) => "failed to set method"@,
            ProbeError::RequestBuild(Field::Scheme) => "failed to set scheme"@,
            ProbeError::RequestBuild(Field::Authority) => "failed to set authority"@,
            ProbeError::RequestBuild(Field::PathWithQuery) => "failed to set path"@,
            ProbeError::TransportSubmit(d) => "outgoing request failed: "@ + d@,
            ProbeError::HttpProtocol(d) => "HTTP error: "@ + d@,
            ProbeError::ResponseAlreadyConsumed => "response already consumed"@,
            ProbeError::UnexpectedPollResult => "unexpected poll result"@,
            ProbeError::UnexpectedStatus(code) => "HTTP "@ + decimal(code as nat),
            ProbeError::BodyUnavailable => "failed to consume body"@,
            ProbeError::StreamUnavailable => "failed to get body stream"@,
            ProbeError::NotUtf8 => "response not valid UTF-8"@,
        }
    }

    /// Renders the account of the failure.
    pub fn describe(&self) -> (r: String)
        ensures
            r@ == self.text(),
    {
        match self {
            ProbeError::RequestBuild(Field::Method) => String::from_str("failed to set method"),
            ProbeError::RequestBuild(Field::Scheme) => String::from_str("failed to set scheme"),
            ProbeError::RequestBuild(Field::Authority) => String::from_str(
                "failed to set authority",
            ),
            ProbeError::RequestBuild(Field::PathWithQuery) => String::from_str(
                "failed to set path",
            ),
            ProbeError::TransportSubmit(d) => {
                let mut r = String::from_str("outgoing request failed: ");
                r.append(d.as_str());
                r
            },
            ProbeError::HttpProtocol(d) => {
                let mut r = String::from_str("HTTP error: ");
                r.append(d.as_str());
                r
            },
            ProbeError::ResponseAlreadyConsumed => String::from_str("response already consumed"),
            ProbeError::UnexpectedPollResult => String::from_str("unexpected poll result"),
            ProbeError::UnexpectedStatus(code) => {
                let mut r = String::from_str("HTTP ");
                let digits = decimal_text(*code);
                r.append(digits.as_str());
                r
            },
            ProbeError::BodyUnavailable => String::from_str("failed to consume body"),
            ProbeError::StreamUnavailable => String::from_str("failed to get body stream"),
            ProbeError::NotUtf8 => String::from_str("response not valid UTF-8"),
        }
    }
}

/// The report of a finished probe: the body under a healthy line, or the
/// failure's account after an unreachable marker.
pub open spec fn status_text(outcome: Result<Seq<char>, ProbeError>) -> Seq<char> {
    match outcome {
        Ok(body) => "\u{2705} Morpheus proxy healthy\n"@ + body,
        Err(e) => "\u{274c} Morpheus proxy unreachable: "@ + e.text(),
    }
}

/// The view of a probe's outcome: the body as characters, or the failure.
pub open spec fn outcome_view(outcome: Result<String, ProbeError>) -> Result<Seq<char>, ProbeError> {
    match outcome {
        Ok(body) => Ok(body@),
        Err(e) => Err(e),
    }
}

/// Renders the report of a finished probe.
pub fn status_message(outcome: &Result<String, ProbeError>) -> (r: String)
    ensures
        r@ == status_text(outcome_view(*outcome)),
{
    match outcome {
        Ok(body) => {
            let mut r = String::from_str("\u{2705} Morpheus proxy healthy\n");
            r.append(body.as_str());
            r
        },
        Err(e) => {
            let mut r = String::from_str("\u{274c} Morpheus proxy unreachable: ");
            let account = e.describe();
            r.append(account.as_str());
            r
        },
    }
}

/// Decimal digits of `n`, most significant first.
pub open spec fn decimal(n: nat) -> Seq<char>
    decreases n,
{
    if n < 10 {
        seq![digit_char(n)]
    } else {
        decimal(n / 10).push(digit_char(n % 10))
    }
}

/// The character of a single decimal digit.
pub open spec fn digit_char(d: nat) -> char {
    ((d + 48) as u8) as char
}

/// The one-character text of the decimal digit `d`.
fn digit_str(d: u16) -> (r: &'static str)
    requires
        d < 10,
    ensures
        r@ == seq![digit_char(d as nat)],
{
    match d {
        0 => {
            proof {
                reveal_strlit("0");
            }
            "0"
        },
        1 => {
            proof {
                reveal_strlit("1");
            }
            "1"
        },
        2 => {
            proof {
                reveal_strlit("2");
            }
            "2"
        },
        3 => {
            proof {
                reveal_strlit("3");
            }
            "3"
        },
        4 => {
            proof {
                reveal_strlit("4");
            }
            "4"
        },
        5 => {
            proof {
                reveal_strlit("5");
            }
            "5"
        },
        6 => {
            proof {
                reveal_strlit("6");
            }
            "6"
        },
        7 => {
            proof {
                reveal_strlit("7");
            }
            "7"
        },
        8 => {
            proof {
                reveal_strlit("8");
            }
            "8"
        },
        _ => {
            proof {
                reveal_strlit("9");
            }
            "9"
        },
    }
}

/// Renders `n` in decimal.
pub fn decimal_text(n: u16) -> (r: String)
    ensures
        r@ == decimal(n as nat),
    decreases n,
{
    if n < 10 {
        String::from_str(digit_str(n))
    } else {
        let mut r = decimal_text(n / 10);
        r.append(digit_str(n % 10));
        r
    }
}

} // verus!
