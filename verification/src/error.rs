//! The errors of the tool and the message that each one is shown with.
use core::convert::Infallible;
use vstd::prelude::*;

verus! {

/// A failed file system operation.
#[derive(Debug)]
pub struct IoFailure {
    /// Whether the operation failed because the file or directory does not exist.
    pub not_found: bool,
    /// The operating system's description of the failure.
    pub detail: String,
}

/// A failed HTTP exchange.
#[derive(Debug)]
pub struct HttpFailure {
    /// The status code of the response, when the failure is an error status;
    /// `None` when no usable response arrived.
    pub status: Option<u16>,
    /// The HTTP client's description of the failure.
    pub detail: String,
}

/// Everything that can go wrong while managing packages.
#[derive(Debug)]
pub enum GrmError {
    Io(IoFailure),
    Json(String),
    Reqwest(HttpFailure),
    UrlParse(String),
    Custom(String),
    Infallible(Infallible),
}

/// The abstract form of a `GrmError`.
pub enum GrmErrorModel {
    Io { not_found: bool, detail: Seq<char> },
    Json(Seq<char>),
    Reqwest { status: Option<u16>, detail: Seq<char> },
    UrlParse(Seq<char>),
    Custom(Seq<char>),
    Infallible,
}

impl View for GrmError {
    type V = GrmErrorModel;

    open spec fn view(&self) -> GrmErrorModel {
        match self {
            GrmError::Io(failure) => GrmErrorModel::Io {
                not_found: failure.not_found,
                detail: failure.detail@,
            },
            GrmError::Json(detail) => GrmErrorModel::Json(detail@),
            GrmError::Reqwest(failure) => GrmErrorModel::Reqwest {
                status: failure.status,
                detail: failure.detail@,
            },
            GrmError::UrlParse(detail) => GrmErrorModel::UrlParse(detail@),
            GrmError::Custom(message) => GrmErrorModel::Custom(message@),
            GrmError::Infallible(_) => GrmErrorModel::Infallible,
        }
    }
}

/// The decimal digit `d`.
pub open spec fn spec_digit(d: nat) -> char
    recommends
        d < 10,
{
    (d + 48) as char
}

/// The decimal representation of `n`, without leading zeros.
pub open spec fn spec_decimal(n: nat) -> Seq<char>
    decreases n,
{
    if n < 10 {
        seq![spec_digit(n)]
    } else {
        spec_decimal(n / 10) + seq![spec_digit(n % 10)]
    }
}

/// The reason phrase that `reqwest::StatusCode`'s `Display` shows after the
/// code: the canonical reason of the code, or `<unknown status code>`.
pub uninterp spec fn status_reason(code: u16) -> Seq<char>;

/// How a status code is shown: `<code> <reason>`, for instance
/// `500 Internal Server Error`.
pub open spec fn spec_status_line(code: u16) -> Seq<char> {
    spec_decimal(code as nat) + " "@ + status_reason(code)
}

/// `reqwest::StatusCode::from_u16` followed by `Display`. The contract claims
/// that for a code in `100..=999` (the codes `from_u16` accepts) the text is
/// the code in decimal, a space and the reason phrase `status_reason(code)`;
/// what the phrase of each code is, it leaves unsaid.
#[verifier::external_body]
pub(crate) fn status_line(code: u16) -> (res: String)
    requires
        100 <= code <= 999,
    ensures
        res@ == spec_decimal(code as nat) + " "@ + status_reason(code),
{
    match reqwest::StatusCode::from_u16(code) {
        Ok(status) => status.to_string(),
        Err(_) => String::new(),
    }
}

impl GrmError {
    /// Whether the error can stand for a real failure: a status code always
    /// lies in `100..=999`.
    pub open spec fn is_valid(self) -> bool {
        match self {
            GrmError::Reqwest(failure) => match failure.status {
                Some(code) => 100 <= code <= 999,
                None => true,
            },
            _ => true,
        }
    }

    /// The message the tool shows for this error.
    pub open spec fn spec_message(self) -> Seq<char> {
        match self {
            GrmError::Io(failure) => "Filesystem error: "@ + failure.detail@,
            GrmError::Json(detail) => "Configuration format error: "@ + detail@,
            GrmError::Reqwest(failure) => match failure.status {
                Some(code) => if code == 403 {
                    "GitHub API access forbidden. You might be rate-limited."@
                } else if code == 404 {
                    "Requested resource not found. Check if the repo/owner exists."@
                } else {
                    "GitHub API returned error status: "@ + spec_status_line(code)
                },
                None => "Network connection error: "@ + failure.detail@,
            },
            GrmError::UrlParse(detail) => "Invalid URL generated: "@ + detail@,
            GrmError::Custom(message) => message@,
            GrmError::Infallible(_) => "An operation guranteed to succeed has failed, please report this."@,
        }
    }

    /// The message the tool shows for this error.
    pub fn message(&self) -> (res: String)
        requires
            self.is_valid(),
        ensures
            res@ == self.spec_message(),
            match self {
                GrmError::Io(failure) => res@ == "Filesystem error: "@ + failure.detail@,
                GrmError::Json(detail) => res@ == "Configuration format error: "@ + detail@,
                GrmError::Reqwest(failure) => match failure.status {
                    Some(code) => if code == 403 {
                        res@ == "GitHub API access forbidden. You might be rate-limited."@
                    } else if code == 404 {
                        res@ == "Requested resource not found. Check if the repo/owner exists."@
                    } else {
                        res@ == "GitHub API returned error status: "@ + spec_decimal(code as nat)
                            + " "@ + status_reason(code)
                    },
                    None => res@ == "Network connection error: "@ + failure.detail@,
                },
                GrmError::UrlParse(detail) => res@ == "Invalid URL generated: "@ + detail@,
                GrmError::Custom(message) => res@ == message@,
                GrmError::Infallible(_) => res@
                    == "An operation guranteed to succeed has failed, please report this."@,
            },
    {
        match self {
            GrmError::Io(failure) => {
                let mut res = String::from_str("Filesystem error: ");
                res.append(failure.detail.as_str());
                res
            },
            GrmError::Json(detail) => {
                let mut res = String::from_str("Configuration format error: ");
                res.append(detail.as_str());
                res
            },
            GrmError::Reqwest(failure) => match failure.status {
                Some(code) => {
                    if code == 403 {
                        String::from_str("GitHub API access forbidden. You might be rate-limited.")
                    } else if code == 404 {
                        String::from_str(
                            "Requested resource not found. Check if the repo/owner exists.",
                        )
                    } else {
                        let mut res = String::from_str("GitHub API returned error status: ");
                        let line = status_line(code);
                        res.append(line.as_str());
                        res
                    }
                },
                None => {
                    let mut res = String::from_str("Network connection error: ");
                    res.append(failure.detail.as_str());
                    res
                },
            },
            GrmError::UrlParse(detail) => {
                let mut res = String::from_str("Invalid URL generated: ");
                res.append(detail.as_str());
                res
            },
            GrmError::Custom(message) => message.clone(),
            GrmError::Infallible(_) => String::from_str(
                "An operation guranteed to succeed has failed, please report this.",
            ),
        }
    }
}

} // verus!
