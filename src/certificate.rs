use vstd::prelude::*;

verus! {

/// State of a checked certificate.
#[derive(Clone, Copy, Debug, PartialEq, Eq, Structural)]
pub enum CheckState {
    /// Not known yet.
    Unknown,
    /// Valid.
    Valid,
    /// Expires soon.
    Warning,
    /// Expired.
    Expired,
}

impl Default for CheckState {
    fn default() -> (r: CheckState)
        ensures
            r == CheckState::Unknown,
    {
        CheckState::Unknown
    }
}

/// The icon of a state: a Unicode symbol, or a bracketed ASCII sign.
pub open spec fn icon_of(state: CheckState, unicode: bool) -> Seq<char> {
    match state {
        CheckState::Unknown => if unicode {
            "\u{2753}"@
        } else {
            "[?]"@
        },
        CheckState::Valid => if unicode {
            "\u{2705}"@
        } else {
            "[v]"@
        },
        CheckState::Warning => if unicode {
            "\u{26a0}\u{fe0f}"@
        } else {
            "[-]"@
        },
        CheckState::Expired => if unicode {
            "\u{274c}"@
        } else {
            "[x]"@
        },
    }
}

/// The outcome of checking one domain's certificate.
#[derive(Clone, Debug)]
pub struct CheckResult {
    /// State of the certificate.
    pub state: CheckState,
    /// When the domain was checked, in seconds since the Unix epoch.
    pub checked_at: i64,
    /// Days left before the certificate expires.
    pub days: i64,
    /// The domain that was checked.
    pub domain_name: String,
    /// When the certificate expires, in seconds since the Unix epoch.
    pub not_after: i64,
    /// Time the check took, in milliseconds.
    pub elapsed: Option<u128>,
}

impl CheckResult {
    /// An expired certificate of `domain_name`, checked at `checked_at`.
    pub fn expired(domain_name: String, checked_at: i64) -> (r: CheckResult)
        ensures
            r.state == CheckState::Expired,
            r.checked_at == checked_at,
            r.domain_name == domain_name,
            r.days == 0 && r.not_after == 0 && r.elapsed is None,
    {
        CheckResult {
            state: CheckState::Expired,
            checked_at,
            days: 0,
            domain_name,
            not_after: 0,
            elapsed: None,
        }
    }

    /// The icon of the state, in Unicode or in ASCII.
    pub fn state_icon(&self, unicode: bool) -> (r: String)
        ensures
            r@ == icon_of(self.state, unicode),
    {
        let s = match self.state {
            CheckState::Unknown => {
                if unicode {
                    "\u{2753}"
                } else {
                    "[?]"
                }
            },
            CheckState::Valid => {
                if unicode {
                    "\u{2705}"
                } else {
                    "[v]"
                }
            },
            CheckState::Warning => {
                if unicode {
                    "\u{26a0}\u{fe0f}"
                } else {
                    "[-]"
                }
            },
            CheckState::Expired => {
                if unicode {
                    "\u{274c}"
                } else {
                    "[x]"
                }
            },
        };
        String::from_str(s)
    }
}

/// A check result as text fields, for JSON output.
#[derive(Clone, Debug, Default)]
pub struct CheckResultJSON {
    /// State of the certificate.
    pub state: String,
    /// When the domain was checked.
    pub checked_at: String,
    /// Days left before the certificate expires.
    pub days: i64,
    /// The domain that was checked.
    pub domain_name: String,
    /// When the certificate expires, in RFC 3339 form.
    pub expired_at: String,
    /// Time the check took, in milliseconds.
    pub elapsed: u128,
}

/// State of a checked certificate, with what is known in each state.
#[derive(Clone, Debug)]
pub enum CertificateState {
    /// Not checked yet.
    NotChecked,
    /// The check itself failed.
    Error(String),
    /// Valid.
    Valid { days: i64, not_after: i64 },
    /// Expires soon.
    Warning { days: i64, not_after: i64 },
    /// Expired.
    Expired,
}

impl CertificateState {
    /// The label of the state.
    pub fn label(&self) -> (r: String)
        ensures
            r@ == match *self {
                CertificateState::NotChecked => "NOT_CHECKED"@,
                CertificateState::Valid { .. } => "OK"@,
                CertificateState::Warning { .. } => "WARNING"@,
                CertificateState::Expired => "EXPIRED"@,
                CertificateState::Error(_) => "ERROR"@,
            },
    {
        match self {
            CertificateState::NotChecked => String::from_str("NOT_CHECKED"),
            CertificateState::Valid { .. } => String::from_str("OK"),
            CertificateState::Warning { .. } => String::from_str("WARNING"),
            CertificateState::Expired => String::from_str("EXPIRED"),
            CertificateState::Error(_) => String::from_str("ERROR"),
        }
    }
}

} // verus!
