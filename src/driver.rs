//! Driver errors, the security-limit check that every setter applies, the
//! power-supply emulator and the command plan of the Korad bench supply.
use vstd::prelude::*;
use vstd::string::*;
use crate::decimal::{format_decimal, format_micro, parse_decimal, parse_micro, MAGNITUDE_BOUND};

verus! {

/// Failure of a driver operation.
#[derive(Debug, Clone)]
pub enum DriverError {
    /// An I/O, open or protocol failure, or a malformed setting.
    Generic(String),
    /// A voltage setting outside the declared bounds.
    VoltageSecurityLimitExceeded(String),
    /// A current setting outside the declared bounds.
    CurrentSecurityLimitExceeded(String),
}

/// The variant of a [`DriverError`], without its message.
#[derive(PartialEq, Eq, Structural, Clone, Copy, Debug)]
pub enum DriverErrorKind {
    Generic,
    VoltageSecurityLimitExceeded,
    CurrentSecurityLimitExceeded,
}

impl DriverError {
    pub open spec fn kind(&self) -> DriverErrorKind {
        match self {
            DriverError::Generic(_) => DriverErrorKind::Generic,
            DriverError::VoltageSecurityLimitExceeded(_) => DriverErrorKind::VoltageSecurityLimitExceeded,
            DriverError::CurrentSecurityLimitExceeded(_) => DriverErrorKind::CurrentSecurityLimitExceeded,
        }
    }

    pub open spec fn message(&self) -> Seq<char> {
        match self {
            DriverError::Generic(m) => m@,
            DriverError::VoltageSecurityLimitExceeded(m) => m@,
            DriverError::CurrentSecurityLimitExceeded(m) => m@,
        }
    }

    /// The text of the error, as it is logged.
    pub fn to_text(&self) -> (r: String)
        ensures
            r@ == (match self.kind() {
                DriverErrorKind::Generic => "An error occurred: "@,
                _ => "Security limit exceeded: "@,
            }) + self.message(),
    {
        match self {
            DriverError::Generic(m) => {
                let mut s = String::from_str("An error occurred: ");
                s.append(m.as_str());
                s
            },
            DriverError::VoltageSecurityLimitExceeded(m) => {
                let mut s = String::from_str("Security limit exceeded: ");
                s.append(m.as_str());
                s
            },
            DriverError::CurrentSecurityLimitExceeded(m) => {
                let mut s = String::from_str("Security limit exceeded: ");
                s.append(m.as_str());
                s
            },
        }
    }
}

/// The two settings of a power supply.
#[derive(PartialEq, Eq, Structural, Clone, Copy, Debug)]
pub enum Quantity {
    Voltage,
    Current,
}

pub open spec fn capitalized(q: Quantity) -> Seq<char> {
    match q {
        Quantity::Voltage => "Voltage"@,
        Quantity::Current => "Current"@,
    }
}

pub open spec fn lower_name(q: Quantity) -> Seq<char> {
    match q {
        Quantity::Voltage => "voltage"@,
        Quantity::Current => "current"@,
    }
}

pub open spec fn limit_kind(q: Quantity) -> DriverErrorKind {
    match q {
        Quantity::Voltage => DriverErrorKind::VoltageSecurityLimitExceeded,
        Quantity::Current => DriverErrorKind::CurrentSecurityLimitExceeded,
    }
}

/// Optional bounds, in micro-units, that a setting must stay within.
#[derive(PartialEq, Eq, Structural, Clone, Copy, Debug)]
pub struct SecurityLimits {
    pub min: Option<i64>,
    pub max: Option<i64>,
}

impl SecurityLimits {
    /// Both bounds, when present, are settings the library can write out.
    pub open spec fn wf(&self) -> bool {
        (self.min matches Some(m) ==> -MAGNITUDE_BOUND < m < MAGNITUDE_BOUND) && (
        self.max matches Some(m) ==> -MAGNITUDE_BOUND < m < MAGNITUDE_BOUND)
    }

    /// Whether `v` lies within the bounds that are present.
    pub open spec fn admits(&self, v: int) -> bool {
        (self.min matches Some(m) ==> m <= v) && (self.max matches Some(m) ==> v <= m)
    }

    pub open spec fn no_bounds() -> SecurityLimits {
        SecurityLimits { min: None, max: None }
    }

    /// Limits with no bound.
    pub fn none() -> (r: SecurityLimits)
        ensures
            r == SecurityLimits::no_bounds(),
    {
        SecurityLimits { min: None, max: None }
    }
}

/// What checking the setting `text` of `q` against `l` gives: the setting
/// in micro-units, or the kind and message of the error.
pub open spec fn check_spec(q: Quantity, text: Seq<char>, l: SecurityLimits) -> Result<
    int,
    (DriverErrorKind, Seq<char>),
> {
    match parse_decimal(text) {
        None => Err((DriverErrorKind::Generic, "Invalid "@ + lower_name(q) + " format: "@ + text)),
        Some(v) => if l.min is Some && v < l.min->0 {
            Err(
                (
                    limit_kind(q),
                    capitalized(q) + " "@ + format_decimal(v)
                        + " is below minimum security limit of "@ + format_decimal(l.min->0 as int),
                ),
            )
        } else if l.max is Some && v > l.max->0 {
            Err(
                (
                    limit_kind(q),
                    capitalized(q) + " "@ + format_decimal(v)
                        + " exceeds maximum security limit of "@ + format_decimal(l.max->0 as int),
                ),
            )
        } else {
            Ok(v)
        },
    }
}

/// Whether `r` is what [`check_spec`] gives.
pub open spec fn matches_check(r: Result<i64, DriverError>, expected: Result<int, (DriverErrorKind, Seq<char>)>) -> bool {
    match r {
        Ok(v) => expected == Ok::<int, (DriverErrorKind, Seq<char>)>(v as int),
        Err(e) => expected == Err::<int, (DriverErrorKind, Seq<char>)>((e.kind(), e.message())),
    }
}

fn capitalized_str(q: Quantity) -> (r: &'static str)
    ensures
        r@ == capitalized(q),
{
    match q {
        Quantity::Voltage => "Voltage",
        Quantity::Current => "Current",
    }
}

fn lower_str(q: Quantity) -> (r: &'static str)
    ensures
        r@ == lower_name(q),
{
    match q {
        Quantity::Voltage => "voltage",
        Quantity::Current => "current",
    }
}

fn limit_error(q: Quantity, message: String) -> (r: DriverError)
    ensures
        r.kind() == limit_kind(q),
        r.message() == message@,
{
    match q {
        Quantity::Voltage => DriverError::VoltageSecurityLimitExceeded(message),
        Quantity::Current => DriverError::CurrentSecurityLimitExceeded(message),
    }
}

/// Reads the setting `text` of `q` and checks it against `l`: a malformed
/// setting is a generic error, one outside a present bound is a
/// security-limit error that names the setting and the bound.
pub fn check_setting(q: Quantity, text: &str, l: &SecurityLimits) -> (r: Result<i64, DriverError>)
    requires
        l.wf(),
    ensures
        matches_check(r, check_spec(q, text@, *l)),
        r is Ok <==> (parse_decimal(text@) matches Some(v) && l.admits(v)),
{
    match parse_micro(text) {
        None => {
            let mut m = String::from_str("Invalid ");
            m.append(lower_str(q));
            m.append(" format: ");
            m.append(text);
            Err(DriverError::Generic(m))
        },
        Some(v) => {
            if let Some(min) = l.min {
                if v < min {
                    let mut m = String::from_str(capitalized_str(q));
                    m.append(" ");
                    m.append(format_micro(v).as_str());
                    m.append(" is below minimum security limit of ");
                    m.append(format_micro(min).as_str());
                    return Err(limit_error(q, m));
                }
            }
            if let Some(max) = l.max {
                if v > max {
                    let mut m = String::from_str(capitalized_str(q));
                    m.append(" ");
                    m.append(format_micro(v).as_str());
                    m.append(" exceeds maximum security limit of ");
                    m.append(format_micro(max).as_str());
                    return Err(limit_error(q, m));
                }
            }
            Ok(v)
        },
    }
}

/// What a driver model declares of itself for discovery tooling.
#[derive(Debug, Clone)]
pub struct ManifestEntry {
    pub model: String,
    pub description: String,
    pub voltage_limits: SecurityLimits,
    pub current_limits: SecurityLimits,
}

} // verus!
