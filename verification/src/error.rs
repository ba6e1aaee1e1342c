//! Error classification for Kite Connect API responses.
//!
//! The API reports failures under a fixed set of exception labels. A label is
//! decoded into [`KiteApiException`]; a label outside the fixed set is kept
//! verbatim as a deserialization exception, so that a newly added upstream
//! label is never silently misclassified.

use vstd::prelude::*;

use crate::mode::str_eq;

verus! {

/// The kinds of errors Kite Connect API reports.
#[derive(Debug)]
pub enum KiteApiException {
    /// Preceded by a 403 header, this indicates the expiry or invalidation of
    /// an authenticated session; the user's session should be cleared and a
    /// login re-initiated.
    TokenException,
    /// Represents user account related errors.
    UserException,
    /// Represents order related errors such as placement failures or a corrupt
    /// fetch.
    OrderException,
    /// Represents missing required fields or bad values for parameters.
    InputException,
    /// Represents insufficient funds required for order placement.
    MarginException,
    /// Represents insufficient holdings available to place a sell order for a
    /// specified instrument.
    HoldingException,
    /// Represents a network error where the API was unable to communicate
    /// with the Order Management System (OMS).
    NetworkException,
    /// Represents an internal system error where the API was unable to
    /// understand the response from the OMS to respond to a request.
    DataException,
    /// Represents an unclassified error. This should only happen rarely.
    GeneralException,
    /// Represents an error label this library does not know, kept verbatim:
    /// the API has been updated with a new error type.
    DeserializationException(String),
}

/// The exception denoted by a known error label, if any.
pub open spec fn spec_exception_of_label(s: Seq<char>) -> Option<KiteApiException> {
    if s == "TokenException"@ {
        Some(KiteApiException::TokenException)
    } else if s == "UserException"@ {
        Some(KiteApiException::UserException)
    } else if s == "OrderException"@ {
        Some(KiteApiException::OrderException)
    } else if s == "InputException"@ {
        Some(KiteApiException::InputException)
    } else if s == "MarginException"@ {
        Some(KiteApiException::MarginException)
    } else if s == "HoldingException"@ {
        Some(KiteApiException::HoldingException)
    } else if s == "NetworkException"@ {
        Some(KiteApiException::NetworkException)
    } else if s == "DataException"@ {
        Some(KiteApiException::DataException)
    } else if s == "GeneralException"@ {
        Some(KiteApiException::GeneralException)
    } else {
        None
    }
}

/// True when `e` is the exception that the label `s` decodes to: the known
/// exception of a known label, and the verbatim deserialization exception of
/// any other label.
pub open spec fn spec_decodes_label(e: KiteApiException, s: Seq<char>) -> bool {
    match spec_exception_of_label(s) {
        Some(known) => e == known,
        None => e matches KiteApiException::DeserializationException(p) && p@ == s,
    }
}

/// The descriptive message of each exception.
pub open spec fn spec_exception_message(e: KiteApiException) -> Seq<char> {
    match e {
        KiteApiException::TokenException => "TokenException: indicates the expiry or invalidation of an authenticated session"@,
        KiteApiException::UserException => "UserException: represents user account related errors"@,
        KiteApiException::OrderException => "OrderException: represents order related errors such as placement failures or a corrupt fetch"@,
        KiteApiException::InputException => "InputException: represents missing required fields or bad values for parameters"@,
        KiteApiException::MarginException => "MarginException: represents insufficient funds required for order placement"@,
        KiteApiException::HoldingException => "HoldingException: represents insufficient holdings available to place a sell order for a specified instrument"@,
        KiteApiException::NetworkException => "NetworkException: represents a network error where the API was unable to communicate with the Order Management System (OMS)"@,
        KiteApiException::DataException => "DataException: represents an internal system error where the API was unable to understand the response from the OMS to respond to a request"@,
        KiteApiException::GeneralException => "GeneralException: represents an unclassified error"@,
        KiteApiException::DeserializationException(path) => "DeserializationException: represents a JSON deserialization error of a response from a KiteConnect API endpoint (`"@
            + path@ + "`)."@,
    }
}

impl KiteApiException {
    /// Decodes an error label: a known label yields its exception, any other
    /// label is kept verbatim as a deserialization exception.
    pub fn from_label(s: &str) -> (e: KiteApiException)
        ensures
            spec_decodes_label(e, s@),
    {
        if str_eq(s, "TokenException") {
            KiteApiException::TokenException
        } else if str_eq(s, "UserException") {
            KiteApiException::UserException
        } else if str_eq(s, "OrderException") {
            KiteApiException::OrderException
        } else if str_eq(s, "InputException") {
            KiteApiException::InputException
        } else if str_eq(s, "MarginException") {
            KiteApiException::MarginException
        } else if str_eq(s, "HoldingException") {
            KiteApiException::HoldingException
        } else if str_eq(s, "NetworkException") {
            KiteApiException::NetworkException
        } else if str_eq(s, "DataException") {
            KiteApiException::DataException
        } else if str_eq(s, "GeneralException") {
            KiteApiException::GeneralException
        } else {
            KiteApiException::DeserializationException(s.to_owned())
        }
    }

    /// The descriptive message of this exception; the verbatim unknown label
    /// is quoted inside the deserialization-exception message.
    pub fn message(&self) -> (m: String)
        ensures
            m@ == spec_exception_message(*self),
    {
        match self {
            KiteApiException::TokenException => String::from_str(
                "TokenException: indicates the expiry or invalidation of an authenticated session",
            ),
            KiteApiException::UserException => String::from_str(
                "UserException: represents user account related errors",
            ),
            KiteApiException::OrderException => String::from_str(
                "OrderException: represents order related errors such as placement failures or a corrupt fetch",
            ),
            KiteApiException::InputException => String::from_str(
                "InputException: represents missing required fields or bad values for parameters",
            ),
            KiteApiException::MarginException => String::from_str(
                "MarginException: represents insufficient funds required for order placement",
            ),
            KiteApiException::HoldingException => String::from_str(
                "HoldingException: represents insufficient holdings available to place a sell order for a specified instrument",
            ),
            KiteApiException::NetworkException => String::from_str(
                "NetworkException: represents a network error where the API was unable to communicate with the Order Management System (OMS)",
            ),
            KiteApiException::DataException => String::from_str(
                "DataException: represents an internal system error where the API was unable to understand the response from the OMS to respond to a request",
            ),
            KiteApiException::GeneralException => String::from_str(
                "GeneralException: represents an unclassified error",
            ),
            KiteApiException::DeserializationException(path) => {
                let mut m = String::from_str(
                    "DeserializationException: represents a JSON deserialization error of a response from a KiteConnect API endpoint (`",
                );
                m.append(path.as_str());
                m.append("`).");
                assert(m@ =~= spec_exception_message(*self));
                m
            },
        }
    }
}

impl PartialEq for KiteApiException {
    fn eq(&self, other: &KiteApiException) -> (r: bool) {
        match (self, other) {
            (KiteApiException::TokenException, KiteApiException::TokenException) => true,
            (KiteApiException::UserException, KiteApiException::UserException) => true,
            (KiteApiException::OrderException, KiteApiException::OrderException) => true,
            (KiteApiException::InputException, KiteApiException::InputException) => true,
            (KiteApiException::MarginException, KiteApiException::MarginException) => true,
            (KiteApiException::HoldingException, KiteApiException::HoldingException) => true,
            (KiteApiException::NetworkException, KiteApiException::NetworkException) => true,
            (KiteApiException::DataException, KiteApiException::DataException) => true,
            (KiteApiException::GeneralException, KiteApiException::GeneralException) => true,
            (
                KiteApiException::DeserializationException(a),
                KiteApiException::DeserializationException(b),
            ) => str_eq(a.as_str(), b.as_str()),
            _ => false,
        }
    }
}

impl vstd::std_specs::cmp::PartialEqSpecImpl for KiteApiException {
    open spec fn obeys_eq_spec() -> bool {
        true
    }

    open spec fn eq_spec(&self, other: &KiteApiException) -> bool {
        match (self, other) {
            (KiteApiException::TokenException, KiteApiException::TokenException) => true,
            (KiteApiException::UserException, KiteApiException::UserException) => true,
            (KiteApiException::OrderException, KiteApiException::OrderException) => true,
            (KiteApiException::InputException, KiteApiException::InputException) => true,
            (KiteApiException::MarginException, KiteApiException::MarginException) => true,
            (KiteApiException::HoldingException, KiteApiException::HoldingException) => true,
            (KiteApiException::NetworkException, KiteApiException::NetworkException) => true,
            (KiteApiException::DataException, KiteApiException::DataException) => true,
            (KiteApiException::GeneralException, KiteApiException::GeneralException) => true,
            (
                KiteApiException::DeserializationException(a),
                KiteApiException::DeserializationException(b),
            ) => a@ == b@,
            _ => false,
        }
    }
}

} // verus!
