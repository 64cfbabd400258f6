//! Accounts as the provider reports them.

use crate::calendar::Timestamp;
use crate::text::str_eq;
use vstd::prelude::*;
use vstd::string::StringExecFns;

verus! {

/// The state of an account at the provider. A status that this library does
/// not know is kept as the provider wrote it.
#[derive(Debug, Clone, PartialEq, Eq)]
pub enum AccountStatus {
    Ready,
    Expired,
    Error,
    Suspended,
    Other(String),
}

/// An account, as fetched at the start of its synchronisation.
#[derive(Debug)]
pub struct Account {
    pub id: u128,
    pub created: Timestamp,
    pub iban: String,
    pub status: AccountStatus,
    pub institution_id: String,
    pub owner_name: String,
    pub other: serde_json::Value,
}

impl AccountStatus {
    /// The word by which the provider names this status.
    pub open spec fn code_text(self) -> Seq<char> {
        match self {
            AccountStatus::Ready => "READY"@,
            AccountStatus::Expired => "EXPIRED"@,
            AccountStatus::Error => "ERROR"@,
            AccountStatus::Suspended => "SUSPENDED"@,
            AccountStatus::Other(s) => s@,
        }
    }

    /// Whether transactions of an account in this status may be fetched.
    pub open spec fn ready(self) -> bool {
        self is Ready
    }

    /// The status that the provider names by `code`. Every word is a status:
    /// one that is not known is kept as it is.
    pub fn from_code(code: &str) -> (r: AccountStatus)
        ensures
            r.code_text() == code@,
            r is Ready <==> code@ == "READY"@,
            r is Expired <==> code@ == "EXPIRED"@,
            r is Error <==> code@ == "ERROR"@,
            r is Suspended <==> code@ == "SUSPENDED"@,
    {
        proof {
            reveal_strlit("READY");
            reveal_strlit("EXPIRED");
            reveal_strlit("ERROR");
            reveal_strlit("SUSPENDED");
            assert("READY"@[0] == 'R' && "EXPIRED"@[0] == 'E' && "SUSPENDED"@[0] == 'S');
            assert("EXPIRED"@.len() == 7 && "ERROR"@.len() == 5);
        }
        if str_eq(code, "READY") {
            AccountStatus::Ready
        } else if str_eq(code, "EXPIRED") {
            AccountStatus::Expired
        } else if str_eq(code, "ERROR") {
            AccountStatus::Error
        } else if str_eq(code, "SUSPENDED") {
            AccountStatus::Suspended
        } else {
            AccountStatus::Other(String::from_str(code))
        }
    }

    /// The word by which the provider names this status.
    pub fn code(&self) -> (r: String)
        ensures
            r@ == self.code_text(),
    {
        match self {
            AccountStatus::Ready => String::from_str("READY"),
            AccountStatus::Expired => String::from_str("EXPIRED"),
            AccountStatus::Error => String::from_str("ERROR"),
            AccountStatus::Suspended => String::from_str("SUSPENDED"),
            AccountStatus::Other(s) => s.clone(),
        }
    }

    /// Whether transactions of an account in this status may be fetched.
    pub fn is_ready(&self) -> (r: bool)
        ensures
            r == self.ready(),
    {
        match self {
            AccountStatus::Ready => true,
            _ => false,
        }
    }
}

} // verus!
