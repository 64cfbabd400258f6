//! The fetch-only provider: what it answers, and the address of each thing
//! that is fetched from it.

use crate::calendar::{format_iso_date, iso_date_text, Date, Timestamp};
use crate::encoding::{https_uri, https_uri_text, percent_encode, percent_encoded};
use vstd::prelude::*;
use vstd::string::StringExecFns;

verus! {

/// The accounts of a user.
#[derive(Debug, Clone, PartialEq)]
pub struct AccountsResponse {
    pub results: Vec<AccountsResult>,
}

/// One account.
#[derive(Debug, Clone, PartialEq)]
pub struct AccountsResult {
    pub update_timestamp: String,
    pub account_id: String,
    pub account_type: String,
    pub display_name: String,
    pub currency: String,
    pub account_number: AccountNumber,
    pub provider: AccountsProvider,
}

/// The numbers by which an account is known.
#[derive(Debug, Clone, PartialEq)]
pub struct AccountNumber {
    pub iban: String,
    pub number: String,
    pub sort_code: String,
    pub swift_bic: String,
}

/// The institution an account is held at.
#[derive(Debug, Clone, PartialEq)]
pub struct AccountsProvider {
    pub provider_id: String,
}

/// The cards of a user.
#[derive(Debug, Clone, PartialEq)]
pub struct CardsResponse {
    pub results: Vec<CardsResult>,
}

/// One card.
#[derive(Debug, Clone, PartialEq)]
pub struct CardsResult {
    pub account_id: String,
    pub card_network: String,
    pub card_type: String,
    pub currency: String,
    pub display_name: String,
    pub partial_card_number: String,
    pub name_on_card: String,
    pub valid_from: Option<String>,
    pub valid_to: Option<String>,
    pub update_timestamp: Timestamp,
    pub provider: CardsProvider,
}

/// The institution a card is issued by.
#[derive(Debug, Clone, PartialEq)]
pub struct CardsProvider {
    pub provider_id: String,
    pub logo_uri: Option<String>,
    pub display_name: Option<String>,
}

/// One thing that is fetched from the provider.
#[derive(Debug)]
pub enum Endpoint {
    /// The user's details.
    Info,
    /// The user's accounts.
    Accounts,
    /// The balance of an account.
    AccountBalance { account_id: String },
    /// The transactions of an account from one day to another.
    AccountTransactions { account_id: String, from: Date, to: Date },
    /// The user's cards.
    Cards,
    /// The balance of a card.
    CardBalance { card_id: String },
    /// The transactions of a card from one day to another.
    CardTransactions { card_id: String, from: Date, to: Date },
}

/// The address of an endpoint is no URI.
#[derive(Clone, Copy, Debug, PartialEq, Eq, Structural)]
pub struct InvalidUrl;

/// The host that serves the data.
pub open spec fn api_host_text() -> Seq<char> {
    "api.truelayer-sandbox.com"@
}

/// The path of something that belongs to one account or card: `prefix`, the
/// identifier percent-encoded, and `suffix`.
pub open spec fn item_path_text(prefix: Seq<char>, id: Seq<char>, suffix: Seq<char>) -> Seq<char> {
    prefix + percent_encoded(vstd::utf8::encode_utf8(id)) + suffix
}

/// The pairs of a query for the days from `from` to `to`.
pub open spec fn range_pairs(from: Date, to: Date) -> Seq<(Seq<char>, Seq<char>)> {
    seq![("from"@, iso_date_text(from)), ("to"@, iso_date_text(to))]
}

impl Endpoint {
    /// The path of the endpoint on the host.
    pub open spec fn path_text(self) -> Seq<char> {
        match self {
            Endpoint::Info => "/data/v1/info"@,
            Endpoint::Accounts => "/data/v1/accounts"@,
            Endpoint::AccountBalance { account_id } => item_path_text(
                "/data/v1/accounts/"@,
                account_id@,
                "/balance"@,
            ),
            Endpoint::AccountTransactions { account_id, .. } => item_path_text(
                "/data/v1/accounts/"@,
                account_id@,
                "/transactions"@,
            ),
            Endpoint::Cards => "/data/v1/cards"@,
            Endpoint::CardBalance { card_id } => item_path_text(
                "/data/v1/cards/"@,
                card_id@,
                "/balance"@,
            ),
            Endpoint::CardTransactions { card_id, .. } => item_path_text(
                "/data/v1/cards/"@,
                card_id@,
                "/transactions"@,
            ),
        }
    }

    /// The pairs of the query that goes with the address: the range of days
    /// for transactions, none for anything else.
    pub open spec fn query_pairs(self) -> Seq<(Seq<char>, Seq<char>)> {
        match self {
            Endpoint::AccountTransactions { from, to, .. } => range_pairs(from, to),
            Endpoint::CardTransactions { from, to, .. } => range_pairs(from, to),
            _ => Seq::empty(),
        }
    }

    /// The address of the endpoint: the `https` URI of the host and the
    /// path; `None` where these make no URI.
    pub open spec fn url_text(self) -> Option<Seq<char>> {
        https_uri_text(api_host_text(), self.path_text())
    }

    /// The path of the endpoint on the host.
    pub fn path(&self) -> (r: String)
        ensures
            r@ == self.path_text(),
    {
        match self {
            Endpoint::Info => String::from_str("/data/v1/info"),
            Endpoint::Accounts => String::from_str("/data/v1/accounts"),
            Endpoint::AccountBalance { account_id } => item_path(
                "/data/v1/accounts/",
                account_id.as_str(),
                "/balance",
            ),
            Endpoint::AccountTransactions { account_id, .. } => item_path(
                "/data/v1/accounts/",
                account_id.as_str(),
                "/transactions",
            ),
            Endpoint::Cards => String::from_str("/data/v1/cards"),
            Endpoint::CardBalance { card_id } => item_path(
                "/data/v1/cards/",
                card_id.as_str(),
                "/balance",
            ),
            Endpoint::CardTransactions { card_id, .. } => item_path(
                "/data/v1/cards/",
                card_id.as_str(),
                "/transactions",
            ),
        }
    }

    /// The pairs of the query that goes with the address.
    pub fn query(&self) -> (r: Vec<(String, String)>)
        ensures
            crate::encoding::pairs_text(r@) == self.query_pairs(),
    {
        let mut pairs: Vec<(String, String)> = Vec::new();
        match self {
            Endpoint::AccountTransactions { from, to, .. } => {
                pairs.push((String::from_str("from"), format_iso_date(from)));
                pairs.push((String::from_str("to"), format_iso_date(to)));
            },
            Endpoint::CardTransactions { from, to, .. } => {
                pairs.push((String::from_str("from"), format_iso_date(from)));
                pairs.push((String::from_str("to"), format_iso_date(to)));
            },
            _ => {},
        }
        assert(crate::encoding::pairs_text(pairs@) =~= self.query_pairs());
        pairs
    }

    /// The address of the endpoint.
    pub fn url(&self) -> (r: Result<String, InvalidUrl>)
        ensures
            match r {
                Ok(url) => self.url_text() == Some(url@),
                Err(_) => self.url_text() is None,
            },
    {
        let path = self.path();
        match https_uri("api.truelayer-sandbox.com", path.as_str()) {
            Ok(url) => Ok(url),
            Err(_) => Err(InvalidUrl),
        }
    }
}

/// The path of something that belongs to one account or card.
pub fn item_path(prefix: &str, id: &str, suffix: &str) -> (r: String)
    ensures
        r@ == item_path_text(prefix@, id@, suffix@),
{
    let mut path = String::from_str(prefix);
    path.append(percent_encode(id).as_str());
    path.append(suffix);
    path
}

} // verus!
