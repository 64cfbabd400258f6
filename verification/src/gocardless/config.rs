//! What a run is configured with: providers, retry settings, the listener's
//! address, and the state that linking leaves behind.

use crate::gocardless::connect::Requisition;
use crate::text::str_eq;
use vstd::prelude::*;

verus! {

/// The number of days a run looks back where the configuration names none.
pub const DEFAULT_HISTORY_DAYS: u64 = 90;

/// The delay before the first retry, in seconds, where none is configured.
pub const DEFAULT_RETRY_DELAY_S: u64 = 1;

/// Where the configuration file lies.
#[derive(Debug, Clone)]
pub struct ConfigArg {
    pub config: String,
}

/// One provider: the institution to link, where its files go, how far back
/// a run looks, and where its link state is kept.
#[derive(Debug, Clone)]
pub struct ProviderConfig {
    pub institution_id: String,
    pub output: String,
    pub history_days: Option<u64>,
    pub state: String,
}

/// The retry settings as configured; each may be left out.
#[derive(Debug, Clone, Copy, PartialEq, Eq, Structural)]
pub struct RetryConfig {
    pub delay_s: Option<u64>,
    pub max_delay_s: Option<u64>,
    pub max_retries: Option<usize>,
}

/// The retry policy that the settings stand for: exponential backoff from
/// `delay_s` seconds, with the two limits where they are set.
#[derive(Debug, Clone, Copy, PartialEq, Eq, Structural)]
pub struct RetryPlan {
    pub delay_s: u64,
    pub max_delay_s: Option<u64>,
    pub max_retries: Option<usize>,
}

/// The address the callback listener binds to.
#[derive(Debug, Clone)]
pub struct HttpListenerConfig {
    pub bind_address: String,
}

/// A provider's configuration under the name it is selected by.
#[derive(Debug, Clone)]
pub struct NamedProvider {
    pub name: String,
    pub config: ProviderConfig,
}

/// The whole configuration. The providers are kept in a list in which no
/// name occurs twice: see [`ScraperConfig::wf`].
#[derive(Debug, Clone)]
pub struct ScraperConfig {
    pub provider: Vec<NamedProvider>,
    pub retries: RetryConfig,
    pub http: HttpListenerConfig,
}

/// The state that a concluded handshake leaves behind for later runs.
#[derive(Debug, Clone, Copy, PartialEq, Eq, Structural)]
pub struct ProviderState {
    pub requisition_id: u128,
}

impl RetryConfig {
    /// The policy these settings stand for: a delay of one second where none
    /// is set, and each limit as it is set.
    pub fn as_retry_policy(&self) -> (r: RetryPlan)
        ensures
            r.delay_s == match self.delay_s {
                Some(d) => d,
                None => DEFAULT_RETRY_DELAY_S,
            },
            r.max_delay_s == self.max_delay_s,
            r.max_retries == self.max_retries,
    {
        let delay_s: u64 = match self.delay_s {
            Some(d) => d,
            None => DEFAULT_RETRY_DELAY_S,
        };
        RetryPlan { delay_s, max_delay_s: self.max_delay_s, max_retries: self.max_retries }
    }
}

impl ProviderConfig {
    /// The number of days a run looks back.
    pub open spec fn spec_history_days(self) -> u64 {
        match self.history_days {
            Some(d) => d,
            None => DEFAULT_HISTORY_DAYS,
        }
    }

    /// The number of days a run looks back: as configured, else 90.
    pub fn history_days(&self) -> (r: u64)
        ensures
            r == self.spec_history_days(),
    {
        match self.history_days {
            Some(d) => d,
            None => DEFAULT_HISTORY_DAYS,
        }
    }
}

impl ScraperConfig {
    /// Whether no two providers have the same name.
    pub open spec fn wf(self) -> bool {
        forall|i: int, j: int|
            0 <= i < j < self.provider.len() ==> self.provider[i].name@ != self.provider[j].name@
    }

    /// A configuration without providers.
    pub fn new(retries: RetryConfig, http: HttpListenerConfig) -> (r: ScraperConfig)
        ensures
            r.wf(),
            r.provider@.len() == 0,
            r.retries == retries,
            r.http == http,
    {
        ScraperConfig { provider: Vec::new(), retries, http }
    }

    /// Adds a provider under `name`, unless a provider has that name
    /// already: then nothing changes and the answer is `false`.
    pub fn insert(&mut self, name: String, config: ProviderConfig) -> (r: bool)
        ensures
            old(self).wf() ==> final(self).wf(),
            final(self).retries == old(self).retries,
            final(self).http == old(self).http,
            r == !old(self).has_provider(name@),
            r ==> final(self).provider@ == old(self).provider@.push(
                NamedProvider { name, config },
            ),
            !r ==> final(self).provider@ == old(self).provider@,
    {
        match self.find_provider(name.as_str()) {
            Some(_) => false,
            None => {
                proof {
                    assert forall|i: int| 0 <= i < self.provider.len() implies self.provider[i].name@
                        != name@ by {
                        assert(!self.names_at(i, name@));
                    }
                }
                self.provider.push(NamedProvider { name, config });
                true
            },
        }
    }

    /// Whether the provider at place `i` is called `name`.
    pub open spec fn names_at(self, i: int, name: Seq<char>) -> bool {
        0 <= i < self.provider.len() && self.provider[i].name@ == name
    }

    /// Whether the provider at place `i` is the first that is called `name`.
    pub open spec fn first_named(self, i: int, name: Seq<char>) -> bool {
        self.names_at(i, name) && forall|j: int| 0 <= j < i ==> !self.names_at(j, name)
    }

    /// Whether some provider is called `name`.
    pub open spec fn has_provider(self, name: Seq<char>) -> bool {
        exists|i: int| self.names_at(i, name)
    }

    /// The place of the first provider called `name`; `None` where no
    /// provider has that name.
    pub fn find_provider(&self, name: &str) -> (r: Option<usize>)
        ensures
            r is Some <==> self.has_provider(name@),
            r matches Some(i) ==> self.first_named(i as int, name@),
            self.wf() ==> (r matches Some(i) ==> forall|j: int|
                self.names_at(j, name@) ==> j == i),
    {
        let mut i: usize = 0;
        while i < self.provider.len()
            invariant
                i <= self.provider.len(),
                forall|j: int| 0 <= j < i ==> !self.names_at(j, name@),
            decreases self.provider.len() - i,
        {
            if str_eq(self.provider[i].name.as_str(), name) {
                assert(self.names_at(i as int, name@));
                return Some(i);
            }
            i += 1;
        }
        None
    }
}

impl ProviderState {
    /// The state to keep for a requisition: its identifier.
    pub fn from_requisition(requisition: &Requisition) -> (r: ProviderState)
        ensures
            r.requisition_id == requisition.id,
    {
        ProviderState { requisition_id: requisition.id }
    }
}

} // verus!
