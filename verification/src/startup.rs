//! Startup: find the zone, then the record, then run.
//!
//! The agent refuses to run without knowing where to write. Each of the two
//! lookups is made once; a failure of either ends the startup, and nothing
//! is tried again.

use crate::config::Config;
use crate::config::ConfigView;
use crate::domain::extract_root_domain;
use crate::domain::root_domain;
use crate::error::Lookup;
use crate::error::SyncError;
use crate::error::SyncErrorView;
use crate::provider::listed_id;
use crate::provider::record_id_from;
use crate::provider::record_lookup;
use crate::provider::zone_id_from;
use crate::provider::zone_lookup;
use crate::provider::Listing;
use crate::provider::Reply;
use crate::provider::Request;
use crate::state::WriteRecord;
use crate::sync::Running;
use vstd::prelude::*;
use vstd::string::*;

verus! {

/// The agent at the start: it has its settings, and knows neither the zone
/// nor the record.
pub struct Initializing {
    config: Config,
}

/// The agent once the zone is found, before the record is.
pub struct ZoneKnown {
    config: Config,
    zone_id: String,
}

impl Initializing {
    /// The settings of the run.
    pub closed spec fn settings(&self) -> ConfigView {
        self.config@
    }

    /// The settings of the run.
    pub fn config(&self) -> (config: &Config)
        ensures
            config@ == self.settings(),
    {
        &self.config
    }

    /// An agent with these settings, about to look for its zone.
    pub fn new(config: Config) -> (agent: Initializing)
        ensures
            agent.settings() == config@,
    {
        Initializing { config }
    }

    /// The first request of a startup: the zones of the root domain of the
    /// configured name.
    pub fn zone_request(&self) -> (request: Request)
        ensures
            request@ == zone_lookup(self.settings().token, root_domain(self.settings().dns_name)),
    {
        let domain = extract_root_domain(self.config.dns_name());
        Request::zone_lookup(self.config.token(), domain.as_str())
    }

    /// Takes the answer to the zone lookup. The zone is the first one
    /// listed; an answer that lists none, or that did not arrive or could
    /// not be read, ends the startup with its error.
    pub fn zone_found(self, reply: Reply<Listing>) -> (next: Result<ZoneKnown, SyncError>)
        ensures
            match next {
                Ok(agent) => {
                    &&& listed_id(reply, Lookup::Zone, root_domain(self.settings().dns_name)) == Ok::<
                        Seq<char>,
                        SyncErrorView,
                    >(agent.zone())
                    &&& agent.settings() == self.settings()
                },
                Err(e) => listed_id(reply, Lookup::Zone, root_domain(self.settings().dns_name))
                    == Err::<Seq<char>, SyncErrorView>(e@),
            },
    {
        let domain = extract_root_domain(self.config.dns_name());
        match zone_id_from(reply, domain.as_str()) {
            Ok(zone_id) => Ok(ZoneKnown { config: self.config, zone_id }),
            Err(e) => Err(e),
        }
    }
}

impl ZoneKnown {
    /// The settings of the run.
    pub closed spec fn settings(&self) -> ConfigView {
        self.config@
    }

    /// The zone that was found.
    pub closed spec fn zone(&self) -> Seq<char> {
        self.zone_id@
    }

    /// The settings of the run.
    pub fn config(&self) -> (config: &Config)
        ensures
            config@ == self.settings(),
    {
        &self.config
    }

    /// The identifier of the zone that was found.
    pub fn zone_id(&self) -> (id: &str)
        ensures
            id@ == self.zone(),
    {
        self.zone_id.as_str()
    }

    /// The second request of a startup: the "A" records of the zone whose
    /// name is the configured one.
    pub fn record_request(&self) -> (request: Request)
        ensures
            request@ == record_lookup(self.settings().token, self.zone(), self.settings().dns_name),
    {
        Request::record_lookup(self.config.token(), self.zone_id.as_str(), self.config.dns_name())
    }

    /// Takes the answer to the record lookup. The record is the first one
    /// listed, and with it the agent runs: nothing written yet, no address
    /// remembered. Any other answer ends the startup with its error.
    pub fn record_found(self, reply: Reply<Listing>) -> (next: Result<Running, SyncError>)
        ensures
            match next {
                Ok(agent) => {
                    &&& listed_id(reply, Lookup::Record, self.settings().dns_name) == Ok::<
                        Seq<char>,
                        SyncErrorView,
                    >(agent@.record_id)
                    &&& agent@.config == self.settings()
                    &&& agent@.zone_id == self.zone()
                    &&& agent@.last_ip == Seq::<char>::empty()
                    &&& agent@.writes == Seq::<WriteRecord>::empty()
                },
                Err(e) => listed_id(reply, Lookup::Record, self.settings().dns_name) == Err::<
                    Seq<char>,
                    SyncErrorView,
                >(e@),
            },
    {
        match record_id_from(reply, self.config.dns_name()) {
            Ok(record_id) => Ok(Running::new(self.config, self.zone_id, record_id)),
            Err(e) => Err(e),
        }
    }
}

} // verus!
