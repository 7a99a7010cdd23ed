//! The running loop, one round at a time.
//!
//! A round starts with what the discovery of the public address gave. The
//! loop compares it with the address it last applied and plans a write
//! where the two differ; once the provider has answered the write, the loop
//! settles it. Only a confirmed write changes what the loop remembers, so a
//! write that failed is planned again in the next round.

use crate::address::dotted;
use crate::address::Ipv4;
use crate::config::Config;
use crate::config::ConfigView;
use crate::error::SyncError;
use crate::error::SyncErrorView;
use crate::provider::acknowledged;
use crate::provider::record_update;
use crate::provider::update_acknowledged;
use crate::provider::Ack;
use crate::provider::Reply;
use crate::provider::Request;
use crate::provider::RequestView;
use crate::state::last_acknowledged;
use crate::state::SyncState;
use crate::state::WriteRecord;
use vstd::prelude::*;
use vstd::string::*;

verus! {

/// What the discovery of the public address gave.
pub enum IpReport {
    /// The host's public address.
    Address(Ipv4),
    /// The discovery ran, and could not tell the address.
    Undetermined,
    /// The discovery failed.
    Failed(String),
}

/// A write that was planned and is not settled yet.
pub struct PendingWrite {
    content: String,
    request: Request,
}

/// A `PendingWrite` with its texts as sequences of characters.
pub struct PendingWriteView {
    pub content: Seq<char>,
    pub request: RequestView,
}

impl View for PendingWrite {
    type V = PendingWriteView;

    closed spec fn view(&self) -> PendingWriteView {
        PendingWriteView { content: self.content@, request: self.request@ }
    }
}

impl PendingWrite {
    /// The address to be written, in dotted-decimal notation.
    pub fn content(&self) -> (content: &str)
        ensures
            content@ == self@.content,
    {
        self.content.as_str()
    }

    /// The request that writes it.
    pub fn request(&self) -> (request: &Request)
        ensures
            request@ == self@.request,
    {
        &self.request
    }
}

/// What a round does after the discovery.
pub enum Plan {
    /// The address differs from the last one applied: send this write.
    Write(PendingWrite),
    /// The address is the last one applied: nothing to do.
    InSync,
    /// No address is known: nothing to do.
    Undetermined,
    /// The round cannot go on; nothing is sent.
    Failed(SyncError),
}

/// A `Plan` with its texts as sequences of characters.
pub enum PlanView {
    Write(PendingWriteView),
    InSync,
    Undetermined,
    Failed(SyncErrorView),
}

impl View for Plan {
    type V = PlanView;

    open spec fn view(&self) -> PlanView {
        match self {
            Plan::Write(write) => PlanView::Write(write@),
            Plan::InSync => PlanView::InSync,
            Plan::Undetermined => PlanView::Undetermined,
            Plan::Failed(error) => PlanView::Failed(error@),
        }
    }
}

/// The running agent as the contracts see it.
pub struct RunningView {
    pub config: ConfigView,
    /// The zone that holds the record, resolved at startup.
    pub zone_id: Seq<char>,
    /// The record to keep in sync, resolved at startup.
    pub record_id: Seq<char>,
    /// The last address applied.
    pub last_ip: Seq<char>,
    /// Every write attempted so far, oldest first.
    pub writes: Seq<WriteRecord>,
}

/// What is reported where a write cannot be put into a request.
pub open spec fn unencodable() -> SyncErrorView {
    SyncErrorView::ProtocolError { detail: "the update could not be encoded"@ }
}

/// The plan of a round: a write of the reported address where it differs
/// from the last one applied, and nothing to send in every other case.
pub open spec fn planned(agent: RunningView, report: IpReport) -> PlanView {
    match report {
        IpReport::Address(ip) => if dotted(ip) == agent.last_ip {
            PlanView::InSync
        } else {
            match record_update(
                agent.config.token,
                agent.zone_id,
                agent.record_id,
                agent.config.dns_name,
                dotted(ip),
            ) {
                Some(request) => PlanView::Write(PendingWriteView { content: dotted(ip), request }),
                None => PlanView::Failed(unencodable()),
            }
        },
        IpReport::Undetermined => PlanView::Undetermined,
        IpReport::Failed(detail) => PlanView::Failed(
            SyncErrorView::TransportError { detail: detail@ },
        ),
    }
}

/// Whether an answer to a write confirms it.
pub open spec fn confirms(reply: Reply<Ack>) -> bool {
    acknowledged(reply) == Ok::<bool, SyncErrorView>(true)
}

/// The agent after a write of `content` was answered by `reply`: the write
/// is on record, and `content` is the last address applied exactly where
/// the provider confirmed it.
pub open spec fn settled(agent: RunningView, content: Seq<char>, reply: Reply<Ack>) -> RunningView {
    RunningView {
        last_ip: if confirms(reply) {
            content
        } else {
            agent.last_ip
        },
        writes: agent.writes.push(WriteRecord { content, acknowledged: confirms(reply) }),
        ..agent
    }
}

/// How a write ended, for the one who reports it: well, or with the
/// failure to report. A refusal by the provider is `ProviderRejected`.
pub open spec fn settlement(reply: Reply<Ack>) -> Result<(), SyncErrorView> {
    match acknowledged(reply) {
        Ok(flag) => if flag {
            Ok(())
        } else {
            Err(SyncErrorView::ProviderRejected)
        },
        Err(e) => Err(e),
    }
}

/// The agent in its running state: it knows where to write, and remembers
/// what it last wrote. The zone and the record are those found at startup;
/// they are never looked up again.
pub struct Running {
    config: Config,
    zone_id: String,
    record_id: String,
    state: SyncState,
}

impl View for Running {
    type V = RunningView;

    closed spec fn view(&self) -> RunningView {
        RunningView {
            config: self.config@,
            zone_id: self.zone_id@,
            record_id: self.record_id@,
            last_ip: self.state.last_ip(),
            writes: self.state.writes(),
        }
    }
}

impl Running {
    /// The running agent for a zone and a record, before its first round:
    /// nothing has been written, and no address is remembered.
    pub fn new(config: Config, zone_id: String, record_id: String) -> (agent: Running)
        ensures
            agent@ == (RunningView {
                config: config@,
                zone_id: zone_id@,
                record_id: record_id@,
                last_ip: Seq::<char>::empty(),
                writes: Seq::<WriteRecord>::empty(),
            }),
    {
        Running { config, zone_id, record_id, state: SyncState::new() }
    }

    /// The settings of the run.
    pub fn config(&self) -> (config: &Config)
        ensures
            config@ == self@.config,
    {
        &self.config
    }

    /// The zone that holds the record.
    pub fn zone_id(&self) -> (id: &str)
        ensures
            id@ == self@.zone_id,
    {
        self.zone_id.as_str()
    }

    /// The record that is kept in sync.
    pub fn record_id(&self) -> (id: &str)
        ensures
            id@ == self@.record_id,
    {
        self.record_id.as_str()
    }

    /// The last address applied: empty until a write has been confirmed,
    /// and from then on the content of the latest confirmed write.
    pub fn last_applied_ip(&self) -> (ip: &str)
        ensures
            ip@ == self@.last_ip,
            ip@ == last_acknowledged(self@.writes),
    {
        self.state.last_applied_ip()
    }

    /// The pause to make after each round, in milliseconds. Never zero.
    pub fn poll_interval_ms(&self) -> (ms: u64)
        ensures
            ms == self@.config.poll_interval_ms,
            ms > 0,
    {
        self.config.poll_interval_ms()
    }

    /// Decides what a round does with the outcome of the discovery. A write
    /// is planned exactly where an address was found that differs, in
    /// dotted-decimal notation, from the last one applied; it goes to the
    /// record found at startup. The agent itself does not change.
    pub fn plan(&self, report: IpReport) -> (plan: Plan)
        ensures
            plan@ == planned(self@, report),
    {
        match report {
            IpReport::Address(ip) => {
                let content = ip.to_text();
                if self.state.holds(&content) {
                    Plan::InSync
                } else {
                    match Request::record_update(
                        self.config.token(),
                        self.zone_id.as_str(),
                        self.record_id.as_str(),
                        self.config.dns_name(),
                        content.as_str(),
                    ) {
                        Some(request) => Plan::Write(PendingWrite { content, request }),
                        None => Plan::Failed(
                            SyncError::ProtocolError {
                                detail: String::from_str("the update could not be encoded"),
                            },
                        ),
                    }
                }
            },
            IpReport::Undetermined => Plan::Undetermined,
            IpReport::Failed(detail) => Plan::Failed(SyncError::TransportError { detail }),
        }
    }

    /// Settles a write with the provider's answer to it. Where the answer
    /// confirms the write, its address becomes the last one applied; on
    /// every failure, a refusal by the provider included, the last address
    /// applied stays as it was and the failure is returned.
    pub fn settle(&mut self, write: PendingWrite, reply: Reply<Ack>) -> (outcome: Result<
        (),
        SyncError,
    >)
        ensures
            final(self)@ == settled(old(self)@, write@.content, reply),
            confirms(reply) ==> final(self)@.last_ip == write@.content,
            !confirms(reply) ==> final(self)@.last_ip == old(self)@.last_ip,
            final(self)@.last_ip == last_acknowledged(final(self)@.writes),
            match outcome {
                Ok(_) => settlement(reply) == Ok::<(), SyncErrorView>(()),
                Err(e) => settlement(reply) == Err::<(), SyncErrorView>(e@),
            },
    {
        match update_acknowledged(reply) {
            Ok(flag) => if flag {
                self.state.commit(write.content);
                Ok(())
            } else {
                self.state.keep(write.content.as_str());
                Err(SyncError::ProviderRejected)
            },
            Err(e) => {
                self.state.keep(write.content.as_str());
                Err(e)
            },
        }
    }
}

/// The number of requests that a plan sends.
pub open spec fn writes_sent(plan: PlanView) -> nat {
    if plan is Write {
        1
    } else {
        0
    }
}

/// A write changes the address that the loop remembers exactly where the
/// provider confirms it: a confirmed write leaves its own address there,
/// and a refusal, an unreadable answer or no answer leave what was there.
/// The settings, the zone and the record never change.
pub proof fn lemma_only_confirmed_writes_commit(
    agent: RunningView,
    content: Seq<char>,
    reply: Reply<Ack>,
)
    ensures
        (reply matches Reply::Body(ack) && ack.success) ==> settled(agent, content, reply).last_ip
            == content,
        !(reply matches Reply::Body(ack) && ack.success) ==> settled(agent, content, reply).last_ip
            == agent.last_ip,
        settled(agent, content, reply).config == agent.config,
        settled(agent, content, reply).zone_id == agent.zone_id,
        settled(agent, content, reply).record_id == agent.record_id,
{
}

/// The remembered address is the latest confirmed write, in every state
/// that the loop can reach: where it holds before a write is settled, it
/// holds after.
pub proof fn lemma_settled_keeps_last_confirmed(
    agent: RunningView,
    content: Seq<char>,
    reply: Reply<Ack>,
)
    requires
        agent.last_ip == last_acknowledged(agent.writes),
    ensures
        settled(agent, content, reply).last_ip == last_acknowledged(
            settled(agent, content, reply).writes,
        ),
{
    let after = settled(agent, content, reply);
    assert(after.writes.drop_last() =~= agent.writes);
}

/// Two rounds in a row that find the same address send one write in all,
/// where that address differs from the one remembered and the write is
/// confirmed: the second round then finds the agent in sync and sends
/// nothing. Where the address is the one remembered, neither round sends
/// anything; where the first write is not confirmed, the second round
/// plans it again.
pub proof fn lemma_same_address_is_written_once(agent: RunningView, ip: Ipv4, reply: Reply<Ack>)
    ensures
        ({
            let report = IpReport::Address(ip);
            let first = planned(agent, report);
            let between = if first is Write {
                settled(agent, dotted(ip), reply)
            } else {
                agent
            };
            let second = planned(between, report);
            let due = dotted(ip) != agent.last_ip && record_update(
                agent.config.token,
                agent.zone_id,
                agent.record_id,
                agent.config.dns_name,
                dotted(ip),
            ) is Some;
            &&& first is Write <==> due
            &&& confirms(reply) ==> writes_sent(second) == 0
            &&& confirms(reply) && due ==> second == PlanView::InSync
            &&& confirms(reply) ==> writes_sent(first) + writes_sent(second) == if due {
                1nat
            } else {
                0nat
            }
            &&& !confirms(reply) ==> second == first
        }),
{
}

/// A write that was not confirmed is planned again: the next round that
/// finds the same address plans the very same write.
pub proof fn lemma_failed_write_is_retried(agent: RunningView, ip: Ipv4, reply: Reply<Ack>)
    requires
        !confirms(reply),
    ensures
        planned(settled(agent, dotted(ip), reply), IpReport::Address(ip)) == planned(
            agent,
            IpReport::Address(ip),
        ),
{
}

} // verus!
