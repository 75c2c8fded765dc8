//! The prober's edge rule and the monitor's bookkeeping: which servers have a
//! prober, what the status cache holds, and which probers a control message
//! starts or stops.

use std::collections::{BTreeMap, BTreeSet};
use vstd::prelude::*;
use vstd::string::StringExecFns;
use vstd::string::StringSliceAdditionalSpecFns;
use crate::channel::error::Error;
use crate::channel::server::handler::{
    cache_after, handle_server_response, plan_for, ObservationPlan,
};
use crate::channel::server::types::{
    ControlMessage, ServerMessage, ServerMessageView, ServerStatus,
};
use crate::channel::server::utils::{cache_model, is_success, success_code, StatusModel};
use crate::model::server::Server;
use crate::text::{decimal, push_unsigned};

verus! {

/// The body recorded where an answer came but its body could not be read.
pub const UNREADABLE_BODY: &'static str = "Unable to read body";

/// How one probe ended.
#[derive(Debug)]
pub enum ProbeOutcome {
    /// No answer: the request failed or timed out.
    Failed { error: Error },
    /// An answer came; `body` is `None` where reading it failed.
    Answered { status_code: u16, body: Option<Vec<u8>> },
}

impl ProbeOutcome {
    /// A probe succeeded when an answer came with a status in `[200, 300)`.
    pub open spec fn succeeded(&self) -> bool {
        match self {
            ProbeOutcome::Failed { .. } => false,
            ProbeOutcome::Answered { status_code, .. } => success_code(*status_code as int),
        }
    }

    /// The observation a probe of `server` amounts to. A body that could not
    /// be read is replaced by a fixed text; an answer outside `[200, 300)`
    /// has the reason `HTTP` followed by its code.
    pub open spec fn observation(&self, server: Server) -> ServerMessageView {
        match self {
            ProbeOutcome::Failed { error } => ServerMessageView::ChannelError {
                error: *error,
                server,
            },
            ProbeOutcome::Answered { status_code, body } => {
                let bytes = match body {
                    Some(b) => b@,
                    None => UNREADABLE_BODY.spec_bytes(),
                };
                if success_code(*status_code as int) {
                    ServerMessageView::Online { status_code: *status_code, body: bytes, server }
                } else {
                    ServerMessageView::Unreachable {
                        reason: http_reason(*status_code),
                        status_code: *status_code,
                        body: bytes,
                        server,
                    }
                }
            },
        }
    }
}

/// The reason given for an answer that is no success: `HTTP`, a space and
/// the status code in decimal.
pub open spec fn http_reason(status_code: u16) -> Seq<char> {
    "HTTP "@ + decimal(status_code as int)
}

/// One step of a prober. `local_status` is what the prober last reported
/// (success or failure); the result is the new local status and, only where
/// the probe's outcome differs from it, the observation to send.
pub fn probe_step(server: &Server, local_status: bool, outcome: ProbeOutcome) -> (step: (
    bool,
    Option<ServerMessage>,
))
    ensures
        step.0 == outcome.succeeded(),
        step.1 is Some <==> local_status != outcome.succeeded(),
        step.1 matches Some(msg) ==> msg@ == outcome.observation(*server),
{
    match outcome {
        ProbeOutcome::Failed { error } => {
            if local_status {
                (false, Some(ServerMessage::error(error, server.clone())))
            } else {
                (false, None)
            }
        },
        ProbeOutcome::Answered { status_code, body } => {
            let success = is_success(status_code as i64);
            if success == local_status {
                return (success, None);
            }
            let bytes = match body {
                Some(b) => b,
                None => vstd::slice::slice_to_vec(UNREADABLE_BODY.as_bytes()),
            };
            let status = if success {
                ServerStatus::Online { status_code, body: bytes }
            } else {
                let mut reason = String::new();
                reason.append("HTTP ");
                push_unsigned(&mut reason, status_code as u64);
                ServerStatus::Unreachable { reason, body: bytes, status_code }
            };
            (success, Some(ServerMessage::ServerStateChanged { status, server: server.clone() }))
        },
    }
}

/// What the task runner is asked to do with a prober.
#[derive(Debug)]
pub enum ProberCommand {
    /// Cancel the prober of this server and wait for it to end.
    Cancel { server_id: i64 },
    /// Cancel every prober and wait for each to end.
    CancelAll,
    /// Start a prober for this server, seeded with the given local status.
    Spawn { server: Server, last_seen_success: bool },
}

impl ProberCommand {
    /// Whether the command starts a prober for the server.
    pub open spec fn spawns(self, server_id: i64) -> bool {
        self matches ProberCommand::Spawn { server, .. } && server.id == server_id
    }

    /// Whether the command touches the prober of the server.
    pub open spec fn concerns(self, server_id: i64) -> bool {
        match self {
            ProberCommand::Cancel { server_id: id } => id == server_id,
            ProberCommand::CancelAll => true,
            ProberCommand::Spawn { server, .. } => server.id == server_id,
        }
    }
}

/// How many probers the commands start for the server.
pub open spec fn spawn_count(commands: Seq<ProberCommand>, server_id: i64) -> nat
    decreases commands.len(),
{
    if commands.len() == 0 {
        0
    } else {
        let last: nat = if commands.last().spawns(server_id) {
            1
        } else {
            0
        };
        spawn_count(commands.drop_last(), server_id) + last
    }
}

/// What one control message leads to.
#[derive(Debug)]
pub struct ControlStep {
    /// What the task runner has to do, in this order.
    pub commands: Vec<ProberCommand>,
    /// Whether the control loop ends after this message.
    pub shutdown: bool,
    /// A removal or change found no cache entry for the server.
    pub missing_status: bool,
    /// A removal or change found no prober for the server.
    pub missing_handle: bool,
}

/// The monitor's bookkeeping: the status cache and the set of servers that
/// have a prober.
pub struct Monitor {
    statuses: BTreeMap<i64, (i64, String)>,
    handles: BTreeSet<i64>,
}

/// The monitor's state as mathematics.
pub struct MonitorModel {
    pub statuses: StatusModel,
    pub probers: Set<i64>,
}

impl MonitorModel {
    /// Every server with a prober has an entry in the status cache.
    pub open spec fn wf(self) -> bool {
        forall|id: i64| self.probers.contains(id) ==> self.statuses.contains_key(id)
    }

    /// The state after a server was added, or changed: its cache entry is
    /// seeded from the persisted status, and it has a prober.
    pub open spec fn with_server(self, server: Server) -> MonitorModel {
        MonitorModel {
            statuses: self.statuses.insert(server.id, (server.seed_code(), server.seed_reason())),
            probers: self.probers.insert(server.id),
        }
    }

    /// What starting a prober for `server` asks of the task runner: the old
    /// prober of that server, if any, is cancelled first.
    pub open spec fn start_commands(self, server: Server, last_seen_success: bool) -> Seq<
        ProberCommand,
    > {
        let spawn = ProberCommand::Spawn { server, last_seen_success };
        if self.probers.contains(server.id) {
            seq![ProberCommand::Cancel { server_id: server.id }, spawn]
        } else {
            seq![spawn]
        }
    }

    /// The state after a control message.
    pub open spec fn after_control(self, msg: ControlMessage) -> MonitorModel {
        match msg {
            ControlMessage::AddServer(server) => self.with_server(server),
            ControlMessage::ModifyServer(server) => self.with_server(server),
            ControlMessage::RemoveServer(id) => MonitorModel {
                statuses: self.statuses.remove(id),
                probers: self.probers.remove(id),
            },
            ControlMessage::Shutdown => MonitorModel {
                statuses: self.statuses,
                probers: Set::empty(),
            },
        }
    }

    /// What a control message asks of the task runner.
    pub open spec fn control_commands(self, msg: ControlMessage) -> Seq<ProberCommand> {
        match msg {
            ControlMessage::AddServer(server) => self.start_commands(server, true),
            ControlMessage::ModifyServer(server) => self.start_commands(server, true),
            ControlMessage::RemoveServer(id) => if self.probers.contains(id) {
                seq![ProberCommand::Cancel { server_id: id }]
            } else {
                Seq::empty()
            },
            ControlMessage::Shutdown => seq![ProberCommand::CancelAll],
        }
    }

    /// The state after startup with the given servers, taken in order.
    pub open spec fn started(servers: Seq<Server>) -> MonitorModel
        decreases servers.len(),
    {
        if servers.len() == 0 {
            MonitorModel { statuses: Map::empty(), probers: Set::empty() }
        } else {
            Self::started(servers.drop_last()).with_server(servers.last())
        }
    }

    /// What startup asks of the task runner: one prober per server, seeded
    /// with success where the persisted status is a success or absent.
    pub open spec fn startup_commands(servers: Seq<Server>) -> Seq<ProberCommand>
        decreases servers.len(),
    {
        if servers.len() == 0 {
            Seq::empty()
        } else {
            Self::startup_commands(servers.drop_last()) + Self::started(
                servers.drop_last(),
            ).start_commands(servers.last(), seed_success(servers.last()))
        }
    }
}

/// The local status a prober starts from at startup: success where the
/// persisted status code is in `[200, 300)`, or where none was ever seen.
pub open spec fn seed_success(server: Server) -> bool {
    match server.last_seen_status_code {
        Some(code) => success_code(code as int),
        None => true,
    }
}

/// Startup leaves every server that has a prober with a cache entry.
pub proof fn lemma_started_wf(servers: Seq<Server>)
    ensures
        MonitorModel::started(servers).wf(),
    decreases servers.len(),
{
    if servers.len() > 0 {
        lemma_started_wf(servers.drop_last());
    }
}

/// Control messages and observations keep the rule that every server with a
/// prober has a cache entry.
pub proof fn lemma_steps_keep_wf(state: MonitorModel, control: ControlMessage, msg: ServerMessage)
    requires
        state.wf(),
    ensures
        state.after_control(control).wf(),
        (MonitorModel { statuses: cache_after(state.statuses, msg), probers: state.probers }).wf(),
{}

/// Changing a server twice in a row starts exactly two probers for it, the
/// first of which is cancelled before the second starts; no command touches
/// another server, and the cache entries and probers of all other servers
/// stay as they were.
pub proof fn lemma_modify_twice(state: MonitorModel, server: Server)
    requires
        state.wf(),
    ensures
        ({
            let change = ControlMessage::ModifyServer(server);
            let first = state.control_commands(change);
            let between = state.after_control(change);
            let second = between.control_commands(change);
            let after = between.after_control(change);
            &&& spawn_count(first + second, server.id) == 2
            &&& second == seq![
                ProberCommand::Cancel { server_id: server.id },
                ProberCommand::Spawn { server, last_seen_success: true },
            ]
            &&& forall|i: int|
                0 <= i < (first + second).len() ==> (#[trigger] (first + second)[i])
                    != ProberCommand::CancelAll && (first + second)[i].concerns(server.id)
            &&& forall|other: i64|
                other != server.id ==> {
                    &&& spawn_count(first + second, other) == 0
                    &&& after.probers.contains(other) == state.probers.contains(other)
                    &&& after.statuses.contains_key(other) == state.statuses.contains_key(other)
                    &&& after.statuses.contains_key(other) ==> after.statuses[other]
                        == state.statuses[other]
                }
            &&& after.probers.contains(server.id)
            &&& after.wf()
        }),
{
    let change = ControlMessage::ModifyServer(server);
    let all = state.control_commands(change) + state.after_control(change).control_commands(
        change,
    );
    assert forall|id: i64| #[trigger] spawn_count(all, id) == (if id == server.id {
        2nat
    } else {
        0nat
    }) by {
        reveal_with_fuel(spawn_count, 5);
    }
}

impl View for Monitor {
    type V = MonitorModel;

    closed spec fn view(&self) -> MonitorModel {
        MonitorModel { statuses: cache_model(self.statuses@), probers: self.handles@ }
    }
}

impl Monitor {
    /// A monitor without servers.
    pub fn new() -> (monitor: Self)
        ensures
            monitor@ == (MonitorModel { statuses: Map::empty(), probers: Set::empty() }),
            monitor@.wf(),
    {
        let monitor = Monitor { statuses: BTreeMap::new(), handles: BTreeSet::new() };
        assert(cache_model(monitor.statuses@) =~= Map::empty());
        monitor
    }

    /// Registers `server`: seeds its cache entry and asks for a prober,
    /// after the cancellation of the one it had.
    fn start(&mut self, server: Server, last_seen_success: bool, commands: &mut Vec<ProberCommand>)
        requires
            old(self)@.wf(),
        ensures
            final(self)@ == old(self)@.with_server(server),
            final(self)@.wf(),
            final(commands)@ == old(commands)@ + old(self)@.start_commands(
                server,
                last_seen_success,
            ),
    {
        broadcast use vstd::laws_cmp::group_laws_cmp;

        let server_id = server.id;
        let code = match server.last_seen_status_code {
            Some(code) => code,
            None => 0,
        };
        let reason = match &server.last_seen_reason {
            Some(r) => r.clone(),
            None => String::new(),
        };
        self.statuses.insert(server_id, (code, reason));
        let fresh = self.handles.insert(server_id);
        if !fresh {
            commands.push(ProberCommand::Cancel { server_id });
        }
        commands.push(ProberCommand::Spawn { server, last_seen_success });
        assert(self@.statuses =~= old(self)@.with_server(server).statuses);
    }

    /// Startup: seeds the cache from every server and asks for one prober
    /// each.
    pub fn setup(servers: &Vec<Server>) -> (started: (Monitor, Vec<ProberCommand>))
        ensures
            started.0@ == MonitorModel::started(servers@),
            started.0@.wf(),
            started.1@ == MonitorModel::startup_commands(servers@),
    {
        let mut monitor = Monitor::new();
        let mut commands: Vec<ProberCommand> = Vec::new();
        let mut i: usize = 0;
        while i < servers.len()
            invariant
                i <= servers.len(),
                monitor@ == MonitorModel::started(servers@.take(i as int)),
                monitor@.wf(),
                commands@ == MonitorModel::startup_commands(servers@.take(i as int)),
            decreases servers.len() - i,
        {
            let server = servers[i].clone();
            let last_seen_success = match server.last_seen_status_code {
                Some(code) => is_success(code),
                None => true,
            };
            proof {
                let next = servers@.take(i + 1);
                assert(next.drop_last() =~= servers@.take(i as int));
            }
            monitor.start(server, last_seen_success, &mut commands);
            i = i + 1;
        }
        assert(servers@.take(i as int) =~= servers@);
        (monitor, commands)
    }

    /// Handles one control message.
    pub fn control(&mut self, msg: ControlMessage) -> (step: ControlStep)
        requires
            old(self)@.wf(),
        ensures
            final(self)@ == old(self)@.after_control(msg),
            final(self)@.wf(),
            step.commands@ == old(self)@.control_commands(msg),
            step.shutdown == (msg is Shutdown),
            step.missing_status == match msg {
                ControlMessage::RemoveServer(id) => !old(self)@.statuses.contains_key(id),
                ControlMessage::ModifyServer(server) => !old(self)@.statuses.contains_key(
                    server.id,
                ),
                _ => false,
            },
            step.missing_handle == match msg {
                ControlMessage::RemoveServer(id) => !old(self)@.probers.contains(id),
                ControlMessage::ModifyServer(server) => !old(self)@.probers.contains(server.id),
                _ => false,
            },
    {
        broadcast use vstd::laws_cmp::group_laws_cmp;

        let mut commands: Vec<ProberCommand> = Vec::new();
        match msg {
            ControlMessage::AddServer(server) => {
                self.start(server, true, &mut commands);
                ControlStep {
                    commands,
                    shutdown: false,
                    missing_status: false,
                    missing_handle: false,
                }
            },
            ControlMessage::RemoveServer(server_id) => {
                let had_status = self.statuses.remove(&server_id).is_some();
                let had_handle = self.handles.remove(&server_id);
                if had_handle {
                    commands.push(ProberCommand::Cancel { server_id });
                }
                assert(self@.statuses =~= old(self)@.statuses.remove(server_id));
                ControlStep {
                    commands,
                    shutdown: false,
                    missing_status: !had_status,
                    missing_handle: !had_handle,
                }
            },
            ControlMessage::ModifyServer(server) => {
                let had_status = self.statuses.contains_key(&server.id);
                let had_handle = self.handles.contains(&server.id);
                self.start(server, true, &mut commands);
                ControlStep {
                    commands,
                    shutdown: false,
                    missing_status: !had_status,
                    missing_handle: !had_handle,
                }
            },
            ControlMessage::Shutdown => {
                self.handles.clear();
                commands.push(ProberCommand::CancelAll);
                ControlStep {
                    commands,
                    shutdown: true,
                    missing_status: false,
                    missing_handle: false,
                }
            },
        }
    }

    /// Handles one observation against the monitor's cache.
    pub fn observe(&mut self, msg: ServerMessage) -> (plan: ObservationPlan)
        requires
            old(self)@.wf(),
        ensures
            plan@ == plan_for(old(self)@.statuses, msg),
            final(self)@.statuses == cache_after(old(self)@.statuses, msg),
            final(self)@.probers == old(self)@.probers,
            final(self)@.wf(),
    {
        let plan = handle_server_response(msg, &mut self.statuses);
        assert forall|id: i64| self@.probers.contains(id) implies self@.statuses.contains_key(
            id,
        ) by {
            assert(old(self)@.probers.contains(id));
        }
        plan
    }

    /// Whether a prober is registered for the server.
    pub fn has_prober(&self, server_id: i64) -> (present: bool)
        ensures
            present == self@.probers.contains(server_id),
    {
        broadcast use vstd::laws_cmp::group_laws_cmp;

        self.handles.contains(&server_id)
    }

    /// How many probers are registered.
    pub fn prober_count(&self) -> (count: usize)
        ensures
            count == self@.probers.len(),
    {
        self.handles.len()
    }

    /// The cached status of a server: its last code and reason.
    pub fn cached_status(&self, server_id: i64) -> (status: Option<(i64, String)>)
        ensures
            match status {
                Some(entry) => self@.statuses.contains_key(server_id) && self@.statuses[server_id]
                    == (entry.0, entry.1@),
                None => !self@.statuses.contains_key(server_id),
            },
    {
        broadcast use vstd::laws_cmp::group_laws_cmp;

        match self.statuses.get(&server_id) {
            Some(entry) => Some((entry.0, entry.1.clone())),
            None => None,
        }
    }

    /// How many servers the status cache knows.
    pub fn cached_count(&self) -> (count: usize)
        ensures
            count == self@.statuses.dom().len(),
    {
        assert(cache_model(self.statuses@).dom() =~= self.statuses@.dom());
        self.statuses.len()
    }
}

} // verus!
