//! What the monitor does with one observation: whether it is a transition,
//! what the cache holds afterwards, and what has to be written and sent.

use std::collections::BTreeMap;
use vstd::prelude::*;
use crate::channel::server::types::{ServerMessage, ServerStatus, FETCH_ERROR_REASON};
use crate::channel::server::utils::{
    cache_model, is_changed, is_success, reason_text, status_changed, status_stored, success_code,
    update_cache, StatusModel,
};
use crate::model::server::Server;
use crate::model::server_log::{ServerLogCreate, ServerLogCreateView};
use crate::text::{decode_lossy, utf8_lossy};

verus! {

/// The new last-seen status of a server, to be persisted.
#[derive(Debug)]
pub struct StatusUpdate {
    pub server_id: i64,
    pub reason: String,
    pub code: i64,
}

/// Everything one observation asks of the outside world.
#[derive(Debug)]
pub struct ObservationPlan {
    /// The server the observation is about.
    pub server: Server,
    /// Present exactly when the observation is a transition.
    pub status_update: Option<StatusUpdate>,
    /// The log row; one is written for every observation.
    pub log: ServerLogCreate,
    /// Whether the notifiers of the server are to be told, once the log row
    /// is written: exactly when the observation is a transition.
    pub notify: bool,
}

pub struct StatusUpdateView {
    pub server_id: i64,
    pub reason: Seq<char>,
    pub code: i64,
}

pub struct ObservationPlanView {
    pub server: Server,
    pub status_update: Option<StatusUpdateView>,
    pub log: ServerLogCreateView,
    pub notify: bool,
}

impl View for StatusUpdate {
    type V = StatusUpdateView;

    open spec fn view(&self) -> StatusUpdateView {
        StatusUpdateView { server_id: self.server_id, reason: self.reason@, code: self.code }
    }
}

impl View for ObservationPlan {
    type V = ObservationPlanView;

    open spec fn view(&self) -> ObservationPlanView {
        ObservationPlanView {
            server: self.server,
            status_update: match self.status_update {
                Some(u) => Some(u@),
                None => None,
            },
            log: self.log@,
            notify: self.notify,
        }
    }
}

/// The plan for an observation of `server` with the given code, reason and
/// body, against the cache as it stands.
pub open spec fn arm_plan(
    cache: StatusModel,
    server: Server,
    code: i64,
    reason: Option<Seq<char>>,
    body: Seq<u8>,
) -> ObservationPlanView {
    let changed = status_changed(cache, server.id, code, reason);
    ObservationPlanView {
        server,
        status_update: if changed {
            Some(
                StatusUpdateView {
                    server_id: server.id,
                    reason: match reason {
                        Some(r) => r,
                        None => Seq::empty(),
                    },
                    code,
                },
            )
        } else {
            None
        },
        log: ServerLogCreateView {
            server_id: server.id,
            failed: !success_code(code as int),
            status_code: code,
            body: Some(utf8_lossy(body)),
            reason,
        },
        notify: changed,
    }
}

/// The cache after such an observation: a transition is stored, anything
/// else leaves the cache as it was.
pub open spec fn arm_cache(
    cache: StatusModel,
    server_id: i64,
    code: i64,
    reason: Option<Seq<char>>,
) -> StatusModel {
    if status_changed(cache, server_id, code, reason) {
        status_stored(cache, server_id, code, reason)
    } else {
        cache
    }
}

/// The plan for a message.
pub open spec fn plan_for(cache: StatusModel, msg: ServerMessage) -> ObservationPlanView {
    arm_plan(cache, msg.server(), msg.code(), msg.reason(), msg.body())
}

/// The cache after a message.
pub open spec fn cache_after(cache: StatusModel, msg: ServerMessage) -> StatusModel {
    arm_cache(cache, msg.server().id, msg.code(), msg.reason())
}

/// Handles one observation: decides whether it is a transition, stores a
/// transition in the cache, and says what is to be persisted and whether the
/// notifiers are to be told.
pub fn handle_server_response(
    msg: ServerMessage,
    statuses: &mut BTreeMap<i64, (i64, String)>,
) -> (plan: ObservationPlan)
    ensures
        plan@ == plan_for(cache_model(old(statuses)@), msg),
        cache_model(final(statuses)@) == cache_after(cache_model(old(statuses)@), msg),
        vstd::utf8::valid_utf8(msg.body()) ==> plan@.log.body == Some(
            vstd::utf8::decode_utf8(msg.body()),
        ),
        msg is ChannelError ==> plan@.log.body == Some(Seq::<char>::empty()),
{
    match msg {
        ServerMessage::ServerStateChanged { status, server } => match status {
            ServerStatus::Unreachable { reason, status_code, body } => handle_arm(
                server,
                status_code as i64,
                Some(reason),
                body,
                statuses,
            ),
            ServerStatus::Online { status_code, body } => handle_arm(
                server,
                status_code as i64,
                None,
                body,
                statuses,
            ),
        },
        ServerMessage::ChannelError { server, .. } => handle_arm(
            server,
            500,
            Some(FETCH_ERROR_REASON.to_owned()),
            Vec::new(),
            statuses,
        ),
    }
}

fn copy_reason(reason: &Option<String>) -> (copy: Option<String>)
    ensures
        copy == *reason,
{
    match reason {
        Some(r) => Some(r.clone()),
        None => None,
    }
}

/// Handles an observation of `server` with the given code, reason and body:
/// one log row whatever it is, a status update and word to the notifiers
/// exactly where it is a transition, which is then stored in the cache.
pub fn handle_arm(
    server: Server,
    code: i64,
    reason: Option<String>,
    body: Vec<u8>,
    statuses: &mut BTreeMap<i64, (i64, String)>,
) -> (plan: ObservationPlan)
    ensures
        plan@ == arm_plan(cache_model(old(statuses)@), server, code, reason_text(reason), body@),
        cache_model(final(statuses)@) == arm_cache(
            cache_model(old(statuses)@),
            server.id,
            code,
            reason_text(reason),
        ),
        vstd::utf8::valid_utf8(body@) ==> plan@.log.body == Some(vstd::utf8::decode_utf8(body@)),
{
    let server_id = server.id;
    let changed = is_changed(statuses, server_id, code, reason.as_ref());
    let status_update = if changed {
        update_cache(statuses, server_id, code, copy_reason(&reason));
        let text = match &reason {
            Some(r) => r.clone(),
            None => String::new(),
        };
        Some(StatusUpdate { server_id, reason: text, code })
    } else {
        None
    };
    let log = ServerLogCreate::new(
        server_id,
        !is_success(code),
        code,
        Some(decode_lossy(&body)),
        reason,
    );
    ObservationPlan { server, status_update, log, notify: changed }
}

/// The plans for a run of observations, each against the cache as the ones
/// before it left it.
pub open spec fn plans_for_all(cache: StatusModel, msgs: Seq<ServerMessage>) -> Seq<
    ObservationPlanView,
>
    decreases msgs.len(),
{
    if msgs.len() == 0 {
        Seq::empty()
    } else {
        seq![plan_for(cache, msgs[0])] + plans_for_all(
            cache_after(cache, msgs[0]),
            msgs.drop_first(),
        )
    }
}

/// How many observations of a run are transitions by the transition rule,
/// each judged against the cache as the ones before it left it.
pub open spec fn transitions(cache: StatusModel, msgs: Seq<ServerMessage>) -> nat
    decreases msgs.len(),
{
    if msgs.len() == 0 {
        0
    } else {
        let first: nat = if status_changed(
            cache,
            msgs[0].server().id,
            msgs[0].code(),
            msgs[0].reason(),
        ) {
            1
        } else {
            0
        };
        first + transitions(cache_after(cache, msgs[0]), msgs.drop_first())
    }
}

/// How many plans ask for a status update.
pub open spec fn status_updates(plans: Seq<ObservationPlanView>) -> nat
    decreases plans.len(),
{
    if plans.len() == 0 {
        0
    } else {
        let first: nat = if plans[0].status_update is Some {
            1
        } else {
            0
        };
        first + status_updates(plans.drop_first())
    }
}

/// How many plans ask for the notifiers to be told.
pub open spec fn notifications(plans: Seq<ObservationPlanView>) -> nat
    decreases plans.len(),
{
    if plans.len() == 0 {
        0
    } else {
        let first: nat = if plans[0].notify {
            1
        } else {
            0
        };
        first + notifications(plans.drop_first())
    }
}

/// Every observation of a run gets exactly one plan, and with it exactly one
/// log row, for the server it is about.
pub proof fn lemma_one_log_per_observation(cache: StatusModel, msgs: Seq<ServerMessage>)
    ensures
        plans_for_all(cache, msgs).len() == msgs.len(),
        forall|i: int|
            0 <= i < msgs.len() ==> (#[trigger] plans_for_all(cache, msgs)[i]).log.server_id
                == msgs[i].server().id,
    decreases msgs.len(),
{
    if msgs.len() > 0 {
        let rest = msgs.drop_first();
        lemma_one_log_per_observation(cache_after(cache, msgs[0]), rest);
    }
}

/// Over any run, as many status updates are asked for as the run has
/// transitions, and the notifiers are told as often.
pub proof fn lemma_updates_match_transitions(cache: StatusModel, msgs: Seq<ServerMessage>)
    ensures
        status_updates(plans_for_all(cache, msgs)) == transitions(cache, msgs),
        notifications(plans_for_all(cache, msgs)) == transitions(cache, msgs),
    decreases msgs.len(),
{
    if msgs.len() > 0 {
        let rest = msgs.drop_first();
        let plans = plans_for_all(cache, msgs);
        lemma_updates_match_transitions(cache_after(cache, msgs[0]), rest);
        assert(plans.drop_first() =~= plans_for_all(cache_after(cache, msgs[0]), rest));
    }
}

/// A probe that failed before any answer came counts as status `500` with a
/// fixed reason and an empty body, whatever the cause.
pub proof fn lemma_channel_error_observation(msg: ServerMessage)
    requires
        msg is ChannelError,
    ensures
        msg.code() == 500,
        msg.reason() == Some(FETCH_ERROR_REASON@),
        msg.body() == Seq::<u8>::empty(),
        !success_code(msg.code() as int),
{}

/// An observation that carries a reason is a transition when the cached
/// reason is another text, even with the same code; so is any observation of
/// a server the cache does not know.
pub proof fn lemma_reason_change_is_transition(
    cache: StatusModel,
    server_id: i64,
    code: i64,
    reason: Seq<char>,
)
    requires
        cache.contains_key(server_id),
        cache[server_id].0 == code,
    ensures
        status_changed(cache, server_id, code, Some(reason)) <==> reason != cache[server_id].1,
        !status_changed(cache, server_id, code, None),
{}

} // verus!
