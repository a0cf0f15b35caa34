//! The registration worker as a state machine: its state, what can happen to
//! it, and what it does next. The caller sleeps and sends; the machine
//! decides.

use vstd::prelude::*;

use crate::error::Error;
use crate::model::{present, Model};
use crate::mdns::RegistryView;
use crate::registration::{
    heartbeat_url, lemma_plan_order, plan_of, resource_url, RegistrationApi,
    HEARTBEAT_INTERVAL_MS, RETRY_DELAY_MS,
};
use crate::resource::{kind_rank, ResourceKind};
use crate::registry::{least, RegistryTable};

verus! {

/// What can happen to the worker.
#[derive(Debug, Clone, Copy, PartialEq, Eq, Structural)]
pub enum WorkerEvent {
    /// The time to sleep is over.
    Timer,
    /// The request was answered, with this HTTP status.
    Response(u16),
    /// The request did not complete.
    Failure,
}

/// What the worker is doing.
#[derive(Debug)]
pub enum WorkerState {
    /// Asleep, with no registry.
    Idle,
    /// Posting the resources of `plan` one by one; the answer to the request
    /// for the entry at `next` is awaited.
    Registering {
        resource_url: String,
        heartbeat_url: String,
        plan: Vec<(ResourceKind, u128)>,
        next: usize,
    },
    /// Registered. With `waiting`, the answer to a heartbeat is awaited;
    /// without, the worker sleeps until the next heartbeat.
    Heartbeating { url: String, waiting: bool },
}

/// What the caller is to do for the worker. After a `Sleep` the caller hands
/// in `Timer`; after a request, `Response` or `Failure`.
#[derive(Debug)]
pub enum WorkerAction {
    /// Sleep for so many milliseconds.
    Sleep(u64),
    /// Post the resource of this kind and identifier to `url`.
    Register { url: String, kind: ResourceKind, id: u128 },
    /// Post an empty body to `url`.
    Heartbeat { url: String },
}

/// The mathematical form of a state.
pub enum StateView {
    Idle,
    Registering {
        resource_url: Seq<char>,
        heartbeat_url: Seq<char>,
        plan: Seq<(ResourceKind, u128)>,
        next: int,
    },
    Heartbeating { url: Seq<char>, waiting: bool },
}

/// The mathematical form of an action.
pub enum ActionView {
    Sleep(u64),
    Register { url: Seq<char>, kind: ResourceKind, id: u128 },
    Heartbeat { url: Seq<char> },
}

impl View for WorkerState {
    type V = StateView;

    open spec fn view(&self) -> StateView {
        match *self {
            WorkerState::Idle => StateView::Idle,
            WorkerState::Registering { resource_url, heartbeat_url, plan, next } => {
                StateView::Registering {
                    resource_url: resource_url@,
                    heartbeat_url: heartbeat_url@,
                    plan: plan@,
                    next: next as int,
                }
            },
            WorkerState::Heartbeating { url, waiting } => StateView::Heartbeating {
                url: url@,
                waiting,
            },
        }
    }
}

impl View for WorkerAction {
    type V = ActionView;

    open spec fn view(&self) -> ActionView {
        match *self {
            WorkerAction::Sleep(millis) => ActionView::Sleep(millis),
            WorkerAction::Register { url, kind, id } => ActionView::Register { url: url@, kind, id },
            WorkerAction::Heartbeat { url } => ActionView::Heartbeat { url: url@ },
        }
    }
}

/// Whether a status stands for success: 200 to 299.
pub open spec fn is_success(status: u16) -> bool {
    200 <= status <= 299
}

/// Whether `state` is one that the machine can be in: while registering, the
/// entry awaited is one of the plan.
pub open spec fn valid(state: StateView) -> bool {
    state matches StateView::Registering { plan, next, .. } ==> 0 <= next < plan.len()
}

/// The worker gives up what it was doing and sleeps before it looks for a
/// registry again.
pub open spec fn back_to_idle() -> (StateView, ActionView) {
    (StateView::Idle, ActionView::Sleep(RETRY_DELAY_MS))
}

/// The start of an attempt to register with a registry: the request for the
/// first entry of the plan, which is the node. Where the model has no node,
/// or the URL of the registry allows no URLs for resources and heartbeats,
/// there is no attempt.
pub open spec fn attempt(registry: RegistryView, model: Model) -> (StateView, ActionView) {
    if model.nodes@.len() == 0 {
        back_to_idle()
    } else {
        match (
            resource_url(registry.url),
            heartbeat_url(registry.url, model.nodes@[0].core.id),
        ) {
            (Some(resources), Some(heartbeats)) => (
                StateView::Registering {
                    resource_url: resources,
                    heartbeat_url: heartbeats,
                    plan: plan_of(model),
                    next: 0,
                },
                ActionView::Register {
                    url: resources,
                    kind: plan_of(model)[0].0,
                    id: plan_of(model)[0].1,
                },
            ),
            _ => back_to_idle(),
        }
    }
}

/// The state after an event, what the caller is to do, and the table of
/// registries after the event.
///
/// Idle, when the timer runs out: the registry that leaves the table first is
/// taken and an attempt with it begins; with an empty table the worker sleeps
/// again. Registering, on success: the next entry of the plan is posted, or,
/// after the last, the first heartbeat. Heartbeating, on success: sleep for
/// the interval; when the timer runs out: the next heartbeat. Anything else,
/// a failure or a status that is no success above all, sends the worker back
/// to idle. The registry is not put back into the table.
pub open spec fn step_of(
    state: StateView,
    event: WorkerEvent,
    table: Seq<RegistryView>,
    model: Model,
) -> (StateView, ActionView, Seq<RegistryView>) {
    match (state, event) {
        (StateView::Idle, WorkerEvent::Timer) => {
            if table.len() == 0 {
                (back_to_idle().0, back_to_idle().1, table)
            } else {
                let begun = attempt(table[least(table)], model);
                (begun.0, begun.1, table.remove(least(table)))
            }
        },
        (
            StateView::Registering { resource_url, heartbeat_url, plan, next },
            WorkerEvent::Response(status),
        ) => {
            if !is_success(status) {
                (back_to_idle().0, back_to_idle().1, table)
            } else if next + 1 < plan.len() {
                (
                    StateView::Registering { resource_url, heartbeat_url, plan, next: next + 1 },
                    ActionView::Register {
                        url: resource_url,
                        kind: plan[next + 1].0,
                        id: plan[next + 1].1,
                    },
                    table,
                )
            } else {
                (
                    StateView::Heartbeating { url: heartbeat_url, waiting: true },
                    ActionView::Heartbeat { url: heartbeat_url },
                    table,
                )
            }
        },
        (StateView::Heartbeating { url, waiting }, WorkerEvent::Response(status)) => {
            if waiting && is_success(status) {
                (
                    StateView::Heartbeating { url, waiting: false },
                    ActionView::Sleep(HEARTBEAT_INTERVAL_MS),
                    table,
                )
            } else {
                (back_to_idle().0, back_to_idle().1, table)
            }
        },
        (StateView::Heartbeating { url, waiting }, WorkerEvent::Timer) => {
            if !waiting {
                (
                    StateView::Heartbeating { url, waiting: true },
                    ActionView::Heartbeat { url },
                    table,
                )
            } else {
                (back_to_idle().0, back_to_idle().1, table)
            }
        },
        _ => (back_to_idle().0, back_to_idle().1, table),
    }
}

/// An attempt starts with the node. While the answers are successes, the
/// entries of the plan are posted one after the other, to the URL for
/// resources: each names a resource of the model, no entry is left out, and a
/// kind never comes before a kind that precedes it in the order of
/// registration. After the last entry the first heartbeat follows.
pub proof fn lemma_posts_in_order(
    registry: RegistryView,
    model: Model,
    next: int,
    status: u16,
    table: Seq<RegistryView>,
)
    requires
        attempt(registry, model).0 is Registering,
        0 <= next < plan_of(model).len(),
        is_success(status),
    ensures
        attempt(registry, model).1 == (ActionView::Register {
            url: resource_url(registry.url)->0,
            kind: ResourceKind::Node,
            id: model.nodes@[0].core.id,
        }),
        attempt(registry, model).0 == (StateView::Registering {
            resource_url: resource_url(registry.url)->0,
            heartbeat_url: heartbeat_url(registry.url, model.nodes@[0].core.id)->0,
            plan: plan_of(model),
            next: 0,
        }),
        ({
            let state = StateView::Registering {
                resource_url: resource_url(registry.url)->0,
                heartbeat_url: heartbeat_url(registry.url, model.nodes@[0].core.id)->0,
                plan: plan_of(model),
                next,
            };
            let after = step_of(state, WorkerEvent::Response(status), table, model);
            if next + 1 < plan_of(model).len() {
                &&& after.0 == (StateView::Registering {
                    resource_url: resource_url(registry.url)->0,
                    heartbeat_url: heartbeat_url(registry.url, model.nodes@[0].core.id)->0,
                    plan: plan_of(model),
                    next: next + 1,
                })
                &&& after.1 == (ActionView::Register {
                    url: resource_url(registry.url)->0,
                    kind: plan_of(model)[next + 1].0,
                    id: plan_of(model)[next + 1].1,
                })
                &&& kind_rank(plan_of(model)[next].0) <= kind_rank(plan_of(model)[next + 1].0)
                &&& present(model, plan_of(model)[next + 1].0, plan_of(model)[next + 1].1)
            } else {
                after.1 == (ActionView::Heartbeat {
                    url: heartbeat_url(registry.url, model.nodes@[0].core.id)->0,
                })
            }
        }),
{
    lemma_plan_order(model);
    let plan = plan_of(model);
    assert(plan[0] == (ResourceKind::Node, model.nodes@[0].core.id));
    if next + 1 < plan.len() {
        assert(kind_rank(plan[next].0) <= kind_rank(plan[next + 1].0));
        assert(present(model, plan[next + 1].0, plan[next + 1].1));
    }
}

/// While heartbeats are answered with success, the worker sleeps for the
/// heartbeat interval after each answer and then posts the next heartbeat to
/// the same URL. The interval lies between 4.5 and 5.5 seconds.
pub proof fn lemma_heartbeat_interval(
    url: Seq<char>,
    status: u16,
    table: Seq<RegistryView>,
    model: Model,
)
    requires
        is_success(status),
    ensures
        step_of(
            StateView::Heartbeating { url, waiting: true },
            WorkerEvent::Response(status),
            table,
            model,
        ) == (
            StateView::Heartbeating { url, waiting: false },
            ActionView::Sleep(HEARTBEAT_INTERVAL_MS),
            table,
        ),
        step_of(StateView::Heartbeating { url, waiting: false }, WorkerEvent::Timer, table, model)
            == (StateView::Heartbeating { url, waiting: true }, ActionView::Heartbeat { url }, table),
        4500 <= HEARTBEAT_INTERVAL_MS <= 5500,
{
}

/// A request that fails, or is answered with a status that is no success,
/// ends the attempt or the heartbeats: the worker sleeps for the retry delay,
/// and the table is as it was, so the registry is not tried again. When the
/// timer then runs out, the registry that leaves the table first is taken, and
/// the attempt with it starts from the beginning of the plan.
pub proof fn lemma_retry(state: StateView, event: WorkerEvent, table: Seq<RegistryView>, model: Model)
    requires
        !(state is Idle),
        error_of(event) is Some,
    ensures
        step_of(state, event, table, model) == (
            StateView::Idle,
            ActionView::Sleep(RETRY_DELAY_MS),
            table,
        ),
        table.len() > 0 ==> step_of(StateView::Idle, WorkerEvent::Timer, table, model) == (
            attempt(table[least(table)], model).0,
            attempt(table[least(table)], model).1,
            table.remove(least(table)),
        ),
{
}

/// The error that an event stands for: a request that did not complete is a
/// `TransportError`, an answer with a status that is no success a
/// `RegistryRejection`. The worker treats both alike.
pub open spec fn error_of(event: WorkerEvent) -> Option<Error> {
    match event {
        WorkerEvent::Timer => None,
        WorkerEvent::Response(status) => if is_success(status) {
            None
        } else {
            Some(Error::RegistryRejection)
        },
        WorkerEvent::Failure => Some(Error::TransportError),
    }
}

impl WorkerEvent {
    /// The error that the event stands for, if it stands for one.
    pub fn error(&self) -> (r: Option<Error>)
        ensures
            r == error_of(*self),
    {
        match self {
            WorkerEvent::Timer => None,
            WorkerEvent::Response(status) => if WorkerState::success(*status) {
                None
            } else {
                Some(Error::RegistryRejection)
            },
            WorkerEvent::Failure => Some(Error::TransportError),
        }
    }
}

impl WorkerState {
    /// The state in which the worker starts, and what the caller is to do
    /// first: sleep, so that registries can be discovered.
    pub fn start() -> (r: (WorkerState, WorkerAction))
        ensures
            (r.0@, r.1@) == back_to_idle(),
    {
        (WorkerState::Idle, WorkerAction::Sleep(RETRY_DELAY_MS))
    }

    /// Whether a status stands for success.
    pub fn success(status: u16) -> (r: bool)
        ensures
            r == is_success(status),
    {
        200 <= status && status <= 299
    }

    /// Begins an attempt to register with a registry.
    pub fn begin(registry: &crate::mdns::NmosMdnsRegistry, model: &Model) -> (r: (
        WorkerState,
        WorkerAction,
    ))
        ensures
            (r.0@, r.1@) == attempt(registry@, *model),
            valid(r.0@),
    {
        if model.nodes.len() == 0 {
            return (WorkerState::Idle, WorkerAction::Sleep(RETRY_DELAY_MS));
        }
        let resources = RegistrationApi::resource_endpoint(registry);
        let heartbeats = RegistrationApi::heartbeat_endpoint(registry, model.nodes[0].core.id);
        match (resources, heartbeats) {
            (Some(resource_url), Some(heartbeat_url)) => {
                let plan = RegistrationApi::plan(model);
                let (kind, id) = plan[0];
                let url = resource_url.clone();
                (
                    WorkerState::Registering { resource_url, heartbeat_url, plan, next: 0 },
                    WorkerAction::Register { url, kind, id },
                )
            },
            _ => (WorkerState::Idle, WorkerAction::Sleep(RETRY_DELAY_MS)),
        }
    }

    /// Takes an event and says what the worker does next.
    pub fn step(self, event: WorkerEvent, table: &mut RegistryTable, model: &Model) -> (r: (
        WorkerState,
        WorkerAction,
    ))
        ensures
            (r.0@, r.1@, final(table)@) == step_of(self@, event, old(table)@, *model),
            valid(r.0@),
    {
        match (self, event) {
            (WorkerState::Idle, WorkerEvent::Timer) => {
                match table.pop() {
                    Some(registry) => WorkerState::begin(&registry, model),
                    None => (WorkerState::Idle, WorkerAction::Sleep(RETRY_DELAY_MS)),
                }
            },
            (
                WorkerState::Registering { resource_url, heartbeat_url, plan, next },
                WorkerEvent::Response(status),
            ) => {
                if !WorkerState::success(status) {
                    (WorkerState::Idle, WorkerAction::Sleep(RETRY_DELAY_MS))
                } else if plan.len() > 0 && next < plan.len() - 1 {
                    let (kind, id) = plan[next + 1];
                    let url = resource_url.clone();
                    (
                        WorkerState::Registering {
                            resource_url,
                            heartbeat_url,
                            plan,
                            next: next + 1,
                        },
                        WorkerAction::Register { url, kind, id },
                    )
                } else {
                    let url = heartbeat_url.clone();
                    (
                        WorkerState::Heartbeating { url: heartbeat_url, waiting: true },
                        WorkerAction::Heartbeat { url },
                    )
                }
            },
            (WorkerState::Heartbeating { url, waiting }, WorkerEvent::Response(status)) => {
                if waiting && WorkerState::success(status) {
                    (
                        WorkerState::Heartbeating { url, waiting: false },
                        WorkerAction::Sleep(HEARTBEAT_INTERVAL_MS),
                    )
                } else {
                    (WorkerState::Idle, WorkerAction::Sleep(RETRY_DELAY_MS))
                }
            },
            (WorkerState::Heartbeating { url, waiting }, WorkerEvent::Timer) => {
                if !waiting {
                    let target = url.clone();
                    (
                        WorkerState::Heartbeating { url, waiting: true },
                        WorkerAction::Heartbeat { url: target },
                    )
                } else {
                    (WorkerState::Idle, WorkerAction::Sleep(RETRY_DELAY_MS))
                }
            },
            _ => (WorkerState::Idle, WorkerAction::Sleep(RETRY_DELAY_MS)),
        }
    }
}

} // verus!
