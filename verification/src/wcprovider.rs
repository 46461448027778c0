//! The provider dispatcher: what the runtime does when the host tells it
//! that a participant was bound or unbound, and when it asks for its health.

use vstd::prelude::*;
use vstd::string::*;
use crate::config::credentials_of;
use crate::config::declarations_of;
use crate::config::declarations_result_view;
use crate::config::role_label;
use crate::config::ActorRole;
use crate::config::BaseConfiguration;
use crate::config::BusCredentials;
use crate::config::DeclarationView;
use crate::config::InterestConstraint;
use crate::config::InterestDeclaration;
use crate::consumers::added;
use crate::consumers::command_consumer_settings;
use crate::consumers::event_consumer_settings;
use crate::consumers::has_live;
use crate::consumers::stream_of;
use crate::consumers::CommandConsumer;
use crate::consumers::ConsumerManager;
use crate::consumers::ConsumerSettings;
use crate::consumers::ConsumerSettingsView;
use crate::consumers::EventConsumer;
use crate::consumers::Handle;
use crate::consumers::StreamKind;
use crate::consumers::NOT_AN_AGGREGATE_ERROR;
use crate::json::opt_text;
use crate::link::LinkDefinition;

verus! {

/// Which of the four workers serves a declaration.
#[derive(Debug, Clone, Copy, PartialEq, Eq, Structural)]
pub enum WorkerKind {
    AggregateCommand,
    AggregateEvent,
    ProcessManager,
    GeneralEvent,
}

/// The worker that serves a declaration, by what it reads and by the role
/// of the participant. Commands go to the aggregate's command worker; events
/// go to the worker of the role; a participant of unknown role is not
/// served.
pub open spec fn worker_for(constraint: InterestConstraint, role: ActorRole) -> Option<WorkerKind> {
    match (constraint, role) {
        (InterestConstraint::Commands, _) => Some(WorkerKind::AggregateCommand),
        (InterestConstraint::Events, ActorRole::ProcessManager) => Some(WorkerKind::ProcessManager),
        (InterestConstraint::Events, ActorRole::Projector) => Some(WorkerKind::GeneralEvent),
        (InterestConstraint::Events, ActorRole::Notifier) => Some(WorkerKind::GeneralEvent),
        (InterestConstraint::Events, ActorRole::Aggregate) => Some(WorkerKind::AggregateEvent),
        (InterestConstraint::Events, ActorRole::Unknown) => None,
    }
}

/// Picks the worker that serves a declaration.
pub fn select_worker(decl: &InterestDeclaration) -> (r: Option<WorkerKind>)
    ensures
        r == worker_for(decl.interest_constraint, decl.role),
{
    match (decl.interest_constraint, decl.role) {
        (InterestConstraint::Commands, _) => Some(WorkerKind::AggregateCommand),
        (InterestConstraint::Events, ActorRole::ProcessManager) => Some(WorkerKind::ProcessManager),
        (InterestConstraint::Events, ActorRole::Projector) => Some(WorkerKind::GeneralEvent),
        (InterestConstraint::Events, ActorRole::Notifier) => Some(WorkerKind::GeneralEvent),
        (InterestConstraint::Events, ActorRole::Aggregate) => Some(WorkerKind::AggregateEvent),
        (InterestConstraint::Events, ActorRole::Unknown) => None,
    }
}

/// What is to be done for one declaration of a binding.
#[derive(Debug, Clone, PartialEq, Eq)]
pub enum ConsumerOrder {
    /// A live worker serves the declaration: nothing is to be done.
    AlreadyRunning,
    /// Create the consumer on `stream`, or bind to the one that is there
    /// under that name, and start `worker` on it.
    Create { worker: WorkerKind, stream: StreamKind, settings: ConsumerSettings },
    /// No worker serves such a declaration: the binding fails.
    Unsupported,
    /// The consumer cannot be made for this participant: the binding fails.
    Rejected(String),
}

/// A [`ConsumerOrder`], as characters.
pub enum ConsumerOrderView {
    AlreadyRunning,
    Create { worker: WorkerKind, stream: StreamKind, settings: ConsumerSettingsView },
    Unsupported,
    Rejected(Seq<char>),
}

impl View for ConsumerOrder {
    type V = ConsumerOrderView;

    open spec fn view(&self) -> ConsumerOrderView {
        match self {
            ConsumerOrder::AlreadyRunning => ConsumerOrderView::AlreadyRunning,
            ConsumerOrder::Create { worker, stream, settings } => ConsumerOrderView::Create {
                worker: *worker,
                stream: *stream,
                settings: settings@,
            },
            ConsumerOrder::Unsupported => ConsumerOrderView::Unsupported,
            ConsumerOrder::Rejected(e) => ConsumerOrderView::Rejected(e@),
        }
    }
}

/// What is to be done for `decl`, given the workers that are registered.
pub open spec fn order_for(handles: Seq<Handle>, decl: DeclarationView) -> ConsumerOrderView {
    match worker_for(decl.interest_constraint, decl.role) {
        None => ConsumerOrderView::Unsupported,
        Some(worker) => if has_live(handles, decl) {
            ConsumerOrderView::AlreadyRunning
        } else if worker == WorkerKind::AggregateCommand {
            if decl.role == ActorRole::Aggregate {
                ConsumerOrderView::Create {
                    worker,
                    stream: stream_of(decl.interest_constraint),
                    settings: command_consumer_settings(decl),
                }
            } else {
                ConsumerOrderView::Rejected(NOT_AN_AGGREGATE_ERROR@ + role_label(decl.role))
            }
        } else {
            ConsumerOrderView::Create {
                worker,
                stream: stream_of(decl.interest_constraint),
                settings: event_consumer_settings(decl),
            }
        },
    }
}

/// Whether the binding goes on after this order.
pub open spec fn order_proceeds(order: ConsumerOrderView) -> bool {
    order is AlreadyRunning || order is Create
}

/// Where the runtime stands with a binding whose declarations are served
/// one after the other.
#[derive(Debug, Clone, PartialEq, Eq)]
pub enum LinkStep {
    /// Every declaration is served: the binding is accepted.
    Accepted,
    /// A declaration cannot be served: the binding is rejected as a whole.
    Rejected,
    /// The declaration has a live worker: go on with the next.
    Reuse,
    /// Create the consumer and start the worker. Where that succeeds, go on
    /// with the next declaration; where it fails, the binding is rejected.
    Start { worker: WorkerKind, stream: StreamKind, settings: ConsumerSettings },
}

/// A [`LinkStep`], as characters.
pub enum LinkStepView {
    Accepted,
    Rejected,
    Reuse,
    Start { worker: WorkerKind, stream: StreamKind, settings: ConsumerSettingsView },
}

impl View for LinkStep {
    type V = LinkStepView;

    open spec fn view(&self) -> LinkStepView {
        match self {
            LinkStep::Accepted => LinkStepView::Accepted,
            LinkStep::Rejected => LinkStepView::Rejected,
            LinkStep::Reuse => LinkStepView::Reuse,
            LinkStep::Start { worker, stream, settings } => LinkStepView::Start {
                worker: *worker,
                stream: *stream,
                settings: settings@,
            },
        }
    }
}

/// What is to be done next for a binding of which the first `next`
/// declarations are served.
pub open spec fn link_step_of(handles: Seq<Handle>, decls: Seq<DeclarationView>, next: int) -> LinkStepView {
    if next < 0 || next >= decls.len() {
        LinkStepView::Accepted
    } else {
        match order_for(handles, decls[next]) {
            ConsumerOrderView::AlreadyRunning => LinkStepView::Reuse,
            ConsumerOrderView::Create { worker, stream, settings } => LinkStepView::Start {
                worker,
                stream,
                settings,
            },
            _ => LinkStepView::Rejected,
        }
    }
}

/// What the runtime answers when it is asked for its health.
#[derive(Debug, Clone, PartialEq, Eq)]
pub struct HealthCheckResponse {
    pub healthy: bool,
    pub message: Option<String>,
}

/// The provider: the credentials it connects with and the workers it runs.
#[derive(Debug)]
pub struct ConcordanceProvider {
    pub credentials: BusCredentials,
    /// The domain of the streams, where one is configured.
    pub js_domain: Option<String>,
    pub consumer_manager: ConsumerManager,
}

/// The outcome of setting up a provider, as characters.
pub open spec fn provider_result_view(r: Result<ConcordanceProvider, String>) -> Result<
    (crate::config::CredentialsView, Option<Seq<char>>, Seq<Handle>),
    Seq<char>,
> {
    match r {
        Ok(p) => Ok((p.credentials@, opt_text(p.js_domain), p.consumer_manager@)),
        Err(e) => Err(e@),
    }
}

impl ConcordanceProvider {
    /// Sets up a provider from what the host configured. A configuration
    /// with only one of token and seed is rejected. The provider starts
    /// without workers.
    pub fn try_new(base_config: &BaseConfiguration) -> (r: Result<ConcordanceProvider, String>)
        ensures
            provider_result_view(r) == match credentials_of(base_config@) {
                Ok(credentials) => Ok(
                    (credentials, opt_text(base_config.js_domain), Seq::<Handle>::empty()),
                ),
                Err(e) => Err(e),
            },
    {
        match base_config.credentials() {
            Ok(credentials) => Ok(
                ConcordanceProvider {
                    credentials,
                    js_domain: base_config.js_domain.clone(),
                    consumer_manager: ConsumerManager::new(),
                },
            ),
            Err(e) => Err(e),
        }
    }

    /// Decides what is to be done for one declaration of a binding.
    pub fn add_consumer(&self, decl: &InterestDeclaration) -> (r: ConsumerOrder)
        ensures
            r@ == order_for(self.consumer_manager@, decl@),
    {
        let worker = match select_worker(decl) {
            Some(worker) => worker,
            None => { return ConsumerOrder::Unsupported; },
        };
        let stream = match self.consumer_manager.plan_consumer(decl) {
            Some(stream) => stream,
            None => { return ConsumerOrder::AlreadyRunning; },
        };
        match worker {
            WorkerKind::AggregateCommand => match CommandConsumer::try_new(decl) {
                Ok(consumer) => ConsumerOrder::Create { worker, stream, settings: consumer.settings },
                Err(e) => ConsumerOrder::Rejected(e),
            },
            _ => {
                let consumer = EventConsumer::try_new(decl.clone());
                ConsumerOrder::Create { worker, stream, settings: consumer.settings }
            },
        }
    }

    /// Records that the consumer for `decl` was created and its worker
    /// started.
    pub fn consumer_started(&mut self, decl: InterestDeclaration)
        ensures
            final(self).consumer_manager@ == added(old(self).consumer_manager@, decl@),
            final(self).credentials == old(self).credentials,
            final(self).js_domain == old(self).js_domain,
    {
        self.consumer_manager.add_consumer(decl);
    }

    /// Reads the declarations of a binding that was put. Each of them is
    /// then ordered with [`ConcordanceProvider::add_consumer`], in turn; the
    /// binding is accepted where every order proceeds and succeeds. A
    /// binding that cannot be read is rejected as a whole.
    pub fn put_link(&self, ld: &LinkDefinition) -> (r: Result<Vec<InterestDeclaration>, String>)
        ensures
            declarations_result_view(r) == declarations_of(ld@),
    {
        InterestDeclaration::from_linkdefinition(ld.clone())
    }

    /// Decides what is to be done next for a binding of which the first
    /// `next` declarations are served. One declaration that cannot be served
    /// rejects the binding as a whole.
    pub fn link_step(&self, decls: &Vec<InterestDeclaration>, next: usize) -> (r: LinkStep)
        ensures
            r@ == link_step_of(
                self.consumer_manager@,
                crate::config::declaration_views(decls@),
                next as int,
            ),
    {
        if next >= decls.len() {
            return LinkStep::Accepted;
        }
        match self.add_consumer(&decls[next]) {
            ConsumerOrder::AlreadyRunning => LinkStep::Reuse,
            ConsumerOrder::Create { worker, stream, settings } => LinkStep::Start {
                worker,
                stream,
                settings,
            },
            _ => LinkStep::Rejected,
        }
    }

    /// Takes note that the binding of a participant was removed. The
    /// durable consumers of the participant are left as they are.
    pub fn delete_link(&mut self, actor_id: &str)
        ensures
            *final(self) == *old(self),
    {
    }

    /// Answers the host's question for the provider's health.
    pub fn health_request(&self) -> (r: HealthCheckResponse)
        ensures
            r.healthy,
            r.message is None,
    {
        HealthCheckResponse { healthy: true, message: None }
    }
}

impl ConsumerOrder {
    /// Whether the binding goes on after this order: it does where a worker
    /// runs already or is to be started.
    pub fn proceeds(&self) -> (r: bool)
        ensures
            r == order_proceeds(self@),
    {
        match self {
            ConsumerOrder::AlreadyRunning => true,
            ConsumerOrder::Create { .. } => true,
            _ => false,
        }
    }
}

/// A binding is accepted only when each of its declarations is served, and
/// a declaration that no worker serves rejects it.
pub proof fn binding_fails_as_a_whole(handles: Seq<Handle>, decls: Seq<DeclarationView>, next: int)
    requires
        0 <= next < decls.len(),
    ensures
        !(link_step_of(handles, decls, next) is Accepted),
        !order_proceeds(order_for(handles, decls[next])) <==> link_step_of(handles, decls, next)
            is Rejected,
        link_step_of(handles, decls, decls.len() as int) is Accepted,
{
}

/// A declaration that was just started is not started again.
pub proof fn started_consumer_is_reused(handles: Seq<Handle>, decl: DeclarationView)
    requires
        worker_for(decl.interest_constraint, decl.role) is Some,
    ensures
        order_for(added(handles, decl), decl) == ConsumerOrderView::AlreadyRunning,
{
    crate::consumers::added_is_live(handles, decl);
}

} // verus!
