//! The start-up of the embedded runtime as a machine: the host reports what
//! it found or what the runtime answered, the machine says which lifecycle
//! signal is due and what the host has to do next.

use vstd::prelude::*;
use crate::config::{conductor_config, settings_for, ConductorConfig, ConductorConfigView};
use crate::emit::{emit, Delivery, StateSignal};
use crate::error::BootstrapError;
use crate::install_enable::{
    enable_app,
    enable_outcome,
    install_app,
    install_outcome,
    text_of,
    units_view,
    InstallUnit,
    InstallUnitView,
    Registration,
};

verus! {

/// What the host asks for: an application, its bundles, and where the
/// runtime keeps its data and listens.
#[derive(Debug, Clone)]
pub struct HcConfig {
    /// Identifier under which the application is installed.
    pub app_id: String,
    /// The bundles in their order, each with its nickname.
    pub dnas: Vec<(Vec<u8>, String)>,
    /// Port of the runtime's admin interface.
    pub admin_ws_port: u16,
    /// Port asked for the application interface.
    pub app_ws_port: u16,
    /// Where the runtime stores its data; its presence tells a resumed run
    /// from a first one.
    pub datastore_path: String,
    /// Where the keystore lives.
    pub keystore_path: String,
    /// Membrane proof as base64 text, shared by all bundles.
    pub membrane_proof: Option<String>,
    /// Address of the network proxy.
    pub proxy_url: String,
    /// Where lifecycle signals go, if anybody observes them.
    pub event_channel: Option<tokio::sync::mpsc::Sender<StateSignal>>,
}

/// Where start-up stands: each phase but the first and the last two waits
/// for the answer to the work that was asked for on entering it.
#[derive(Debug, Clone, PartialEq, Eq)]
pub enum Phase {
    /// Nothing is known yet; the presence of storage is awaited.
    Start,
    /// The storage directory is being created.
    CreatingStorage,
    /// The runtime is being started.
    StartingRuntime,
    /// The running applications are being listed.
    ListingApps,
    /// The identity key pair is being generated.
    CreatingKeys,
    /// The bundles are being registered, all at once; the key is that of the
    /// identity they will be bound to.
    RegisteringBundles { agent_key: Vec<u8> },
    /// The install request is with the runtime.
    InstallingApp,
    /// The application is being enabled.
    EnablingApp,
    /// The application interface is being attached for `app_id`.
    AddingInterface { app_id: String },
    /// The attached interfaces are being listed for `app_id`, which was
    /// found running.
    ListingInterfaces { app_id: String },
    /// Start-up is complete: the application and the port that are in use.
    Ready { app_id: String, port: u16 },
    /// Start-up was given up.
    Failed,
}

/// What the host reports to the machine.
#[derive(Debug, Clone, PartialEq, Eq)]
pub enum Event {
    /// Whether the storage path exists.
    StorageChecked { exists: bool },
    /// The storage directory was created.
    StorageCreated,
    /// The runtime is up.
    RuntimeStarted,
    /// The applications that the runtime runs, in the order it lists them.
    RunningApps { app_ids: Vec<String> },
    /// The public key of the new identity.
    KeyGenerated { agent_key: Vec<u8> },
    /// All registration tasks have ended: for each bundle, in the order of
    /// the request, what its task came to and its nickname. Answers for
    /// another number of bundles than the request holds are not taken.
    BundlesRegistered { dnas: Vec<(Registration, String)> },
    /// The runtime accepted the install request.
    AppInstalled,
    /// The runtime answered the request to enable: whether it lists the
    /// application now, and the errors its components reported, in order.
    AppEnabled { app_known: bool, cell_errors: Vec<String> },
    /// The application interface was attached.
    InterfaceAttached,
    /// The ports of the attached application interfaces, in the order the
    /// runtime lists them.
    Interfaces { ports: Vec<u16> },
    /// The work that was asked for failed.
    Failed { reason: String },
}

/// What the host has to do next.
#[derive(Debug, Clone, PartialEq, Eq)]
pub enum Action {
    /// Create the storage directory.
    CreateStorage,
    /// Start the runtime with these settings.
    StartRuntime { config: ConductorConfig },
    /// Ask the runtime which applications run.
    ListRunningApps,
    /// Generate one identity key pair.
    GenerateKey,
    /// Decode and register every bundle of the request, concurrently, and
    /// report when all tasks have ended.
    RegisterBundles,
    /// Submit all units as one install request.
    InstallApp { app_id: String, units: Vec<InstallUnit> },
    /// Enable the installed application.
    EnableApp { app_id: String },
    /// Attach the application interface at `port`.
    AddInterface { port: u16 },
    /// Ask the runtime which application interfaces are attached.
    ListInterfaces,
    /// Start-up is complete, with this application on this port.
    Finish { app_id: String, port: u16 },
    /// Start-up failed for good.
    Abort { error: BootstrapError },
    /// Nothing: the event was not awaited.
    Wait,
}

/// An action as plain values.
pub ghost enum ActionView {
    CreateStorage,
    StartRuntime { config: ConductorConfigView },
    ListRunningApps,
    GenerateKey,
    RegisterBundles,
    InstallApp { app_id: Seq<char>, units: Seq<InstallUnitView> },
    EnableApp { app_id: Seq<char> },
    AddInterface { port: u16 },
    ListInterfaces,
    Finish { app_id: Seq<char>, port: u16 },
    Abort { error: BootstrapError },
    Wait,
}

impl View for Action {
    type V = ActionView;

    open spec fn view(&self) -> ActionView {
        match *self {
            Action::CreateStorage => ActionView::CreateStorage,
            Action::StartRuntime { config } => ActionView::StartRuntime { config: config@ },
            Action::ListRunningApps => ActionView::ListRunningApps,
            Action::GenerateKey => ActionView::GenerateKey,
            Action::RegisterBundles => ActionView::RegisterBundles,
            Action::InstallApp { app_id, units } => ActionView::InstallApp {
                app_id: app_id@,
                units: units_view(units@),
            },
            Action::EnableApp { app_id } => ActionView::EnableApp { app_id: app_id@ },
            Action::AddInterface { port } => ActionView::AddInterface { port },
            Action::ListInterfaces => ActionView::ListInterfaces,
            Action::Finish { app_id, port } => ActionView::Finish { app_id: app_id@, port },
            Action::Abort { error } => ActionView::Abort { error },
            Action::Wait => ActionView::Wait,
        }
    }
}

/// The machine: the request and the phase that start-up is in.
#[derive(Debug, Clone)]
pub struct Bootstrap {
    /// The request, unchanged from start to end.
    pub config: HcConfig,
    /// Where start-up stands.
    pub phase: Phase,
}

/// What one event leads to.
pub ghost struct Transition {
    /// The machine after the event.
    pub next: Bootstrap,
    /// The lifecycle signal that the event gives rise to, if any.
    pub signal: Option<StateSignal>,
    /// What the host has to do next.
    pub action: ActionView,
}

/// What `step` hands back beside the machine.
#[derive(Debug, Clone, PartialEq, Eq)]
pub struct Step {
    /// The lifecycle signal that was due, if any.
    pub signal: Option<StateSignal>,
    /// What became of that signal on its way to the observer; where none
    /// was due, nothing was handed over.
    pub delivery: Delivery,
    /// What the host has to do next.
    pub action: Action,
}

/// The settings with which the runtime of a request is started.
pub open spec fn runtime_settings(config: HcConfig) -> ConductorConfigView {
    settings_for(
        config.admin_ws_port,
        config.datastore_path@,
        config.keystore_path@,
        config.proxy_url@,
    )
}

/// The machine before anything is known.
pub open spec fn initial(config: HcConfig) -> Bootstrap {
    Bootstrap { config, phase: Phase::Start }
}

/// Entering `phase` with a signal and work for the host.
pub open spec fn advance(
    s: Bootstrap,
    phase: Phase,
    signal: Option<StateSignal>,
    action: ActionView,
) -> Transition {
    Transition { next: Bootstrap { config: s.config, phase }, signal, action }
}

/// Giving up: no signal, and the host is told why.
pub open spec fn fail(s: Bootstrap, error: BootstrapError) -> Transition {
    advance(s, Phase::Failed, None, ActionView::Abort { error })
}

/// An event that the phase does not await changes nothing.
pub open spec fn stay(s: Bootstrap) -> Transition {
    Transition { next: s, signal: None, action: ActionView::Wait }
}

/// The installation begins: with no application running, whether storage
/// was there or not.
pub open spec fn begin_install(s: Bootstrap) -> Transition {
    advance(s, Phase::CreatingKeys, Some(StateSignal::CreatingKeys), ActionView::GenerateKey)
}

/// The rules of start-up: what each event leads to in each phase.
pub open spec fn transition(s: Bootstrap, e: Event) -> Transition {
    match (s.phase, e) {
        (Phase::Start, Event::StorageChecked { exists }) => if exists {
            advance(
                s,
                Phase::StartingRuntime,
                Some(StateSignal::IsNotFirstRun),
                ActionView::StartRuntime { config: runtime_settings(s.config) },
            )
        } else {
            advance(
                s,
                Phase::CreatingStorage,
                Some(StateSignal::IsFirstRun),
                ActionView::CreateStorage,
            )
        },
        (Phase::CreatingStorage, Event::StorageCreated) => advance(
            s,
            Phase::StartingRuntime,
            None,
            ActionView::StartRuntime { config: runtime_settings(s.config) },
        ),
        (Phase::CreatingStorage, Event::Failed { reason }) => fail(
            s,
            BootstrapError::Storage(reason),
        ),
        (Phase::StartingRuntime, Event::RuntimeStarted) => advance(
            s,
            Phase::ListingApps,
            None,
            ActionView::ListRunningApps,
        ),
        (Phase::StartingRuntime, Event::Failed { reason }) => fail(
            s,
            BootstrapError::Runtime(reason),
        ),
        (Phase::ListingApps, Event::RunningApps { app_ids }) => if app_ids@.len() == 0 {
            begin_install(s)
        } else {
            advance(
                s,
                Phase::ListingInterfaces { app_id: app_ids@[0] },
                None,
                ActionView::ListInterfaces,
            )
        },
        (Phase::ListingApps, Event::Failed { reason }) => fail(s, BootstrapError::Runtime(reason)),
        (Phase::CreatingKeys, Event::KeyGenerated { agent_key }) => advance(
            s,
            Phase::RegisteringBundles { agent_key },
            Some(StateSignal::RegisteringDna),
            ActionView::RegisterBundles,
        ),
        (Phase::CreatingKeys, Event::Failed { reason }) => fail(
            s,
            BootstrapError::Identity(reason),
        ),
        (Phase::RegisteringBundles { agent_key }, Event::BundlesRegistered { dnas }) => if dnas@.len()
            != s.config.dnas@.len() {
            stay(s)
        } else {
            match install_outcome(agent_key@, dnas@, text_of(s.config.membrane_proof)) {
                Ok(units) => advance(
                    s,
                    Phase::InstallingApp,
                    Some(StateSignal::InstallingApp),
                    ActionView::InstallApp { app_id: s.config.app_id@, units },
                ),
                Err(error) => fail(s, error),
            }
        },
        (Phase::InstallingApp, Event::AppInstalled) => advance(
            s,
            Phase::EnablingApp,
            Some(StateSignal::EnablingApp),
            ActionView::EnableApp { app_id: s.config.app_id@ },
        ),
        (Phase::InstallingApp, Event::Failed { reason }) => fail(
            s,
            BootstrapError::Install(reason),
        ),
        (Phase::EnablingApp, Event::AppEnabled { app_known, cell_errors }) => match enable_outcome(
            s.config.app_id,
            app_known,
            cell_errors@,
        ) {
            Ok(_) => advance(
                s,
                Phase::AddingInterface { app_id: s.config.app_id },
                Some(StateSignal::AddingAppInterface),
                ActionView::AddInterface { port: s.config.app_ws_port },
            ),
            Err(error) => fail(s, error),
        },
        (Phase::EnablingApp, Event::Failed { reason }) => fail(s, BootstrapError::Enable(reason)),
        (Phase::ListingInterfaces { app_id }, Event::Interfaces { ports }) => if ports@.len() > 0 {
            advance(
                s,
                Phase::Ready { app_id, port: ports@[0] },
                Some(StateSignal::IsReady),
                ActionView::Finish { app_id: app_id@, port: ports@[0] },
            )
        } else {
            advance(
                s,
                Phase::AddingInterface { app_id },
                None,
                ActionView::AddInterface { port: s.config.app_ws_port },
            )
        },
        (Phase::ListingInterfaces { app_id }, Event::Failed { reason }) => fail(
            s,
            BootstrapError::Runtime(reason),
        ),
        (Phase::AddingInterface { app_id }, Event::InterfaceAttached) => advance(
            s,
            Phase::Ready { app_id, port: s.config.app_ws_port },
            Some(StateSignal::IsReady),
            ActionView::Finish { app_id: app_id@, port: s.config.app_ws_port },
        ),
        (Phase::AddingInterface { app_id }, Event::Failed { reason }) => fail(
            s,
            BootstrapError::Interface(reason),
        ),
        _ => stay(s),
    }
}

impl Bootstrap {
    /// The machine for a request, before anything is known.
    pub fn new(config: HcConfig) -> (machine: Bootstrap)
        ensures
            machine == initial(config),
    {
        Bootstrap { config, phase: Phase::Start }
    }

    /// Takes one event: moves to the next phase, hands the signal that is
    /// due to the observer, if there is one, without waiting, and says what
    /// the host has to do next. Neither the observer nor what became of the
    /// signal has any part in that.
    pub fn step(self, event: Event) -> (out: (Bootstrap, Step))
        ensures
            out.0 == transition(self, event).next,
            out.1.signal == transition(self, event).signal,
            out.1.action@ == transition(self, event).action,
            out.1.delivery == Delivery::Unobserved <==> (out.1.signal is None
                || self.config.event_channel is None),
    {
        let Bootstrap { config, phase } = self;
        let (phase, signal, action) = decide(&config, phase, event);
        let delivery = match signal {
            Some(s) => emit(&config.event_channel, s),
            None => Delivery::Unobserved,
        };
        (Bootstrap { config, phase }, Step { signal, delivery, action })
    }
}

/// The settings with which the runtime of a request is started.
fn settings(config: &HcConfig) -> (built: ConductorConfig)
    ensures
        built@ == runtime_settings(*config),
{
    conductor_config(
        config.admin_ws_port,
        config.datastore_path.as_str(),
        config.keystore_path.as_str(),
        config.proxy_url.as_str(),
    )
}

/// The decision of one step: the next phase, the signal and the action.
fn decide(config: &HcConfig, phase: Phase, event: Event) -> (out: (
    Phase,
    Option<StateSignal>,
    Action,
))
    ensures
        out.0 == transition(Bootstrap { config: *config, phase }, event).next.phase,
        out.1 == transition(Bootstrap { config: *config, phase }, event).signal,
        out.2@ == transition(Bootstrap { config: *config, phase }, event).action,
{
    match (phase, event) {
        (Phase::Start, Event::StorageChecked { exists }) => {
            if exists {
                (
                    Phase::StartingRuntime,
                    Some(StateSignal::IsNotFirstRun),
                    Action::StartRuntime { config: settings(config) },
                )
            } else {
                (Phase::CreatingStorage, Some(StateSignal::IsFirstRun), Action::CreateStorage)
            }
        },
        (Phase::CreatingStorage, Event::StorageCreated) => (
            Phase::StartingRuntime,
            None,
            Action::StartRuntime { config: settings(config) },
        ),
        (Phase::CreatingStorage, Event::Failed { reason }) => (
            Phase::Failed,
            None,
            Action::Abort { error: BootstrapError::Storage(reason) },
        ),
        (Phase::StartingRuntime, Event::RuntimeStarted) => (
            Phase::ListingApps,
            None,
            Action::ListRunningApps,
        ),
        (Phase::StartingRuntime, Event::Failed { reason }) => (
            Phase::Failed,
            None,
            Action::Abort { error: BootstrapError::Runtime(reason) },
        ),
        (Phase::ListingApps, Event::RunningApps { app_ids }) => {
            if app_ids.len() == 0 {
                (Phase::CreatingKeys, Some(StateSignal::CreatingKeys), Action::GenerateKey)
            } else {
                (
                    Phase::ListingInterfaces { app_id: app_ids[0].clone() },
                    None,
                    Action::ListInterfaces,
                )
            }
        },
        (Phase::ListingApps, Event::Failed { reason }) => (
            Phase::Failed,
            None,
            Action::Abort { error: BootstrapError::Runtime(reason) },
        ),
        (Phase::CreatingKeys, Event::KeyGenerated { agent_key }) => (
            Phase::RegisteringBundles { agent_key },
            Some(StateSignal::RegisteringDna),
            Action::RegisterBundles,
        ),
        (Phase::CreatingKeys, Event::Failed { reason }) => (
            Phase::Failed,
            None,
            Action::Abort { error: BootstrapError::Identity(reason) },
        ),
        (Phase::RegisteringBundles { agent_key }, Event::BundlesRegistered { dnas }) => {
            if dnas.len() != config.dnas.len() {
                (Phase::RegisteringBundles { agent_key }, None, Action::Wait)
            } else {
                match install_app(&agent_key, &dnas, &config.membrane_proof) {
                    Ok(units) => (
                        Phase::InstallingApp,
                        Some(StateSignal::InstallingApp),
                        Action::InstallApp { app_id: config.app_id.clone(), units },
                    ),
                    Err(error) => (Phase::Failed, None, Action::Abort { error }),
                }
            }
        },
        (Phase::InstallingApp, Event::AppInstalled) => (
            Phase::EnablingApp,
            Some(StateSignal::EnablingApp),
            Action::EnableApp { app_id: config.app_id.clone() },
        ),
        (Phase::InstallingApp, Event::Failed { reason }) => (
            Phase::Failed,
            None,
            Action::Abort { error: BootstrapError::Install(reason) },
        ),
        (Phase::EnablingApp, Event::AppEnabled { app_known, cell_errors }) => {
            match enable_app(config.app_id.clone(), app_known, &cell_errors) {
                Ok(_) => (
                    Phase::AddingInterface { app_id: config.app_id.clone() },
                    Some(StateSignal::AddingAppInterface),
                    Action::AddInterface { port: config.app_ws_port },
                ),
                Err(error) => (Phase::Failed, None, Action::Abort { error }),
            }
        },
        (Phase::EnablingApp, Event::Failed { reason }) => (
            Phase::Failed,
            None,
            Action::Abort { error: BootstrapError::Enable(reason) },
        ),
        (Phase::ListingInterfaces { app_id }, Event::Interfaces { ports }) => {
            if ports.len() > 0 {
                let port = ports[0];
                let resolved = app_id.clone();
                (
                    Phase::Ready { app_id, port },
                    Some(StateSignal::IsReady),
                    Action::Finish { app_id: resolved, port },
                )
            } else {
                (
                    Phase::AddingInterface { app_id },
                    None,
                    Action::AddInterface { port: config.app_ws_port },
                )
            }
        },
        (Phase::ListingInterfaces { app_id }, Event::Failed { reason }) => (
            Phase::Failed,
            None,
            Action::Abort { error: BootstrapError::Runtime(reason) },
        ),
        (Phase::AddingInterface { app_id }, Event::InterfaceAttached) => {
            let resolved = app_id.clone();
            (
                Phase::Ready { app_id, port: config.app_ws_port },
                Some(StateSignal::IsReady),
                Action::Finish { app_id: resolved, port: config.app_ws_port },
            )
        },
        (Phase::AddingInterface { app_id }, Event::Failed { reason }) => (
            Phase::Failed,
            None,
            Action::Abort { error: BootstrapError::Interface(reason) },
        ),
        (phase, _) => (phase, None, Action::Wait),
    }
}

} // verus!
