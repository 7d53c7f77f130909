//! Whole runs of the start-up machine: what a sequence of events leads to,
//! and what holds of the runs that matter.

use vstd::prelude::*;
use crate::emit::StateSignal;
use crate::embedded_runner::{
    initial,
    runtime_settings,
    stay,
    transition,
    ActionView,
    Bootstrap,
    Event,
    HcConfig,
    Phase,
};
use crate::install_enable::{
    decoded_proof,
    install_is_all_or_nothing,
    install_outcome,
    text_of,
    Registration,
};

verus! {

/// What a run has come to: the machine, the signals that were due so far and
/// the work the host was asked to do, both in order.
pub ghost struct Trace {
    pub state: Bootstrap,
    pub signals: Seq<StateSignal>,
    pub actions: Seq<ActionView>,
}

/// The signals so far, with one more if one is due.
pub open spec fn observed(signals: Seq<StateSignal>, signal: Option<StateSignal>) -> Seq<
    StateSignal,
> {
    match signal {
        Some(s) => signals.push(s),
        None => signals,
    }
}

/// A run, one event further.
pub open spec fn extend(t: Trace, e: Event) -> Trace {
    let tr = transition(t.state, e);
    Trace {
        state: tr.next,
        signals: observed(t.signals, tr.signal),
        actions: t.actions.push(tr.action),
    }
}

/// The run of `events`, in order, from the machine `start`.
pub open spec fn run(start: Bootstrap, events: Seq<Event>) -> Trace
    decreases events.len(),
{
    if events.len() == 0 {
        Trace { state: start, signals: Seq::empty(), actions: Seq::empty() }
    } else {
        extend(run(start, events.drop_last()), events.last())
    }
}

/// A run of one event more is the run so far, extended by that event.
pub proof fn run_push(start: Bootstrap, events: Seq<Event>, e: Event)
    ensures
        run(start, events.push(e)) == extend(run(start, events), e),
{
    assert(events.push(e).drop_last() =~= events);
}

/// A run of two parts is the run of the second part from where the first
/// part ends, with the signals and the work of the first part in front.
pub proof fn run_concat(start: Bootstrap, first: Seq<Event>, second: Seq<Event>)
    ensures
        ({
            let t = run(start, first + second);
            let before = run(start, first);
            let after = run(before.state, second);
            &&& t.state == after.state
            &&& t.signals == before.signals + after.signals
            &&& t.actions == before.actions + after.actions
        }),
    decreases second.len(),
{
    let before = run(start, first);
    if second.len() == 0 {
        assert(first + second =~= first);
        assert(before.signals + Seq::<StateSignal>::empty() =~= before.signals);
        assert(before.actions + Seq::<ActionView>::empty() =~= before.actions);
    } else {
        let shorter = second.drop_last();
        run_concat(start, first, shorter);
        assert(first + second =~= (first + shorter).push(second.last()));
        run_push(start, first + shorter, second.last());
        assert(second =~= shorter.push(second.last()));
        run_push(before.state, shorter, second.last());
        let t = run(start, first + second);
        let after = run(before.state, second);
        assert(t.signals =~= before.signals + after.signals);
        assert(t.actions =~= before.actions + after.actions);
    }
}

/// What the host reports, in order, from the list of running applications
/// on, when none runs and all work succeeds.
pub open spec fn installation_events(
    app_ids: Vec<String>,
    agent_key: Vec<u8>,
    dnas: Vec<(Registration, String)>,
    cell_errors: Vec<String>,
) -> Seq<Event> {
    seq![
        Event::RunningApps { app_ids },
        Event::KeyGenerated { agent_key },
        Event::BundlesRegistered { dnas },
        Event::AppInstalled,
        Event::AppEnabled { app_known: true, cell_errors },
        Event::InterfaceAttached,
    ]
}

/// What the host reports, in order, when no storage is found and all work
/// succeeds.
pub open spec fn fresh_install_events(
    app_ids: Vec<String>,
    agent_key: Vec<u8>,
    dnas: Vec<(Registration, String)>,
    cell_errors: Vec<String>,
) -> Seq<Event> {
    seq![Event::StorageChecked { exists: false }, Event::StorageCreated, Event::RuntimeStarted]
        + installation_events(app_ids, agent_key, dnas, cell_errors)
}

/// What the host reports, in order, when storage is found but no application
/// runs, and all work succeeds.
pub open spec fn healing_events(
    app_ids: Vec<String>,
    agent_key: Vec<u8>,
    dnas: Vec<(Registration, String)>,
    cell_errors: Vec<String>,
) -> Seq<Event> {
    seq![Event::StorageChecked { exists: true }, Event::RuntimeStarted] + installation_events(
        app_ids,
        agent_key,
        dnas,
        cell_errors,
    )
}

/// The work of an installation that succeeds, from the key to the end.
pub open spec fn install_actions(config: HcConfig, agent_key: Seq<u8>, dnas: Seq<
    (Registration, String),
>) -> Seq<ActionView> {
    seq![
        ActionView::GenerateKey,
        ActionView::RegisterBundles,
        ActionView::InstallApp {
            app_id: config.app_id@,
            units: install_outcome(agent_key, dnas, text_of(config.membrane_proof))->Ok_0,
        },
        ActionView::EnableApp { app_id: config.app_id@ },
        ActionView::AddInterface { port: config.app_ws_port },
        ActionView::Finish { app_id: config.app_id@, port: config.app_ws_port },
    ]
}

/// The signals of an installation that succeeds, after the first.
pub open spec fn install_signals() -> Seq<StateSignal> {
    seq![
        StateSignal::CreatingKeys,
        StateSignal::RegisteringDna,
        StateSignal::InstallingApp,
        StateSignal::EnablingApp,
        StateSignal::AddingAppInterface,
        StateSignal::IsReady,
    ]
}

/// The machine that is ready with the application and the port of its own
/// request.
pub open spec fn ready_as_requested(config: HcConfig) -> Bootstrap {
    Bootstrap { config, phase: Phase::Ready { app_id: config.app_id, port: config.app_ws_port } }
}

/// From the list of running applications on, an installation in which
/// everything succeeds gives the six signals from keys to ready, in that
/// order, asks the host for the six pieces of work in theirs, and ends ready
/// with the application and the port of the request.
pub proof fn installation_trace(
    s: Bootstrap,
    app_ids: Vec<String>,
    agent_key: Vec<u8>,
    dnas: Vec<(Registration, String)>,
    cell_errors: Vec<String>,
)
    requires
        s.phase == Phase::ListingApps,
        app_ids@.len() == 0,
        dnas@.len() == s.config.dnas@.len(),
        install_outcome(agent_key@, dnas@, text_of(s.config.membrane_proof)) is Ok,
        cell_errors@.len() == 0,
    ensures
        ({
            let t = run(s, installation_events(app_ids, agent_key, dnas, cell_errors));
            &&& t.signals == install_signals()
            &&& t.actions == install_actions(s.config, agent_key@, dnas@)
            &&& t.state == ready_as_requested(s.config)
        }),
{
    let e0 = Seq::<Event>::empty();
    let e1 = e0.push(Event::RunningApps { app_ids });
    let e2 = e1.push(Event::KeyGenerated { agent_key });
    let e3 = e2.push(Event::BundlesRegistered { dnas });
    let e4 = e3.push(Event::AppInstalled);
    let e5 = e4.push(Event::AppEnabled { app_known: true, cell_errors });
    let e6 = e5.push(Event::InterfaceAttached);
    run_push(s, e0, Event::RunningApps { app_ids });
    assert(run(s, e1).state.phase == Phase::CreatingKeys);
    run_push(s, e1, Event::KeyGenerated { agent_key });
    assert(run(s, e2).state.phase == Phase::RegisteringBundles { agent_key });
    run_push(s, e2, Event::BundlesRegistered { dnas });
    assert(run(s, e3).state.phase == Phase::InstallingApp);
    run_push(s, e3, Event::AppInstalled);
    assert(run(s, e4).state.phase == Phase::EnablingApp);
    run_push(s, e4, Event::AppEnabled { app_known: true, cell_errors });
    assert(run(s, e5).state.phase == Phase::AddingInterface { app_id: s.config.app_id });
    run_push(s, e5, Event::InterfaceAttached);
    assert(e6 =~= installation_events(app_ids, agent_key, dnas, cell_errors));
    let t = run(s, e6);
    assert(t.signals =~= install_signals());
    assert(t.actions =~= install_actions(s.config, agent_key@, dnas@));
}

/// A first run in which everything succeeds gives exactly seven signals, in
/// the order first run, keys, registration, install, enable, interface,
/// ready. The host is asked to create the storage, start the runtime, list
/// the applications and then to install, and the run ends ready with the
/// application and the port of the request.
pub proof fn fresh_install_trace(
    config: HcConfig,
    app_ids: Vec<String>,
    agent_key: Vec<u8>,
    dnas: Vec<(Registration, String)>,
    cell_errors: Vec<String>,
)
    requires
        app_ids@.len() == 0,
        dnas@.len() == config.dnas@.len(),
        install_outcome(agent_key@, dnas@, text_of(config.membrane_proof)) is Ok,
        cell_errors@.len() == 0,
    ensures
        ({
            let t = run(
                initial(config),
                fresh_install_events(app_ids, agent_key, dnas, cell_errors),
            );
            &&& t.signals == seq![StateSignal::IsFirstRun] + install_signals()
            &&& t.actions == seq![
                ActionView::CreateStorage,
                ActionView::StartRuntime { config: runtime_settings(config) },
                ActionView::ListRunningApps,
            ] + install_actions(config, agent_key@, dnas@)
            &&& t.state == ready_as_requested(config)
        }),
{
    let start = initial(config);
    let e0 = Seq::<Event>::empty();
    let e1 = e0.push(Event::StorageChecked { exists: false });
    let e2 = e1.push(Event::StorageCreated);
    let e3 = e2.push(Event::RuntimeStarted);
    run_push(start, e0, Event::StorageChecked { exists: false });
    run_push(start, e1, Event::StorageCreated);
    run_push(start, e2, Event::RuntimeStarted);
    let before = run(start, e3);
    assert(before.signals =~= seq![StateSignal::IsFirstRun]);
    assert(before.actions =~= seq![
        ActionView::CreateStorage,
        ActionView::StartRuntime { config: runtime_settings(config) },
        ActionView::ListRunningApps,
    ]);
    assert(before.state == Bootstrap { config, phase: Phase::ListingApps });
    let later = installation_events(app_ids, agent_key, dnas, cell_errors);
    installation_trace(before.state, app_ids, agent_key, dnas, cell_errors);
    run_concat(start, e3, later);
    assert(e3 + later =~= fresh_install_events(app_ids, agent_key, dnas, cell_errors));
}

/// Storage without a running application heals itself: the run goes through
/// the whole installation, exactly as a first run does from the moment the
/// applications are listed, and the machine it ends in is the same.
pub proof fn empty_storage_installs_afresh(
    config: HcConfig,
    app_ids: Vec<String>,
    agent_key: Vec<u8>,
    dnas: Vec<(Registration, String)>,
    cell_errors: Vec<String>,
)
    requires
        app_ids@.len() == 0,
        dnas@.len() == config.dnas@.len(),
        install_outcome(agent_key@, dnas@, text_of(config.membrane_proof)) is Ok,
        cell_errors@.len() == 0,
    ensures
        ({
            let t = run(initial(config), healing_events(app_ids, agent_key, dnas, cell_errors));
            &&& t.signals == seq![StateSignal::IsNotFirstRun] + install_signals()
            &&& t.actions == seq![
                ActionView::StartRuntime { config: runtime_settings(config) },
                ActionView::ListRunningApps,
            ] + install_actions(config, agent_key@, dnas@)
            &&& t.state == run(
                initial(config),
                fresh_install_events(app_ids, agent_key, dnas, cell_errors),
            ).state
        }),
{
    fresh_install_trace(config, app_ids, agent_key, dnas, cell_errors);
    let start = initial(config);
    let e0 = Seq::<Event>::empty();
    let e1 = e0.push(Event::StorageChecked { exists: true });
    let e2 = e1.push(Event::RuntimeStarted);
    run_push(start, e0, Event::StorageChecked { exists: true });
    run_push(start, e1, Event::RuntimeStarted);
    let before = run(start, e2);
    assert(before.signals =~= seq![StateSignal::IsNotFirstRun]);
    assert(before.actions =~= seq![
        ActionView::StartRuntime { config: runtime_settings(config) },
        ActionView::ListRunningApps,
    ]);
    assert(before.state == Bootstrap { config, phase: Phase::ListingApps });
    let later = installation_events(app_ids, agent_key, dnas, cell_errors);
    installation_trace(before.state, app_ids, agent_key, dnas, cell_errors);
    run_concat(start, e2, later);
    assert(e2 + later =~= healing_events(app_ids, agent_key, dnas, cell_errors));
}

/// What the host reports, in order, when storage is found, an application
/// runs and an interface is attached.
pub open spec fn resume_events(app_ids: Vec<String>, ports: Vec<u16>) -> Seq<Event> {
    seq![
        Event::StorageChecked { exists: true },
        Event::RuntimeStarted,
        Event::RunningApps { app_ids },
        Event::Interfaces { ports },
    ]
}

/// Resuming a completed install changes nothing: the first application that
/// runs and the first port that is attached are taken over, whatever the
/// request names, and the host is asked neither to install nor to enable nor
/// to attach anything.
pub proof fn resume_adopts_what_runs(config: HcConfig, app_ids: Vec<String>, ports: Vec<u16>)
    requires
        app_ids@.len() > 0,
        ports@.len() > 0,
    ensures
        ({
            let t = run(initial(config), resume_events(app_ids, ports));
            &&& t.signals == seq![StateSignal::IsNotFirstRun, StateSignal::IsReady]
            &&& t.actions == seq![
                ActionView::StartRuntime { config: runtime_settings(config) },
                ActionView::ListRunningApps,
                ActionView::ListInterfaces,
                ActionView::Finish { app_id: app_ids@[0]@, port: ports@[0] },
            ]
            &&& t.state == Bootstrap {
                config,
                phase: Phase::Ready { app_id: app_ids@[0], port: ports@[0] },
            }
        }),
{
    let start = initial(config);
    let e0 = Seq::<Event>::empty();
    let e1 = e0.push(Event::StorageChecked { exists: true });
    let e2 = e1.push(Event::RuntimeStarted);
    let e3 = e2.push(Event::RunningApps { app_ids });
    let e4 = e3.push(Event::Interfaces { ports });
    run_push(start, e0, Event::StorageChecked { exists: true });
    run_push(start, e1, Event::RuntimeStarted);
    run_push(start, e2, Event::RunningApps { app_ids });
    run_push(start, e3, Event::Interfaces { ports });
    assert(e4 =~= resume_events(app_ids, ports));
    let t = run(start, e4);
    assert(t.signals =~= seq![StateSignal::IsNotFirstRun, StateSignal::IsReady]);
    assert(t.actions =~= seq![
        ActionView::StartRuntime { config: runtime_settings(config) },
        ActionView::ListRunningApps,
        ActionView::ListInterfaces,
        ActionView::Finish { app_id: app_ids@[0]@, port: ports@[0] },
    ]);
}

/// Start-up that was given up stays so: whatever is reported afterwards, the
/// machine does not move, no signal is due and the host is asked nothing.
pub proof fn failed_is_final(s: Bootstrap, events: Seq<Event>)
    requires
        s.phase == Phase::Failed,
    ensures
        run(s, events).state == s,
        run(s, events).signals == Seq::<StateSignal>::empty(),
        run(s, events).actions == Seq::new(events.len(), |i: int| ActionView::Wait),
    decreases events.len(),
{
    if events.len() > 0 {
        failed_is_final(s, events.drop_last());
    }
    assert(run(s, events).actions =~= Seq::new(events.len(), |i: int| ActionView::Wait));
}

/// Start-up that is complete stays so: whatever is reported afterwards, the
/// machine does not move, no signal is due and the host is asked nothing.
pub proof fn ready_is_final(s: Bootstrap, events: Seq<Event>)
    requires
        s.phase is Ready,
    ensures
        run(s, events).state == s,
        run(s, events).signals == Seq::<StateSignal>::empty(),
        run(s, events).actions == Seq::new(events.len(), |i: int| ActionView::Wait),
    decreases events.len(),
{
    if events.len() > 0 {
        ready_is_final(s, events.drop_last());
    }
    assert(run(s, events).actions =~= Seq::new(events.len(), |i: int| ActionView::Wait));
}

/// No part of an application is ever installed: if one registration task
/// failed, or the membrane proof does not decode, the host is told to abort
/// and, whatever it reports afterwards, is never asked to install, while no
/// further signal is due.
pub proof fn failed_task_aborts_install(
    s: Bootstrap,
    dnas: Vec<(Registration, String)>,
    k: int,
    rest: Seq<Event>,
)
    requires
        s.phase is RegisteringBundles,
        dnas@.len() == s.config.dnas@.len(),
        0 <= k < dnas@.len(),
        !(dnas@[k].0 is Registered) || decoded_proof(text_of(s.config.membrane_proof)) is Err,
    ensures
        ({
            let t = run(s, seq![Event::BundlesRegistered { dnas }] + rest);
            &&& t.state.phase == Phase::Failed
            &&& t.signals == Seq::<StateSignal>::empty()
            &&& t.actions.len() == 1 + rest.len()
            &&& t.actions[0] is Abort
            &&& forall|i: int| 1 <= i < t.actions.len() ==> t.actions[i] == ActionView::Wait
        }),
{
    let e = Event::BundlesRegistered { dnas };
    install_is_all_or_nothing(
        s.phase->RegisteringBundles_agent_key@,
        dnas@,
        text_of(s.config.membrane_proof),
    );
    let first = transition(s, e);
    assert(first.next.phase == Phase::Failed);
    run_push(s, Seq::empty(), e);
    assert(seq![e] =~= Seq::<Event>::empty().push(e));
    run_concat(s, seq![e], rest);
    failed_is_final(first.next, rest);
}

/// The place of a signal in the order of start-up. The two signals that
/// tell a first run from a resumed one share the first place: a run gives
/// one of them.
pub open spec fn rank(signal: StateSignal) -> int {
    match signal {
        StateSignal::IsFirstRun => 0,
        StateSignal::IsNotFirstRun => 0,
        StateSignal::CreatingKeys => 1,
        StateSignal::RegisteringDna => 2,
        StateSignal::InstallingApp => 3,
        StateSignal::EnablingApp => 4,
        StateSignal::AddingAppInterface => 5,
        StateSignal::IsReady => 6,
    }
}

/// The least rank that a signal given in or after a phase can have.
pub open spec fn due_rank(phase: Phase) -> int {
    match phase {
        Phase::Start => 0,
        Phase::CreatingStorage => 1,
        Phase::StartingRuntime => 1,
        Phase::ListingApps => 1,
        Phase::ListingInterfaces { .. } => 1,
        Phase::CreatingKeys => 2,
        Phase::RegisteringBundles { .. } => 3,
        Phase::InstallingApp => 4,
        Phase::EnablingApp => 5,
        Phase::AddingInterface { .. } => 6,
        Phase::Ready { .. } => 7,
        Phase::Failed => 7,
    }
}

/// The signals of every run come in the order of start-up, whatever the
/// host reports and in whatever order: each has a higher rank than all
/// before it. So none comes twice, and none comes after the signal that
/// start-up is ready. The request stays what it was.
pub proof fn signals_keep_their_order(config: HcConfig, events: Seq<Event>)
    ensures
        ({
            let t = run(initial(config), events);
            &&& t.state.config == config
            &&& forall|i: int, j: int|
                0 <= i < j < t.signals.len() ==> rank(#[trigger] t.signals[i]) < rank(
                    #[trigger] t.signals[j],
                )
            &&& forall|i: int|
                0 <= i < t.signals.len() ==> rank(#[trigger] t.signals[i]) < due_rank(
                    t.state.phase,
                )
        }),
    decreases events.len(),
{
    if events.len() > 0 {
        signals_keep_their_order(config, events.drop_last());
        let before = run(initial(config), events.drop_last());
        let step = transition(before.state, events.last());
        assert(due_rank(before.state.phase) <= due_rank(step.next.phase));
        assert(step.signal matches Some(s) ==> due_rank(before.state.phase) <= rank(s) && rank(s)
            < due_rank(step.next.phase));
    }
}

/// Two requests that differ at most in who observes them.
pub open spec fn same_request(a: HcConfig, b: HcConfig) -> bool {
    &&& a.app_id == b.app_id
    &&& a.dnas == b.dnas
    &&& a.admin_ws_port == b.admin_ws_port
    &&& a.app_ws_port == b.app_ws_port
    &&& a.datastore_path == b.datastore_path
    &&& a.keystore_path == b.keystore_path
    &&& a.membrane_proof == b.membrane_proof
    &&& a.proxy_url == b.proxy_url
}

/// Whether anybody observes the signals, and who, changes nothing in what is
/// decided: the same reports lead through the same phases, make the same
/// signals due and ask the host for the same work.
pub proof fn observer_has_no_part(a: HcConfig, b: HcConfig, events: Seq<Event>)
    requires
        same_request(a, b),
    ensures
        run(initial(a), events).state.phase == run(initial(b), events).state.phase,
        run(initial(a), events).signals == run(initial(b), events).signals,
        run(initial(a), events).actions == run(initial(b), events).actions,
    decreases events.len(),
{
    if events.len() > 0 {
        observer_has_no_part(a, b, events.drop_last());
        signals_keep_their_order(a, events.drop_last());
        signals_keep_their_order(b, events.drop_last());
    }
}

/// The presence of storage is taken once, and before anything else: until
/// it is reported nothing else is taken, and after that it is never taken
/// again.
pub proof fn storage_is_checked_once_and_first(s: Bootstrap, e: Event)
    ensures
        s.phase is Start && !(e is StorageChecked) ==> transition(s, e) == stay(s),
        !(s.phase is Start) && e is StorageChecked ==> transition(s, e) == stay(s),
        s.phase is Start && e is StorageChecked ==> transition(s, e).signal is Some
            && !(transition(s, e).next.phase is Start),
{
}

/// The place of a piece of work in the order of start-up; `Wait`, which is
/// no work, has none.
pub open spec fn work_rank(action: ActionView) -> int {
    match action {
        ActionView::Wait => 0,
        ActionView::CreateStorage => 1,
        ActionView::StartRuntime { .. } => 2,
        ActionView::ListRunningApps => 3,
        ActionView::GenerateKey => 4,
        ActionView::ListInterfaces => 4,
        ActionView::RegisterBundles => 5,
        ActionView::InstallApp { .. } => 6,
        ActionView::EnableApp { .. } => 7,
        ActionView::AddInterface { .. } => 8,
        ActionView::Finish { .. } => 9,
        ActionView::Abort { .. } => 9,
    }
}

/// The least rank that work asked for in or after a phase can have.
pub open spec fn due_work(phase: Phase) -> int {
    match phase {
        Phase::Start => 1,
        Phase::CreatingStorage => 2,
        Phase::StartingRuntime => 3,
        Phase::ListingApps => 4,
        Phase::CreatingKeys => 5,
        Phase::ListingInterfaces { .. } => 5,
        Phase::RegisteringBundles { .. } => 6,
        Phase::InstallingApp => 7,
        Phase::EnablingApp => 8,
        Phase::AddingInterface { .. } => 9,
        Phase::Ready { .. } => 10,
        Phase::Failed => 10,
    }
}

/// Start-up runs once and forward: whatever the host reports, and in
/// whatever order, each piece of work that it is asked for comes later in
/// the order of start-up than all that it was asked for before. So nothing
/// is asked twice or tried again, the application is installed at most once,
/// and after the end, be it ready or given up, nothing is asked at all.
pub proof fn work_is_asked_once_and_in_order(config: HcConfig, events: Seq<Event>)
    ensures
        ({
            let t = run(initial(config), events);
            &&& t.actions.len() == events.len()
            &&& forall|i: int, j: int|
                0 <= i < j < t.actions.len() && t.actions[j] != ActionView::Wait ==> work_rank(
                    #[trigger] t.actions[i],
                ) < work_rank(#[trigger] t.actions[j])
            &&& forall|i: int|
                0 <= i < t.actions.len() ==> work_rank(#[trigger] t.actions[i]) < due_work(
                    t.state.phase,
                )
        }),
    decreases events.len(),
{
    if events.len() > 0 {
        work_is_asked_once_and_in_order(config, events.drop_last());
        let before = run(initial(config), events.drop_last());
        let step = transition(before.state, events.last());
        assert(due_work(before.state.phase) <= due_work(step.next.phase));
        assert(step.action != ActionView::Wait ==> due_work(before.state.phase) <= work_rank(
            step.action,
        ) && work_rank(step.action) < due_work(step.next.phase));
    }
}

} // verus!
