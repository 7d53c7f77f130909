use embedded_holochain_runner::config::{
    conductor_config, ConductorConfig, BOOTSTRAP_SERVICE, KEYSTORE_PASSPHRASE, QUIC_BIND_ADDRESS,
};
use embedded_holochain_runner::emit::{delivery, emit, Delivery, SendFailure, StateSignal};
use embedded_holochain_runner::error::BootstrapError;
use embedded_holochain_runner::install_enable::{
    decode_membrane_proof, enable_app, install_app, install_units, InstallUnit, Registration,
};
use embedded_holochain_runner::shutdown::{
    firing, Firing, ShutdownAction, ShutdownCoordinator, ShutdownEvent, ShutdownPhase,
    ShutdownToken, Termination,
};
use tokio::sync::mpsc::channel;

fn two_registered() -> Vec<(Registration, String)> {
    vec![
        (Registration::Registered(vec![1, 2, 3]), "profiles".to_string()),
        (Registration::Registered(vec![4, 5, 6]), "projects".to_string()),
    ]
}

#[test]
fn proof_text_decodes_to_its_bytes() {
    assert_eq!(
        decode_membrane_proof(&Some("aGVsbG8gd29ybGQ=".to_string())),
        Ok(Some(b"hello world".to_vec()))
    );
    assert_eq!(decode_membrane_proof(&Some("AAEC/w==".to_string())), Ok(Some(vec![0, 1, 2, 255])));
    assert_eq!(decode_membrane_proof(&Some(String::new())), Ok(Some(vec![])));
}

#[test]
fn absent_proof_decodes_to_none() {
    assert_eq!(decode_membrane_proof(&None), Ok(None));
}

#[test]
fn malformed_proof_text_is_an_error() {
    assert_eq!(decode_membrane_proof(&Some("%%%".to_string())), Err(()));
    assert_eq!(decode_membrane_proof(&Some("a".to_string())), Err(()));
    assert_eq!(decode_membrane_proof(&Some("aGVs bG8=".to_string())), Err(()));
}

#[test]
fn install_app_builds_one_unit_per_bundle() {
    let units = install_app(&vec![9, 9], &two_registered(), &Some("AQID".to_string())).unwrap();
    assert_eq!(
        units,
        vec![
            InstallUnit {
                dna_hash: vec![1, 2, 3],
                agent_key: vec![9, 9],
                nick: "profiles".to_string(),
                membrane_proof: Some(vec![1, 2, 3]),
            },
            InstallUnit {
                dna_hash: vec![4, 5, 6],
                agent_key: vec![9, 9],
                nick: "projects".to_string(),
                membrane_proof: Some(vec![1, 2, 3]),
            },
        ]
    );
}

#[test]
fn install_app_without_proof_leaves_units_without() {
    let units = install_app(&vec![9], &two_registered(), &None).unwrap();
    assert_eq!(units.len(), 2);
    assert!(units.iter().all(|u| u.membrane_proof.is_none()));
}

#[test]
fn install_app_returns_first_error_by_place() {
    let dnas = vec![
        (Registration::Registered(vec![1]), "a".to_string()),
        (Registration::Rejected("second".to_string()), "b".to_string()),
        (Registration::DecodeFailed("third".to_string()), "c".to_string()),
    ];
    assert_eq!(
        install_app(&vec![9], &dnas, &None),
        Err(BootstrapError::Registration("second".to_string()))
    );
}

#[test]
fn install_app_with_bad_proof_fails_at_first_registered_bundle() {
    let dnas = vec![
        (Registration::Registered(vec![1]), "a".to_string()),
        (Registration::DecodeFailed("second".to_string()), "b".to_string()),
    ];
    assert_eq!(
        install_app(&vec![9], &dnas, &Some("***".to_string())),
        Err(BootstrapError::ProofDecode)
    );
    let dnas = vec![
        (Registration::DecodeFailed("first".to_string()), "a".to_string()),
        (Registration::Registered(vec![1]), "b".to_string()),
    ];
    assert_eq!(
        install_app(&vec![9], &dnas, &Some("***".to_string())),
        Err(BootstrapError::BundleDecode("first".to_string()))
    );
}

#[test]
fn install_app_without_bundles_ignores_the_proof() {
    assert_eq!(install_app(&vec![9], &vec![], &Some("***".to_string())), Ok(vec![]));
}

#[test]
fn install_units_takes_decoded_proof_as_given() {
    let units = install_units(&vec![1], &two_registered(), &Ok(Some(vec![0xfe]))).unwrap();
    assert_eq!(units[0].membrane_proof, Some(vec![0xfe]));
    assert_eq!(units[1].membrane_proof, Some(vec![0xfe]));
    assert_eq!(
        install_units(&vec![1], &two_registered(), &Err(())),
        Err(BootstrapError::ProofDecode)
    );
}

#[test]
fn install_activate_attaches_no_proof() {
    let units =
        embedded_holochain_runner::install_activate::install_app(&vec![5], &two_registered())
            .unwrap();
    assert_eq!(units.len(), 2);
    assert_eq!(units[1].nick, "projects");
    assert_eq!(units[1].dna_hash, vec![4, 5, 6]);
    assert_eq!(units[1].agent_key, vec![5]);
    assert_eq!(units[0].membrane_proof, None);
    let failing = vec![(Registration::DecodeFailed("x".to_string()), "a".to_string())];
    assert_eq!(
        embedded_holochain_runner::install_activate::install_app(&vec![5], &failing),
        Err(BootstrapError::BundleDecode("x".to_string()))
    );
}

#[test]
fn enable_app_succeeds_without_component_errors() {
    assert_eq!(enable_app("app".to_string(), true, &vec![]), Ok(()));
}

#[test]
fn enable_app_reports_first_component_error() {
    let errors = vec!["one".to_string(), "two".to_string(), "three".to_string()];
    assert_eq!(
        enable_app("app".to_string(), true, &errors),
        Err(BootstrapError::Component("one".to_string()))
    );
    assert_eq!(
        embedded_holochain_runner::install_activate::enable_app("app".to_string(), true, &errors),
        Err(BootstrapError::Component("one".to_string()))
    );
}

#[test]
fn enable_app_reports_unknown_app_before_component_errors() {
    let errors = vec!["one".to_string()];
    assert_eq!(
        enable_app("app".to_string(), false, &errors),
        Err(BootstrapError::AppNotInstalled("app".to_string()))
    );
    assert_eq!(
        enable_app("app".to_string(), false, &vec![]),
        Err(BootstrapError::AppNotInstalled("app".to_string()))
    );
}

#[test]
fn emit_without_observer_does_nothing() {
    assert_eq!(emit(&None, StateSignal::IsReady), Delivery::Unobserved);
}

#[test]
fn emit_queues_signal_for_observer() {
    let (sender, mut receiver) = channel(2);
    assert_eq!(emit(&Some(sender), StateSignal::CreatingKeys), Delivery::Sent);
    assert_eq!(receiver.try_recv().ok(), Some(StateSignal::CreatingKeys));
    assert!(receiver.try_recv().is_err());
}

#[test]
fn emit_does_not_wait_for_room() {
    let (sender, mut receiver) = channel(1);
    let sink = Some(sender);
    assert_eq!(emit(&sink, StateSignal::IsFirstRun), Delivery::Sent);
    assert_eq!(emit(&sink, StateSignal::CreatingKeys), Delivery::Dropped(SendFailure::Full));
    assert_eq!(receiver.try_recv().ok(), Some(StateSignal::IsFirstRun));
    assert_eq!(emit(&sink, StateSignal::RegisteringDna), Delivery::Sent);
}

#[test]
fn emit_to_closed_channel_is_reported() {
    let (sender, receiver) = channel(1);
    drop(receiver);
    assert_eq!(
        emit(&Some(sender), StateSignal::IsFirstRun),
        Delivery::Dropped(SendFailure::Closed)
    );
}

#[test]
fn delivery_names_each_outcome() {
    assert_eq!(delivery(false, Ok(())), Delivery::Unobserved);
    assert_eq!(delivery(false, Err(SendFailure::Full)), Delivery::Unobserved);
    assert_eq!(delivery(true, Ok(())), Delivery::Sent);
    assert_eq!(
        delivery(true, Err(SendFailure::Closed)),
        Delivery::Dropped(SendFailure::Closed)
    );
}

#[test]
fn conductor_config_holds_given_and_fixed_settings() {
    let config = conductor_config(4444, "/tmp/db", "/tmp/ks", "kitsune-proxy://p");
    assert_eq!(
        config,
        ConductorConfig {
            environment_path: "/tmp/db".to_string(),
            keystore_path: "/tmp/ks".to_string(),
            keystore_passphrase: "passphrase-placeholder".to_string(),
            admin_port: 4444,
            bootstrap_service: "https://bootstrap-staging.holo.host".to_string(),
            bind_to: "kitsune-quic://0.0.0.0:0".to_string(),
            proxy_url: "kitsune-proxy://p".to_string(),
        }
    );
    assert_eq!(config.bootstrap_service, BOOTSTRAP_SERVICE);
    assert_eq!(config.bind_to, QUIC_BIND_ADDRESS);
    assert_eq!(config.keystore_passphrase, KEYSTORE_PASSPHRASE);
}

#[test]
fn firing_twice_shuts_down_once() {
    let mut coordinator = ShutdownCoordinator::new();
    let actions = vec![
        coordinator.step(ShutdownEvent::Fired),
        coordinator.step(ShutdownEvent::Fired),
    ];
    assert_eq!(actions, vec![ShutdownAction::Shutdown, ShutdownAction::NoteRace]);
    assert_eq!(actions.iter().filter(|a| **a == ShutdownAction::Shutdown).count(), 1);
    assert_eq!(coordinator.phase, ShutdownPhase::Terminating);
}

#[test]
fn process_may_exit_only_after_runtime_ended() {
    let mut coordinator = ShutdownCoordinator::new();
    assert!(!coordinator.may_exit());
    assert_eq!(
        coordinator.step(ShutdownEvent::RuntimeEnded(Termination::Clean)),
        ShutdownAction::Ignore
    );
    assert!(!coordinator.may_exit());
    assert_eq!(coordinator.step(ShutdownEvent::Fired), ShutdownAction::Shutdown);
    assert!(!coordinator.may_exit());
    assert_eq!(
        coordinator.step(ShutdownEvent::RuntimeEnded(Termination::Abnormal)),
        ShutdownAction::Exit(Termination::Abnormal)
    );
    assert!(coordinator.may_exit());
    assert_eq!(coordinator.step(ShutdownEvent::Fired), ShutdownAction::NoteRace);
    assert_eq!(
        coordinator.step(ShutdownEvent::RuntimeEnded(Termination::Clean)),
        ShutdownAction::Ignore
    );
    assert_eq!(coordinator.phase, ShutdownPhase::Terminated);
}

#[test]
fn dropped_token_is_noted_and_shuts_nothing_down() {
    let mut coordinator = ShutdownCoordinator::new();
    assert_eq!(coordinator.step(ShutdownEvent::Dropped), ShutdownAction::NoteDropped);
    assert_eq!(coordinator.phase, ShutdownPhase::Disarmed);
    assert_eq!(coordinator.step(ShutdownEvent::Fired), ShutdownAction::NoteRace);
    assert_eq!(coordinator.step(ShutdownEvent::Dropped), ShutdownAction::Ignore);
    assert!(!coordinator.may_exit());
}

#[test]
fn token_fires_once() {
    let (sender, mut receiver) = tokio::sync::oneshot::channel::<bool>();
    let mut token = ShutdownToken::new(sender);
    assert!(token.sender.is_some());
    assert_eq!(token.fire(), Firing::Fired);
    assert!(token.sender.is_none());
    assert_eq!(receiver.try_recv().ok(), Some(true));
    assert_eq!(token.fire(), Firing::Spent);
    assert_eq!(token.fire(), Firing::Spent);
}

#[test]
fn token_fired_at_nobody_is_spent_too() {
    let (sender, receiver) = tokio::sync::oneshot::channel::<bool>();
    drop(receiver);
    let mut token = ShutdownToken::new(sender);
    assert_eq!(token.fire(), Firing::ReceiverGone);
    assert_eq!(token.fire(), Firing::Spent);
}

#[test]
fn token_and_coordinator_shut_down_once() {
    let (sender, mut receiver) = tokio::sync::oneshot::channel::<bool>();
    let mut token = ShutdownToken::new(sender);
    let mut coordinator = ShutdownCoordinator::new();
    let mut shutdowns = 0;
    for _ in 0..2 {
        token.fire();
        if receiver.try_recv().is_ok()
            && coordinator.step(ShutdownEvent::Fired) == ShutdownAction::Shutdown
        {
            shutdowns += 1;
        }
    }
    assert_eq!(shutdowns, 1);
}

#[test]
fn firing_names_each_outcome() {
    assert_eq!(firing(true, true), Firing::Fired);
    assert_eq!(firing(true, false), Firing::ReceiverGone);
    assert_eq!(firing(false, true), Firing::Spent);
    assert_eq!(firing(false, false), Firing::Spent);
}
