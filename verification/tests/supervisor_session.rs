use pocket_relay_plugin::supervisor::{
    apply_start, planned_listeners, servers_running_blocking, start_plan, ListenerKind,
    SessionSupervisor, SupervisorAction,
};
use pocket_relay_plugin::target::{TargetDescriptor, UrlScheme, Version};

fn target(host: &str, tunnel_port: Option<u16>) -> TargetDescriptor {
    TargetDescriptor {
        scheme: UrlScheme::Http,
        host: host.as_bytes().to_vec(),
        port: 80,
        version: Version { major: 1, minor: 0, patch: 0 },
        tunnel_port,
        association_token: None,
    }
}

#[test]
fn first_start_plans_no_cancellation() {
    let sup = SessionSupervisor::new();
    let plan = start_plan(&sup, &target("one.example", None));
    assert_eq!(plan.len(), 6);
    assert!(plan.iter().all(|a| matches!(a, SupervisorAction::BindListener(_))));
}

#[test]
fn second_start_cancels_before_every_bind() {
    let mut sup = SessionSupervisor::new();
    let t1 = target("one.example", None);
    let bound = planned_listeners(&t1);
    apply_start(&mut sup, t1, bound);
    assert!(sup.has_active_session());

    // Starting on a second target: the plan releases the first
    // session's sockets before any new listener binds, so the same
    // ports can be bound again.
    let t2 = target("two.example", None);
    let plan = start_plan(&sup, &t2);
    assert_eq!(plan.len(), 7);
    let cancel_positions: Vec<usize> = plan
        .iter()
        .enumerate()
        .filter(|(_, a)| matches!(a, SupervisorAction::CancelSession))
        .map(|(i, _)| i)
        .collect();
    let bind_positions: Vec<usize> = plan
        .iter()
        .enumerate()
        .filter(|(_, a)| matches!(a, SupervisorAction::BindListener(_)))
        .map(|(i, _)| i)
        .collect();
    assert_eq!(cancel_positions, vec![0]);
    assert_eq!(bind_positions.len(), 6);
    for c in &cancel_positions {
        for b in &bind_positions {
            assert!(c < b);
        }
    }

    // After the plan ran, only the second session exists.
    let bound2 = planned_listeners(&t2);
    apply_start(&mut sup, t2, bound2);
    let active = sup.active.as_ref().expect("second session is active");
    assert_eq!(active.target.host, b"two.example".to_vec());
    assert_eq!(active.listeners.len(), 6);
}

#[test]
fn stop_is_idempotent_and_clears_the_session() {
    let mut sup = SessionSupervisor::new();
    sup.stop();
    assert!(!sup.has_active_session());
    let t = target("one.example", None);
    let bound = planned_listeners(&t);
    apply_start(&mut sup, t, bound);
    assert!(sup.has_active_session());
    sup.stop();
    assert!(!sup.has_active_session());
    sup.stop();
    assert!(!sup.has_active_session());
}

#[test]
fn tunnel_slot_follows_the_target_descriptor() {
    let with_port = planned_listeners(&target("one.example", Some(9999)));
    assert!(matches!(with_port[5], ListenerKind::DatagramTunnel(9999)));
    assert!(!with_port.iter().any(|l| matches!(l, ListenerKind::UpgradeTunnel)));

    let without_port = planned_listeners(&target("one.example", None));
    assert!(matches!(without_port[5], ListenerKind::UpgradeTunnel));
    assert!(!without_port.iter().any(|l| matches!(l, ListenerKind::DatagramTunnel(_))));
}

#[test]
fn planned_listeners_cover_every_service_once() {
    let listeners = planned_listeners(&target("one.example", None));
    assert_eq!(
        &listeners[..5],
        &[
            ListenerKind::Redirector,
            ListenerKind::MainTunnel,
            ListenerKind::HttpProxy,
            ListenerKind::Qos,
            ListenerKind::Telemetry,
        ]
    );
}

#[test]
fn running_query_tracks_the_session() {
    let mut sup = SessionSupervisor::new();
    assert!(!servers_running_blocking(&sup));
    let t = target("one.example", None);
    let bound = planned_listeners(&t);
    apply_start(&mut sup, t, bound);
    assert!(servers_running_blocking(&sup));
    sup.stop();
    assert!(!servers_running_blocking(&sup));
}
