//! The session supervisor: owner of the one active session.
//!
//! A session is the set of loopback listeners and tasks serving one
//! resolved backend target. The supervisor holds at most one session
//! handle at any instant — the field is an `Option`, so a second handle
//! cannot exist — and starting a new session first cancels the previous
//! one. The surrounding shell executes the plan: it performs the
//! cancellation, binds each listener, and reports back which binds
//! succeeded; a listener whose bind fails is simply omitted while its
//! siblings run on.

use vstd::prelude::*;
use crate::target::TargetDescriptor;

verus! {

/// One listener of a session.
#[derive(Clone, Copy, PartialEq, Eq, Structural, Debug)]
pub enum ListenerKind {
    /// The secure legacy discovery responder.
    Redirector,
    /// The main-tunnel listener.
    MainTunnel,
    /// The local HTTP reverse proxy.
    HttpProxy,
    /// The QoS-style auxiliary responder.
    Qos,
    /// The telemetry-style auxiliary responder.
    Telemetry,
    /// The datagram tunnel on the backend's dedicated port.
    DatagramTunnel(u16),
    /// The HTTP-upgrade tunnel used when no dedicated port is offered.
    UpgradeTunnel,
}

/// The listeners one session runs, in bind order. The tunnel slot is
/// decided once from the target's dedicated tunnel port.
pub open spec fn spec_planned_listeners(tunnel_port: Option<u16>) -> Seq<ListenerKind> {
    seq![
        ListenerKind::Redirector,
        ListenerKind::MainTunnel,
        ListenerKind::HttpProxy,
        ListenerKind::Qos,
        ListenerKind::Telemetry,
    ] + match tunnel_port {
        Some(p) => seq![ListenerKind::DatagramTunnel(p)],
        None => seq![ListenerKind::UpgradeTunnel],
    }
}

/// Lists the listeners a session on `t` will bind, in order.
pub fn planned_listeners(t: &TargetDescriptor) -> (r: Vec<ListenerKind>)
    ensures
        r@ == spec_planned_listeners(t.tunnel_port),
{
    let mut r: Vec<ListenerKind> = Vec::new();
    r.push(ListenerKind::Redirector);
    r.push(ListenerKind::MainTunnel);
    r.push(ListenerKind::HttpProxy);
    r.push(ListenerKind::Qos);
    r.push(ListenerKind::Telemetry);
    match t.tunnel_port {
        Some(p) => r.push(ListenerKind::DatagramTunnel(p)),
        None => r.push(ListenerKind::UpgradeTunnel),
    }
    assert(r@ =~= spec_planned_listeners(t.tunnel_port));
    r
}

/// Everything belonging to one running session: its target and the
/// listeners that actually bound. Dropping the handle stands for
/// cancelling every task of the session.
#[derive(Debug)]
pub struct SessionHandle {
    pub target: TargetDescriptor,
    pub listeners: Vec<ListenerKind>,
}

/// The one owner of session state. At most one session is active at any
/// instant by construction.
#[derive(Debug)]
pub struct SessionSupervisor {
    pub active: Option<SessionHandle>,
}

impl SessionSupervisor {
    /// A supervisor with no session running.
    pub fn new() -> (r: SessionSupervisor)
        ensures
            r.active is None,
    {
        SessionSupervisor { active: None }
    }

    /// Cancels the running session, if any. Idempotent: safe with no
    /// active session.
    pub fn stop(&mut self)
        ensures
            final(self).active is None,
    {
        self.active = None;
    }

    /// Non-blocking query: whether a session is currently active.
    pub fn has_active_session(&self) -> (r: bool)
        ensures
            r == (self.active is Some),
    {
        self.active.is_some()
    }
}

impl Default for SessionSupervisor {
    fn default() -> (r: SessionSupervisor)
        ensures
            r.active is None,
    {
        SessionSupervisor::new()
    }
}

/// Whether a session is currently active; the query the host-process
/// redirection hook reads before answering name lookups with loopback.
pub fn servers_running_blocking(sup: &SessionSupervisor) -> (r: bool)
    ensures
        r == (sup.active is Some),
{
    sup.has_active_session()
}

/// One step of starting a session, in the order the shell must take.
#[derive(Clone, Copy, PartialEq, Eq, Structural, Debug)]
pub enum SupervisorAction {
    /// Cancel the previous session and release everything it bound.
    CancelSession,
    /// Bind this listener for the new session.
    BindListener(ListenerKind),
}

/// The plan for starting a session: first the cancellation of the
/// previous session when one is active, then one bind per planned
/// listener.
pub open spec fn spec_start_plan(active: bool, tunnel_port: Option<u16>) -> Seq<
    SupervisorAction,
> {
    (if active {
        seq![SupervisorAction::CancelSession]
    } else {
        Seq::<SupervisorAction>::empty()
    }) + spec_planned_listeners(tunnel_port).map_values(
        |l: ListenerKind| SupervisorAction::BindListener(l),
    )
}

/// Plans the start of a session on `t`.
pub fn start_plan(sup: &SessionSupervisor, t: &TargetDescriptor) -> (r: Vec<SupervisorAction>)
    ensures
        r@ == spec_start_plan(sup.active is Some, t.tunnel_port),
{
    let mut r: Vec<SupervisorAction> = Vec::new();
    if sup.has_active_session() {
        r.push(SupervisorAction::CancelSession);
    }
    let listeners = planned_listeners(t);
    let mut i: usize = 0;
    while i < listeners.len()
        invariant
            i <= listeners.len(),
            listeners@ == spec_planned_listeners(t.tunnel_port),
            r@ == (if sup.active is Some {
                seq![SupervisorAction::CancelSession]
            } else {
                Seq::<SupervisorAction>::empty()
            }) + listeners@.take(i as int).map_values(
                |l: ListenerKind| SupervisorAction::BindListener(l),
            ),
        decreases listeners.len() - i,
    {
        r.push(SupervisorAction::BindListener(listeners[i]));
        i = i + 1;
        assert(r@ =~= (if sup.active is Some {
            seq![SupervisorAction::CancelSession]
        } else {
            Seq::<SupervisorAction>::empty()
        }) + listeners@.take(i as int).map_values(
            |l: ListenerKind| SupervisorAction::BindListener(l),
        ));
    }
    proof {
        assert(listeners@.take(listeners@.len() as int) =~= listeners@);
        assert(r@ =~= spec_start_plan(sup.active is Some, t.tunnel_port));
    }
    r
}

/// Records the new session once the shell has run the plan: `bound`
/// holds the listeners whose binds succeeded. The previous handle, if
/// any, is replaced — its tasks were cancelled by the plan's first step
/// — so exactly one session is active afterwards.
pub fn apply_start(sup: &mut SessionSupervisor, target: TargetDescriptor, bound: Vec<
    ListenerKind,
>)
    ensures
        final(sup).active matches Some(h) && h.target == target && h.listeners == bound,
{
    sup.active = Some(SessionHandle { target, listeners: bound });
}

/// Law behind session replacement: in every start plan, the
/// cancellation of the previous session stands strictly before every
/// bind of the new one — so no new listener binds until the old
/// session's sockets are released — and a cancellation appears exactly
/// when a session was active.
pub proof fn lemma_stop_precedes_binds(active: bool, tunnel_port: Option<u16>)
    ensures
        forall|i: int, j: int|
            0 <= i < spec_start_plan(active, tunnel_port).len()
            && 0 <= j < spec_start_plan(active, tunnel_port).len()
            && (#[trigger] spec_start_plan(active, tunnel_port)[i]) is CancelSession
            && (#[trigger] spec_start_plan(active, tunnel_port)[j]) is BindListener
            ==> i < j,
        active <==> spec_start_plan(active, tunnel_port)[0] is CancelSession,
        spec_start_plan(active, tunnel_port).len() > 0,
{
    let plan = spec_start_plan(active, tunnel_port);
    let binds = spec_planned_listeners(tunnel_port).map_values(
        |l: ListenerKind| SupervisorAction::BindListener(l),
    );
    let head: int = if active { 1 } else { 0 };
    assert forall|i: int| head <= i < plan.len() implies (#[trigger] plan[i]) is BindListener by {
        assert(plan[i] == binds[i - head]);
        assert(binds[i - head] == SupervisorAction::BindListener(
            spec_planned_listeners(tunnel_port)[i - head],
        ));
    }
    if active {
        assert(plan[0] is CancelSession);
    } else {
        assert(plan[0] == binds[0]);
    }
}

} // verus!
