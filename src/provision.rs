//! The provisioning orchestrator: hotspot up, portal up, wait for credentials
//! or the timeout, portal and hotspot down, join, and on failure roll back to
//! the hotspot.
//!
//! The orchestrator does no I/O. It is a machine that takes the outcome of the
//! last action as an event and answers with its next state and the next action
//! to perform. Failed joins are retried without bound: each one returns the
//! device to the hotspot so that the user can submit other credentials.
use vstd::prelude::*;
use crate::portal::CredentialSubmission;

verus! {

/// How long a join attempt may take, in seconds.
pub const JOIN_TIMEOUT: u64 = 10;

/// Where the orchestrator stands.
#[derive(Clone, Copy, Debug, PartialEq, Eq, Structural)]
pub enum Phase {
    Idle,
    StartingHotspot,
    StartingPortal,
    /// The portal could not start; the hotspot is being torn down.
    Aborting,
    AwaitingCredentials,
    StoppingPortal,
    StoppingHotspot,
    Joining,
    RollingBack,
    Joined,
    TimedOut,
    Failed,
}

/// The network the device joined.
#[derive(Clone, Debug, PartialEq, Eq)]
pub struct JoinedNetwork {
    pub ssid: String,
}

/// Why provisioning ended without a joined network.
#[derive(Clone, Copy, Debug, PartialEq, Eq, Structural)]
pub enum ProvisioningError {
    /// No WiFi-capable device, or none with the interface asked for.
    NoWifiDevice,
    /// The radio could not be put in access-point mode.
    HotspotCreateFailed,
    /// The portal server could not start.
    PortalStartFailed,
    /// No credentials came before the timeout.
    ProvisioningTimedOut,
}

/// The outcome of the action last performed, or the start signal.
#[derive(Debug)]
pub enum Event {
    Start,
    HotspotCreated,
    HotspotCreateFailed,
    PortalStarted,
    PortalStartFailed,
    CredentialsReceived(CredentialSubmission),
    TimeoutElapsed,
    /// The portal stopped; a failure to stop it is only logged.
    PortalStopped,
    /// The hotspot was deactivated and its profile deleted; a failure to
    /// delete the profile is only logged.
    HotspotStopped,
    JoinSucceeded,
    JoinFailed,
    JoinTimedOut,
    ClientDeleted,
    ClientDeleteFailed,
}

/// What the orchestrator asks to be done next.
#[derive(Debug, PartialEq, Eq)]
pub enum Action {
    CreateHotspot { ssid: String, password: Option<String> },
    StartPortal,
    /// Wait for a submission or for `timeout` seconds, whichever comes first.
    AwaitCredentials { timeout: u64 },
    StopPortal,
    StopHotspot,
    /// Create and activate a client connection, within `timeout` seconds.
    Join { ssid: String, password: String, timeout: u64 },
    /// Delete the client connection profile of the failed join.
    DeleteClient,
    /// Provisioning is over.
    Finish(Result<JoinedNetwork, ProvisioningError>),
    /// The event does not apply to the current phase; nothing to do.
    Ignore,
}

/// The orchestrator, and what it knows of the device's connections.
pub struct Manager {
    pub hotspot_ssid: String,
    pub hotspot_password: Option<String>,
    /// How long to wait for credentials, in seconds.
    pub timeout: u64,
    pub phase: Phase,
    /// The submission being acted on.
    pub submission: Option<CredentialSubmission>,
    pub hotspot_active: bool,
    pub portal_running: bool,
    pub client_profile: bool,
    pub client_active: bool,
}

impl Manager {
    /// The connections and the submission that each phase goes with. In
    /// particular the hotspot and a client connection are never both active.
    pub open spec fn wf(self) -> bool {
        &&& !(self.hotspot_active && self.client_active)
        &&& match self.phase {
            Phase::Idle | Phase::StartingHotspot => !self.hotspot_active && !self.portal_running
                && !self.client_profile && !self.client_active && self.submission is None,
            Phase::StartingPortal => self.hotspot_active && !self.portal_running && !self.client_profile
                && !self.client_active && self.submission is None,
            Phase::Aborting => self.hotspot_active && !self.portal_running && !self.client_profile
                && !self.client_active && self.submission is None,
            Phase::AwaitingCredentials => self.hotspot_active && self.portal_running
                && !self.client_profile && !self.client_active && self.submission is None,
            Phase::StoppingPortal => self.hotspot_active && self.portal_running && !self.client_profile
                && !self.client_active,
            Phase::StoppingHotspot => self.hotspot_active && !self.portal_running
                && !self.client_profile && !self.client_active,
            Phase::Joining | Phase::RollingBack => !self.hotspot_active && !self.portal_running
                && self.client_profile && !self.client_active && self.submission is Some,
            Phase::Joined => !self.hotspot_active && !self.portal_running && self.client_profile
                && self.client_active && self.submission is Some,
            Phase::TimedOut | Phase::Failed => !self.hotspot_active && !self.portal_running
                && !self.client_profile && !self.client_active,
        }
    }

    pub open spec fn create_hotspot_action(self) -> Action {
        Action::CreateHotspot { ssid: self.hotspot_ssid, password: self.hotspot_password }
    }

    /// The next state and action on an event. An event that does not apply to
    /// the current phase changes nothing.
    pub open spec fn next(self, e: Event) -> (Manager, Action) {
        match (self.phase, e) {
            (Phase::Idle, Event::Start) => (
                Manager { phase: Phase::StartingHotspot, ..self },
                self.create_hotspot_action(),
            ),
            (Phase::StartingHotspot, Event::HotspotCreated) => (
                Manager { phase: Phase::StartingPortal, hotspot_active: true, ..self },
                Action::StartPortal,
            ),
            (Phase::StartingHotspot, Event::HotspotCreateFailed) => (
                Manager { phase: Phase::Failed, ..self },
                Action::Finish(Err(ProvisioningError::HotspotCreateFailed)),
            ),
            (Phase::StartingPortal, Event::PortalStarted) => (
                Manager { phase: Phase::AwaitingCredentials, portal_running: true, ..self },
                Action::AwaitCredentials { timeout: self.timeout },
            ),
            (Phase::StartingPortal, Event::PortalStartFailed) => (
                Manager { phase: Phase::Aborting, ..self },
                Action::StopHotspot,
            ),
            (Phase::Aborting, Event::HotspotStopped) => (
                Manager { phase: Phase::Failed, hotspot_active: false, ..self },
                Action::Finish(Err(ProvisioningError::PortalStartFailed)),
            ),
            (Phase::AwaitingCredentials, Event::CredentialsReceived(sub)) => (
                Manager { phase: Phase::StoppingPortal, submission: Some(sub), ..self },
                Action::StopPortal,
            ),
            (Phase::AwaitingCredentials, Event::TimeoutElapsed) => (
                Manager { phase: Phase::StoppingPortal, ..self },
                Action::StopPortal,
            ),
            (Phase::StoppingPortal, Event::PortalStopped) => (
                Manager { phase: Phase::StoppingHotspot, portal_running: false, ..self },
                Action::StopHotspot,
            ),
            (Phase::StoppingHotspot, Event::HotspotStopped) => match self.submission {
                Some(sub) => (
                    Manager {
                        phase: Phase::Joining,
                        hotspot_active: false,
                        client_profile: true,
                        ..self
                    },
                    Action::Join { ssid: sub.ssid, password: sub.password, timeout: JOIN_TIMEOUT },
                ),
                None => (
                    Manager { phase: Phase::TimedOut, hotspot_active: false, ..self },
                    Action::Finish(Err(ProvisioningError::ProvisioningTimedOut)),
                ),
            },
            (Phase::Joining, Event::JoinSucceeded) => match self.submission {
                Some(sub) => (
                    Manager { phase: Phase::Joined, client_active: true, ..self },
                    Action::Finish(Ok(JoinedNetwork { ssid: sub.ssid })),
                ),
                None => (self, Action::Ignore),
            },
            (Phase::Joining, Event::JoinFailed) | (Phase::Joining, Event::JoinTimedOut) => (
                Manager { phase: Phase::RollingBack, ..self },
                Action::DeleteClient,
            ),
            (Phase::RollingBack, Event::ClientDeleted) => (
                Manager {
                    phase: Phase::StartingHotspot,
                    client_profile: false,
                    submission: None,
                    ..self
                },
                self.create_hotspot_action(),
            ),
            (Phase::RollingBack, Event::ClientDeleteFailed) => (self, Action::DeleteClient),
            _ => (self, Action::Ignore),
        }
    }

    /// An orchestrator in `Idle` for a hotspot of that name and password and a
    /// wait for credentials of `timeout` seconds.
    pub fn new(hotspot_ssid: String, hotspot_password: Option<String>, timeout: u64) -> (r: Manager)
        ensures
            r.wf(),
            r.phase == Phase::Idle,
            r.hotspot_ssid == hotspot_ssid,
            r.hotspot_password == hotspot_password,
            r.timeout == timeout,
            r.submission is None,
            !r.hotspot_active && !r.portal_running && !r.client_profile && !r.client_active,
    {
        Manager {
            hotspot_ssid,
            hotspot_password,
            timeout,
            phase: Phase::Idle,
            submission: None,
            hotspot_active: false,
            portal_running: false,
            client_profile: false,
            client_active: false,
        }
    }

    fn create_hotspot(&self) -> (r: Action)
        ensures
            r == self.create_hotspot_action(),
    {
        let password = match &self.hotspot_password {
            Some(p) => Some(p.clone()),
            None => None,
        };
        Action::CreateHotspot { ssid: self.hotspot_ssid.clone(), password }
    }

    /// Takes the outcome of the last action and returns the next action.
    pub fn step(&mut self, e: Event) -> (r: Action)
        ensures
            (*final(self), r) == old(self).next(e),
    {
        match e {
            Event::Start => {
                if self.phase == Phase::Idle {
                    self.phase = Phase::StartingHotspot;
                    return self.create_hotspot();
                }
            },
            Event::HotspotCreated => {
                if self.phase == Phase::StartingHotspot {
                    self.phase = Phase::StartingPortal;
                    self.hotspot_active = true;
                    return Action::StartPortal;
                }
            },
            Event::HotspotCreateFailed => {
                if self.phase == Phase::StartingHotspot {
                    self.phase = Phase::Failed;
                    return Action::Finish(Err(ProvisioningError::HotspotCreateFailed));
                }
            },
            Event::PortalStarted => {
                if self.phase == Phase::StartingPortal {
                    self.phase = Phase::AwaitingCredentials;
                    self.portal_running = true;
                    return Action::AwaitCredentials { timeout: self.timeout };
                }
            },
            Event::PortalStartFailed => {
                if self.phase == Phase::StartingPortal {
                    self.phase = Phase::Aborting;
                    return Action::StopHotspot;
                }
            },
            Event::CredentialsReceived(sub) => {
                if self.phase == Phase::AwaitingCredentials {
                    self.phase = Phase::StoppingPortal;
                    self.submission = Some(sub);
                    return Action::StopPortal;
                }
            },
            Event::TimeoutElapsed => {
                if self.phase == Phase::AwaitingCredentials {
                    self.phase = Phase::StoppingPortal;
                    return Action::StopPortal;
                }
            },
            Event::PortalStopped => {
                if self.phase == Phase::StoppingPortal {
                    self.phase = Phase::StoppingHotspot;
                    self.portal_running = false;
                    return Action::StopHotspot;
                }
            },
            Event::HotspotStopped => {
                if self.phase == Phase::Aborting {
                    self.phase = Phase::Failed;
                    self.hotspot_active = false;
                    return Action::Finish(Err(ProvisioningError::PortalStartFailed));
                }
                if self.phase == Phase::StoppingHotspot {
                    self.hotspot_active = false;
                    match &self.submission {
                        Some(sub) => {
                            self.phase = Phase::Joining;
                            self.client_profile = true;
                            return Action::Join {
                                ssid: sub.ssid.clone(),
                                password: sub.password.clone(),
                                timeout: JOIN_TIMEOUT,
                            };
                        },
                        None => {
                            self.phase = Phase::TimedOut;
                            return Action::Finish(Err(ProvisioningError::ProvisioningTimedOut));
                        },
                    }
                }
            },
            Event::JoinSucceeded => {
                if self.phase == Phase::Joining {
                    if let Some(sub) = &self.submission {
                        self.phase = Phase::Joined;
                        self.client_active = true;
                        return Action::Finish(Ok(JoinedNetwork { ssid: sub.ssid.clone() }));
                    }
                }
            },
            Event::JoinFailed | Event::JoinTimedOut => {
                if self.phase == Phase::Joining {
                    self.phase = Phase::RollingBack;
                    return Action::DeleteClient;
                }
            },
            Event::ClientDeleted => {
                if self.phase == Phase::RollingBack {
                    self.phase = Phase::StartingHotspot;
                    self.client_profile = false;
                    self.submission = None;
                    return self.create_hotspot();
                }
            },
            Event::ClientDeleteFailed => {
                if self.phase == Phase::RollingBack {
                    return Action::DeleteClient;
                }
            },
        }
        Action::Ignore
    }
}

/// The process exit status for an outcome of provisioning: 0 for a joined
/// network, 1 for any error.
pub fn exit_code(outcome: &Result<JoinedNetwork, ProvisioningError>) -> (r: i32)
    ensures
        outcome is Ok ==> r == 0,
        outcome is Err ==> r == 1,
{
    match outcome {
        Ok(_) => 0,
        Err(_) => 1,
    }
}

/// Every step keeps the orchestrator well formed; in particular the device
/// never has the hotspot and a client connection active at once.
pub proof fn lemma_step_preserves_wf(m: Manager, e: Event)
    requires
        m.wf(),
    ensures
        m.next(e).0.wf(),
{
}

/// A join is only asked for once the portal has stopped and the hotspot is
/// down, and a new hotspot only once no client profile is left.
pub proof fn lemma_join_after_teardown(m: Manager, e: Event)
    requires
        m.wf(),
    ensures
        m.next(e).1 is Join ==> !m.next(e).0.hotspot_active && !m.next(e).0.portal_running,
        m.next(e).1 is CreateHotspot ==> !m.next(e).0.client_profile && !m.next(e).0.client_active,
{
}

/// A failed or timed-out join is answered by deleting the client profile, and
/// the hotspot comes back only after that deletion is reported.
pub proof fn lemma_rollback_deletes_client_first(m: Manager, e: Event)
    requires
        m.wf(),
        m.phase == Phase::Joining,
        e is JoinFailed || e is JoinTimedOut,
    ensures
        m.next(e).1 is DeleteClient,
        m.next(e).0.phase == Phase::RollingBack,
        m.next(e).0.next(Event::ClientDeleteFailed).1 is DeleteClient,
        m.next(e).0.next(Event::ClientDeleted).1 is CreateHotspot,
        !m.next(e).0.next(Event::ClientDeleted).0.client_profile,
        m.next(e).0.next(Event::ClientDeleted).0.submission is None,
{
}

/// When the wait for credentials times out, the portal is stopped, the hotspot
/// torn down, and provisioning ends in `ProvisioningTimedOut` with no client
/// connection created.
pub proof fn lemma_timeout_tears_down(m: Manager)
    requires
        m.wf(),
        m.phase == Phase::AwaitingCredentials,
    ensures
        ({
            let s1 = m.next(Event::TimeoutElapsed).0;
            let s2 = s1.next(Event::PortalStopped).0;
            let (s3, a3) = s2.next(Event::HotspotStopped);
            &&& m.next(Event::TimeoutElapsed).1 is StopPortal
            &&& s1.next(Event::PortalStopped).1 is StopHotspot
            &&& a3 == Action::Finish(Err(ProvisioningError::ProvisioningTimedOut))
            &&& s3.phase == Phase::TimedOut
            &&& !s3.hotspot_active && !s3.portal_running
            &&& !s3.client_profile && !s3.client_active
        }),
{
}

/// Whenever provisioning ends in `ProvisioningTimedOut`, neither the hotspot
/// nor the portal nor any client connection is left.
pub proof fn lemma_timed_out_leaves_nothing(m: Manager, e: Event)
    requires
        m.wf(),
        m.next(e).1 == Action::Finish(Err(ProvisioningError::ProvisioningTimedOut)),
    ensures
        !m.next(e).0.hotspot_active && !m.next(e).0.portal_running,
        !m.next(e).0.client_profile && !m.next(e).0.client_active,
{
}

/// Of the two events that end the wait, the one that comes second has no
/// effect: outside `AwaitingCredentials` neither changes anything.
pub proof fn lemma_late_wait_events_ignored(m: Manager, e: Event)
    requires
        m.phase != Phase::AwaitingCredentials,
        e is CredentialsReceived || e is TimeoutElapsed,
    ensures
        m.next(e) == (m, Action::Ignore),
{
}

} // verus!
