//! The state that the portal's request handlers share with the orchestrator:
//! the latest scan and the credentials submitted against it.
use vstd::prelude::*;
use crate::scan::{AccessPoint, AccessPoints, json_string_array, names_of, visible};

verus! {

/// Credentials that a user submitted through the portal.
#[derive(Clone, Debug, PartialEq, Eq)]
pub struct CredentialSubmission {
    pub ssid: String,
    pub password: String,
}

/// Why the portal turned a submission away.
#[derive(Clone, Copy, Debug, PartialEq, Eq, Structural)]
pub enum SubmitError {
    /// The network is not in the latest scan.
    UnknownNetwork,
    /// A submission is already waiting to be taken by the orchestrator.
    AlreadyPending,
}

impl SubmitError {
    /// The HTTP status of the answer that reports this error.
    pub fn status_code(&self) -> (r: u16)
        ensures
            400 <= r < 500,
            *self == SubmitError::UnknownNetwork ==> r == 400,
            *self == SubmitError::AlreadyPending ==> r == 409,
    {
        match self {
            SubmitError::UnknownNetwork => 400,
            SubmitError::AlreadyPending => 409,
        }
    }
}

/// The latest scan, and the submission that waits to be taken.
pub struct PortalStore {
    pub latest_scan: AccessPoints,
    pub pending: Option<CredentialSubmission>,
}

impl PortalStore {
    /// The latest scan holds no hidden network.
    pub open spec fn wf(&self) -> bool {
        self.latest_scan.wf()
    }

    /// A store with no scan and nothing submitted.
    pub fn new() -> (r: PortalStore)
        ensures
            r.wf(),
            r.latest_scan.points@.len() == 0,
            r.pending is None,
    {
        PortalStore { latest_scan: AccessPoints { points: Vec::new() }, pending: None }
    }

    /// Replaces the latest scan by a fresh one, hidden networks left out.
    pub fn refresh(&mut self, scan: Vec<AccessPoint>)
        ensures
            final(self).wf(),
            final(self).latest_scan.points@ == visible(scan@),
            final(self).pending == old(self).pending,
    {
        self.latest_scan = AccessPoints::from_scan(scan);
    }

    /// Answers a request for the network list: keeps `scan`, a fresh scan, as
    /// the latest one and returns its network names as a JSON array.
    pub fn list_networks(&mut self, scan: Vec<AccessPoint>) -> (r: Option<String>)
        ensures
            final(self).wf(),
            final(self).latest_scan.points@ == visible(scan@),
            final(self).pending == old(self).pending,
            r is Some,
            r matches Some(body) ==> body@ == json_string_array(names_of(visible(scan@))),
    {
        self.refresh(scan);
        self.latest_scan.ssids_json()
    }

    /// Records a submission for a network of the latest scan. Nothing changes
    /// when it is refused.
    pub fn submit(&mut self, ssid: String, password: String) -> (r: Result<(), SubmitError>)
        ensures
            final(self).latest_scan == old(self).latest_scan,
            !names_of(old(self).latest_scan.points@).contains(ssid@) ==> r == Err::<(), SubmitError>(
                SubmitError::UnknownNetwork,
            ),
            names_of(old(self).latest_scan.points@).contains(ssid@) && old(self).pending is Some ==> r
                == Err::<(), SubmitError>(SubmitError::AlreadyPending),
            r is Ok <==> names_of(old(self).latest_scan.points@).contains(ssid@) && old(self).pending is None,
            r is Ok ==> final(self).pending == Some(CredentialSubmission { ssid, password }),
            r is Err ==> final(self).pending == old(self).pending,
    {
        if !self.latest_scan.contains_ssid(&ssid) {
            return Err(SubmitError::UnknownNetwork);
        }
        if self.pending.is_some() {
            return Err(SubmitError::AlreadyPending);
        }
        self.pending = Some(CredentialSubmission { ssid, password });
        Ok(())
    }

    /// Hands out the waiting submission, if any, and clears it, so that each
    /// submission is taken once.
    pub fn take_submission(&mut self) -> (r: Option<CredentialSubmission>)
        ensures
            r == old(self).pending,
            final(self).pending is None,
            final(self).latest_scan == old(self).latest_scan,
    {
        self.pending.take()
    }
}

} // verus!
