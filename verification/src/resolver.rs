//! The session and device resolver of one command invocation.
//!
//! Three memoization cells back every authenticated command: the session,
//! the device-list snapshot, and the target device. The resolver performs no
//! I/O itself; it is a state machine. The caller asks [`Resolver::resolve_device_id`]
//! what to do next, performs the returned step (load the credential file,
//! fetch the device list, prompt the user to pick a device) and records the
//! outcome; asking again then yields either the resolved identifier or the
//! next step. Each cell only ever moves from unset to set, so each underlying
//! operation runs at most once per invocation and every caller observes the
//! same outcome.
use vstd::prelude::*;
use crate::Error;

verus! {

/// One remote-controllable device bound to the account. Immutable once
/// fetched; the fetched list is a snapshot, never refreshed within an
/// invocation.
#[derive(Debug, PartialEq, Eq)]
pub struct DeviceInfo {
    /// The identifier commands address the device by.
    pub device_id: String,
    /// The display name.
    pub name: String,
    /// The hardware model string.
    pub hardware: String,
}

impl DeviceInfo {
    /// An equal copy of this device description.
    pub fn duplicate(&self) -> (r: DeviceInfo)
        ensures
            r == *self,
    {
        DeviceInfo {
            device_id: self.device_id.clone(),
            name: self.name.clone(),
            hardware: self.hardware.clone(),
        }
    }
}

/// The authenticated session of one invocation. The live handle to the
/// remote service stays with the caller; this records where its credentials
/// came from, for operator diagnosis.
#[derive(Debug, PartialEq, Eq)]
pub struct Session {
    /// The credential file the session was restored from.
    pub auth_path: String,
}

/// The session memoization cell.
#[derive(Debug, PartialEq, Eq)]
pub enum SessionState {
    /// No load was attempted yet.
    Unloaded,
    /// The one load succeeded.
    Ready(Session),
    /// The one load failed; every later reader sees this same failure.
    Failed(Error),
}

/// The device-list memoization cell.
#[derive(Debug, PartialEq, Eq)]
pub enum DevicesState {
    /// No fetch was attempted yet.
    Unfetched,
    /// The one fetch succeeded with this snapshot.
    Fetched(Vec<DeviceInfo>),
    /// The one fetch failed; every later reader sees this same failure.
    Failed(Error),
}

/// What the caller must do next to resolve the target device.
#[derive(Debug, PartialEq, Eq)]
pub enum ResolveStep {
    /// The target is resolved: address this identifier.
    Resolved(String),
    /// Load the session and record the outcome with `record_session`.
    NeedSession,
    /// Fetch the device list and record the outcome with `record_devices`.
    NeedDevices,
    /// Two or more devices are bound: let the user pick one and record the
    /// index with `record_selection`.
    NeedSelection,
    /// Resolution failed for this invocation.
    Failed(Error),
}

/// The three memoization cells of one invocation.
pub struct Resolver {
    session: SessionState,
    devices: DevicesState,
    target: Option<String>,
}

impl Resolver {
    /// The session cell.
    pub closed spec fn spec_session(&self) -> SessionState {
        self.session
    }

    /// The device-list cell.
    pub closed spec fn spec_devices(&self) -> DevicesState {
        self.devices
    }

    /// The target-device cell.
    pub closed spec fn spec_target(&self) -> Option<String> {
        self.target
    }

    /// A fresh resolver for one invocation. An explicitly supplied device
    /// identifier resolves the target at once.
    pub fn new(explicit_device_id: Option<String>) -> (r: Resolver)
        ensures
            r.spec_target() == explicit_device_id,
            r.spec_session() is Unloaded,
            r.spec_devices() is Unfetched,
    {
        Resolver {
            session: SessionState::Unloaded,
            devices: DevicesState::Unfetched,
            target: explicit_device_id,
        }
    }

    /// What one call of `resolve_device_id` yields in a given state.
    ///
    /// An already resolved target is returned as it stands, before any cell
    /// is consulted. Otherwise the session comes first, then the device
    /// list; an empty list fails with `NoDevicesBound`, a single device is
    /// chosen automatically, and two or more ask for one interactive
    /// selection.
    pub open spec fn spec_resolve_step(&self) -> ResolveStep {
        match self.spec_target() {
            Some(d) => ResolveStep::Resolved(d),
            None => match self.spec_session() {
                SessionState::Unloaded => ResolveStep::NeedSession,
                SessionState::Failed(e) => ResolveStep::Failed(e),
                SessionState::Ready(_) => match self.spec_devices() {
                    DevicesState::Unfetched => ResolveStep::NeedDevices,
                    DevicesState::Failed(e) => ResolveStep::Failed(e),
                    DevicesState::Fetched(l) => if l@.len() == 0 {
                        ResolveStep::Failed(Error::NoDevicesBound)
                    } else if l@.len() == 1 {
                        ResolveStep::Resolved(l@[0].device_id)
                    } else {
                        ResolveStep::NeedSelection
                    },
                },
            },
        }
    }

    /// One step of target-device resolution.
    pub fn resolve_device_id(&self) -> (r: ResolveStep)
        ensures
            r == self.spec_resolve_step(),
    {
        match &self.target {
            Some(d) => ResolveStep::Resolved(d.clone()),
            None => match &self.session {
                SessionState::Unloaded => ResolveStep::NeedSession,
                SessionState::Failed(e) => ResolveStep::Failed(e.duplicate()),
                SessionState::Ready(_) => match &self.devices {
                    DevicesState::Unfetched => ResolveStep::NeedDevices,
                    DevicesState::Failed(e) => ResolveStep::Failed(e.duplicate()),
                    DevicesState::Fetched(l) => if l.len() == 0 {
                        ResolveStep::Failed(Error::NoDevicesBound)
                    } else if l.len() == 1 {
                        ResolveStep::Resolved(l[0].device_id.clone())
                    } else {
                        ResolveStep::NeedSelection
                    },
                },
            },
        }
    }

    /// Records the outcome of the one session load. A failure must name why
    /// the credentials were unusable.
    pub fn record_session(&mut self, outcome: Result<Session, Error>)
        requires
            old(self).spec_session() is Unloaded,
            outcome matches Err(e) ==> e is CredentialsMissing || e is CredentialsInvalid,
        ensures
            final(self).spec_session() == (match outcome {
                Ok(s) => SessionState::Ready(s),
                Err(e) => SessionState::Failed(e),
            }),
            final(self).spec_devices() == old(self).spec_devices(),
            final(self).spec_target() == old(self).spec_target(),
    {
        match outcome {
            Ok(s) => {
                self.session = SessionState::Ready(s);
            },
            Err(e) => {
                self.session = SessionState::Failed(e);
            },
        }
    }

    /// The memoized session: the one recorded load outcome, or nothing if no
    /// load was recorded yet.
    pub fn get_session(&self) -> (r: Option<Result<&Session, &Error>>)
        ensures
            match self.spec_session() {
                SessionState::Unloaded => r is None,
                SessionState::Ready(s) => r matches Some(Ok(rs)) && *rs == s,
                SessionState::Failed(e) => r matches Some(Err(re)) && *re == e,
            },
    {
        match &self.session {
            SessionState::Unloaded => None,
            SessionState::Ready(s) => Some(Ok(s)),
            SessionState::Failed(e) => Some(Err(e)),
        }
    }

    /// Records the outcome of the one device-list fetch, which needs the
    /// session to be ready. A failure must be a fetch failure.
    pub fn record_devices(&mut self, outcome: Result<Vec<DeviceInfo>, Error>)
        requires
            old(self).spec_session() is Ready,
            old(self).spec_devices() is Unfetched,
            outcome matches Err(e) ==> e is DeviceFetchFailed,
        ensures
            final(self).spec_devices() == (match outcome {
                Ok(l) => DevicesState::Fetched(l),
                Err(e) => DevicesState::Failed(e),
            }),
            final(self).spec_session() == old(self).spec_session(),
            final(self).spec_target() == old(self).spec_target(),
    {
        match outcome {
            Ok(l) => {
                self.devices = DevicesState::Fetched(l);
            },
            Err(e) => {
                self.devices = DevicesState::Failed(e);
            },
        }
    }

    /// The memoized device list: the one recorded fetch outcome, or nothing
    /// if no fetch was recorded yet.
    pub fn get_device_list(&self) -> (r: Option<Result<&Vec<DeviceInfo>, &Error>>)
        ensures
            match self.spec_devices() {
                DevicesState::Unfetched => r is None,
                DevicesState::Fetched(l) => r matches Some(Ok(rl)) && *rl == l,
                DevicesState::Failed(e) => r matches Some(Err(re)) && *re == e,
            },
    {
        match &self.devices {
            DevicesState::Unfetched => None,
            DevicesState::Fetched(l) => Some(Ok(l)),
            DevicesState::Failed(e) => Some(Err(e)),
        }
    }

    /// Records the user's selection among the fetched devices: the target
    /// becomes the chosen device's identifier.
    pub fn record_selection(&mut self, choice: usize)
        requires
            old(self).spec_target() is None,
            old(self).spec_devices() matches DevicesState::Fetched(l) && choice < l@.len()
                && l@.len() >= 2,
        ensures
            (match old(self).spec_devices() {
                DevicesState::Fetched(l) => final(self).spec_target() == Some(
                    l@[choice as int].device_id,
                ),
                _ => false,
            }),
            final(self).spec_session() == old(self).spec_session(),
            final(self).spec_devices() == old(self).spec_devices(),
    {
        match &self.devices {
            DevicesState::Fetched(l) => {
                self.target = Some(l[choice].device_id.clone());
            },
            _ => {
                proof {
                    assert(false);
                }
            },
        }
    }
}

/// Law: with an explicitly supplied identifier the resolver resolves at
/// once, whatever the other cells hold. In particular it never asks for a
/// device fetch, so such an invocation works even when fetching would fail.
pub proof fn lemma_explicit_resolves_immediately(r: &Resolver, d: String)
    requires
        r.spec_target() == Some(d),
    ensures
        r.spec_resolve_step() == ResolveStep::Resolved(d),
        r.spec_resolve_step() != ResolveStep::NeedDevices,
        r.spec_resolve_step() != ResolveStep::NeedSession,
{
}

/// Law: once the session cell is filled, no later step asks to load it
/// again: the one recorded outcome is what every caller observes. Together
/// with `record_session`, which only accepts an unloaded cell, the session
/// load runs at most once per invocation.
pub proof fn lemma_session_loaded_at_most_once(r: &Resolver)
    requires
        !(r.spec_session() is Unloaded),
    ensures
        r.spec_resolve_step() != ResolveStep::NeedSession,
{
}

/// Law: once the device-list cell is filled, no later step asks to fetch it
/// again. Together with `record_devices`, which only accepts an unfetched
/// cell, the fetch runs at most once per invocation.
pub proof fn lemma_devices_fetched_at_most_once(r: &Resolver)
    requires
        !(r.spec_devices() is Unfetched),
    ensures
        r.spec_resolve_step() != ResolveStep::NeedDevices,
{
}

/// Law: the fetched device count drives resolution. Zero bound devices fail
/// with `NoDevicesBound`; exactly one resolves to it with no selection; two
/// or more ask for one interactive selection.
pub proof fn lemma_device_count_drives_resolution(r: &Resolver, l: Vec<DeviceInfo>)
    requires
        r.spec_target() is None,
        r.spec_session() is Ready,
        r.spec_devices() == DevicesState::Fetched(l),
    ensures
        l@.len() == 0 ==> r.spec_resolve_step() == ResolveStep::Failed(Error::NoDevicesBound),
        l@.len() == 1 ==> r.spec_resolve_step() == ResolveStep::Resolved(l@[0].device_id),
        l@.len() >= 2 ==> r.spec_resolve_step() == ResolveStep::NeedSelection,
{
}

} // verus!
