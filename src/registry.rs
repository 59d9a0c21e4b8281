//! The device registry as the session core sees it: device records, the
//! status patch builder, and the authorization decision.
use vstd::prelude::*;
use crate::identity::{bytes_equal, PublicKey};
use crate::server::AuthorizationResult;

verus! {

/// Connection phase of a device.
#[derive(Debug, Clone, Copy, PartialEq, Eq, Structural)]
pub enum DevicePhase {
    Pending,
    Connected,
    Disconnected,
}

impl Default for DevicePhase {
    fn default() -> (r: Self)
        ensures
            r == DevicePhase::Pending,
    {
        DevicePhase::Pending
    }
}

/// A point in time, in milliseconds since the Unix epoch (UTC). The caller
/// reads the clock; the library only records what it is given.
#[derive(Debug, Clone, Copy, PartialEq, Eq, Structural)]
pub struct Timestamp {
    pub millis: i64,
}

/// Reference to the gateway pod a device is connected to.
#[derive(Debug, Clone)]
pub struct GatewayReference {
    pub namespace: String,
    pub name: String,
}

impl GatewayReference {
    pub fn new(namespace: &str, name: &str) -> (r: Self)
        ensures
            r.namespace@ == namespace@,
            r.name@ == name@,
    {
        GatewayReference { namespace: namespace.to_owned(), name: name.to_owned() }
    }
}

/// The status part of a device record.
#[derive(Debug, Clone)]
pub struct DeviceStatus {
    pub phase: DevicePhase,
    pub gateway: Option<GatewayReference>,
    pub connected_since: Option<Timestamp>,
    pub last_heartbeat: Option<Timestamp>,
}

/// Status of a device that has none recorded yet.
pub open spec fn spec_initial_status() -> DeviceStatus {
    DeviceStatus { phase: DevicePhase::Pending, gateway: None, connected_since: None, last_heartbeat: None }
}

impl DeviceStatus {
    pub fn initial() -> (r: Self)
        ensures
            r == spec_initial_status(),
    {
        DeviceStatus { phase: DevicePhase::Pending, gateway: None, connected_since: None, last_heartbeat: None }
    }
}

/// A device as the registry records it.
#[derive(Debug, Clone)]
pub struct DeviceRecord {
    /// Stable name; a record without one cannot be updated.
    pub name: Option<String>,
    pub public_key: PublicKey,
    pub status: Option<DeviceStatus>,
}

/// Why a registry operation failed.
#[derive(Debug, Clone, Copy, PartialEq, Eq, Structural)]
pub enum RegistryError {
    /// The record has no name to address it by.
    Unnamed,
    /// The registry could not be reached or refused the request for now.
    TransientFailure,
}

/// Changes to a device status. Each field is `None` to leave it as it is;
/// a nullable field is `Some(None)` to clear it.
#[derive(Debug)]
pub struct DeviceStatusUpdate {
    pub phase: Option<DevicePhase>,
    pub gateway: Option<Option<GatewayReference>>,
    pub connected_since: Option<Option<Timestamp>>,
    pub last_heartbeat: Option<Option<Timestamp>>,
}

/// The status after `u` is applied to `s`.
pub open spec fn spec_patched(u: DeviceStatusUpdate, s: Option<DeviceStatus>) -> DeviceStatus {
    let base = match s {
        Some(x) => x,
        None => spec_initial_status(),
    };
    DeviceStatus {
        phase: match u.phase {
            Some(p) => p,
            None => base.phase,
        },
        gateway: match u.gateway {
            Some(g) => g,
            None => base.gateway,
        },
        connected_since: match u.connected_since {
            Some(t) => t,
            None => base.connected_since,
        },
        last_heartbeat: match u.last_heartbeat {
            Some(t) => t,
            None => base.last_heartbeat,
        },
    }
}

impl Default for DeviceStatusUpdate {
    fn default() -> (r: Self)
        ensures
            r.phase is None,
            r.gateway is None,
            r.connected_since is None,
            r.last_heartbeat is None,
    {
        DeviceStatusUpdate { phase: None, gateway: None, connected_since: None, last_heartbeat: None }
    }
}

impl DeviceStatusUpdate {
    /// An update that changes nothing.
    pub fn new() -> (r: Self)
        ensures
            r.phase is None,
            r.gateway is None,
            r.connected_since is None,
            r.last_heartbeat is None,
    {
        DeviceStatusUpdate { phase: None, gateway: None, connected_since: None, last_heartbeat: None }
    }

    pub fn phase(self, phase: DevicePhase) -> (r: Self)
        ensures
            r == (DeviceStatusUpdate { phase: Some(phase), ..self }),
    {
        DeviceStatusUpdate { phase: Some(phase), ..self }
    }

    pub fn gateway(self, gateway: Option<GatewayReference>) -> (r: Self)
        ensures
            r == (DeviceStatusUpdate { gateway: Some(gateway), ..self }),
    {
        DeviceStatusUpdate { gateway: Some(gateway), ..self }
    }

    pub fn connected_since(self, timestamp: Option<Timestamp>) -> (r: Self)
        ensures
            r == (DeviceStatusUpdate { connected_since: Some(timestamp), ..self }),
    {
        DeviceStatusUpdate { connected_since: Some(timestamp), ..self }
    }

    pub fn last_heartbeat(self, timestamp: Option<Timestamp>) -> (r: Self)
        ensures
            r == (DeviceStatusUpdate { last_heartbeat: Some(timestamp), ..self }),
    {
        DeviceStatusUpdate { last_heartbeat: Some(timestamp), ..self }
    }

    /// Connected to `gateway` since `at`.
    pub fn mark_connected(self, gateway: GatewayReference, at: Timestamp) -> (r: Self)
        ensures
            r == (DeviceStatusUpdate {
                phase: Some(DevicePhase::Connected),
                gateway: Some(Some(gateway)),
                connected_since: Some(Some(at)),
                ..self
            }),
    {
        self.phase(DevicePhase::Connected).gateway(Some(gateway)).connected_since(Some(at))
    }

    /// Disconnected, with no gateway and no connection time.
    pub fn mark_disconnected(self) -> (r: Self)
        ensures
            r == (DeviceStatusUpdate {
                phase: Some(DevicePhase::Disconnected),
                gateway: Some(None),
                connected_since: Some(None),
                ..self
            }),
    {
        self.phase(DevicePhase::Disconnected).gateway(None).connected_since(None)
    }

    /// Last heartbeat seen at `at`.
    pub fn update_heartbeat(self, at: Timestamp) -> (r: Self)
        ensures
            r == (DeviceStatusUpdate { last_heartbeat: Some(Some(at)), ..self }),
    {
        self.last_heartbeat(Some(at))
    }

    /// The status that results from applying this update to `status`.
    pub fn patch(self, status: Option<DeviceStatus>) -> (r: DeviceStatus)
        ensures
            r == spec_patched(self, status),
    {
        let base = match status {
            Some(x) => x,
            None => DeviceStatus::initial(),
        };
        DeviceStatus {
            phase: match self.phase {
                Some(p) => p,
                None => base.phase,
            },
            gateway: match self.gateway {
                Some(g) => g,
                None => base.gateway,
            },
            connected_since: match self.connected_since {
                Some(t) => t,
                None => base.connected_since,
            },
            last_heartbeat: match self.last_heartbeat {
                Some(t) => t,
                None => base.last_heartbeat,
            },
        }
    }

    /// The record after this update: refused for a record without a name.
    pub fn apply(self, device: DeviceRecord) -> (r: Result<DeviceRecord, RegistryError>)
        ensures
            device.name is None ==> r == Err::<DeviceRecord, RegistryError>(RegistryError::Unnamed),
            device.name is Some ==> r == Ok::<DeviceRecord, RegistryError>(
                DeviceRecord { status: Some(spec_patched(self, device.status)), ..device },
            ),
    {
        if device.name.is_none() {
            return Err(RegistryError::Unnamed);
        }
        let DeviceRecord { name, public_key, status } = device;
        let patched = self.patch(status);
        Ok(DeviceRecord { name, public_key, status: Some(patched) })
    }
}

/// Device registry held in memory.
pub struct MemoryRegistry {
    devices: Vec<DeviceRecord>,
}

impl MemoryRegistry {
    /// The records in the order they were added.
    pub closed spec fn records(&self) -> Seq<DeviceRecord> {
        self.devices@
    }

    pub fn new() -> (r: Self)
        ensures
            r.records() == Seq::<DeviceRecord>::empty(),
    {
        MemoryRegistry { devices: Vec::new() }
    }

    pub fn add(&mut self, record: DeviceRecord)
        ensures
            final(self).records() == old(self).records().push(record),
    {
        self.devices.push(record);
    }

    /// Position of the first record whose identity is `key`.
    pub fn find_by_identity(&self, key: &PublicKey) -> (r: Option<usize>)
        ensures
            r matches Some(i) ==> i < self.records().len() && self.records()[i as int].public_key@ == key@
                && forall|j: int| 0 <= j < i ==> (#[trigger] self.records()[j]).public_key@ != key@,
            r is None ==> forall|j: int| 0 <= j < self.records().len() ==> (#[trigger] self.records()[j]).public_key@ != key@,
    {
        let mut i: usize = 0;
        while i < self.devices.len()
            invariant
                i <= self.devices@.len(),
                forall|j: int| 0 <= j < i ==> (#[trigger] self.devices@[j]).public_key@ != key@,
            decreases self.devices@.len() - i,
        {
            if bytes_equal(self.devices[i].public_key.as_bytes(), key.as_bytes()) {
                return Some(i);
            }
            i = i + 1;
        }
        None
    }

    pub fn record(&self, index: usize) -> (r: &DeviceRecord)
        requires
            index < self.records().len(),
        ensures
            *r == self.records()[index as int],
    {
        &self.devices[index]
    }

    /// Applies `patch` to the status of the record at `index`; a record
    /// without a name is left as it is.
    pub fn update_status(&mut self, index: usize, patch: DeviceStatusUpdate) -> (r: Result<(), RegistryError>)
        requires
            index < old(self).records().len(),
        ensures
            old(self).records()[index as int].name is None ==> r == Err::<(), RegistryError>(
                RegistryError::Unnamed,
            ) && final(self).records() == old(self).records(),
            old(self).records()[index as int].name is Some ==> r == Ok::<(), RegistryError>(())
                && final(self).records() == old(self).records().update(
                index as int,
                DeviceRecord {
                    status: Some(spec_patched(patch, old(self).records()[index as int].status)),
                    ..old(self).records()[index as int]
                },
            ),
    {
        if self.devices[index].name.is_none() {
            return Err(RegistryError::Unnamed);
        }
        let device = self.devices.remove(index);
        match patch.apply(device) {
            Ok(updated) => {
                self.devices.insert(index, updated);
                assert(self.records() =~= old(self).records().update(
                    index as int,
                    DeviceRecord {
                        status: Some(spec_patched(patch, old(self).records()[index as int].status)),
                        ..old(self).records()[index as int]
                    },
                ));
                Ok(())
            },
            Err(e) => Err(e),
        }
    }
}

/// The connect decision from a registry lookup: a peer is authorized exactly
/// when the registry holds a record for it. A failed lookup refuses.
pub fn authorization_for(lookup: &Result<Option<DeviceRecord>, RegistryError>) -> (r: AuthorizationResult)
    ensures
        r == (if lookup matches Ok(Some(_)) {
            AuthorizationResult::Authorized
        } else {
            AuthorizationResult::Unauthorized
        }),
{
    match lookup {
        Ok(Some(_)) => AuthorizationResult::Authorized,
        _ => AuthorizationResult::Unauthorized,
    }
}

/// What connecting a peer does, from its registry lookup: the authorization
/// answer, and the status update to record when the device was found —
/// connected to `gateway` since `at`.
pub fn connect_outcome(
    lookup: &Result<Option<DeviceRecord>, RegistryError>,
    gateway: GatewayReference,
    at: Timestamp,
) -> (r: (AuthorizationResult, Option<DeviceStatusUpdate>))
    ensures
        r.0 == (if lookup matches Ok(Some(_)) {
            AuthorizationResult::Authorized
        } else {
            AuthorizationResult::Unauthorized
        }),
        lookup matches Ok(Some(_)) ==> r.1 == Some(
            DeviceStatusUpdate {
                phase: Some(DevicePhase::Connected),
                gateway: Some(Some(gateway)),
                connected_since: Some(Some(at)),
                last_heartbeat: None,
            },
        ),
        !(lookup matches Ok(Some(_))) ==> r.1 is None,
{
    let answer = authorization_for(lookup);
    match lookup {
        Ok(Some(_)) => (answer, Some(DeviceStatusUpdate::new().mark_connected(gateway, at))),
        _ => (answer, None),
    }
}

} // verus!
