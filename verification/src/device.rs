//! Device identity, the validated device record, and the catalog step that
//! turns raw probe results into records.

use vstd::prelude::*;
use crate::errors::RunError;
use crate::version::VersionNumber;

verus! {

/// USB product id of the full-size device.
pub const PID_GOXLR_FULL: u16 = 0x8fe0;

/// USB product id of the compact device.
pub const PID_GOXLR_MINI: u16 = 0x8fe4;

/// The device class a product id resolves to.
#[derive(Debug, Clone, Copy, PartialEq, Eq, Structural)]
pub enum DeviceType {
    Full,
    Mini,
}

/// Identity of a physical bus slot: two enumerations that report the same
/// bus number, address and hardware identifier refer to the same device.
#[derive(Debug, Clone, Hash, Eq, PartialEq)]
pub struct DeviceLocal {
    pub bus_number: u8,
    pub address: u8,
    pub identifier: Option<String>,
}

/// Whether two physical identities name the same bus slot (the identifier
/// strings compare by content).
pub open spec fn id_eq_spec(a: DeviceLocal, b: DeviceLocal) -> bool {
    &&& a.bus_number == b.bus_number
    &&& a.address == b.address
    &&& match (a.identifier, b.identifier) {
        (Some(x), Some(y)) => x@ == y@,
        (None, None) => true,
        _ => false,
    }
}

impl DeviceLocal {
    /// Decides whether this identity and another name the same bus slot.
    pub fn same_id(&self, other: &DeviceLocal) -> (r: bool)
        ensures
            r == id_eq_spec(*self, *other),
    {
        if self.bus_number != other.bus_number {
            return false;
        }
        if self.address != other.address {
            return false;
        }
        match (&self.identifier, &other.identifier) {
            (Some(x), Some(y)) => x.eq(y),
            (None, None) => true,
            _ => false,
        }
    }
}

/// A fully validated device record: produced only when the device class,
/// a non-empty serial and the firmware version were all retrieved.
#[derive(Debug, Clone)]
pub struct Device {
    pub device_type: DeviceType,
    pub device_serial: String,
    pub version: VersionNumber,
    pub goxlr_device: DeviceLocal,
}

/// What the transport reported for one connected device: each step of the
/// descriptor -> serial -> firmware chain either answered or did not.
#[derive(Debug)]
pub struct DeviceProbe {
    pub id: DeviceLocal,
    pub product_id: Option<u16>,
    pub serial: Option<String>,
    pub firmware: Option<VersionNumber>,
}

/// The device class for a product id; unknown ids resolve to nothing.
pub open spec fn device_type_of_pid_spec(pid: u16) -> Option<DeviceType> {
    if pid == PID_GOXLR_FULL {
        Some(DeviceType::Full)
    } else if pid == PID_GOXLR_MINI {
        Some(DeviceType::Mini)
    } else {
        None
    }
}

/// Maps a USB product id to the device class, if it is a known one.
pub fn device_type_of_pid(pid: u16) -> (r: Option<DeviceType>)
    ensures
        r == device_type_of_pid_spec(pid),
{
    if pid == PID_GOXLR_FULL {
        Some(DeviceType::Full)
    } else if pid == PID_GOXLR_MINI {
        Some(DeviceType::Mini)
    } else {
        None
    }
}

/// The record a probe yields: one only when the product id is known, the
/// serial answered and is non-empty, and the firmware answered.
pub open spec fn catalog_entry_spec(p: DeviceProbe) -> Option<Device> {
    match p.product_id {
        Some(pid) => match device_type_of_pid_spec(pid) {
            Some(dt) => match p.serial {
                Some(s) => if s@.len() == 0 {
                    None
                } else {
                    match p.firmware {
                        Some(fw) => Some(
                            Device {
                                device_type: dt,
                                device_serial: s,
                                version: fw,
                                goxlr_device: p.id,
                            },
                        ),
                        None => None,
                    }
                },
                None => None,
            },
            None => None,
        },
        None => None,
    }
}

/// Validates one probe result into a device record, or discards it. A device
/// whose descriptor, serial or firmware retrieval failed, whose product id is
/// unknown, or whose serial is empty yields no record.
pub fn catalog_entry(probe: DeviceProbe) -> (r: Option<Device>)
    ensures
        r == catalog_entry_spec(probe),
        r is Some ==> r.unwrap().device_serial@.len() > 0,
{
    let DeviceProbe { id, product_id, serial, firmware } = probe;
    let pid = match product_id {
        Some(pid) => pid,
        None => {
            return None;
        },
    };
    let dt = match device_type_of_pid(pid) {
        Some(dt) => dt,
        None => {
            return None;
        },
    };
    let s = match serial {
        Some(s) => s,
        None => {
            return None;
        },
    };
    if s.as_str().is_empty() {
        return None;
    }
    let fw = match firmware {
        Some(fw) => fw,
        None => {
            return None;
        },
    };
    Some(Device { device_type: dt, device_serial: s, version: fw, goxlr_device: id })
}

/// The records that a sequence of probes yields, in probe order, failures
/// discarded.
pub open spec fn catalog_spec(s: Seq<DeviceProbe>) -> Seq<Device>
    decreases s.len(),
{
    if s.len() == 0 {
        Seq::empty()
    } else {
        match catalog_entry_spec(s[0]) {
            Some(d) => seq![d] + catalog_spec(s.drop_first()),
            None => catalog_spec(s.drop_first()),
        }
    }
}

/// Folds raw probe results into the list of validated device records:
/// best-effort enumeration, where one failed device never hides the rest.
pub fn catalog(raw: Vec<DeviceProbe>) -> (r: Vec<Device>)
    ensures
        r@ == catalog_spec(raw@),
{
    let ghost raw0 = raw@;
    let mut rest = raw;
    let mut out: Vec<Device> = Vec::new();
    proof {
        assert(out@ + catalog_spec(rest@) =~= catalog_spec(raw0));
    }
    while rest.len() > 0
        invariant
            out@ + catalog_spec(rest@) == catalog_spec(raw0),
        decreases rest.len(),
    {
        let ghost rest0 = rest@;
        let ghost out0 = out@;
        let probe = rest.remove(0);
        proof {
            assert(rest@ =~= rest0.drop_first());
        }
        match catalog_entry(probe) {
            Some(d) => {
                out.push(d);
                proof {
                    assert(out@ + catalog_spec(rest@) =~= out0 + catalog_spec(rest0));
                }
            },
            None => {
                proof {
                    assert(out@ + catalog_spec(rest@) =~= out0 + catalog_spec(rest0));
                }
            },
        }
    }
    proof {
        assert(out@ =~= catalog_spec(raw0));
    }
    out
}

/// Every record the catalog yields carries a non-empty serial, and each one
/// is exactly what some probe of the input validated to: no record appears
/// unless its device answered the whole descriptor, serial and firmware
/// chain.
pub proof fn lemma_catalog_records_valid(s: Seq<DeviceProbe>)
    ensures
        forall|i: int|
            0 <= i < catalog_spec(s).len() ==> (#[trigger] catalog_spec(s)[i]).device_serial@.len()
                > 0,
        forall|i: int|
            0 <= i < catalog_spec(s).len() ==> exists|j: int|
                0 <= j < s.len() && catalog_entry_spec(#[trigger] s[j]) == Some(
                    #[trigger] catalog_spec(s)[i],
                ),
    decreases s.len(),
{
    if s.len() > 0 {
        lemma_catalog_records_valid(s.drop_first());
        let rest = catalog_spec(s.drop_first());
        assert forall|i: int| 0 <= i < rest.len() implies exists|j: int|
            0 <= j < s.len() && catalog_entry_spec(#[trigger] s[j]) == Some(#[trigger] rest[i]) by {
            let j0 = choose|j: int|
                0 <= j < s.drop_first().len() && catalog_entry_spec(s.drop_first()[j]) == Some(
                    rest[i],
                );
            assert(s.drop_first()[j0] == s[j0 + 1]);
            assert(catalog_entry_spec(s[j0 + 1]) == Some(rest[i]));
        }
        match catalog_entry_spec(s[0]) {
            Some(d) => {
                assert(catalog_spec(s) == seq![d] + rest);
                assert(catalog_spec(s)[0] == d);
                assert(d.device_serial@.len() > 0);
                assert forall|i: int| 1 <= i < catalog_spec(s).len() implies (
                #[trigger] catalog_spec(s)[i]) == rest[i - 1] by {}
            },
            None => {
                assert(catalog_spec(s) == rest);
            },
        }
    }
}

/// Picks the device the test plan runs on: the first full-size record.
/// An empty discovery aborts with `NoDevices`; a discovery that found only
/// compact devices aborts with `NoFullDevice`, before any fader command is
/// issued.
pub fn select_device(devices: &Vec<Device>) -> (r: Result<usize, RunError>)
    ensures
        devices@.len() == 0 ==> r == Err::<usize, RunError>(RunError::NoDevices),
        r matches Ok(i) ==> 0 <= i < devices@.len() && devices@[i as int].device_type
            == DeviceType::Full && (forall|j: int|
            0 <= j < i ==> devices@[j].device_type != DeviceType::Full),
        r is Ok <==> exists|j: int|
            0 <= j < devices@.len() && devices@[j].device_type == DeviceType::Full,
        devices@.len() > 0 && (forall|j: int|
            0 <= j < devices@.len() ==> devices@[j].device_type != DeviceType::Full) ==> r
            == Err::<usize, RunError>(RunError::NoFullDevice),
{
    if devices.len() == 0 {
        return Err(RunError::NoDevices);
    }
    let mut i: usize = 0;
    while i < devices.len()
        invariant
            0 <= i <= devices@.len(),
            forall|j: int| 0 <= j < i ==> devices@[j].device_type != DeviceType::Full,
        decreases devices@.len() - i,
    {
        if matches!(devices[i].device_type, DeviceType::Full) {
            return Ok(i);
        }
        i = i + 1;
    }
    Err(RunError::NoFullDevice)
}

} // verus!
