//! Device-compatibility classification from USB vendor/product ID pairs.

use vstd::prelude::*;

verus! {

/// The USB vendor ID owning the supported product line.
pub const BOSE_VID: u16 = 0x05a7;

/// A USB vendor ID and product ID pair.
#[derive(Copy, Clone, Debug, PartialEq, Eq, Structural)]
pub struct UsbId {
    pub vid: u16,
    pub pid: u16,
}

/// The two USB IDs a single known physical device uses, one per mode.
#[derive(Copy, Clone, Debug, PartialEq, Eq, Structural)]
pub struct DeviceIds {
    pub normal_mode: UsbId,
    pub dfu_mode: UsbId,
}

/// A table entry for a known device of the product line: both of its IDs
/// share the product line's vendor ID.
pub open spec fn spec_bose_dev(normal_pid: u16, dfu_pid: u16) -> DeviceIds {
    DeviceIds {
        normal_mode: UsbId { vid: BOSE_VID, pid: normal_pid },
        dfu_mode: UsbId { vid: BOSE_VID, pid: dfu_pid },
    }
}

fn bose_dev(normal_pid: u16, dfu_pid: u16) -> (r: DeviceIds)
    ensures
        r == spec_bose_dev(normal_pid, dfu_pid),
{
    DeviceIds {
        normal_mode: UsbId { vid: BOSE_VID, pid: normal_pid },
        dfu_mode: UsbId { vid: BOSE_VID, pid: dfu_pid },
    }
}

/// The static table of devices known to speak this DFU dialect.
pub open spec fn spec_compatible_devices() -> Seq<DeviceIds> {
    // Bose Color II SoundLink
    seq![spec_bose_dev(0x40fe, 0x400d)]
}

/// Immutable lookup table of known device ID pairs.
pub fn compatible_devices() -> (r: Vec<DeviceIds>)
    ensures
        r@ == spec_compatible_devices(),
{
    let mut table: Vec<DeviceIds> = Vec::new();
    table.push(bose_dev(0x40fe, 0x400d));
    proof {
        assert(table@ =~= spec_compatible_devices());
    }
    table
}

/// Modes a device can be in. Can be unknown.
#[derive(Copy, Clone, Debug, PartialEq, Eq, Structural)]
pub enum DeviceMode {
    Normal,
    Dfu,
    Unknown,
}

/// Compatibility of a device, with detected mode if applicable.
#[derive(Copy, Clone, Debug, PartialEq, Eq, Structural)]
pub enum DeviceCompat {
    /// Known to speak this DFU dialect. Usable by default.
    Compatible(DeviceMode),
    /// May speak this DFU dialect but has not been tested. Usable only with
    /// an explicit override. Mode currently always [`DeviceMode::Unknown`].
    Untested(DeviceMode),
    /// Definitely does not speak this DFU dialect. Treated as nonexistent.
    Incompatible,
}

impl DeviceIds {
    /// Which of this entry's modes uses the given ID, if either.
    pub open spec fn spec_match_id(self, id: UsbId) -> Option<DeviceMode> {
        if id == self.normal_mode {
            Some(DeviceMode::Normal)
        } else if id == self.dfu_mode {
            Some(DeviceMode::Dfu)
        } else {
            None
        }
    }

    /// If one of our modes uses the given ID, return it. Otherwise, return [`None`].
    fn match_id(&self, id: UsbId) -> (r: Option<DeviceMode>)
        ensures
            r == self.spec_match_id(id),
    {
        if id == self.normal_mode {
            Some(DeviceMode::Normal)
        } else if id == self.dfu_mode {
            Some(DeviceMode::Dfu)
        } else {
            None
        }
    }
}

/// Classification of an arbitrary (vendor, product) pair: a recognized entry
/// of the device table is compatible in that entry's mode; an unrecognized
/// product of the line's vendor is untested with unknown mode; anything else
/// is incompatible.
pub open spec fn spec_classify(id: UsbId) -> DeviceCompat {
    if spec_compatible_devices()[0].spec_match_id(id) is Some {
        DeviceCompat::Compatible(spec_compatible_devices()[0].spec_match_id(id)->0)
    } else if id.vid == BOSE_VID {
        DeviceCompat::Untested(DeviceMode::Unknown)
    } else {
        DeviceCompat::Incompatible
    }
}

/// Find a device's compatibility and mode based on its USB ID.
pub fn identify_device(id: UsbId) -> (r: DeviceCompat)
    ensures
        r == spec_classify(id),
{
    // First, see if the device is known to us.
    let table = compatible_devices();
    let mut i: usize = 0;
    while i < table.len()
        invariant
            0 <= i <= table@.len(),
            table@ == spec_compatible_devices(),
            forall|j: int| 0 <= j < i ==> table@[j].spec_match_id(id) is None,
        decreases table@.len() - i,
    {
        if let Some(mode) = table[i].match_id(id) {
            return DeviceCompat::Compatible(mode);
        }
        i = i + 1;
    }

    // If not, mark it as untested if it has the product line's vendor ID.
    if id.vid == BOSE_VID {
        DeviceCompat::Untested(DeviceMode::Unknown)
    } else {
        DeviceCompat::Incompatible
    }
}

/// Risks a caller accepts by operating on a classified device. Both must
/// be explicitly overridden before proceeding.
#[derive(Copy, Clone, Debug, PartialEq, Eq, Structural)]
pub struct DeviceRisks {
    /// The device has not been tested with this DFU dialect and might be
    /// damaged by it.
    pub untested: bool,
    /// The operation needs a specific mode, and the device's mode cannot be
    /// determined.
    pub ambiguous_mode: bool,
}

/// Risk derivation over a classification and the mode an operation
/// requires: an incompatible device never matches; a device whose detected
/// mode contradicts a required mode never matches; an untested
/// classification is risky; an unknown detected mode is ambiguous exactly
/// when a specific mode was required.
pub open spec fn spec_assess_risks(
    compat: DeviceCompat,
    required_mode: Option<DeviceMode>,
) -> Option<DeviceRisks> {
    let (untested, mode) = match compat {
        DeviceCompat::Compatible(mode) => (false, mode),
        DeviceCompat::Untested(mode) => (true, mode),
        DeviceCompat::Incompatible => (false, DeviceMode::Unknown),
    };
    if compat is Incompatible {
        None
    } else {
        match required_mode {
            None => Some(DeviceRisks { untested, ambiguous_mode: false }),
            Some(req_mode) => if mode == DeviceMode::Unknown {
                Some(DeviceRisks { untested, ambiguous_mode: true })
            } else if mode == req_mode {
                Some(DeviceRisks { untested, ambiguous_mode: false })
            } else {
                None
            },
        }
    }
}

/// If a device with the given classification is usable for an operation
/// that requires the given mode, return the risks of proceeding with it.
/// Otherwise, return [`None`].
pub fn assess_risks(compat: DeviceCompat, required_mode: Option<DeviceMode>) -> (r: Option<
    DeviceRisks,
>)
    ensures
        r == spec_assess_risks(compat, required_mode),
{
    let (untested, mode) = match compat {
        DeviceCompat::Compatible(mode) => (false, mode),
        DeviceCompat::Untested(mode) => (true, mode),
        DeviceCompat::Incompatible => {
            return None;
        },
    };

    let ambiguous_mode = match required_mode {
        None => false,
        Some(_) if mode == DeviceMode::Unknown => true,
        Some(req_mode) if mode == req_mode => false,
        _ => {
            return None;
        },
    };

    Some(DeviceRisks { untested, ambiguous_mode })
}

/// The classifier is total and deterministic: a known (vendor, normal-pid)
/// pair is compatible in normal mode, a known (vendor, dfu-pid) pair is
/// compatible in DFU mode, an unrecognized product of the line's vendor is
/// untested with unknown mode, and any other vendor is incompatible.
pub proof fn lemma_classify_cases(id: UsbId)
    ensures
        id == (UsbId { vid: 0x05a7, pid: 0x40fe }) ==> spec_classify(id) == DeviceCompat::Compatible(
            DeviceMode::Normal,
        ),
        id == (UsbId { vid: 0x05a7, pid: 0x400d }) ==> spec_classify(id) == DeviceCompat::Compatible(
            DeviceMode::Dfu,
        ),
        id.vid == 0x05a7 && id.pid != 0x40fe && id.pid != 0x400d ==> spec_classify(id)
            == DeviceCompat::Untested(DeviceMode::Unknown),
        id.vid != 0x05a7 ==> spec_classify(id) == DeviceCompat::Incompatible,
{
}

} // verus!
