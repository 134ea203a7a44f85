//! Finding optical drives among the devices that the operating system reports.
//!
//! On Linux the block devices come from `lsblk`; for development, fake drives come from JSON
//! files. Reading those is the application's part; choosing the optical drives and building
//! their descriptions is here.

use vstd::prelude::*;

use crate::drive::{DiscState, DiscView, OsOpticalDrive};
use crate::text::chars_of;

verus! {

/// A character with ASCII upper case letters mapped to lower case, as
/// `char::to_ascii_lowercase` maps them.
pub open spec fn ascii_lower(c: char) -> char {
    if 65 <= (c as u32) <= 90 {
        ((c as u32) + 32) as char
    } else {
        c
    }
}

/// Two texts are equal ignoring ASCII case, as `str::eq_ignore_ascii_case` compares them.
pub open spec fn eq_ignore_ascii_case(a: Seq<char>, b: Seq<char>) -> bool {
    &&& a.len() == b.len()
    &&& forall|i: int| 0 <= i < a.len() ==> ascii_lower(#[trigger] a[i]) == ascii_lower(b[i])
}

/// Maps an ASCII upper case letter to lower case.
fn to_ascii_lower(c: char) -> (l: char)
    ensures
        l == ascii_lower(c),
{
    let n = c as u32;
    if 65 <= n && n <= 90 {
        let m = (n + 32) as u8;
        m as char
    } else {
        c
    }
}

/// Compares two texts ignoring ASCII case.
pub fn str_eq_ignore_ascii_case(a: &str, b: &str) -> (r: bool)
    ensures
        r == eq_ignore_ascii_case(a@, b@),
{
    let x = chars_of(a);
    let y = chars_of(b);
    if x.len() != y.len() {
        return false;
    }
    let mut i: usize = 0;
    while i < x.len()
        invariant
            x@ == a@,
            y@ == b@,
            x.len() == y.len(),
            i <= x.len(),
            forall|j: int| 0 <= j < i ==> ascii_lower(#[trigger] x@[j]) == ascii_lower(y@[j]),
        decreases x.len() - i,
    {
        if to_ascii_lower(x[i]) != to_ascii_lower(y[i]) {
            return false;
        }
        i = i + 1;
    }
    true
}

/// A block device as `lsblk` reports it.
#[derive(Debug)]
pub struct BlockDevice {
    /// The type of block device; "rom" for optical drives.
    pub device_type: String,
    /// The block device's name (e.g. '/dev/sr0').
    pub name: String,
    /// The serial number; optical drives always have one, loop devices do not.
    pub serial_number: Option<String>,
    /// The label of the disc in the drive, when there is one.
    pub label: Option<String>,
    /// The identifier of the disc in the drive, when there is one.
    pub uuid: Option<String>,
}

/// The view of an optional text.
pub open spec fn opt_view(o: Option<String>) -> Option<Seq<char>> {
    match o {
        Some(s) => Some(s@),
        None => None,
    }
}

/// The block device is an optical drive: of type "rom" in any case, with a serial number.
pub open spec fn is_optical(d: BlockDevice) -> bool {
    eq_ignore_ascii_case(d.device_type@, "rom"@) && d.serial_number is Some
}

/// The block device has the serial number, ignoring ASCII case.
pub open spec fn has_serial(d: BlockDevice, serial_number: Seq<char>) -> bool {
    d.serial_number matches Some(sn) && eq_ignore_ascii_case(sn@, serial_number)
}

/// The disc that a device with this label and identifier holds: none without a label, and an
/// empty identifier when there is none.
pub open spec fn disc_of(label: Option<Seq<char>>, uuid: Option<Seq<char>>) -> DiscView {
    match label {
        None => DiscView::NoDisc,
        Some(l) => DiscView::Inserted {
            label: l,
            uuid: match uuid {
                Some(u) => u,
                None => Seq::empty(),
            },
        },
    }
}

impl BlockDevice {
    /// Returns `true` if the block device represents an optical drive block device.
    pub fn is_optical_drive(&self) -> (b: bool)
        ensures
            b == is_optical(*self),
    {
        str_eq_ignore_ascii_case(self.device_type.as_str(), "rom") && self.serial_number.is_some()
    }

    /// Returns `true` if the block device has serial number `serial_number`.
    pub fn has_serial_number(&self, serial_number: &str) -> (b: bool)
        ensures
            b == has_serial(*self, serial_number@),
    {
        match &self.serial_number {
            Some(sn) => str_eq_ignore_ascii_case(sn.as_str(), serial_number),
            None => false,
        }
    }

    /// Converts the block device to an optical drive description; the hostname is left empty.
    ///
    /// Only a device with a serial number, which every optical drive has, can be converted.
    pub fn to_optical_drive(&self) -> (d: OsOpticalDrive)
        requires
            self.serial_number is Some,
        ensures
            d.path@ == self.name@,
            d.serial_number@ == self.serial_number->0@,
            d.disc@ == disc_of(opt_view(self.label), opt_view(self.uuid)),
            d.hostname@.len() == 0,
    {
        let serial_number = match &self.serial_number {
            Some(sn) => sn.clone(),
            None => String::new(),
        };
        let disc = match &self.label {
            Some(label) => match &self.uuid {
                Some(uuid) => DiscState::Inserted { label: label.clone(), uuid: uuid.clone() },
                None => DiscState::Inserted { label: label.clone(), uuid: String::new() },
            },
            None => DiscState::NoDisc,
        };
        OsOpticalDrive { path: self.name.clone(), serial_number, disc, hostname: String::new() }
    }
}

/// The index of the first optical drive of the list with the serial number, if any.
pub open spec fn first_drive_with_serial(devices: Seq<BlockDevice>, serial_number: Seq<char>, i: int) -> bool {
    &&& 0 <= i < devices.len()
    &&& is_optical(devices[i]) && has_serial(devices[i], serial_number)
    &&& forall|j: int| 0 <= j < i ==> !(is_optical(#[trigger] devices[j]) && has_serial(devices[j], serial_number))
}

/// Finds the optical drive with the serial number among the block devices: the first optical
/// drive whose serial number matches, ignoring ASCII case.
pub fn find_optical_drive(devices: &Vec<BlockDevice>, serial_number: &str) -> (r: Option<OsOpticalDrive>)
    ensures
        match r {
            Some(d) => exists|i: int| {
                &&& first_drive_with_serial(devices@, serial_number@, i)
                &&& d.path@ == devices@[i].name@
                &&& d.serial_number@ == devices@[i].serial_number->0@
                &&& d.disc@ == disc_of(opt_view(devices@[i].label), opt_view(devices@[i].uuid))
                &&& d.hostname@.len() == 0
            },
            None => forall|i: int| 0 <= i < devices.len() ==> !(is_optical(#[trigger] devices@[i])
                && has_serial(devices@[i], serial_number@)),
        },
{
    let mut i: usize = 0;
    while i < devices.len()
        invariant
            i <= devices.len(),
            forall|j: int| 0 <= j < i ==> !(is_optical(#[trigger] devices@[j]) && has_serial(devices@[j], serial_number@)),
        decreases devices.len() - i,
    {
        let bd = &devices[i];
        if bd.is_optical_drive() && bd.has_serial_number(serial_number) {
            let d = bd.to_optical_drive();
            assert(first_drive_with_serial(devices@, serial_number@, i as int));
            return Some(d);
        }
        i = i + 1;
    }
    None
}

/// A fake disc, read from a fake drive's file.
#[derive(Clone, Debug)]
pub struct FauxDisc {
    pub label: String,
    pub uuid: String,
}

/// A fake drive, read from a JSON file, for development and tests without optical drives.
#[derive(Clone, Debug)]
pub struct FauxDrive {
    pub name: String,
    pub path: String,
    pub serial_number: String,
    pub disc: Option<FauxDisc>,
}

/// The disc of a fake drive.
pub open spec fn faux_disc_view(disc: Option<FauxDisc>) -> DiscView {
    match disc {
        Some(d) => DiscView::Inserted { label: d.label@, uuid: d.uuid@ },
        None => DiscView::NoDisc,
    }
}

impl FauxDrive {
    /// The description of the fake drive, as the operating system would report it; the
    /// hostname is left empty.
    pub fn into_os_drive(self) -> (d: OsOpticalDrive)
        ensures
            d.path@ == self.path@,
            d.serial_number@ == self.serial_number@,
            d.disc@ == faux_disc_view(self.disc),
            d.hostname@.len() == 0,
    {
        OsOpticalDrive {
            path: self.path,
            serial_number: self.serial_number,
            disc: match self.disc {
                Some(disc) => DiscState::Inserted { label: disc.label, uuid: disc.uuid },
                None => DiscState::NoDisc,
            },
            hostname: String::new(),
        }
    }
}

/// The descriptions of all the fake drives, in order.
pub fn get_optical_drives(drives: Vec<FauxDrive>) -> (r: Vec<OsOpticalDrive>)
    ensures
        r.len() == drives.len(),
        forall|i: int| 0 <= i < r.len() ==> {
            &&& (#[trigger] r@[i]).path@ == drives@[i].path@
            &&& r@[i].serial_number@ == drives@[i].serial_number@
            &&& r@[i].disc@ == faux_disc_view(drives@[i].disc)
            &&& r@[i].hostname@.len() == 0
        },
{
    let mut r: Vec<OsOpticalDrive> = Vec::new();
    let mut i: usize = 0;
    while i < drives.len()
        invariant
            i <= drives.len(),
            r.len() == i,
            forall|k: int| 0 <= k < i ==> {
                &&& (#[trigger] r@[k]).path@ == drives@[k].path@
                &&& r@[k].serial_number@ == drives@[k].serial_number@
                &&& r@[k].disc@ == faux_disc_view(drives@[k].disc)
                &&& r@[k].hostname@.len() == 0
            },
        decreases drives.len() - i,
    {
        let fd = FauxDrive {
            name: drives[i].name.clone(),
            path: drives[i].path.clone(),
            serial_number: drives[i].serial_number.clone(),
            disc: match &drives[i].disc {
                Some(d) => Some(FauxDisc { label: d.label.clone(), uuid: d.uuid.clone() }),
                None => None,
            },
        };
        r.push(fd.into_os_drive());
        i = i + 1;
    }
    r
}

/// The fake drive with exactly the serial number, if any: the first one.
pub fn get_faux_optical_drive(drives: &Vec<FauxDrive>, serial_number: &str) -> (r: Option<usize>)
    ensures
        match r {
            Some(i) => i < drives.len() && drives@[i as int].serial_number@ == serial_number@
                && forall|j: int| 0 <= j < i ==> (#[trigger] drives@[j]).serial_number@ != serial_number@,
            None => forall|j: int| 0 <= j < drives.len() ==> (#[trigger] drives@[j]).serial_number@ != serial_number@,
        },
{
    let mut i: usize = 0;
    while i < drives.len()
        invariant
            i <= drives.len(),
            forall|j: int| 0 <= j < i ==> (#[trigger] drives@[j]).serial_number@ != serial_number@,
        decreases drives.len() - i,
    {
        let sn = drives[i].serial_number.as_str();
        if crate::devices::str_equal(sn, serial_number) {
            return Some(i);
        }
        i = i + 1;
    }
    None
}

/// The description of the fake drive with exactly the serial number, if any.
pub fn get_optical_drive(drives: Vec<FauxDrive>, serial_number: &str) -> (r: Option<OsOpticalDrive>)
    ensures
        match r {
            Some(d) => exists|i: int| {
                &&& 0 <= i < drives.len()
                &&& drives@[i].serial_number@ == serial_number@
                &&& forall|j: int| 0 <= j < i ==> (#[trigger] drives@[j]).serial_number@ != serial_number@
                &&& d.path@ == drives@[i].path@
                &&& d.serial_number@ == serial_number@
                &&& d.disc@ == faux_disc_view(drives@[i].disc)
                &&& d.hostname@.len() == 0
            },
            None => forall|j: int| 0 <= j < drives.len() ==> (#[trigger] drives@[j]).serial_number@ != serial_number@,
        },
{
    match get_faux_optical_drive(&drives, serial_number) {
        Some(i) => {
            let all = get_optical_drives(drives);
            let d = all[i].clone_drive();
            Some(d)
        },
        None => None,
    }
}

/// Compares two texts exactly.
pub fn str_equal(a: &str, b: &str) -> (r: bool)
    ensures
        r == (a@ == b@),
{
    let x = chars_of(a);
    let y = chars_of(b);
    if x.len() != y.len() {
        return false;
    }
    let mut i: usize = 0;
    while i < x.len()
        invariant
            x@ == a@,
            y@ == b@,
            x.len() == y.len(),
            i <= x.len(),
            forall|j: int| 0 <= j < i ==> x@[j] == y@[j],
        decreases x.len() - i,
    {
        if x[i] != y[i] {
            assert(x@[i as int] != y@[i as int]);
            return false;
        }
        i = i + 1;
    }
    assert(x@ =~= y@);
    true
}

impl OsOpticalDrive {
    /// A copy of the description.
    pub fn clone_drive(&self) -> (d: OsOpticalDrive)
        ensures
            d.path@ == self.path@,
            d.serial_number@ == self.serial_number@,
            d.disc@ == self.disc@,
            d.hostname@ == self.hostname@,
    {
        OsOpticalDrive {
            path: self.path.clone(),
            serial_number: self.serial_number.clone(),
            disc: self.disc.duplicate(),
            hostname: self.hostname.clone(),
        }
    }
}

} // verus!
