//! Which of the machine's disks are offered as removable drives.
//!
//! The caller enumerates the disks and hands in, for each, its name, where
//! it is mounted, and whether the system calls it removable.

use vstd::prelude::*;
use vstd::string::StringExecFns;
use crate::text::{contains, has_infix, has_prefix, starts_with};

verus! {

/// A disk of the machine.
#[derive(Debug, PartialEq, Eq)]
pub struct DiskInfo {
    pub name: String,
    pub mount_point: String,
    /// Whether the system calls the disk removable.
    pub removable: bool,
}

/// A `DiskInfo` with its texts as characters.
pub struct DiskView {
    pub name: Seq<char>,
    pub mount_point: Seq<char>,
    pub removable: bool,
}

impl View for DiskInfo {
    type V = DiskView;

    open spec fn view(&self) -> DiskView {
        DiskView { name: self.name@, mount_point: self.mount_point@, removable: self.removable }
    }
}

/// A drive as it is offered for import.
#[derive(Debug, PartialEq, Eq)]
pub struct RemovableDrive {
    /// The name of the disk, with a word on what it is.
    pub name: String,
    pub mount_point: String,
    /// The name of the disk.
    pub device_id: String,
}

/// A `RemovableDrive` with its texts as characters.
pub struct DriveView {
    pub name: Seq<char>,
    pub mount_point: Seq<char>,
    pub device_id: Seq<char>,
}

impl View for RemovableDrive {
    type V = DriveView;

    open spec fn view(&self) -> DriveView {
        DriveView { name: self.name@, mount_point: self.mount_point@, device_id: self.device_id@ }
    }
}

impl DiskView {
    /// Whether the disk is offered: one that the system calls removable,
    /// one mounted where removable media are mounted, or one whose name
    /// tells of a card or a USB drive.
    pub open spec fn offered(self) -> bool {
        ||| self.removable
        ||| has_prefix(self.mount_point, "/media/"@)
        ||| has_prefix(self.mount_point, "/mnt/"@)
        ||| has_prefix(self.mount_point, "/run/media/"@)
        ||| has_infix(self.name, "sd"@)
        ||| has_infix(self.name, "usb"@)
        ||| has_infix(self.name, "removable"@)
    }

    /// The word on what the disk is.
    pub open spec fn sort(self) -> Seq<char> {
        if self.removable {
            "removable"@
        } else {
            "mounted"@
        }
    }

    /// The drive that the disk is offered as.
    pub open spec fn drive(self) -> DriveView {
        DriveView {
            name: self.name + " ("@ + self.sort() + ")"@,
            mount_point: self.mount_point,
            device_id: self.name,
        }
    }
}

/// The views of the disks.
pub open spec fn disk_views(disks: Seq<DiskInfo>) -> Seq<DiskView> {
    Seq::new(disks.len(), |i: int| disks[i]@)
}

/// The views of the drives.
pub open spec fn drive_views(drives: Seq<RemovableDrive>) -> Seq<DriveView> {
    Seq::new(drives.len(), |i: int| drives[i]@)
}

/// The drives that are offered of the disks given, in their order.
pub open spec fn drives_of(disks: Seq<DiskView>) -> Seq<DriveView>
    decreases disks.len(),
{
    if disks.len() == 0 {
        Seq::empty()
    } else if disks.last().offered() {
        drives_of(disks.drop_last()).push(disks.last().drive())
    } else {
        drives_of(disks.drop_last())
    }
}

/// Whether the disk is offered.
pub fn is_offered(disk: &DiskInfo) -> (r: bool)
    ensures
        r == disk@.offered(),
{
    let mount = disk.mount_point.as_str();
    let name = disk.name.as_str();
    disk.removable || starts_with(mount, "/media/") || starts_with(mount, "/mnt/") || starts_with(
        mount,
        "/run/media/",
    ) || contains(name, "sd") || contains(name, "usb") || contains(name, "removable")
}

/// The drive that the disk is offered as.
pub fn drive_for(disk: &DiskInfo) -> (r: RemovableDrive)
    ensures
        r@ == disk@.drive(),
{
    let mut name = disk.name.clone();
    name.append(" (");
    name.append(
        if disk.removable {
            "removable"
        } else {
            "mounted"
        },
    );
    name.append(")");
    RemovableDrive { name, mount_point: disk.mount_point.clone(), device_id: disk.name.clone() }
}

/// The drives that are offered of the disks given, in their order.
pub fn removable_drives(disks: &Vec<DiskInfo>) -> (r: Vec<RemovableDrive>)
    ensures
        drive_views(r@) == drives_of(disk_views(disks@)),
{
    let mut out: Vec<RemovableDrive> = Vec::new();
    let n: usize = disks.len();
    let mut i: usize = 0;
    assert(disk_views(disks@).take(0) =~= Seq::empty());
    assert(drive_views(out@) =~= Seq::empty());
    while i < n
        invariant
            i <= n,
            n == disks@.len(),
            drive_views(out@) == drives_of(disk_views(disks@).take(i as int)),
        decreases n - i,
    {
        let ghost prefix = disk_views(disks@).take(i as int);
        let ghost next = disk_views(disks@).take(i + 1);
        assert(next.drop_last() =~= prefix);
        assert(next.last() == disks@[i as int]@);
        if is_offered(&disks[i]) {
            let ghost before = drive_views(out@);
            out.push(drive_for(&disks[i]));
            assert(drive_views(out@) =~= before.push(disks@[i as int]@.drive()));
        }
        i += 1;
    }
    assert(disk_views(disks@).take(n as int) =~= disk_views(disks@));
    out
}

} // verus!
