//! Disks: the record of one mounted file system, built from what the
//! platform reports of it.

use crate::util::{copy_until_nul, until_nul};
use vstd::prelude::*;
use vstd::utf8::encode_utf8;

verus! {

/// The kind of a disk.
#[derive(Clone, Copy, Debug, PartialEq, Eq, Structural)]
pub enum DiskType {
    /// A disk with rotating platters.
    HDD,
    /// A solid-state disk.
    SSD,
    /// Not known; the code says why.
    Unknown(isize),
}

/// What the platform's description of a disk holds.
#[derive(Clone, Debug)]
pub struct DiskDescription {
    pub media_name: Option<String>,
    pub removable: Option<bool>,
    pub ejectable: Option<bool>,
    pub device_model: Option<String>,
}

/// Size figures of one mounted file system.
#[derive(Clone, Debug)]
pub struct RawStat {
    /// Size of a block in bytes.
    pub block_size: u32,
    /// Number of blocks in the file system.
    pub blocks: u64,
    /// Number of blocks free for an unprivileged user.
    pub blocks_available: u64,
    /// Name of the file system type, NUL-padded.
    pub fs_type_name: Vec<u8>,
}

/// One mounted file system as the platform listed it. What a query failed
/// to give is `None`.
#[derive(Clone, Debug)]
pub struct RawDisk {
    /// Where it is mounted, NUL-padded.
    pub mount_on_name: Vec<u8>,
    pub description: Option<DiskDescription>,
    pub stat: Option<RawStat>,
}

/// One disk.
#[derive(Clone, Debug)]
pub struct Disk {
    pub type_: DiskType,
    pub name: String,
    pub file_system: Vec<u8>,
    pub mount_point: Vec<u8>,
    pub total_space: u64,
    pub available_space: u64,
    pub is_removable: bool,
}

/// What a `Disk` holds.
pub ghost struct DiskView {
    pub type_: DiskType,
    pub name: Seq<char>,
    pub file_system: Seq<u8>,
    pub mount_point: Seq<u8>,
    pub total_space: u64,
    pub available_space: u64,
    pub is_removable: bool,
}

impl View for Disk {
    type V = DiskView;

    open spec fn view(&self) -> DiskView {
        DiskView {
            type_: self.type_,
            name: self.name@,
            file_system: self.file_system@,
            mount_point: self.mount_point@,
            total_space: self.total_space,
            available_space: self.available_space,
            is_removable: self.is_removable,
        }
    }
}

/// Whether the letters "SSD" stand at `at` in the bytes of a text.
pub open spec fn ssd_at(bytes: Seq<u8>, at: int) -> bool {
    &&& 0 <= at
    &&& at + 3 <= bytes.len()
    &&& bytes[at] == 0x53
    &&& bytes[at + 1] == 0x53
    &&& bytes[at + 2] == 0x44
}

/// Whether the letters "SSD" stand somewhere in the bytes of a text.
pub open spec fn names_ssd(bytes: Seq<u8>) -> bool {
    exists|at: int| ssd_at(bytes, at)
}

/// The kind of a disk by the model name of its device: solid-state where
/// the name says so, rotating otherwise, unknown without a name.
pub open spec fn disk_type_of(model: Option<String>) -> DiskType {
    match model {
        Some(m) => if names_ssd(encode_utf8(m@)) {
            DiskType::SSD
        } else {
            DiskType::HDD
        },
        None => DiskType::Unknown(-1isize),
    }
}

/// A number of blocks in bytes; the largest number that fits where the
/// product does not.
pub open spec fn space(block_size: u32, blocks: u64) -> u64 {
    if block_size * blocks > u64::MAX {
        u64::MAX
    } else {
        (block_size * blocks) as u64
    }
}

/// The mount point that a NUL-padded name gives: its bytes up to the first
/// NUL, if there are any.
pub open spec fn mount_point_of(name: Seq<u8>) -> Option<Seq<u8>> {
    if until_nul(name).len() == 0 {
        None
    } else {
        Some(until_nul(name))
    }
}

/// The disk that its parts and size figures give. There is none where the
/// figures are missing or show a size of zero: such a file system cannot
/// be measured.
pub open spec fn disk_from_parts(
    name: Seq<char>,
    mount_point: Seq<u8>,
    type_: DiskType,
    is_removable: bool,
    stat: Option<RawStat>,
) -> Option<DiskView> {
    match stat {
        Some(s) => if space(s.block_size, s.blocks) == 0 {
            None
        } else {
            Some(
                DiskView {
                    type_,
                    name,
                    file_system: until_nul(s.fs_type_name@),
                    mount_point,
                    total_space: space(s.block_size, s.blocks),
                    available_space: space(s.block_size, s.blocks_available),
                    is_removable,
                },
            )
        },
        None => None,
    }
}

/// The disk that one listed file system gives. There is none without a
/// mount point, a description or a media name, nor where `disk_from_parts`
/// gives none. A disk is removable where its media can be removed or
/// ejected.
pub open spec fn disk_of(raw: RawDisk) -> Option<DiskView> {
    match (mount_point_of(raw.mount_on_name@), raw.description) {
        (Some(mount_point), Some(description)) => match description.media_name {
            Some(name) => disk_from_parts(
                name@,
                mount_point,
                disk_type_of(description.device_model),
                description.removable.unwrap_or(false) || description.ejectable.unwrap_or(false),
                raw.stat,
            ),
            None => None,
        },
        _ => None,
    }
}

/// The disks that a list of file systems gives, in the order of the list.
pub open spec fn disks_of(raws: Seq<RawDisk>) -> Seq<DiskView>
    decreases raws.len(),
{
    if raws.len() == 0 {
        Seq::empty()
    } else {
        match disk_of(raws.last()) {
            Some(d) => disks_of(raws.drop_last()).push(d),
            None => disks_of(raws.drop_last()),
        }
    }
}

/// The views of a list of disks, in their order.
pub open spec fn disk_views(disks: Seq<Disk>) -> Seq<DiskView> {
    Seq::new(disks.len(), |i: int| disks[i]@)
}

/// Every disk that a list of file systems gives has a size above zero.
pub proof fn lemma_disks_have_size(raws: Seq<RawDisk>)
    ensures
        forall|i: int| 0 <= i < disks_of(raws).len() ==> (#[trigger] disks_of(raws)[i]).total_space > 0,
    decreases raws.len(),
{
    if raws.len() > 0 {
        lemma_disks_have_size(raws.drop_last());
    }
}

/// The mount point that a NUL-padded name gives.
pub fn to_path(mount_path: &[u8]) -> (r: Option<Vec<u8>>)
    ensures
        match r {
            Some(p) => mount_point_of(mount_path@) == Some(p@),
            None => mount_point_of(mount_path@).is_none(),
        },
{
    let tmp = copy_until_nul(mount_path);
    if tmp.len() == 0 {
        None
    } else {
        Some(tmp)
    }
}

fn space_in_bytes(block_size: u32, blocks: u64) -> (r: u64)
    ensures
        r == space(block_size, blocks),
{
    assert(block_size * blocks <= 0xffff_ffff * 0xffff_ffff_ffff_ffff) by (nonlinear_arith)
        requires
            block_size <= 0xffff_ffff,
            blocks <= 0xffff_ffff_ffff_ffff,
    ;
    let product: u128 = block_size as u128 * blocks as u128;
    if product > u64::MAX as u128 {
        u64::MAX
    } else {
        product as u64
    }
}

fn has_ssd_marker(bytes: &[u8]) -> (r: bool)
    ensures
        r == names_ssd(bytes@),
{
    let n: usize = bytes.len();
    if n < 3 {
        assert(forall|at: int| !ssd_at(bytes@, at));
        return false;
    }
    let mut i: usize = 0;
    while i <= n - 3
        invariant
            n == bytes@.len(),
            3 <= n,
            i <= n - 2,
            forall|at: int| 0 <= at < i ==> !ssd_at(bytes@, at),
        decreases n - i,
    {
        if bytes[i] == 0x53 && bytes[i + 1] == 0x53 && bytes[i + 2] == 0x44 {
            assert(ssd_at(bytes@, i as int));
            return true;
        }
        i = i + 1;
    }
    assert(forall|at: int| !ssd_at(bytes@, at));
    false
}

/// The kind of a disk by the model name of its device.
pub fn disk_type(model: &Option<String>) -> (t: DiskType)
    ensures
        t == disk_type_of(*model),
{
    match model {
        Some(m) => {
            if has_ssd_marker(m.as_str().as_bytes()) {
                DiskType::SSD
            } else {
                DiskType::HDD
            }
        },
        None => DiskType::Unknown(-1),
    }
}

/// The disk that its parts and the size figures of its file system give.
pub fn new_disk(
    name: String,
    mount_point: Vec<u8>,
    type_: DiskType,
    is_removable: bool,
    stat: &Option<RawStat>,
) -> (r: Option<Disk>)
    ensures
        match r {
            Some(d) => disk_from_parts(name@, mount_point@, type_, is_removable, *stat) == Some(d@),
            None => disk_from_parts(name@, mount_point@, type_, is_removable, *stat).is_none(),
        },
{
    match stat {
        Some(s) => {
            let total_space: u64 = space_in_bytes(s.block_size, s.blocks);
            if total_space == 0 {
                return None;
            }
            let available_space: u64 = space_in_bytes(s.block_size, s.blocks_available);
            let file_system = copy_until_nul(s.fs_type_name.as_slice());
            Some(
                Disk {
                    type_,
                    name,
                    file_system,
                    mount_point,
                    total_space,
                    available_space,
                    is_removable,
                },
            )
        },
        None => None,
    }
}

fn disk_from(raw: &RawDisk) -> (r: Option<Disk>)
    ensures
        match r {
            Some(d) => disk_of(*raw) == Some(d@),
            None => disk_of(*raw).is_none(),
        },
{
    let mount_point = match to_path(raw.mount_on_name.as_slice()) {
        Some(p) => p,
        None => {
            return None;
        },
    };
    let description = match &raw.description {
        Some(d) => d,
        None => {
            return None;
        },
    };
    let name = match &description.media_name {
        Some(n) => n.clone(),
        None => {
            return None;
        },
    };
    let removable = match description.removable {
        Some(b) => b,
        None => false,
    };
    let ejectable = match description.ejectable {
        Some(b) => b,
        None => false,
    };
    let type_ = disk_type(&description.device_model);
    new_disk(name, mount_point, type_, removable || ejectable, &raw.stat)
}

/// The disks of the machine from the list of its mounted file systems:
/// one for each entry that gives a disk, in the order of the list.
pub fn get_disks(raws: &Vec<RawDisk>) -> (disks: Vec<Disk>)
    ensures
        disk_views(disks@) == disks_of(raws@),
{
    let mut disks: Vec<Disk> = Vec::new();
    let n: usize = raws.len();
    let mut i: usize = 0;
    while i < n
        invariant
            n == raws@.len(),
            i <= n,
            disk_views(disks@) == disks_of(raws@.take(i as int)),
        decreases n - i,
    {
        proof {
            assert(raws@.take(i + 1).drop_last() =~= raws@.take(i as int));
            assert(raws@.take(i + 1).last() == raws@[i as int]);
        }
        let ghost before = disks@;
        if let Some(d) = disk_from(&raws[i]) {
            disks.push(d);
            proof {
                assert(disk_views(disks@) =~= disk_views(before).push(d@));
            }
        }
        i = i + 1;
    }
    proof {
        assert(raws@.take(n as int) =~= raws@);
    }
    disks
}

} // verus!
