use sysmetrics::disk::{
    disk_type, get_disks, new_disk, to_path, DiskDescription, DiskType, RawDisk, RawStat,
};

fn stat(block_size: u32, blocks: u64, available: u64, fs: &[u8]) -> RawStat {
    RawStat { block_size, blocks, blocks_available: available, fs_type_name: fs.to_vec() }
}

fn description(name: Option<&str>, model: Option<&str>) -> DiskDescription {
    DiskDescription {
        media_name: name.map(|s| s.to_string()),
        removable: None,
        ejectable: None,
        device_model: model.map(|s| s.to_string()),
    }
}

fn raw(mount: &[u8], d: Option<DiskDescription>, s: Option<RawStat>) -> RawDisk {
    RawDisk { mount_on_name: mount.to_vec(), description: d, stat: s }
}

#[test]
fn path_stops_at_the_first_nul() {
    assert_eq!(to_path(b"/Volumes/Data\0\0\0\0"), Some(b"/Volumes/Data".to_vec()));
    assert_eq!(to_path(b"/\0junk\0"), Some(b"/".to_vec()));
    assert_eq!(to_path(b"/no/nul"), Some(b"/no/nul".to_vec()));
}

#[test]
fn empty_path_is_none() {
    assert_eq!(to_path(b""), None);
    assert_eq!(to_path(b"\0"), None);
    assert_eq!(to_path(b"\0/later"), None);
}

#[test]
fn disk_type_by_model() {
    assert_eq!(disk_type(&Some("APPLE SSD AP0512".to_string())), DiskType::SSD);
    assert_eq!(disk_type(&Some("SSD".to_string())), DiskType::SSD);
    assert_eq!(disk_type(&Some("xSSD".to_string())), DiskType::SSD);
    assert_eq!(disk_type(&Some("SSSD".to_string())), DiskType::SSD);
    assert_eq!(disk_type(&Some("ST1000DM003".to_string())), DiskType::HDD);
    assert_eq!(disk_type(&Some("ssd".to_string())), DiskType::HDD);
    assert_eq!(disk_type(&Some("SS".to_string())), DiskType::HDD);
    assert_eq!(disk_type(&Some("S SD".to_string())), DiskType::HDD);
    assert_eq!(disk_type(&Some(String::new())), DiskType::HDD);
    assert_eq!(disk_type(&None), DiskType::Unknown(-1));
}

#[test]
fn new_disk_computes_sizes() {
    let d = new_disk(
        "Macintosh HD".to_string(),
        b"/".to_vec(),
        DiskType::SSD,
        false,
        &Some(stat(4096, 1000, 250, b"apfs\0\0\0\0")),
    )
    .unwrap();
    assert_eq!(d.name, "Macintosh HD");
    assert_eq!(d.mount_point, b"/".to_vec());
    assert_eq!(d.type_, DiskType::SSD);
    assert!(!d.is_removable);
    assert_eq!(d.total_space, 4_096_000);
    assert_eq!(d.available_space, 1_024_000);
    assert_eq!(d.file_system, b"apfs".to_vec());
}

#[test]
fn new_disk_rejects_unmeasurable_file_systems() {
    let name = || "x".to_string();
    assert!(new_disk(name(), b"/".to_vec(), DiskType::HDD, true, &None).is_none());
    assert!(new_disk(name(), b"/".to_vec(), DiskType::HDD, true, &Some(stat(4096, 0, 0, b"hfs")))
        .is_none());
    assert!(new_disk(name(), b"/".to_vec(), DiskType::HDD, true, &Some(stat(0, 10, 10, b"hfs")))
        .is_none());
    // free space of zero is no reason
    let d = new_disk(name(), b"/".to_vec(), DiskType::HDD, true, &Some(stat(512, 2, 0, b"hfs")))
        .unwrap();
    assert_eq!(d.total_space, 1024);
    assert_eq!(d.available_space, 0);
    assert!(d.is_removable);
}

#[test]
fn new_disk_holds_sizes_that_do_not_fit() {
    let d = new_disk(
        "big".to_string(),
        b"/big".to_vec(),
        DiskType::Unknown(-1),
        false,
        &Some(stat(4096, u64::MAX, u64::MAX / 4096, b"zfs")),
    )
    .unwrap();
    assert_eq!(d.total_space, u64::MAX);
    assert_eq!(d.available_space, (u64::MAX / 4096) * 4096);
}

#[test]
fn get_disks_keeps_what_gives_a_disk() {
    let mut with_flags = description(Some("USB"), None);
    with_flags.ejectable = Some(true);
    with_flags.removable = Some(false);
    let raws = vec![
        raw(b"/\0", Some(description(Some("Macintosh HD"), Some("APPLE SSD"))), Some(stat(4096, 10, 5, b"apfs\0"))),
        // no mount point
        raw(b"\0", Some(description(Some("a"), None)), Some(stat(4096, 10, 5, b"apfs\0"))),
        // no description
        raw(b"/b\0", None, Some(stat(4096, 10, 5, b"apfs\0"))),
        // no media name
        raw(b"/c\0", Some(description(None, Some("SSD"))), Some(stat(4096, 10, 5, b"apfs\0"))),
        // size of zero
        raw(b"/d\0", Some(description(Some("d"), None)), Some(stat(4096, 0, 0, b"devfs\0"))),
        // no size figures
        raw(b"/e\0", Some(description(Some("e"), None)), None),
        raw(b"/Volumes/USB\0", Some(with_flags), Some(stat(512, 100, 1, b"msdos\0"))),
        raw(b"/Volumes/Old\0", Some(description(Some("Old"), Some("WDC WD10"))), Some(stat(512, 8, 8, b"hfs\0"))),
    ];
    let disks = get_disks(&raws);
    assert_eq!(disks.len(), 3);

    assert_eq!(disks[0].name, "Macintosh HD");
    assert_eq!(disks[0].mount_point, b"/".to_vec());
    assert_eq!(disks[0].type_, DiskType::SSD);
    assert_eq!(disks[0].total_space, 40_960);
    assert_eq!(disks[0].available_space, 20_480);
    assert_eq!(disks[0].file_system, b"apfs".to_vec());
    assert!(!disks[0].is_removable);

    assert_eq!(disks[1].name, "USB");
    assert_eq!(disks[1].mount_point, b"/Volumes/USB".to_vec());
    assert_eq!(disks[1].type_, DiskType::Unknown(-1));
    assert_eq!(disks[1].total_space, 51_200);
    assert_eq!(disks[1].available_space, 512);
    assert_eq!(disks[1].file_system, b"msdos".to_vec());
    assert!(disks[1].is_removable);

    assert_eq!(disks[2].name, "Old");
    assert_eq!(disks[2].type_, DiskType::HDD);
    assert!(!disks[2].is_removable);
}

#[test]
fn get_disks_of_nothing() {
    assert!(get_disks(&Vec::new()).is_empty());
}

#[test]
fn removable_or_ejectable() {
    let mk = |removable: Option<bool>, ejectable: Option<bool>| {
        let mut d = description(Some("m"), None);
        d.removable = removable;
        d.ejectable = ejectable;
        let disks = get_disks(&vec![raw(b"/m", Some(d), Some(stat(1, 1, 1, b"x")))]);
        disks[0].is_removable
    };
    assert!(!mk(None, None));
    assert!(!mk(Some(false), Some(false)));
    assert!(mk(Some(true), None));
    assert!(mk(None, Some(true)));
    assert!(mk(Some(true), Some(false)));
}
