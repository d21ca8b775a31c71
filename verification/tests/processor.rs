use sysmetrics::metrics::CpuTicks;
use sysmetrics::processor::{
    get_cpu_frequency, get_vendor_id_and_brand, init_processors, Processor, ProcessorData,
    CPU_STATE_IDLE, CPU_STATE_MAX, CPU_STATE_NICE, CPU_STATE_SYSTEM, CPU_STATE_USER,
};

#[test]
fn processor_data_keeps_its_parts() {
    let d = ProcessorData::new(vec![1, 2, 3, 4, 5, 6, 7, 8], 8);
    assert_eq!(d.cpu_info, vec![1, 2, 3, 4, 5, 6, 7, 8]);
    assert_eq!(d.num_cpu_info, 8);
    assert_eq!(d.core_count(), 2);
}

#[test]
fn tick_table_layout() {
    assert_eq!(CPU_STATE_USER, 0);
    assert_eq!(CPU_STATE_SYSTEM, 1);
    assert_eq!(CPU_STATE_IDLE, 2);
    assert_eq!(CPU_STATE_NICE, 3);
    assert_eq!(CPU_STATE_MAX, 4);
    let d = ProcessorData::new(vec![1, 2, 3, 4, 5, 6, 7, 8], 8);
    assert_eq!(d.ticks(0), Some(CpuTicks { user: 1, system: 2, idle: 3, nice: 4 }));
    assert_eq!(d.ticks(1), Some(CpuTicks { user: 5, system: 6, idle: 7, nice: 8 }));
    assert_eq!(d.ticks(2), None);
}

#[test]
fn tick_table_counts_only_whole_cores() {
    // the count says 7 entries: one core in full
    let d = ProcessorData::new(vec![1, 2, 3, 4, 5, 6, 7, 8], 7);
    assert_eq!(d.core_count(), 1);
    assert_eq!(d.ticks(1), None);
    // the count says more than the table holds
    let d = ProcessorData::new(vec![1, 2, 3, 4, 5], 400);
    assert_eq!(d.core_count(), 1);
    assert!(d.ticks(0).is_some());
    let d = ProcessorData::new(Vec::new(), 0);
    assert_eq!(d.core_count(), 0);
    assert_eq!(d.ticks(0), None);
}

#[test]
fn ticks_are_read_as_unsigned() {
    let d = ProcessorData::new(vec![-1, i32::MIN, i32::MAX, 0], 4);
    assert_eq!(
        d.ticks(0),
        Some(CpuTicks { user: 4_294_967_295, system: 2_147_483_648, idle: 2_147_483_647, nice: 0 })
    );
}

#[test]
fn processor_getters() {
    let t = CpuTicks { user: 1, system: 2, nice: 3, idle: 4 };
    let p = Processor::new("3".to_string(), t, 2400, "GenuineIntel".to_string(), "Core".to_string());
    assert_eq!(p.name(), "3");
    assert_eq!(p.cpu_usage(), 0);
    assert_eq!(p.data(), t);
    assert_eq!(p.frequency(), 2400);
    assert_eq!(p.vendor_id(), "GenuineIntel");
    assert_eq!(p.brand(), "Core");
}

#[test]
fn processor_refresh_derives_usage() {
    let t = CpuTicks { user: 100, system: 100, nice: 100, idle: 100 };
    let mut p = Processor::new("1".to_string(), t, 0, String::new(), String::new());
    p.refresh(CpuTicks { user: 110, system: 105, nice: 100, idle: 185 });
    // 15 busy of 100 ticks
    assert_eq!(p.cpu_usage(), 15_000);
    assert_eq!(p.data(), CpuTicks { user: 110, system: 105, nice: 100, idle: 185 });
    // the same sample again: nothing elapsed
    p.refresh(CpuTicks { user: 110, system: 105, nice: 100, idle: 185 });
    assert_eq!(p.cpu_usage(), 0);
    // counters that went backwards are not stored
    p.refresh(CpuTicks { user: 10, system: 106, nice: 100, idle: 188 });
    assert_eq!(p.cpu_usage(), 25_000);
    assert_eq!(p.data(), CpuTicks { user: 110, system: 106, nice: 100, idle: 188 });
}

#[test]
fn init_processors_names_cores_from_one() {
    let mut table = Vec::new();
    for i in 0..12 {
        table.push(i * 10);
        table.push(i * 10 + 1);
        table.push(i * 10 + 2);
        table.push(i * 10 + 3);
    }
    let (global, cores) = init_processors(
        Some(ProcessorData::new(table, 48)),
        Some(12),
        3200,
        "Apple".to_string(),
        "M1".to_string(),
    );
    assert_eq!(cores.len(), 12);
    assert_eq!(cores[0].name(), "1");
    assert_eq!(cores[8].name(), "9");
    assert_eq!(cores[9].name(), "10");
    assert_eq!(cores[11].name(), "12");
    for (i, c) in cores.iter().enumerate() {
        let base = i as u64 * 10;
        assert_eq!(c.data(), CpuTicks { user: base, system: base + 1, idle: base + 2, nice: base + 3 });
        assert_eq!(c.cpu_usage(), 0);
        assert_eq!(c.frequency(), 3200);
        assert_eq!(c.vendor_id(), "Apple");
        assert_eq!(c.brand(), "M1");
    }
    assert_eq!(global.name(), "0");
    assert_eq!(global.cpu_usage(), 0);
    assert_eq!(global.frequency(), 3200);
    assert_eq!(global.vendor_id(), "Apple");
    assert_eq!(global.brand(), "M1");
    assert_eq!(global.data(), CpuTicks { user: 0, system: 0, nice: 0, idle: 0 });
}

#[test]
fn init_processors_without_a_table_has_no_cores() {
    let (global, cores) = init_processors(None, Some(4), 1000, "v".to_string(), "b".to_string());
    assert!(cores.is_empty());
    assert_eq!(global.name(), "0");
    assert_eq!(global.cpu_usage(), 0);
}

#[test]
fn init_processors_yields_no_more_cores_than_counted_or_held() {
    let table = vec![1, 1, 1, 1, 2, 2, 2, 2, 3, 3, 3, 3];
    let (_, cores) = init_processors(
        Some(ProcessorData::new(table.clone(), 12)),
        Some(2),
        0,
        String::new(),
        String::new(),
    );
    assert_eq!(cores.len(), 2);
    let (_, cores) = init_processors(
        Some(ProcessorData::new(table.clone(), 12)),
        Some(64),
        0,
        String::new(),
        String::new(),
    );
    assert_eq!(cores.len(), 3);
    assert_eq!(cores[2].name(), "3");
    // the platform cannot say how many: one core
    let (_, cores) = init_processors(
        Some(ProcessorData::new(table, 12)),
        None,
        0,
        String::new(),
        String::new(),
    );
    assert_eq!(cores.len(), 1);
    let (_, cores) = init_processors(
        Some(ProcessorData::new(Vec::new(), 0)),
        None,
        0,
        String::new(),
        String::new(),
    );
    assert!(cores.is_empty());
}

#[test]
fn cpu_frequency_in_mhz() {
    assert_eq!(get_cpu_frequency(2_400_000_000), 2400);
    assert_eq!(get_cpu_frequency(999_999), 0);
    assert_eq!(get_cpu_frequency(0), 0);
    assert_eq!(get_cpu_frequency(1_000_000), 1);
}

#[test]
fn vendor_falls_back_to_apple() {
    let (vendor, brand) = get_vendor_id_and_brand(Vec::new(), b"Apple M1\0".to_vec());
    assert_eq!(vendor, "Apple");
    assert_eq!(brand, "Apple M1");
    let (vendor, brand) = get_vendor_id_and_brand(b"\0\0".to_vec(), Vec::new());
    assert_eq!(vendor, "Apple");
    assert_eq!(brand, "");
    // not UTF-8: reads as empty
    let (vendor, brand) = get_vendor_id_and_brand(vec![0xff, 0xfe], vec![0xc3]);
    assert_eq!(vendor, "Apple");
    assert_eq!(brand, "");
}

#[test]
fn vendor_and_brand_are_read_from_padded_buffers() {
    let (vendor, brand) = get_vendor_id_and_brand(
        b"GenuineIntel\0".to_vec(),
        b"Intel(R) Core(TM) i7\0\0\0".to_vec(),
    );
    assert_eq!(vendor, "GenuineIntel");
    assert_eq!(brand, "Intel(R) Core(TM) i7");
    let (vendor, _) = get_vendor_id_and_brand(b"A\0B\0".to_vec(), Vec::new());
    assert_eq!(vendor, "A\0B");
}
