use sysmetrics::metrics::{CpuBasis, LoadFactor};
use sysmetrics::process::{
    kill_succeeded, parent_from, process_name, start_time_of, KillRequest, Process, ProcessInfo, ProcessStatus, RawProcess, Signal,
};

fn info(name: &str) -> ProcessInfo {
    ProcessInfo {
        name: name.to_string(),
        cmd: vec![name.to_string(), "-v".to_string()],
        exe: format!("/bin/{}", name),
        parent: Some(1),
        environ: vec!["HOME=/root".to_string()],
        cwd: "/tmp".to_string(),
        root: "/".to_string(),
        memory: 4096,
        virtual_memory: 8192,
        uid: 1000,
        gid: 100,
        status: ProcessStatus::Run,
    }
}

fn raw(pid: i32, start_time: u64, utime: u64, stime: u64, read: u64, written: u64) -> RawProcess {
    RawProcess {
        pid,
        start_time,
        info: info("job"),
        utime,
        stime,
        load: None,
        read_bytes: read,
        written_bytes: written,
    }
}

const BASIS: CpuBasis = CpuBasis { elapsed: 100, ccpu: 0 };

#[test]
fn status_from_code() {
    assert_eq!(ProcessStatus::from(1), ProcessStatus::Idle);
    assert_eq!(ProcessStatus::from(2), ProcessStatus::Run);
    assert_eq!(ProcessStatus::from(3), ProcessStatus::Sleep);
    assert_eq!(ProcessStatus::from(4), ProcessStatus::Stop);
    assert_eq!(ProcessStatus::from(5), ProcessStatus::Zombie);
    assert_eq!(ProcessStatus::from(6), ProcessStatus::Wait);
    assert_eq!(ProcessStatus::from(7), ProcessStatus::Lock);
    assert_eq!(ProcessStatus::from(0), ProcessStatus::Unknown(0));
    assert_eq!(ProcessStatus::from(8), ProcessStatus::Unknown(8));
    assert_eq!(ProcessStatus::from(-1), ProcessStatus::Unknown(-1));
    assert_eq!(ProcessStatus::from(i8::MIN), ProcessStatus::Unknown(i8::MIN));
    let s: ProcessStatus = 3i8.into();
    assert_eq!(s, ProcessStatus::Sleep);
}

#[test]
fn status_as_str() {
    assert_eq!(ProcessStatus::Idle.as_str(), "Idle");
    assert_eq!(ProcessStatus::Run.as_str(), "Runnable");
    assert_eq!(ProcessStatus::Sleep.as_str(), "Sleeping");
    assert_eq!(ProcessStatus::Stop.as_str(), "Stopped");
    assert_eq!(ProcessStatus::Zombie.as_str(), "Zombie");
    assert_eq!(ProcessStatus::Wait.as_str(), "Waiting");
    assert_eq!(ProcessStatus::Lock.as_str(), "Locked");
    assert_eq!(ProcessStatus::Unknown(0).as_str(), "Unknown");
    assert_eq!(ProcessStatus::Unknown(42).as_str(), "Unknown");
}

#[test]
fn new_process_is_blank() {
    let p = Process::new(42, Some(1), 1_600_000_000);
    assert_eq!(p.pid(), 42);
    assert_eq!(p.parent(), Some(1));
    assert_eq!(p.start_time(), 1_600_000_000);
    assert_eq!(p.name(), "");
    assert!(p.cmd().is_empty());
    assert_eq!(p.exe(), "");
    assert!(p.environ().is_empty());
    assert_eq!(p.cwd(), "");
    assert_eq!(p.root(), "");
    assert_eq!(p.memory(), 0);
    assert_eq!(p.virtual_memory(), 0);
    assert_eq!(p.uid(), 0);
    assert_eq!(p.gid(), 0);
    assert_eq!(p.status(), ProcessStatus::Unknown(0));
    assert_eq!(p.cpu_usage(), 0);
    let d = p.disk_usage();
    assert_eq!(d.read_bytes, 0);
    assert_eq!(d.written_bytes, 0);
    assert_eq!(d.total_read_bytes, 0);
    assert_eq!(d.total_written_bytes, 0);
    let q = Process::new(7, None, 0);
    assert_eq!(q.parent(), None);
}

#[test]
fn first_observation_has_zero_rates() {
    let p = Process::from_raw(raw(9, 500, 1000, 2000, 4096, 8192));
    assert_eq!(p.pid(), 9);
    assert_eq!(p.start_time(), 500);
    assert_eq!(p.name(), "job");
    assert_eq!(p.cmd(), &vec!["job".to_string(), "-v".to_string()]);
    assert_eq!(p.exe(), "/bin/job");
    assert_eq!(p.environ(), &vec!["HOME=/root".to_string()]);
    assert_eq!(p.cwd(), "/tmp");
    assert_eq!(p.root(), "/");
    assert_eq!(p.memory(), 4096);
    assert_eq!(p.virtual_memory(), 8192);
    assert_eq!(p.parent(), Some(1));
    assert_eq!(p.uid(), 1000);
    assert_eq!(p.gid(), 100);
    assert_eq!(p.status(), ProcessStatus::Run);
    assert_eq!(p.cpu_usage(), 0);
    let d = p.disk_usage();
    assert_eq!(d.read_bytes, 0);
    assert_eq!(d.written_bytes, 0);
    assert_eq!(d.total_read_bytes, 4096);
    assert_eq!(d.total_written_bytes, 8192);
}

#[test]
fn update_shifts_counters_and_derives_rates() {
    let mut p = Process::from_raw(raw(9, 500, 1000, 2000, 4096, 8192));
    let mut next = raw(9, 500, 1010, 2015, 5000, 8192);
    next.info.name = "renamed".to_string();
    next.info.memory = 1;
    p.update(next, BASIS);
    // 10 + 15 busy ticks of 100 elapsed
    assert_eq!(p.cpu_usage(), 25_000);
    let d = p.disk_usage();
    assert_eq!(d.read_bytes, 904);
    assert_eq!(d.written_bytes, 0);
    assert_eq!(d.total_read_bytes, 5000);
    assert_eq!(d.total_written_bytes, 8192);
    assert_eq!(p.name(), "renamed");
    assert_eq!(p.memory(), 1);
    assert_eq!(p.pid(), 9);
    assert_eq!(p.start_time(), 500);

    // a second update with the same counters: everything is quiet
    p.update(raw(9, 500, 1010, 2015, 5000, 8192), BASIS);
    assert_eq!(p.cpu_usage(), 0);
    assert_eq!(p.disk_usage().read_bytes, 0);
    assert_eq!(p.disk_usage().written_bytes, 0);
    assert_eq!(p.disk_usage().total_read_bytes, 5000);
}

#[test]
fn update_hands_on_a_negative_disk_rate() {
    let mut p = Process::from_raw(raw(9, 500, 0, 0, 4096, 8192));
    p.update(raw(9, 500, 0, 0, 96, 8000), BASIS);
    assert_eq!(p.disk_usage().read_bytes, -4000);
    assert_eq!(p.disk_usage().written_bytes, -192);
    assert_eq!(p.disk_usage().total_read_bytes, 96);
    assert_eq!(p.disk_usage().total_written_bytes, 8000);
}

#[test]
fn update_by_load_factor() {
    let mut p = Process::from_raw(raw(9, 500, 0, 0, 0, 0));
    let mut next = raw(9, 500, 50, 50, 0, 0);
    next.load = Some(LoadFactor { pct: 512, dur: 1 });
    p.update(next, CpuBasis { elapsed: 100, ccpu: 1024 });
    assert_eq!(p.cpu_usage(), 50_000);
    let mut next = raw(9, 500, 50, 50, 0, 0);
    next.load = Some(LoadFactor { pct: 0, dur: 1 });
    p.update(next, CpuBasis { elapsed: 100, ccpu: 1024 });
    assert_eq!(p.cpu_usage(), 0);
}

#[test]
fn same_process_needs_pid_and_start_time() {
    let p = Process::from_raw(raw(7, 100, 0, 0, 0, 0));
    assert!(p.is_same_process(&raw(7, 100, 5, 5, 5, 5)));
    assert!(!p.is_same_process(&raw(7, 101, 0, 0, 0, 0)));
    assert!(!p.is_same_process(&raw(8, 100, 0, 0, 0, 0)));
}

#[test]
fn kill_requests() {
    let p = Process::new(321, None, 0);
    assert_eq!(p.kill(Signal::Term), Some(KillRequest { pid: 321, signal: Signal::Term }));
    assert_eq!(p.kill(Signal::Kill), Some(KillRequest { pid: 321, signal: Signal::Kill }));
    assert_eq!(p.kill(Signal::Hangup), Some(KillRequest { pid: 321, signal: Signal::Hangup }));
    assert_eq!(p.kill(Signal::IO), Some(KillRequest { pid: 321, signal: Signal::IO }));
    assert_eq!(p.kill(Signal::Poll), Some(KillRequest { pid: 321, signal: Signal::IO }));
    assert_eq!(p.kill(Signal::Sys), Some(KillRequest { pid: 321, signal: Signal::Sys }));
    assert_eq!(p.kill(Signal::Power), None);
}

#[test]
fn kill_status() {
    assert!(kill_succeeded(0));
    assert!(!kill_succeeded(-1));
    assert!(!kill_succeeded(1));
}

#[test]
fn parent_pid_zero_is_no_parent() {
    assert_eq!(parent_from(0), None);
    assert_eq!(parent_from(1), Some(1));
    assert_eq!(parent_from(4321), Some(4321));
    assert_eq!(parent_from(-1), Some(-1));
}

#[test]
fn process_name_stops_at_the_first_nul() {
    assert_eq!(process_name(b"init\0\0\0\0"), "init");
    assert_eq!(process_name(b"sh\0junk\0"), "sh");
    assert_eq!(process_name(b"nonul"), "nonul");
    assert_eq!(process_name(b""), "");
    assert_eq!(process_name(b"\0abc"), "");
    assert_eq!(process_name("caf\u{e9}\0".as_bytes()), "caf\u{e9}");
}

#[test]
fn process_name_that_is_not_text_is_empty() {
    assert_eq!(process_name(&[0xff, 0xfe, 0x00]), "");
    assert_eq!(process_name(&[b'a', 0xc3, 0x00]), "");
    // what follows the first NUL does not count
    assert_eq!(process_name(&[b'a', 0x00, 0xff]), "a");
}

#[test]
fn start_time_before_the_epoch_is_the_epoch() {
    assert_eq!(start_time_of(1_600_000_000), 1_600_000_000);
    assert_eq!(start_time_of(0), 0);
    assert_eq!(start_time_of(-1), 0);
    assert_eq!(start_time_of(i64::MIN), 0);
    assert_eq!(start_time_of(i64::MAX), i64::MAX as u64);
}
