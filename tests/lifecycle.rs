use memhog::config::{mb_to_bytes, str_equal, Config, ConfigError, Invocation, Options, Strategy};
use memhog::driver::{Action, Checkpoint, Driver, Failure, Phase};
use memhog::probe::{push_decimal, push_spaces, MemoryCounters, MemoryReport};
use memhog::region::HeapRegion;

fn options(init: i64, used: Option<i64>, alloc_type: &str, verbose: bool, step: bool) -> Options {
    Options {
        query: false,
        verbose,
        step,
        init_size_mb: init,
        use_size_mb: used,
        alloc_type: alloc_type.to_string(),
    }
}

fn run_config(o: &Options) -> Config {
    match o.resolve() {
        Ok(Invocation::Run(c)) => c,
        other => panic!("expected a run, got {:?}", other),
    }
}

#[test]
fn heap_buffer_ten_mb_verbose_run() {
    let o = options(10, None, "native", true, false);
    let c = run_config(&o);
    assert_eq!(
        c,
        Config {
            reserve_bytes: 10485760,
            touch_bytes: 10485760,
            strategy: Strategy::HeapBuffer,
            verbose: true,
            step: false,
        }
    );
    let mut d = Driver::new(Invocation::Run(c));
    assert_eq!(
        d.advance(true),
        vec![
            Action::ShowReport,
            Action::ShowSizes { reserve_bytes: 10485760, touch_bytes: 10485760 },
            Action::ShowMode(Strategy::HeapBuffer),
            Action::Reserve { strategy: Strategy::HeapBuffer, bytes: 10485760 },
        ]
    );
    assert_eq!(
        d.advance(true),
        vec![
            Action::Announce(Checkpoint::Reserved),
            Action::ShowReport,
            Action::Fill { bytes: 10485760, value: 0 },
        ]
    );
    assert_eq!(d.handle().resident, 0);
    assert_eq!(
        d.advance(true),
        vec![
            Action::Announce(Checkpoint::Touched),
            Action::ShowReport,
            Action::AwaitOperator,
            Action::Release,
        ]
    );
    assert_eq!(d.handle().resident, 10485760);
    assert_eq!(
        d.advance(true),
        vec![Action::Announce(Checkpoint::Released), Action::ShowReport, Action::Finish]
    );
    assert_eq!(d.phase(), Phase::Done);
    assert!(!d.handle().live);

    let mut region = HeapRegion::reserve(10485760);
    assert_eq!(region.len(), 10485760);
    region.touch(10485760, 0);
    assert!(region.as_slice().iter().all(|b| *b == 0));
}

#[test]
fn raw_allocate_without_size_shows_usage() {
    let o = options(0, None, "malloc", false, false);
    assert_eq!(o.resolve(), Ok(Invocation::Usage));
    let mut d = Driver::new(Invocation::Usage);
    let actions = d.advance(true);
    assert_eq!(actions, vec![Action::ShowUsage, Action::Finish]);
    assert_eq!(d.phase(), Phase::Done);
    assert!(d.advance(true).is_empty());
}

#[test]
fn every_strategy_without_size_shows_usage() {
    for name in ["native", "native-wait", "mlock", "malloc", "mmap"] {
        let o = options(0, Some(5), name, true, true);
        assert_eq!(o.resolve(), Ok(Invocation::Usage));
    }
}

#[test]
fn unknown_alloc_type_is_a_configuration_error() {
    let o = options(10, None, "bogus", true, false);
    assert_eq!(o.resolve(), Err(ConfigError::UnknownStrategy));
    let mut q = options(0, None, "Native", false, false);
    q.query = true;
    assert_eq!(q.resolve(), Err(ConfigError::UnknownStrategy));
    assert_eq!(options(10, None, "", false, false).resolve(), Err(ConfigError::UnknownStrategy));
}

#[test]
fn query_only_reports() {
    let mut o = options(10, None, "mmap", true, true);
    o.query = true;
    assert_eq!(o.resolve(), Ok(Invocation::Query));
    let mut d = Driver::new(Invocation::Query);
    assert_eq!(d.advance(true), vec![Action::ShowReport, Action::Finish]);
    assert_eq!(d.phase(), Phase::Done);
}

#[test]
fn strategy_names() {
    assert_eq!(Strategy::from_name("native"), Some(Strategy::HeapBuffer));
    assert_eq!(Strategy::from_name("native-wait"), Some(Strategy::HeapBufferDelayed));
    assert_eq!(Strategy::from_name("mlock"), Some(Strategy::PinnedHeapBuffer));
    assert_eq!(Strategy::from_name("malloc"), Some(Strategy::RawAllocate));
    assert_eq!(Strategy::from_name("mmap"), Some(Strategy::AnonymousMap));
    assert_eq!(Strategy::from_name("mmap "), None);
    assert_eq!(Strategy::from_name("nativ"), None);
}

#[test]
fn string_equality() {
    assert!(str_equal("abc", "abc"));
    assert!(str_equal("", ""));
    assert!(!str_equal("abc", "abd"));
    assert!(!str_equal("abc", "ab"));
}

#[test]
fn megabytes_to_bytes() {
    assert_eq!(mb_to_bytes(0), Some(0));
    assert_eq!(mb_to_bytes(1), Some(1048576));
    assert_eq!(mb_to_bytes(10), Some(10485760));
    assert_eq!(mb_to_bytes(-1), None);
    assert_eq!(mb_to_bytes(i64::MAX), None);
    let largest = (usize::MAX / 1048576) as i64;
    assert_eq!(mb_to_bytes(largest), Some(largest as usize * 1048576));
    assert_eq!(mb_to_bytes(largest + 1), None);
}

#[test]
fn size_errors() {
    assert_eq!(options(-1, None, "native", false, false).resolve(), Err(ConfigError::ReserveOutOfRange));
    assert_eq!(options(i64::MAX, None, "native", false, false).resolve(), Err(ConfigError::ReserveOutOfRange));
    assert_eq!(options(4, Some(-5), "native", false, false).resolve(), Err(ConfigError::TouchOutOfRange));
    assert_eq!(options(1, Some(2), "malloc", false, false).resolve(), Err(ConfigError::TouchExceedsReserve));
}

#[test]
fn pinned_handle_ends_with_release() {
    let c = run_config(&options(2, Some(1), "mlock", false, false));
    let mut d = Driver::new(Invocation::Run(c));
    d.advance(true);
    assert_eq!(d.advance(true), vec![Action::Pin { bytes: 1048576 }]);
    assert!(!d.handle().is_pinned());
    assert_eq!(d.advance(true), vec![Action::AwaitOperator, Action::Release]);
    assert!(d.handle().is_pinned());
    assert!(d.handle().live);
    assert_eq!(d.advance(false), vec![Action::ReportFailure(Failure::Release), Action::Finish]);
    assert!(!d.handle().is_pinned());
    assert!(!d.handle().live);
}

#[test]
fn failed_pin_is_reported_and_not_pinned() {
    let c = run_config(&options(2, None, "mlock", false, false));
    let mut d = Driver::new(Invocation::Run(c));
    d.advance(true);
    d.advance(true);
    assert_eq!(
        d.advance(false),
        vec![Action::ReportFailure(Failure::Touch), Action::AwaitOperator, Action::Release]
    );
    assert!(!d.handle().is_pinned());
    assert_eq!(d.handle().resident, 0);
}

#[test]
fn failed_reserve_ends_the_run() {
    let c = run_config(&options(3, None, "malloc", true, true));
    let mut d = Driver::new(Invocation::Run(c));
    d.advance(true);
    assert_eq!(d.advance(false), vec![Action::ReportFailure(Failure::Reserve), Action::Finish]);
    assert_eq!(d.phase(), Phase::Done);
    assert!(!d.handle().live);
}

#[test]
fn delayed_heap_buffer_waits_before_touch() {
    let c = run_config(&options(1, None, "native-wait", false, true));
    let mut d = Driver::new(Invocation::Run(c));
    assert_eq!(
        d.advance(true),
        vec![
            Action::ShowSizes { reserve_bytes: 1048576, touch_bytes: 1048576 },
            Action::ShowMode(Strategy::HeapBufferDelayed),
            Action::Reserve { strategy: Strategy::HeapBufferDelayed, bytes: 1048576 },
        ]
    );
    assert_eq!(
        d.advance(true),
        vec![Action::AwaitOperator, Action::Delay { seconds: 2 }, Action::Fill { bytes: 1048576, value: 0 }]
    );
    assert_eq!(d.advance(true), vec![Action::AwaitOperator, Action::Release]);
    assert_eq!(d.advance(true), vec![Action::AwaitOperator, Action::Finish]);
}

#[test]
fn zero_touch_passes_every_checkpoint() {
    for name in ["native", "native-wait", "mlock", "malloc", "mmap"] {
        let c = run_config(&options(1, Some(0), name, false, false));
        assert_eq!(c.touch_bytes, 0);
        let mut d = Driver::new(Invocation::Run(c));
        let mut all = Vec::new();
        all.extend(d.advance(true));
        all.extend(d.advance(true));
        all.extend(d.advance(true));
        all.extend(d.advance(true));
        assert!(all.iter().any(|a| matches!(a, Action::Reserve { .. })));
        assert!(all.contains(&Action::Release));
        assert_eq!(all.last(), Some(&Action::Finish));
        for a in &all {
            match a {
                Action::Fill { bytes, .. } | Action::Pin { bytes } => assert_eq!(*bytes, 0),
                Action::ReportFailure(_) => panic!("no failure expected"),
                _ => {}
            }
        }
        assert_eq!(d.phase(), Phase::Done);
    }
    let mut region = HeapRegion::reserve(4096);
    region.touch(0, 7);
    assert!(region.as_slice().iter().all(|b| *b == 0));
}

#[test]
fn partial_touch_leaves_the_rest() {
    let mut region = HeapRegion::reserve(10);
    region.touch(4, 1);
    assert_eq!(region.as_slice(), &[1, 1, 1, 1, 0, 0, 0, 0, 0, 0]);
}

#[test]
fn full_touch_pages_in_everything() {
    let c = run_config(&options(3, Some(3), "mmap", false, false));
    let mut d = Driver::new(Invocation::Run(c));
    d.advance(true);
    assert_eq!(d.advance(true), vec![Action::Fill { bytes: 3145728, value: 1 }]);
    d.advance(true);
    let h = d.handle();
    assert_eq!(h.resident, h.size);
    assert_eq!(h.size, 3145728);
}

#[test]
fn failed_fill_and_unmap_are_reported() {
    let c = run_config(&options(1, None, "mmap", true, false));
    let mut d = Driver::new(Invocation::Run(c));
    d.advance(true);
    d.advance(true);
    assert_eq!(
        d.advance(false),
        vec![
            Action::ReportFailure(Failure::Touch),
            Action::Announce(Checkpoint::Touched),
            Action::ShowReport,
            Action::AwaitOperator,
            Action::Release,
        ]
    );
    assert_eq!(
        d.advance(false),
        vec![
            Action::ReportFailure(Failure::Release),
            Action::Announce(Checkpoint::Released),
            Action::ShowReport,
            Action::Finish,
        ]
    );
}

fn counters(total: u64) -> MemoryCounters {
    MemoryCounters {
        total_memory_kib: total,
        available_memory_kib: 2048,
        free_memory_kib: 1023,
        used_memory_kib: 5 * 1024 + 1000,
        total_swap_kib: 0,
        free_swap_kib: 1024,
        used_swap_kib: u64::MAX,
    }
}

#[test]
fn report_in_whole_megabytes() {
    let r = MemoryReport::from_counters(&counters(16 * 1024 * 1024));
    assert_eq!(
        r,
        MemoryReport {
            total_memory: 16384,
            available_memory: 2,
            free_memory: 0,
            used_memory: 5,
            total_swap: 0,
            free_swap: 1,
            used_swap: u64::MAX / 1024,
        }
    );
}

#[test]
fn repeated_reports_agree_on_total_memory() {
    let a = MemoryReport::from_counters(&counters(8000000));
    let b = MemoryReport::from_counters(&counters(8000000));
    assert_eq!(a.total_memory, b.total_memory);
    assert_eq!(a.total_memory, 7812);
}

#[test]
fn report_layout() {
    let r = MemoryReport {
        total_memory: 16000,
        available_memory: 12000,
        free_memory: 8000,
        used_memory: 4000,
        total_swap: 2048,
        free_swap: 2048,
        used_swap: 0,
    };
    let text = r.render();
    let expected = format!(
        "{:20}: {:9} MB\n{:20}: {:9} MB, {:20}: {:9} MB, {:20}: {:9} MB\n{:20}: {:9} MB, {:20}: {:9} MB, {:20}: {:9} MB\n",
        "available memory", 12000,
        "total memory", 16000, "free memory", 8000, "used memory", 4000,
        "total swap", 2048, "free swap", 2048, "used swap", 0
    );
    assert_eq!(text, expected);
    assert!(text.starts_with("available memory    :     12000 MB\ntotal memory        :     16000 MB, "));
    assert_eq!(text.lines().count(), 3);
}

#[test]
fn wide_numbers_are_not_cut() {
    let r = MemoryReport {
        total_memory: u64::MAX,
        available_memory: 1234567890,
        free_memory: 0,
        used_memory: 0,
        total_swap: 0,
        free_swap: 0,
        used_swap: 0,
    };
    let text = r.render();
    assert!(text.starts_with("available memory    : 1234567890 MB\ntotal memory        : 18446744073709551615 MB, "));
}

#[test]
fn decimal_and_spaces() {
    let mut s = String::from("x");
    push_decimal(&mut s, 0);
    push_spaces(&mut s, 3);
    push_decimal(&mut s, 1048576);
    assert_eq!(s, "x0   1048576");
}
