use unique_port::{
    find_free_port, generate_start_port, get_unique_free_port, set_port_index, PortCursor,
    PortError, DEFAULT_START_PORT, PORT_RANGE_END,
};

#[test]
fn fresh_cursor_starts_at_default() {
    let c = PortCursor::new();
    assert_eq!(c.next_port, DEFAULT_START_PORT);
    assert!(!c.poisoned);
}

#[test]
fn successful_allocations_are_unique_and_increasing() {
    let mut c = PortCursor::new();
    let every_port_free = |_p: u16| true;
    let mut returned: Vec<u16> = Vec::new();
    for _ in 0..5 {
        returned.push(get_unique_free_port(&mut c, every_port_free).unwrap());
    }
    assert_eq!(returned, vec![1000, 1001, 1002, 1003, 1004]);
    for i in 0..returned.len() {
        for j in (i + 1)..returned.len() {
            assert!(returned[i] < returned[j]);
        }
    }
}

#[test]
fn idempotent_reset_returns_the_index_when_free() {
    let mut c = PortCursor::new();
    let every_port_free = |_p: u16| true;
    set_port_index(&mut c, 1042).unwrap();
    assert_eq!(get_unique_free_port(&mut c, every_port_free), Ok(1042));
    set_port_index(&mut c, 1042).unwrap();
    assert_eq!(get_unique_free_port(&mut c, every_port_free), Ok(1042));
}

#[test]
fn idempotent_reset_skips_the_same_bound_ports_both_times() {
    let mut c = PortCursor::new();
    let free_from_5003 = |p: u16| p >= 5003;
    set_port_index(&mut c, 5000).unwrap();
    let first = get_unique_free_port(&mut c, free_from_5003).unwrap();
    set_port_index(&mut c, 5000).unwrap();
    let second = get_unique_free_port(&mut c, free_from_5003).unwrap();
    assert_eq!(first, 5003);
    assert_eq!(second, 5003);
    assert!(first >= 5000);
}

#[test]
fn scan_returns_first_fit_above_pre_bound_ports() {
    let bound_5000_to_5002 = |p: u16| !(5000..=5002).contains(&p);
    assert_eq!(find_free_port(5000, PORT_RANGE_END, bound_5000_to_5002), Ok(5003));
}

#[test]
fn scan_of_empty_range_finds_nothing() {
    let every_port_free = |_p: u16| true;
    assert_eq!(find_free_port(5000, 5000, every_port_free), Err(PortError::NoFreePort));
}

#[test]
fn scan_with_every_port_bound_finds_nothing() {
    let every_port_bound = |_p: u16| false;
    assert_eq!(find_free_port(6000, 6100, every_port_bound), Err(PortError::NoFreePort));
}

#[test]
fn range_exhaustion_fails_and_keeps_the_cursor() {
    let mut c = PortCursor::new();
    let every_port_free = |_p: u16| true;
    set_port_index(&mut c, 65535).unwrap();
    assert_eq!(get_unique_free_port(&mut c, every_port_free), Err(PortError::NoFreePort));
    assert_eq!(c.next_port, 65535);
    assert_eq!(get_unique_free_port(&mut c, every_port_free), Err(PortError::NoFreePort));
}

#[test]
fn failed_allocation_leaves_cursor_unchanged() {
    let mut c = PortCursor::new();
    let every_port_bound = |_p: u16| false;
    set_port_index(&mut c, 2000).unwrap();
    assert_eq!(get_unique_free_port(&mut c, every_port_bound), Err(PortError::NoFreePort));
    assert_eq!(c.next_port, 2000);
}

#[test]
fn allocation_advances_cursor_past_returned_port() {
    let mut c = PortCursor::new();
    let free_on_even_ports = |p: u16| p % 2 == 0;
    set_port_index(&mut c, 3001).unwrap();
    assert_eq!(get_unique_free_port(&mut c, free_on_even_ports), Ok(3002));
    assert_eq!(c.next_port, 3003);
}

#[test]
fn offset_is_stable_for_one_call_site() {
    let first = generate_start_port("alpha::one");
    let second = generate_start_port("alpha::one");
    assert_eq!(first, second);
}

#[test]
fn offsets_of_distinct_call_sites_differ() {
    assert_ne!(generate_start_port("alpha::one"), generate_start_port("alpha::two"));
}

#[test]
fn offset_matches_the_hash_formula_exactly() {
    assert_eq!(generate_start_port(""), 13572);
    assert_eq!(generate_start_port("a"), 42151);
    assert_eq!(generate_start_port("alpha::one"), 59511);
    assert_eq!(generate_start_port("tests::sample_site"), 10060);
}

#[test]
fn offset_always_lies_in_the_documented_range() {
    for name in ["", "a", "alpha::one", "alpha::two", "tests::sample_site"] {
        let offset = generate_start_port(name);
        assert!(offset >= DEFAULT_START_PORT);
        assert!(offset < PORT_RANGE_END);
    }
}

#[test]
fn offset_composes_with_the_allocator() {
    let mut c = PortCursor::new();
    let every_port_free = |_p: u16| true;
    let offset = generate_start_port("tests::sample_site");
    set_port_index(&mut c, offset).unwrap();
    assert_eq!(get_unique_free_port(&mut c, every_port_free), Ok(offset));
}

#[test]
fn poisoned_lock_surfaces_as_error_not_crash() {
    let mut c = PortCursor { next_port: 1500, poisoned: true };
    let every_port_free = |_p: u16| true;
    assert_eq!(set_port_index(&mut c, 2000), Err(PortError::LockPoisoned));
    assert_eq!(get_unique_free_port(&mut c, every_port_free), Err(PortError::LockPoisoned));
    assert_eq!(c.next_port, 1500);
    assert!(c.poisoned);
}
