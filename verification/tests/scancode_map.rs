use ime_alt::scancode::{
    build_scancode_map, is_caps_ctrl_registered, parse_scancode_map, plan_scancode_write,
    update_entries, ScancodeWrite, SC_CAPSLOCK, SC_LCTRL,
};

fn caps_ctrl_value() -> Vec<u8> {
    vec![
        0x00, 0x00, 0x00, 0x00, 0x00, 0x00, 0x00, 0x00, 0x02, 0x00, 0x00, 0x00, 0x1D, 0x00, 0x3A,
        0x00, 0x00, 0x00, 0x00, 0x00,
    ]
}

#[test]
fn build_caps_ctrl_example() {
    assert_eq!(build_scancode_map(&[(SC_LCTRL, SC_CAPSLOCK)]), caps_ctrl_value());
}

#[test]
fn parse_caps_ctrl_example() {
    assert_eq!(parse_scancode_map(&caps_ctrl_value()), vec![(0x1D, 0x3A)]);
}

#[test]
fn build_empty_map() {
    let data = build_scancode_map(&[]);
    assert_eq!(data, vec![0, 0, 0, 0, 0, 0, 0, 0, 1, 0, 0, 0, 0, 0, 0, 0]);
    assert!(parse_scancode_map(&data).is_empty());
}

#[test]
fn build_is_little_endian() {
    let data = build_scancode_map(&[(0x1234, 0xE05B), (0x0001, 0xFF00)]);
    assert_eq!(data.len(), 24);
    assert_eq!(&data[8..12], &[3, 0, 0, 0]);
    assert_eq!(&data[12..16], &[0x34, 0x12, 0x5B, 0xE0]);
    assert_eq!(&data[16..20], &[0x01, 0x00, 0x00, 0xFF]);
    assert_eq!(&data[20..24], &[0, 0, 0, 0]);
}

#[test]
fn parse_too_short_is_empty() {
    assert!(parse_scancode_map(&[]).is_empty());
    assert!(parse_scancode_map(&[0u8; 11]).is_empty());
    assert!(parse_scancode_map(&caps_ctrl_value()[..11]).is_empty());
}

#[test]
fn parse_count_zero_or_one_is_empty() {
    let mut data = caps_ctrl_value();
    data[8] = 0;
    assert!(parse_scancode_map(&data).is_empty());
    data[8] = 1;
    assert!(parse_scancode_map(&data).is_empty());
}

#[test]
fn parse_stops_where_data_ends() {
    let mut data = caps_ctrl_value();
    // announces 0x01000005 entries, but holds two whole ones (the terminator counts as one)
    data[8] = 5;
    data[11] = 1;
    assert_eq!(parse_scancode_map(&data), vec![(0x1D, 0x3A), (0, 0)]);
    // a partial entry at the end is not read
    let cut = &data[..19];
    assert_eq!(parse_scancode_map(cut), vec![(0x1D, 0x3A)]);
}

#[test]
fn parse_reads_only_announced_entries() {
    let mut data = build_scancode_map(&[(1, 2), (3, 4), (5, 6)]);
    data[8] = 2;
    assert_eq!(parse_scancode_map(&data), vec![(1, 2)]);
}

#[test]
fn parse_build_round_trip() {
    let entries = vec![(0x1D, 0x3A), (0x3A, 0x1D), (0xE05B, 0x0001), (0xFFFF, 0x0000)];
    assert_eq!(parse_scancode_map(&build_scancode_map(&entries)), entries);
}

#[test]
fn registered_when_value_maps_caps_to_ctrl() {
    assert!(is_caps_ctrl_registered(&Ok(Some(caps_ctrl_value()))));
    let other = build_scancode_map(&[(0x01, 0x3A), (0x1D, 0x3B)]);
    assert!(!is_caps_ctrl_registered(&Ok(Some(other))));
    let both = build_scancode_map(&[(0x01, 0x02), (0x1D, 0x3A)]);
    assert!(is_caps_ctrl_registered(&Ok(Some(both))));
}

#[test]
fn not_registered_without_value_or_on_error() {
    assert!(!is_caps_ctrl_registered(&Ok(None)));
    assert!(!is_caps_ctrl_registered(&Err(5)));
    assert!(!is_caps_ctrl_registered(&Ok(Some(vec![1, 2, 3]))));
}

#[test]
fn enabling_replaces_other_capslock_mapping() {
    let entries = vec![(0x01, 0x3A), (0x2A, 0x36), (0x1D, 0x3A)];
    assert_eq!(update_entries(&entries, true), vec![(0x2A, 0x36), (0x1D, 0x3A)]);
}

#[test]
fn disabling_keeps_other_mappings() {
    let entries = vec![(0x01, 0x3A), (0x1D, 0x3A), (0x2A, 0x36)];
    assert_eq!(update_entries(&entries, false), vec![(0x01, 0x3A), (0x2A, 0x36)]);
}

fn stored(plan: ScancodeWrite) -> Option<Vec<u8>> {
    match plan {
        ScancodeWrite::Remove => None,
        ScancodeWrite::Store(data) => Some(data),
    }
}

#[test]
fn plan_passes_read_error_on() {
    assert!(matches!(plan_scancode_write(Err(5), true), Err(5)));
    assert!(matches!(plan_scancode_write(Err(2), false), Err(2)));
}

#[test]
fn plan_enable_without_value_stores_caps_ctrl() {
    let plan = plan_scancode_write(Ok(None), true).ok().unwrap();
    assert_eq!(stored(plan), Some(caps_ctrl_value()));
}

#[test]
fn plan_disable_last_mapping_removes_value() {
    let plan = plan_scancode_write(Ok(Some(caps_ctrl_value())), false).ok().unwrap();
    assert_eq!(stored(plan), None);
    let plan = plan_scancode_write(Ok(None), false).ok().unwrap();
    assert_eq!(stored(plan), None);
}

#[test]
fn plan_disable_keeps_other_mappings() {
    let value = build_scancode_map(&[(0x2A, 0x36), (0x1D, 0x3A)]);
    let plan = plan_scancode_write(Ok(Some(value)), false).ok().unwrap();
    assert_eq!(stored(plan), Some(build_scancode_map(&[(0x2A, 0x36)])));
}

#[test]
fn registered_after_write() {
    for start in [None, Some(caps_ctrl_value()), Some(build_scancode_map(&[(0x2A, 0x36)]))] {
        for enable in [true, false] {
            let plan = plan_scancode_write(Ok(start.clone()), enable).ok().unwrap();
            assert_eq!(is_caps_ctrl_registered(&Ok(stored(plan))), enable);
        }
    }
}

#[test]
fn writing_twice_is_writing_once() {
    let start = Some(build_scancode_map(&[(0x01, 0x3A), (0x2A, 0x36)]));
    for enable in [true, false] {
        let once = stored(plan_scancode_write(Ok(start.clone()), enable).ok().unwrap());
        let twice = stored(plan_scancode_write(Ok(once.clone()), enable).ok().unwrap());
        assert_eq!(once, twice);
    }
}

#[test]
fn enable_then_disable_keeps_other_keys() {
    let start = Some(build_scancode_map(&[(0x01, 0x3A), (0x2A, 0x36), (0x38, 0x5B)]));
    let on = stored(plan_scancode_write(Ok(start), true).ok().unwrap());
    let off = stored(plan_scancode_write(Ok(on), false).ok().unwrap()).unwrap();
    assert_eq!(parse_scancode_map(&off), vec![(0x2A, 0x36), (0x38, 0x5B)]);
}

#[test]
fn disable_then_enable_is_enable() {
    let start = Some(build_scancode_map(&[(0x1D, 0x3A), (0x2A, 0x36)]));
    let off = stored(plan_scancode_write(Ok(start.clone()), false).ok().unwrap());
    let off_on = stored(plan_scancode_write(Ok(off), true).ok().unwrap());
    let on = stored(plan_scancode_write(Ok(start), true).ok().unwrap());
    assert_eq!(off_on, on);
}
