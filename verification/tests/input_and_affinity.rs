use clicker::affinity::{parse_cpu_sets, select_best_cpu_set, CpuSet};
use clicker::input::{batch_outcome, clamp_batch, normalize_abs, VirtualScreen, MAX_BATCH};
use clicker::sink::SinkError;

#[test]
fn primary_monitor_origin_maps_to_zero() {
    let vs = VirtualScreen { left: 0, top: 0, width: 1920, height: 1080 };
    assert_eq!(normalize_abs(0, 0, vs), (0, 0));
}

#[test]
fn bottom_right_maps_to_full_scale() {
    let vs = VirtualScreen { left: 0, top: 0, width: 1920, height: 1080 };
    assert_eq!(normalize_abs(1919, 1079, vs), (65535, 65535));
}

#[test]
fn negative_origin_left_monitor_maps_correctly() {
    let vs = VirtualScreen { left: -1920, top: 0, width: 3840, height: 1080 };
    assert_eq!(normalize_abs(-1920, 0, vs), (0, 0));
    let (mid_x, _) = normalize_abs(0, 0, vs);
    assert!((32750..=32790).contains(&mid_x), "midpoint was {mid_x}");
}

#[test]
fn degenerate_virtual_screen_does_not_divide_by_zero() {
    let vs = VirtualScreen { left: 0, top: 0, width: 1, height: 1 };
    let (x, y) = normalize_abs(0, 0, vs);
    assert_eq!((x, y), (0, 0));
}

fn set(id: u32, eff: u8) -> CpuSet {
    CpuSet { id, efficiency_class: eff, group: 0, logical_index: id as u8 }
}

#[test]
fn prefers_the_highest_efficiency_class() {
    let sets = vec![set(0, 0), set(1, 0), set(2, 1), set(3, 1)];
    let chosen = select_best_cpu_set(&sets).unwrap();
    assert!(chosen == 2 || chosen == 3, "chose {chosen}, expected a P-core");
}

#[test]
fn homogeneous_cpu_picks_a_stable_non_zero_core() {
    let sets: Vec<CpuSet> = (0..12).map(|i| set(i, 0)).collect();
    let a = select_best_cpu_set(&sets).unwrap();
    let b = select_best_cpu_set(&sets).unwrap();
    assert_eq!(a, b, "selection must be deterministic");
    assert_ne!(a, 0, "core 0 handles more interrupt and DPC work; avoid it");
}

#[test]
fn single_core_machine_falls_back_to_core_zero() {
    let sets = vec![set(0, 0)];
    assert_eq!(select_best_cpu_set(&sets), Some(0));
}

#[test]
fn empty_enumeration_selects_nothing() {
    assert_eq!(select_best_cpu_set(&[]), None);
}

// --- further cases ---

#[test]
fn selection_orders_by_group_then_index_not_by_position() {
    let sets = vec![
        CpuSet { id: 9, efficiency_class: 2, group: 1, logical_index: 0 },
        CpuSet { id: 7, efficiency_class: 2, group: 0, logical_index: 5 },
        CpuSet { id: 4, efficiency_class: 1, group: 0, logical_index: 0 },
        CpuSet { id: 8, efficiency_class: 2, group: 0, logical_index: 3 },
    ];
    // Best class 2: keys (0,3,8), (0,5,7), (1,0,9): second in order is id 7.
    assert_eq!(select_best_cpu_set(&sets), Some(7));
}

fn record(size: u32, ty: u32, id: u32, group: u16, index: u8, class: u8) -> Vec<u8> {
    let mut r = Vec::new();
    r.extend_from_slice(&size.to_le_bytes());
    r.extend_from_slice(&ty.to_le_bytes());
    r.extend_from_slice(&id.to_le_bytes());
    r.extend_from_slice(&group.to_le_bytes());
    r.push(index);
    r.push(0);
    r.push(0);
    r.push(0);
    r.push(class);
    while r.len() < size as usize {
        r.push(0);
    }
    r
}

#[test]
fn cpu_set_records_decode_and_skip_other_types() {
    let mut buf = record(32, 0, 256, 1, 3, 1);
    buf.extend(record(24, 1, 999, 0, 0, 0));
    buf.extend(record(32, 0, 257, 1, 4, 0));
    let sets = parse_cpu_sets(&buf);
    assert_eq!(
        sets,
        vec![
            CpuSet { id: 256, efficiency_class: 1, group: 1, logical_index: 3 },
            CpuSet { id: 257, efficiency_class: 0, group: 1, logical_index: 4 },
        ]
    );
}

#[test]
fn cpu_set_decoding_stops_at_a_malformed_record() {
    let mut buf = record(32, 0, 1, 0, 1, 0);
    buf.extend(record(18, 0, 2, 0, 2, 0)); // too short to be a record
    buf.extend(record(32, 0, 3, 0, 3, 0));
    assert_eq!(parse_cpu_sets(&buf).len(), 1);
    // A size running past the end stops decoding too.
    let mut short = record(32, 0, 1, 0, 1, 0);
    short.truncate(20);
    assert!(parse_cpu_sets(&short).is_empty());
    assert!(parse_cpu_sets(&[]).is_empty());
}

#[test]
fn batches_are_capped_and_short_injections_are_blocked() {
    assert_eq!(clamp_batch(1), 1);
    assert_eq!(clamp_batch(1000), MAX_BATCH);
    assert_eq!(batch_outcome(4, 8, 0), Ok(4));
    assert_eq!(
        batch_outcome(4, 3, 5),
        Err(SinkError::Blocked { inserted: 3, expected: 8, last_error: 5 })
    );
}
