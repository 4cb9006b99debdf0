use gpu_cycle::workgroups::{workgroup_count, BUFFER_SIZE, WORKGROUP_SIZE};

#[test]
fn buffer_and_workgroup_constants() {
    assert_eq!(BUFFER_SIZE, 640);
    assert_eq!(WORKGROUP_SIZE, 64);
}

#[test]
fn the_buffer_takes_ten_workgroups() {
    assert_eq!(workgroup_count(BUFFER_SIZE, WORKGROUP_SIZE), Some(10));
}

#[test]
fn count_rounds_up() {
    assert_eq!(workgroup_count(641, 64), Some(11));
    assert_eq!(workgroup_count(639, 64), Some(10));
    assert_eq!(workgroup_count(577, 64), Some(10));
    assert_eq!(workgroup_count(576, 64), Some(9));
    assert_eq!(workgroup_count(1, 64), Some(1));
    assert_eq!(workgroup_count(64, 64), Some(1));
    assert_eq!(workgroup_count(65, 64), Some(2));
    assert_eq!(workgroup_count(7, 1), Some(7));
}

#[test]
fn nothing_to_cover_takes_no_workgroup() {
    assert_eq!(workgroup_count(0, 64), Some(0));
    assert_eq!(workgroup_count(0, 1), Some(0));
}

#[test]
fn empty_workgroup_has_no_count() {
    assert_eq!(workgroup_count(640, 0), None);
    assert_eq!(workgroup_count(0, 0), None);
}

#[test]
fn count_stops_at_the_largest_dispatch() {
    let most = u32::MAX as u64;
    assert_eq!(workgroup_count(most, 1), Some(u32::MAX));
    assert_eq!(workgroup_count(most + 1, 1), None);
    assert_eq!(workgroup_count(most * 64, 64), Some(u32::MAX));
    assert_eq!(workgroup_count(most * 64 + 1, 64), None);
    assert_eq!(workgroup_count((most - 1) * 64 + 1, 64), Some(u32::MAX));
    assert_eq!(workgroup_count(u64::MAX, 1), None);
    assert_eq!(workgroup_count(u64::MAX, u32::MAX), None);
    assert_eq!(workgroup_count(most * most, u32::MAX), Some(u32::MAX));
    assert_eq!(workgroup_count(most * most + 1, u32::MAX), None);
}

#[test]
fn count_is_the_least_cover() {
    for elements in 0u64..300 {
        for local_size in 1u32..20 {
            let groups = workgroup_count(elements, local_size).unwrap() as u64;
            assert!(groups * local_size as u64 >= elements);
            if groups > 0 {
                assert!((groups - 1) * (local_size as u64) < elements);
            }
        }
    }
}
