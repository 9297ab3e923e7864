use wgpu_raycaster::gpu::{dispatch_for, workgroups, Dispatch};

#[test]
fn dispatch_covers_a_500_by_500_target() {
    assert_eq!(dispatch_for(500, 500), Dispatch { x: 63, y: 63, z: 1 });
}

#[test]
fn dispatch_covers_a_1000_by_1000_target() {
    assert_eq!(dispatch_for(1000, 1000), Dispatch { x: 125, y: 125, z: 1 });
}

#[test]
fn workgroups_round_up() {
    assert_eq!(workgroups(0), 0);
    assert_eq!(workgroups(1), 1);
    assert_eq!(workgroups(8), 1);
    assert_eq!(workgroups(9), 2);
    assert_eq!(workgroups(u32::MAX), 536_870_912);
}
