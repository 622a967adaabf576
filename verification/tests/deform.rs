use gerstner_water::batch::Group;
use gerstner_water::deform::{DeformAction, DeformTick};

#[test]
fn tick_over_five_vertices() {
    let mut tick = DeformTick::begin(5);
    assert_eq!(tick.vertex_count(), 5);
    assert!(!tick.is_finished());
    assert_eq!(tick.step(), DeformAction::EvaluateGroup(Group { start: 0, len: 4 }));
    assert_eq!(tick.step(), DeformAction::EvaluateGroup(Group { start: 4, len: 1 }));
    assert!(!tick.is_finished());
    assert_eq!(tick.step(), DeformAction::RecomputeNormals);
    assert!(tick.is_finished());
    assert_eq!(tick.step(), DeformAction::Finished);
    assert_eq!(tick.step(), DeformAction::Finished);
    assert!(tick.is_finished());
}

#[test]
fn tick_over_no_vertices_still_recomputes_normals_once() {
    let mut tick = DeformTick::begin(0);
    assert_eq!(tick.step(), DeformAction::RecomputeNormals);
    assert_eq!(tick.step(), DeformAction::Finished);
}

#[test]
fn tick_over_sixteen_vertices_has_only_full_groups() {
    let mut tick = DeformTick::begin(16);
    for k in 0..4usize {
        assert_eq!(tick.step(), DeformAction::EvaluateGroup(Group { start: 4 * k, len: 4 }));
    }
    assert_eq!(tick.step(), DeformAction::RecomputeNormals);
    assert_eq!(tick.step(), DeformAction::Finished);
}

#[test]
fn tick_writes_every_vertex_before_the_normals() {
    for n in 0..40usize {
        let mut tick = DeformTick::begin(n);
        let mut written = vec![0u32; n];
        let mut normals: u32 = 0;
        loop {
            match tick.step() {
                DeformAction::EvaluateGroup(group) => {
                    assert_eq!(normals, 0);
                    for i in group.start..group.start + group.len {
                        written[i] += 1;
                    }
                }
                DeformAction::RecomputeNormals => {
                    assert!(written.iter().all(|w| *w == 1));
                    normals += 1;
                }
                DeformAction::Finished => break,
            }
        }
        assert_eq!(normals, 1);
    }
}

#[test]
fn two_ticks_over_the_same_surface_agree() {
    let mut first = DeformTick::begin(23);
    let mut second = DeformTick::begin(23);
    for _ in 0..10 {
        assert_eq!(first.step(), second.step());
    }
}
