use surface_control::{
    fence_into_raw, CallbackError, CallbackState, ChangeFrameRateStrategy, Fence,
    FrameRateCompatibility, HdrMetadataCta8613, Operation, Phase, Rect, StageError, StatsError,
    SubmitContext, SurfaceControl, SurfaceNodes, SurfaceStats, SurfaceTransaction,
    SurfaceTransactionStats, Transparency, Visibility, NO_FENCE,
};

fn setup() -> (SurfaceNodes, SurfaceControl) {
    let mut nodes = SurfaceNodes::new(33).unwrap();
    let root = SurfaceControl::create_from_window(&mut nodes, 0x1000, "root".to_string()).unwrap();
    (nodes, root)
}

#[test]
fn fence_sentinel_becomes_none() {
    assert!(Fence::from_raw(-1).is_none());
    let f = Fence::from_raw(7).unwrap();
    assert_eq!(f.raw(), 7);
    assert_eq!(fence_into_raw(Some(f)), 7);
    assert_eq!(fence_into_raw(None), NO_FENCE);
}

#[test]
fn zero_fence_descriptor_is_a_fence() {
    let f = Fence::from_raw(0).unwrap();
    assert_eq!(f.into_raw(), 0);
}

#[test]
fn null_creation_fails() {
    let mut nodes = SurfaceNodes::new(33).unwrap();
    assert!(SurfaceControl::create_from_window(&mut nodes, 0, "x".to_string()).is_none());
    assert!(SurfaceTransaction::new(0, 33).is_none());
    assert_eq!(SurfaceTransaction::new(5, 33).unwrap().handle(), 5);
}

#[test]
fn child_under_released_parent_fails() {
    let (mut nodes, root) = setup();
    let stale = SurfaceControl::create_from_window(&mut nodes, 0x1000, "again".to_string()).unwrap();
    assert_eq!(nodes.ref_count(0x1000), 2);
    assert_eq!(root.release(&mut nodes), Some(false));
    assert_eq!(stale.release(&mut nodes), Some(true));
    let probe = SurfaceControl::create_from_window(&mut nodes, 0x1000, "p".to_string()).unwrap();
    assert_eq!(probe.release(&mut nodes), Some(true));
    assert!(!nodes.is_live(0x1000));
    assert!(SurfaceControl::create(&mut nodes, &probe_handle(0x1000, &mut SurfaceNodes::new(33).unwrap()), 0x2000, "c".to_string()).is_none());
}

fn probe_handle(id: u64, scratch: &mut SurfaceNodes) -> SurfaceControl {
    SurfaceControl::create_from_window(scratch, id, "scratch".to_string()).unwrap()
}

#[test]
fn child_creation_records_name() {
    let (mut nodes, root) = setup();
    let child = SurfaceControl::create(&mut nodes, &root, 0x2000, "child".to_string()).unwrap();
    assert_eq!(child.id(), 0x2000);
    assert_eq!(nodes.debug_name(0x2000).unwrap(), "child");
    assert_eq!(nodes.debug_name(0x1000).unwrap(), "root");
    assert!(SurfaceControl::create(&mut nodes, &root, 0, "null".to_string()).is_none());
}

#[test]
fn clone_n_times_release_n_plus_one() {
    let (mut nodes, root) = setup();
    let n = 3;
    let mut clones = Vec::new();
    for _ in 0..n {
        clones.push(root.acquire(&mut nodes).unwrap());
    }
    assert_eq!(nodes.ref_count(0x1000), 4);
    for c in clones {
        assert_eq!(c.release(&mut nodes), Some(false));
    }
    assert!(nodes.is_live(0x1000));
    assert_eq!(root.release(&mut nodes), Some(true));
    assert!(!nodes.is_live(0x1000));
    assert_eq!(nodes.ref_count(0x1000), 0);
    assert!(nodes.debug_name(0x1000).is_none());
}

#[test]
fn stale_release_is_reported() {
    let mut scratch = SurfaceNodes::new(33).unwrap();
    let foreign = probe_handle(0x3000, &mut scratch);
    let mut nodes = SurfaceNodes::new(33).unwrap();
    assert_eq!(foreign.release(&mut nodes), None);
}

#[test]
fn zero_scale_is_rejected() {
    let (_nodes, root) = setup();
    let mut t = SurfaceTransaction::new(1, 33).unwrap();
    assert_eq!(
        t.set_scale(&root, 0.0f32.to_bits(), 1.0f32.to_bits()),
        Err(StageError::InvalidArgument)
    );
    assert!(t.operations().is_empty());
}

#[test]
fn scale_validation_edges() {
    let (_nodes, root) = setup();
    let mut t = SurfaceTransaction::new(1, 33).unwrap();
    for bad in [-1.0f32, -0.0, 0.0, f32::NAN, f32::NEG_INFINITY] {
        assert_eq!(t.set_scale(&root, bad.to_bits(), 1.0f32.to_bits()), Err(StageError::InvalidArgument));
        assert_eq!(t.set_scale(&root, 1.0f32.to_bits(), bad.to_bits()), Err(StageError::InvalidArgument));
    }
    assert_eq!(t.set_scale(&root, 2.0f32.to_bits(), f32::MIN_POSITIVE.to_bits()), Ok(()));
    assert_eq!(t.set_scale(&root, f32::INFINITY.to_bits(), 1.0f32.to_bits()), Ok(()));
    assert_eq!(t.set_scale(&root, 1.0f32.to_bits(), f32::INFINITY.to_bits()), Ok(()));
    assert_eq!(t.operations().len(), 3);
}

#[test]
fn alpha_range() {
    let (_nodes, root) = setup();
    let mut t = SurfaceTransaction::new(1, 33).unwrap();
    assert_eq!(t.set_buffer_alpha(&root, 0.5f32.to_bits()), Ok(()));
    assert_eq!(t.set_buffer_alpha(&root, 1.0f32.to_bits()), Ok(()));
    assert_eq!(t.set_buffer_alpha(&root, 0.0f32.to_bits()), Ok(()));
    assert_eq!(t.set_buffer_alpha(&root, (-0.0f32).to_bits()), Ok(()));
    assert_eq!(t.set_buffer_alpha(&root, 1.0001f32.to_bits()), Err(StageError::InvalidArgument));
    assert_eq!(t.set_buffer_alpha(&root, (-0.1f32).to_bits()), Err(StageError::InvalidArgument));
    assert_eq!(t.set_buffer_alpha(&root, f32::NAN.to_bits()), Err(StageError::InvalidArgument));
    assert_eq!(
        t.set_color(&root, 1.0f32.to_bits(), 0, 0, 2.0f32.to_bits(), 0),
        Err(StageError::InvalidArgument)
    );
    assert_eq!(t.set_color(&root, 1.0f32.to_bits(), 0, 0, 1.0f32.to_bits(), 0), Ok(()));
    assert_eq!(t.operations().len(), 5);
}

#[test]
fn rectangles_are_checked() {
    let (_nodes, root) = setup();
    let mut t = SurfaceTransaction::new(1, 33).unwrap();
    let good = Rect { left: 0, top: 0, right: 10, bottom: 10 };
    let empty = Rect { left: 5, top: 5, right: 5, bottom: 5 };
    let crossed = Rect { left: 10, top: 0, right: 0, bottom: 10 };
    assert_eq!(t.set_crop(&root, &empty), Ok(()));
    assert_eq!(t.set_crop(&root, &crossed), Err(StageError::InvalidArgument));
    assert_eq!(t.set_geometry(&root, &good, &empty, 0), Err(StageError::InvalidArgument));
    assert_eq!(t.set_geometry(&root, &good, &good, 0), Ok(()));
    assert_eq!(t.set_damage_region(&root, &[]), Ok(()));
    assert_eq!(t.set_damage_region(&root, &[good, crossed]), Err(StageError::InvalidArgument));
    assert_eq!(t.set_damage_region(&root, &[good, empty]), Ok(()));
    match &t.operations()[3] {
        Operation::SetDamageRegion { node, rects } => {
            assert_eq!(*node, 0x1000);
            assert_eq!(rects, &vec![good, empty]);
        }
        other => panic!("unexpected {:?}", other),
    }
}

#[test]
fn frame_rate_validation() {
    let (_nodes, root) = setup();
    let mut t = SurfaceTransaction::new(1, 33).unwrap();
    assert_eq!(t.set_frame_rate(&root, 0.0f32.to_bits(), FrameRateCompatibility::Default), Ok(()));
    assert_eq!(
        t.set_frame_rate(&root, (-30.0f32).to_bits(), FrameRateCompatibility::Default),
        Ok(())
    );
    assert_eq!(
        t.set_frame_rate_with_change_strategy(
            &root,
            60.0f32.to_bits(),
            FrameRateCompatibility::FixedSource,
            ChangeFrameRateStrategy::Always
        ),
        Ok(())
    );
    match &t.operations()[2] {
        Operation::SetFrameRate { frame_rate, compatibility, change_frame_rate_strategy, .. } => {
            assert_eq!(*frame_rate, 60.0f32.to_bits());
            assert_eq!(*compatibility, FrameRateCompatibility::FixedSource);
            assert_eq!(*change_frame_rate_strategy, Some(ChangeFrameRateStrategy::Always));
        }
        other => panic!("unexpected {:?}", other),
    }
}

#[test]
fn staging_keeps_order_and_submission_hands_it_over() {
    let (mut nodes, root) = setup();
    let child = SurfaceControl::create(&mut nodes, &root, 0x2000, "c".to_string()).unwrap();
    let mut t = SurfaceTransaction::new(1, 33).unwrap();
    t.reparent(&child, Some(&root)).unwrap();
    t.set_position(&child, 3, -4).unwrap();
    t.set_buffer_transform(&child, 4).unwrap();
    t.set_buffer_transparency(&child, Transparency::Opaque).unwrap();
    t.set_desired_present_time(1_000).unwrap();
    t.set_buffer_data_space(&child, 142_671_872).unwrap();
    t.set_hdr_metadata_cta861_3(&child, Some(HdrMetadataCta8613 { max_content_light_level: 1, max_frame_average_light_level: 2 })).unwrap();
    t.set_hdr_metadata_smpte2086(&child, None).unwrap();
    t.set_enable_back_pressure(&child, true).unwrap();
    t.set_frame_timeline(77).unwrap();
    t.reparent(&child, None).unwrap();
    let mut ctx = SubmitContext::new();
    let s = t.apply(&mut ctx).unwrap();
    assert_eq!(s.sequence, 0);
    assert_eq!(s.operations.len(), 11);
    assert!(matches!(s.operations[0], Operation::Reparent { node: 0x2000, new_parent: Some(0x1000) }));
    assert!(matches!(s.operations[1], Operation::SetPosition { node: 0x2000, x: 3, y: -4 }));
    assert!(matches!(s.operations[4], Operation::SetDesiredPresentTime { desired_present_time: 1_000 }));
    assert!(matches!(s.operations[9], Operation::SetFrameTimeline { vsync_id: 77 }));
    assert!(matches!(s.operations[10], Operation::Reparent { node: 0x2000, new_parent: None }));
    assert!(t.operations().is_empty());
    assert!(t.is_submitted());
    assert_eq!(t.sequence(), Some(0));
}

#[test]
fn nothing_after_submission() {
    let (_nodes, root) = setup();
    let mut t = SurfaceTransaction::new(1, 33).unwrap();
    let mut ctx = SubmitContext::new();
    t.apply(&mut ctx).unwrap();
    assert_eq!(t.set_z_order(&root, 1), Err(StageError::AlreadySubmitted));
    assert_eq!(t.set_visibility(&root, Visibility::Show), Err(StageError::AlreadySubmitted));
    assert_eq!(t.set_on_complete(), Err(CallbackError::AlreadySubmitted));
    assert_eq!(t.set_on_commit(), Err(CallbackError::AlreadySubmitted));
    assert!(matches!(t.apply(&mut ctx), Err(CallbackError::AlreadySubmitted)));
    assert_eq!(ctx.next_sequence(), 1);
}

#[test]
fn callbacks_fire_once_commit_first() {
    let mut t = SurfaceTransaction::new(1, 33).unwrap();
    assert_eq!(t.on_event(Phase::Commit), Err(CallbackError::NotSubmitted));
    t.set_on_commit().unwrap();
    t.set_on_complete().unwrap();
    let mut ctx = SubmitContext::new();
    t.apply(&mut ctx).unwrap();
    assert_eq!(t.on_event(Phase::Complete), Err(CallbackError::CommitPending));
    assert_eq!(t.on_event(Phase::Commit), Ok(true));
    assert_eq!(t.on_event(Phase::Commit), Err(CallbackError::AlreadyFired));
    assert_eq!(t.on_event(Phase::Complete), Ok(true));
    assert_eq!(t.on_event(Phase::Complete), Err(CallbackError::AlreadyFired));
    assert_eq!(t.callbacks().on_commit, CallbackState::Fired);
    assert_eq!(t.callbacks().on_complete, CallbackState::Fired);
}

#[test]
fn unregistered_tracks_invoke_nothing() {
    let mut t = SurfaceTransaction::new(1, 33).unwrap();
    t.set_on_complete().unwrap();
    t.apply(&mut SubmitContext::new()).unwrap();
    assert_eq!(t.on_event(Phase::Commit), Ok(false));
    assert_eq!(t.on_event(Phase::Complete), Ok(true));
    assert_eq!(t.callbacks().on_commit, CallbackState::Unset);
}

#[test]
fn sequences_follow_submission_order() {
    let mut ctx = SubmitContext::new();
    let mut a = SurfaceTransaction::new(1, 33).unwrap();
    let mut b = SurfaceTransaction::new(2, 33).unwrap();
    let sa = a.apply(&mut ctx).unwrap();
    let sb = b.apply(&mut ctx).unwrap();
    assert!(sa.sequence < sb.sequence);
    assert_eq!((sa.sequence, sb.sequence), (0, 1));
}

#[test]
fn commit_phase_refuses_fences() {
    let mut stats = SurfaceTransactionStats::new(
        Phase::Commit,
        10,
        5,
        vec![SurfaceStats { node: 0x1000, acquire_time: 3, previous_release_fence: 6 }],
    );
    let root = probe_handle(0x1000, &mut SurfaceNodes::new(33).unwrap());
    assert!(matches!(stats.present_fence_fd(), Err(StatsError::WrongPhase)));
    assert!(matches!(stats.previous_release_fence_fd(&root), Err(StatsError::WrongPhase)));
    assert_eq!(stats.acquire_time(&root), 3);
    assert_eq!(stats.latch_time(), 10);
}

#[test]
fn complete_phase_without_fences_gives_none() {
    let mut stats = SurfaceTransactionStats::new(
        Phase::Complete,
        10,
        -1,
        vec![SurfaceStats { node: 0x1000, acquire_time: -1, previous_release_fence: -1 }],
    );
    let root = probe_handle(0x1000, &mut SurfaceNodes::new(33).unwrap());
    assert!(matches!(stats.present_fence_fd(), Ok(None)));
    assert!(matches!(stats.previous_release_fence_fd(&root), Ok(None)));
    assert_eq!(stats.acquire_time(&root), -1);
}

#[test]
fn fences_move_out_once() {
    let mut stats = SurfaceTransactionStats::new(
        Phase::Complete,
        10,
        5,
        vec![SurfaceStats { node: 0x1000, acquire_time: 2, previous_release_fence: 6 }],
    );
    let root = probe_handle(0x1000, &mut SurfaceNodes::new(33).unwrap());
    let other = probe_handle(0x9000, &mut SurfaceNodes::new(33).unwrap());
    assert_eq!(stats.present_fence_fd().unwrap().unwrap().raw(), 5);
    assert!(matches!(stats.present_fence_fd(), Ok(None)));
    assert_eq!(stats.previous_release_fence_fd(&root).unwrap().unwrap().into_raw(), 6);
    assert!(matches!(stats.previous_release_fence_fd(&root), Ok(None)));
    assert!(matches!(stats.previous_release_fence_fd(&other), Ok(None)));
    assert_eq!(stats.acquire_time(&other), -1);
}

#[test]
fn set_buffer_moves_the_fence_in() {
    let (_nodes, root) = setup();
    let mut t = SurfaceTransaction::new(1, 33).unwrap();
    let fence = Fence::from_raw(9);
    t.set_buffer(&root, 0xb0, fence).unwrap();
    t.set_buffer(&root, 0xb1, None).unwrap();
    let s = t.apply(&mut SubmitContext::new()).unwrap();
    let mut ops = s.operations.into_iter();
    match ops.next().unwrap() {
        Operation::SetBuffer { node, buffer, acquire_fence } => {
            assert_eq!((node, buffer), (0x1000, 0xb0));
            assert_eq!(fence_into_raw(acquire_fence), 9);
        }
        other => panic!("unexpected {:?}", other),
    }
    match ops.next().unwrap() {
        Operation::SetBuffer { acquire_fence, .. } => assert_eq!(fence_into_raw(acquire_fence), -1),
        other => panic!("unexpected {:?}", other),
    }
}

#[test]
fn snapshot_lists_nodes_in_order() {
    let stats = SurfaceTransactionStats::new(
        Phase::Complete,
        0,
        -1,
        vec![
            SurfaceStats { node: 2, acquire_time: 1, previous_release_fence: -1 },
            SurfaceStats { node: 1, acquire_time: 1, previous_release_fence: -1 },
        ],
    );
    let list = stats.surface_controls();
    assert_eq!(list.len(), 2);
    assert_eq!(list.get(0).id(), 2);
    assert_eq!(list.as_slice()[1].id(), 1);
}

#[test]
fn commit_snapshot_drops_raw_fences() {
    let mut stats = SurfaceTransactionStats::new(
        Phase::Commit,
        0,
        4,
        vec![SurfaceStats { node: 1, acquire_time: 1, previous_release_fence: 8 }],
    );
    assert_eq!(stats.phase(), Phase::Commit);
    assert!(stats.present_fence_fd().is_err());
}

#[test]
fn enum_codes() {
    assert_eq!(Visibility::Hide.code(), 0);
    assert_eq!(i8::from(Visibility::Show), 1);
    assert_eq!(i8::from(Transparency::Opaque), 2);
    assert_eq!(Transparency::Translucent.code(), 1);
    assert_eq!(Visibility::try_from_code(1), Some(Visibility::Show));
    assert_eq!(Visibility::try_from_code(2), None);
    assert_eq!(Transparency::try_from_code(0), Some(Transparency::Transparent));
    assert_eq!(Transparency::try_from_code(-1), None);
    assert_eq!(FrameRateCompatibility::FixedSource.code(), 1);
    assert_eq!(ChangeFrameRateStrategy::OnlyIfSeamless.code(), 0);
}

#[test]
fn versions_below_surface_control_have_nothing() {
    assert!(SurfaceNodes::new(28).is_none());
    assert!(SurfaceTransaction::new(1, 28).is_none());
    assert_eq!(SurfaceNodes::new(29).unwrap().api_level(), 29);
}

#[test]
fn staging_is_gated_by_version() {
    let mut nodes = SurfaceNodes::new(29).unwrap();
    let root = SurfaceControl::create_from_window(&mut nodes, 0x1000, "root".to_string()).unwrap();
    let r = Rect { left: 0, top: 0, right: 1, bottom: 1 };
    let one = 1.0f32.to_bits();
    let mut t = SurfaceTransaction::new(1, 29).unwrap();
    assert_eq!(t.set_crop(&root, &r), Err(StageError::Unsupported));
    assert_eq!(t.set_position(&root, 1, 1), Err(StageError::Unsupported));
    assert_eq!(t.set_buffer_transform(&root, 0), Err(StageError::Unsupported));
    assert_eq!(t.set_scale(&root, one, one), Err(StageError::Unsupported));
    assert_eq!(t.set_enable_back_pressure(&root, true), Err(StageError::Unsupported));
    assert_eq!(t.set_frame_rate(&root, one, FrameRateCompatibility::Default), Err(StageError::Unsupported));
    assert_eq!(t.set_frame_timeline(1), Err(StageError::Unsupported));
    assert_eq!(t.set_on_commit(), Err(CallbackError::Unsupported));
    assert_eq!(t.set_z_order(&root, 1), Ok(()));
    assert_eq!(t.set_geometry(&root, &r, &r, 0), Ok(()));
    assert_eq!(t.set_on_complete(), Ok(()));
    assert_eq!(t.operations().len(), 2);
    assert!(root.acquire(&mut nodes).is_none());
    assert_eq!(nodes.ref_count(0x1000), 1);

    let mut t30 = SurfaceTransaction::new(1, 30).unwrap();
    assert_eq!(t30.set_frame_rate(&root, one, FrameRateCompatibility::Default), Ok(()));
    assert_eq!(
        t30.set_frame_rate_with_change_strategy(&root, one, FrameRateCompatibility::Default, ChangeFrameRateStrategy::Always),
        Err(StageError::Unsupported)
    );
    let mut t31 = SurfaceTransaction::new(1, 31).unwrap();
    assert_eq!(t31.set_scale(&root, one, one), Ok(()));
    assert_eq!(t31.set_frame_timeline(1), Err(StageError::Unsupported));
    assert_eq!(t31.set_on_commit(), Ok(()));
}

#[test]
fn discarding_hands_back_staged_fences() {
    let (_nodes, root) = setup();
    let mut t = SurfaceTransaction::new(1, 33).unwrap();
    t.set_buffer(&root, 0xb0, Fence::from_raw(12)).unwrap();
    t.set_z_order(&root, 3).unwrap();
    let ops = t.discard_staged();
    assert_eq!(ops.len(), 2);
    assert!(t.operations().is_empty());
    match ops.into_iter().next().unwrap() {
        Operation::SetBuffer { acquire_fence, .. } => assert_eq!(fence_into_raw(acquire_fence), 12),
        other => panic!("unexpected {:?}", other),
    }
}
