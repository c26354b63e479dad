use egui_grr::FrameState;

#[test]
fn repaint_draws_same_shapes_without_deltas() {
    let mut frame: FrameState<Vec<u32>, &str> = FrameState::new(Vec::new());
    frame.record_run(vec![1, 2, 3], "delta-a");
    let first = frame.take_pending();
    assert_eq!(first, vec!["delta-a"]);
    assert_eq!(frame.shapes(), &vec![1, 2, 3]);
    let second = frame.take_pending();
    assert!(second.is_empty());
    assert_eq!(frame.shapes(), &vec![1, 2, 3]);
}

#[test]
fn deltas_of_several_runs_queue_in_order() {
    let mut frame: FrameState<Vec<u32>, u32> = FrameState::new(Vec::new());
    frame.record_run(vec![1], 10);
    frame.record_run(vec![2], 20);
    assert_eq!(frame.shapes(), &vec![2]);
    assert_eq!(frame.take_pending(), vec![10, 20]);
}

#[test]
fn destroy_ends_the_cycle() {
    let mut frame: FrameState<Vec<u32>, u32> = FrameState::new(vec![7]);
    assert!(!frame.is_destroyed());
    frame.record_run(vec![8], 1);
    assert_eq!(frame.destroy(), vec![1]);
    assert!(frame.is_destroyed());
}
