use galaxy_gen::bits::ONE;
use galaxy_gen::config::Config;
use galaxy_gen::gpu::{
    blank_batch, prepare_with, run, Action, Outcome, Pipeline, Slot, Stage,
};
use galaxy_gen::stream::encode_batch;
use turborand::rng::Rng;
use turborand::SeededCore;

fn index(slot: Slot) -> usize {
    match slot {
        Slot::Front => 0,
        Slot::Back => 1,
    }
}

struct Trace {
    actions: Vec<Action>,
    sink: Vec<u8>,
    seed_sets: Vec<Vec<i64>>,
}

/// Runs a pipeline to its end against a kernel that is a plain function of
/// the cycle and the point index, with a vector of bytes for storage. The
/// bytes of a batch are taken when its write is waited for, after the compute
/// cycle that overlaps the write has filled the other slot.
fn drive(config: &Config, kernel: fn(usize, usize) -> f32, fail_at: Option<usize>) -> Trace {
    let rng = Rng::with_seed(5);
    let mut slots = [blank_batch(config), blank_batch(config)];
    let mut trace = Trace { actions: Vec::new(), sink: Vec::new(), seed_sets: Vec::new() };
    let mut pipeline: Pipeline = run(config);
    let mut action = pipeline.action();
    let mut writing: Option<Slot> = None;
    loop {
        trace.actions.push(action);
        let step = trace.actions.len() - 1;
        let mut outcome = Outcome::Completed;
        match action {
            Action::Seed { .. } => {
                trace.seed_sets.push(prepare_with(config, &rng).seeds);
            }
            Action::Dispatch { .. } => {}
            Action::Readback { cycle, slot } => {
                assert_ne!(Some(slot), writing);
                let batch = &mut slots[index(slot)];
                for point in 0..config.point_count() {
                    for coordinate in 0..3 {
                        batch[3 * point + coordinate] = kernel(cycle, point).to_bits();
                    }
                }
            }
            Action::StartWrite { slot, .. } => {
                assert_eq!(writing, None);
                writing = Some(slot);
            }
            Action::AwaitWrite { slot, .. } => {
                assert_eq!(writing, Some(slot));
                trace.sink.extend_from_slice(&encode_batch(&slots[index(slot)]));
                writing = None;
            }
            Action::Finish | Action::Stop | Action::Abort { .. } => break,
        }
        if fail_at == Some(step) {
            outcome = Outcome::Failed;
        }
        action = pipeline.advance(outcome);
    }
    assert!(pipeline.finished());
    trace
}

fn point_index(_cycle: usize, point: usize) -> f32 {
    point as f32
}

fn tagged(cycle: usize, point: usize) -> f32 {
    (1000 * cycle + point) as f32
}

fn floats(bytes: &[u8]) -> Vec<f32> {
    bytes.chunks(4).map(|c| f32::from_ne_bytes([c[0], c[1], c[2], c[3]])).collect()
}

#[test]
fn a_run_starts_before_the_first_seeding() {
    let config = Config::new(ONE, ONE, 8, 8, 4, 2).unwrap();
    let pipeline = run(&config);
    assert_eq!(pipeline.stage(), Stage::Seed);
    assert_eq!(pipeline.cycle(), 0);
    assert_eq!(pipeline.written(), 0);
    assert!(!pipeline.finished());
    assert_eq!(pipeline.action(), Action::Seed { cycle: 0, slot: Slot::Front });
}

#[test]
fn two_iterations_write_two_batches_one_after_the_other() {
    let n = 7;
    let config = Config::new(ONE, ONE, n, 7, 3, 2).unwrap();
    let trace = drive(&config, point_index, None);
    assert_eq!(trace.sink.len(), 2 * n * 12);
    let values = floats(&trace.sink);
    assert_eq!(values.len(), 2 * n * 3);
    for batch in 0..2 {
        for point in 0..n {
            for coordinate in 0..3 {
                assert_eq!(values[batch * n * 3 + point * 3 + coordinate], point as f32);
            }
        }
    }
}

#[test]
fn batches_reach_storage_in_the_order_they_were_computed() {
    let n = 5;
    let config = Config::new(ONE, ONE, n, 5, 5, 4).unwrap();
    let trace = drive(&config, tagged, None);
    let values = floats(&trace.sink);
    assert_eq!(values.len(), 4 * n * 3);
    for batch in 0..4 {
        for point in 0..n {
            for coordinate in 0..3 {
                assert_eq!(
                    values[batch * n * 3 + point * 3 + coordinate],
                    (1000 * batch + point) as f32
                );
            }
        }
    }
}

#[test]
fn the_schedule_of_two_iterations() {
    let config = Config::new(ONE, ONE, 4, 4, 2, 2).unwrap();
    let trace = drive(&config, point_index, None);
    let front = Slot::Front;
    let back = Slot::Back;
    assert_eq!(
        trace.actions,
        vec![
            Action::Seed { cycle: 0, slot: front },
            Action::Dispatch { cycle: 0, slot: front },
            Action::Readback { cycle: 0, slot: front },
            Action::StartWrite { batch: 0, slot: front },
            Action::Seed { cycle: 1, slot: back },
            Action::Dispatch { cycle: 1, slot: back },
            Action::Readback { cycle: 1, slot: back },
            Action::AwaitWrite { batch: 0, slot: front },
            Action::StartWrite { batch: 1, slot: back },
            Action::Seed { cycle: 2, slot: front },
            Action::Dispatch { cycle: 2, slot: front },
            Action::Readback { cycle: 2, slot: front },
            Action::AwaitWrite { batch: 1, slot: back },
            Action::Finish,
        ]
    );
}

#[test]
fn a_run_takes_three_steps_and_five_for_every_iteration() {
    for iterations in [0usize, 1, 2, 10] {
        let config = Config::new(ONE, ONE, 2, 2, 1, iterations).unwrap();
        let trace = drive(&config, point_index, None);
        assert_eq!(trace.actions.len(), 3 + 5 * iterations + 1);
        assert_eq!(trace.actions[trace.actions.len() - 1], Action::Finish);
        assert_eq!(trace.sink.len(), iterations * 2 * 12);
    }
}

#[test]
fn every_cycle_is_seeded_afresh() {
    let config = Config::new(ONE, ONE, 400, 4, 100, 3).unwrap();
    let trace = drive(&config, point_index, None);
    assert_eq!(trace.seed_sets.len(), 4);
    for set in &trace.seed_sets {
        assert_eq!(set.len(), 4);
    }
    for i in 0..trace.seed_sets.len() {
        for j in 0..i {
            assert_ne!(trace.seed_sets[i], trace.seed_sets[j]);
        }
    }
}

#[test]
fn a_failure_ends_the_run_at_once() {
    let config = Config::new(ONE, ONE, 4, 4, 2, 3).unwrap();
    let trace = drive(&config, tagged, Some(5));
    assert_eq!(trace.actions.len(), 7);
    assert_eq!(trace.actions[5], Action::Dispatch { cycle: 1, slot: Slot::Back });
    assert_eq!(trace.actions[6], Action::Abort { failed: Stage::Dispatch });
    assert!(trace.sink.is_empty());
    let trace = drive(&config, tagged, Some(7));
    assert_eq!(trace.actions[7], Action::AwaitWrite { batch: 0, slot: Slot::Front });
    assert_eq!(trace.actions[8], Action::Abort { failed: Stage::AwaitWrite });
}

#[test]
fn a_run_that_has_ended_stays_as_it_is() {
    let config = Config::new(ONE, ONE, 4, 4, 2, 0).unwrap();
    let mut pipeline = run(&config);
    pipeline.advance(Outcome::Completed);
    pipeline.advance(Outcome::Completed);
    assert_eq!(pipeline.advance(Outcome::Completed), Action::Finish);
    assert_eq!(pipeline.stage(), Stage::Done);
    assert_eq!(pipeline.advance(Outcome::Failed), Action::Finish);
    assert_eq!(pipeline.advance(Outcome::Completed), Action::Finish);
    pipeline.request_cancel();
    assert_eq!(pipeline.action(), Action::Finish);

    let mut failed = run(&config);
    assert_eq!(failed.advance(Outcome::Failed), Action::Abort { failed: Stage::Seed });
    assert_eq!(failed.stage(), Stage::Failed);
    assert_eq!(failed.advance(Outcome::Completed), Action::Abort { failed: Stage::Seed });
    assert!(failed.finished());
}

#[test]
fn cancellation_waits_for_the_iteration_boundary() {
    let config = Config::new(ONE, ONE, 4, 4, 2, 5).unwrap();
    let mut pipeline = run(&config);
    for _ in 0..4 {
        pipeline.advance(Outcome::Completed);
    }
    assert_eq!(pipeline.action(), Action::Seed { cycle: 1, slot: Slot::Back });
    pipeline.request_cancel();
    assert_eq!(pipeline.action(), Action::Seed { cycle: 1, slot: Slot::Back });
    assert_eq!(pipeline.advance(Outcome::Completed), Action::Dispatch { cycle: 1, slot: Slot::Back });
    assert_eq!(pipeline.advance(Outcome::Completed), Action::Readback { cycle: 1, slot: Slot::Back });
    assert_eq!(
        pipeline.advance(Outcome::Completed),
        Action::AwaitWrite { batch: 0, slot: Slot::Front }
    );
    assert_eq!(pipeline.written(), 0);
    assert_eq!(pipeline.advance(Outcome::Completed), Action::Stop);
    assert_eq!(pipeline.stage(), Stage::Cancelled);
    assert_eq!(pipeline.written(), 1);
    assert_eq!(pipeline.cycle(), 1);
    assert!(pipeline.finished());
}

#[test]
fn cancellation_before_the_first_write_writes_nothing() {
    let config = Config::new(ONE, ONE, 4, 4, 2, 5).unwrap();
    let mut pipeline = run(&config);
    pipeline.request_cancel();
    pipeline.advance(Outcome::Completed);
    pipeline.advance(Outcome::Completed);
    assert_eq!(pipeline.advance(Outcome::Completed), Action::Stop);
    assert_eq!(pipeline.written(), 0);
}

#[test]
fn cancellation_of_a_finished_run_changes_nothing() {
    let config = Config::new(ONE, ONE, 4, 4, 2, 1).unwrap();
    let mut pipeline = run(&config);
    for _ in 0..7 {
        pipeline.advance(Outcome::Completed);
    }
    pipeline.request_cancel();
    assert_eq!(pipeline.advance(Outcome::Completed), Action::Finish);
    assert_eq!(pipeline.stage(), Stage::Done);
    assert_eq!(pipeline.written(), 1);
}
