use coroutine::channel::ResultReporter;
use coroutine::driver::{DriverMisuse, Step};
use coroutine::machine::StateMachine;
use coroutine::nested::NestedNode;
use coroutine::squares::{square_sum, square_sum_step, State};
use coroutine::stackful::{decode_transfer, encode_step, StackfulDriver};
use coroutine::stackless::StacklessCoro;

fn leaf(v: i32) -> NestedNode {
    NestedNode::Leaf(v)
}

fn group(children: Vec<NestedNode>) -> NestedNode {
    NestedNode::Group(children)
}

/// The structure [1, [[2, 3], [4, 5]], [6, 7, 8]].
fn sample() -> NestedNode {
    group(vec![
        leaf(1),
        group(vec![group(vec![leaf(2), leaf(3)]), group(vec![leaf(4), leaf(5)])]),
        group(vec![leaf(6), leaf(7), leaf(8)]),
    ])
}

fn drain_machine(root: NestedNode) -> Vec<i32> {
    let mut m = StateMachine::begin(root);
    let mut out = Vec::new();
    loop {
        match m.advance_or_fault().expect("misuse fault") {
            Step::Produced(v) => out.push(v),
            Step::Finished => return out,
        }
    }
}

fn drain_stackless(root: NestedNode) -> Vec<i32> {
    let mut c = StacklessCoro::begin(root);
    let mut out = Vec::new();
    loop {
        match c.advance_or_fault().expect("misuse fault") {
            Step::Produced(v) => out.push(v),
            Step::Finished => return out,
        }
    }
}

/// The stackful backend's observable pipeline with the context swap taken
/// out: each outcome the traversal side would hand to a swap is encoded
/// into the transfer word, decoded on the driver's side, and checked by the
/// driver's misuse guard.
fn drain_stackful(root: NestedNode) -> Vec<i32> {
    let mut producer = StateMachine::begin(root);
    let mut driver = StackfulDriver::begin();
    let mut out = Vec::new();
    loop {
        let step = producer.advance_or_fault().expect("misuse fault");
        let word = encode_step(&step);
        let decoded = decode_transfer(word).expect("corrupted transfer");
        match driver.observe(decoded).expect("misuse fault") {
            Step::Produced(v) => out.push(v),
            Step::Finished => return out,
        }
    }
}

#[test]
fn machine_scenario() {
    let mut m = StateMachine::begin(sample());
    for expected in 1..=8 {
        assert_eq!(m.advance_or_fault(), Ok(Step::Produced(expected)));
    }
    assert_eq!(m.advance_or_fault(), Ok(Step::Finished));
}

#[test]
fn stackless_scenario() {
    let mut c = StacklessCoro::begin(sample());
    for expected in 1..=8 {
        assert_eq!(c.advance_or_fault(), Ok(Step::Produced(expected)));
    }
    assert_eq!(c.advance_or_fault(), Ok(Step::Finished));
}

#[test]
fn stackful_scenario() {
    assert_eq!(drain_stackful(sample()), vec![1, 2, 3, 4, 5, 6, 7, 8]);
}

#[test]
fn machine_run_collects_leaves() {
    assert_eq!(StateMachine::run(sample()), vec![1, 2, 3, 4, 5, 6, 7, 8]);
}

#[test]
fn stackless_run_collects_leaves() {
    assert_eq!(StacklessCoro::run(sample()), vec![1, 2, 3, 4, 5, 6, 7, 8]);
}

#[test]
fn cross_backend_equivalence() {
    let a = drain_machine(sample());
    let b = drain_stackless(sample());
    let c = drain_stackful(sample());
    assert_eq!(a, b);
    assert_eq!(b, c);
    assert_eq!(a, vec![1, 2, 3, 4, 5, 6, 7, 8]);
}

#[test]
fn machine_misuse_fault() {
    let mut m = StateMachine::begin(leaf(3));
    assert_eq!(m.advance_or_fault(), Ok(Step::Produced(3)));
    assert_eq!(m.advance_or_fault(), Ok(Step::Finished));
    assert_eq!(m.advance_or_fault(), Err(DriverMisuse));
    assert_eq!(m.advance_or_fault(), Err(DriverMisuse));
}

#[test]
fn stackless_misuse_fault() {
    let mut c = StacklessCoro::begin(leaf(3));
    assert_eq!(c.advance_or_fault(), Ok(Step::Produced(3)));
    assert_eq!(c.advance_or_fault(), Ok(Step::Finished));
    assert_eq!(c.advance_or_fault(), Err(DriverMisuse));
}

#[test]
fn stackful_misuse_fault() {
    let mut driver = StackfulDriver::begin();
    assert_eq!(driver.observe(Step::Produced(1)), Ok(Step::Produced(1)));
    assert_eq!(driver.observe(Step::Finished), Ok(Step::Finished));
    assert_eq!(driver.observe(Step::Produced(2)), Err(DriverMisuse));
    assert_eq!(driver.observe(Step::Finished), Err(DriverMisuse));
}

#[test]
fn exhaustion_exactly_one_finished() {
    let mut produced = 0;
    let mut m = StateMachine::begin(sample());
    loop {
        match m.advance_or_fault().expect("misuse fault") {
            Step::Produced(_) => produced += 1,
            Step::Finished => break,
        }
    }
    assert_eq!(produced, 8);
    // After the single Finished, only the fault remains.
    assert_eq!(m.advance_or_fault(), Err(DriverMisuse));
}

#[test]
fn empty_groups_contribute_nothing() {
    let build = || {
        group(vec![
            group(vec![]),
            leaf(1),
            group(vec![group(vec![]), leaf(2)]),
            group(vec![group(vec![])]),
            leaf(3),
        ])
    };
    assert_eq!(drain_machine(build()), vec![1, 2, 3]);
    assert_eq!(drain_stackless(build()), vec![1, 2, 3]);
    assert_eq!(drain_stackful(build()), vec![1, 2, 3]);
}

#[test]
fn empty_root_finishes_immediately() {
    let mut m = StateMachine::begin(group(vec![]));
    assert_eq!(m.advance_or_fault(), Ok(Step::Finished));
    let mut c = StacklessCoro::begin(group(vec![]));
    assert_eq!(c.advance_or_fault(), Ok(Step::Finished));
}

#[test]
fn single_leaf_root() {
    assert_eq!(drain_machine(leaf(7)), vec![7]);
    assert_eq!(drain_stackless(leaf(7)), vec![7]);
    assert_eq!(drain_stackful(leaf(7)), vec![7]);
}

#[test]
fn transfer_codes_round_trip() {
    for v in [0, 5, -1, 42, i32::MIN, i32::MAX] {
        let word = encode_step(&Step::Produced(v));
        assert_eq!(decode_transfer(word), Some(Step::Produced(v)));
        // No value's code collides with the completion code.
        assert_ne!(word, encode_step(&Step::Finished));
    }
    assert_eq!(decode_transfer(encode_step(&Step::Finished)), Some(Step::Finished));
}

#[test]
fn decode_rejects_non_codes() {
    // Even and nonzero: not a code.
    assert_eq!(decode_transfer(2), None);
    // Odd but beyond the value range: not a code.
    assert_eq!(decode_transfer(0x2_0000_0001), None);
    assert_eq!(decode_transfer(u64::MAX), None);
}

#[test]
fn square_sum_yields_each_step() {
    let s0 = square_sum(3, 4);
    assert_eq!(s0, State::Start { a: 3, b: 4 });
    let s1 = square_sum_step(s0);
    assert_eq!(s1, State::State1 { b: 4, a2: 9 });
    let s2 = square_sum_step(s1);
    assert_eq!(s2, State::State2 { a2: 9, b2: 16 });
    let s3 = square_sum_step(s2);
    assert_eq!(s3, State::End { result: 25 });
}

#[test]
fn reporter_single_slot_handoff() {
    let mut reporter = ResultReporter::default();
    assert!(!reporter.result_taken);
    reporter.report_result(11);
    assert!(!reporter.result_taken);
    assert_eq!(reporter.take_result(), 11);
    assert!(reporter.result_taken);
    reporter.report_result(-4);
    assert!(!reporter.result_taken);
    assert_eq!(reporter.take_result(), -4);
}
