use evm_result::{ExecutionMetric, OpcodeMetrics, SaveEvent, SaveStep};

fn metric(count: u64, total_time: u64, total_gas: u64) -> ExecutionMetric {
    ExecutionMetric { count, total_time, total_gas }
}

fn own() -> OpcodeMetrics {
    let mut metrics = OpcodeMetrics::new();
    metrics.insert(1, metric(1, 2, 3));
    metrics.insert(2, metric(4, 5, 6));
    metrics
}

#[test]
fn save_to_an_empty_file() {
    let metrics = own();
    let step: SaveStep<u8> = metrics.save_step(SaveStep::Open, SaveEvent::Opened);
    assert!(matches!(step, SaveStep::Read));
    let step = metrics.save_step(step, SaveEvent::Content(String::new()));
    match &step {
        SaveStep::Serialize(merged) => assert_eq!(*merged, own()),
        _ => panic!("not the step that was expected"),
    }
    let step = metrics.save_step(step, SaveEvent::Serialized("text".to_string()));
    match &step {
        SaveStep::Truncate(text) => assert_eq!(text, "text"),
        _ => panic!("not the step that was expected"),
    }
    let step = metrics.save_step(step, SaveEvent::Truncated);
    match &step {
        SaveStep::Write(text) => assert_eq!(text, "text"),
        _ => panic!("not the step that was expected"),
    }
    let step = metrics.save_step(step, SaveEvent::Written);
    assert!(matches!(step, SaveStep::Finish(Ok(()))));
    assert_eq!(metrics, own());
}

#[test]
fn save_to_a_file_with_metrics() {
    let metrics = own();
    let step: SaveStep<u8> = metrics.save_step(SaveStep::Read, SaveEvent::Content("{}".to_string()));
    match &step {
        SaveStep::Parse(text) => assert_eq!(text, "{}"),
        _ => panic!("not the step that was expected"),
    }
    let mut stored = OpcodeMetrics::new();
    stored.insert(2, metric(10, 10, 10));
    stored.insert(3, metric(7, 8, 9));
    match metrics.save_step(step, SaveEvent::Parsed(stored)) {
        SaveStep::Serialize(merged) => {
            assert_eq!(merged.iter().count(), 3);
            assert_eq!(merged.get(1), Some(&metric(1, 2, 3)));
            assert_eq!(merged.get(2), Some(&metric(14, 15, 16)));
            assert_eq!(merged.get(3), Some(&metric(7, 8, 9)));
        }
        _ => panic!("not the step that was expected"),
    }
}

#[test]
fn save_ends_with_the_first_failure() {
    let metrics = own();
    let steps: Vec<SaveStep<u8>> = vec![
        SaveStep::Open,
        SaveStep::Read,
        SaveStep::Parse("x".to_string()),
        SaveStep::Serialize(OpcodeMetrics::new()),
        SaveStep::Truncate("x".to_string()),
        SaveStep::Write("x".to_string()),
    ];
    for step in steps {
        assert!(matches!(
            metrics.save_step(step, SaveEvent::Failed(5)),
            SaveStep::Finish(Err(5))
        ));
    }
}

#[test]
fn saves_add_up() {
    let first = own();
    let mut second = OpcodeMetrics::new();
    second.insert(2, metric(1, 1, 1));
    let written = match first.save_step(SaveStep::<u8>::Read, SaveEvent::Content(String::new())) {
        SaveStep::Serialize(merged) => merged,
        _ => panic!("not the step that was expected"),
    };
    let step: SaveStep<u8> = SaveStep::Parse("text".to_string());
    match second.save_step(step, SaveEvent::Parsed(written)) {
        SaveStep::Serialize(merged) => {
            assert_eq!(merged.iter().count(), 2);
            assert_eq!(merged.get(1), Some(&metric(1, 2, 3)));
            assert_eq!(merged.get(2), Some(&metric(5, 6, 7)));
        }
        _ => panic!("not the step that was expected"),
    }
}
