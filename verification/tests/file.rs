use std::io::{Cursor, Read, Write};

use evm_result::{ExecutionMetric, OpcodeMetrics, SaveEvent, SaveStep};

fn metric(count: u64, total_time: u64, total_gas: u64) -> ExecutionMetric {
    ExecutionMetric { count, total_time, total_gas }
}

/// One line for each opcode, in the order of the opcodes.
fn to_text(metrics: &OpcodeMetrics) -> String {
    let mut lines: Vec<(u8, String)> = metrics
        .iter()
        .map(|(o, m)| (*o, format!("{} {} {} {}\n", o, m.count, m.total_time, m.total_gas)))
        .collect();
    lines.sort();
    lines.into_iter().map(|line| line.1).collect()
}

fn from_text(text: &str) -> Option<OpcodeMetrics> {
    let mut metrics = OpcodeMetrics::new();
    for line in text.lines() {
        let numbers: Vec<u64> =
            line.split(' ').map(|n| n.parse::<u64>().ok()).collect::<Option<Vec<u64>>>()?;
        if numbers.len() != 4 {
            return None;
        }
        metrics.insert(numbers[0] as u8, metric(numbers[1], numbers[2], numbers[3]));
    }
    Some(metrics)
}

/// Saves metrics to a file in memory.
fn save(metrics: &OpcodeMetrics, file: &mut Cursor<Vec<u8>>) -> Result<(), String> {
    let mut step: SaveStep<String> = SaveStep::Open;
    loop {
        let event = match &step {
            SaveStep::Open => {
                file.set_position(0);
                SaveEvent::Opened
            }
            SaveStep::Read => {
                let mut content = String::new();
                match file.read_to_string(&mut content) {
                    Ok(_) => SaveEvent::Content(content),
                    Err(error) => SaveEvent::Failed(error.to_string()),
                }
            }
            SaveStep::Parse(text) => match from_text(text) {
                Some(stored) => SaveEvent::Parsed(stored),
                None => SaveEvent::Failed("not metrics".to_string()),
            },
            SaveStep::Serialize(merged) => SaveEvent::Serialized(to_text(merged)),
            SaveStep::Truncate(_) => {
                file.get_mut().clear();
                file.set_position(0);
                SaveEvent::Truncated
            }
            SaveStep::Write(text) => match file.write_all(text.as_bytes()) {
                Ok(()) => SaveEvent::Written,
                Err(error) => SaveEvent::Failed(error.to_string()),
            },
            SaveStep::Finish(result) => return result.clone(),
        };
        step = metrics.save_step(step, event);
    }
}

#[test]
fn saved_file_holds_the_text_alone() {
    let mut metrics = OpcodeMetrics::new();
    metrics.insert(1, metric(1, 2, 3));
    let mut file = Cursor::new(Vec::new());
    assert_eq!(save(&metrics, &mut file), Ok(()));
    assert_eq!(file.get_ref().as_slice(), b"1 1 2 3\n");
    let mut longer = Cursor::new(b"001 0005 0005 0005\n".to_vec());
    assert_eq!(save(&metrics, &mut longer), Ok(()));
    assert_eq!(longer.get_ref().as_slice(), b"1 6 7 8\n");
}

#[test]
fn saved_files_add_up() {
    let mut first = OpcodeMetrics::new();
    first.insert(1, metric(1, 2, 3));
    let mut second = OpcodeMetrics::new();
    second.insert(1, metric(10, 20, 30));
    second.insert(2, metric(4, 5, 6));
    let mut file = Cursor::new(b"2 100 100 100\n".to_vec());
    assert_eq!(save(&first, &mut file), Ok(()));
    assert_eq!(save(&second, &mut file), Ok(()));
    assert_eq!(file.get_ref().as_slice(), b"1 11 22 33\n2 104 105 106\n");
}

#[test]
fn early_failure_keeps_the_file() {
    let mut metrics = OpcodeMetrics::new();
    metrics.insert(1, metric(1, 2, 3));
    let mut file = Cursor::new(b"no metrics".to_vec());
    assert_eq!(save(&metrics, &mut file), Err("not metrics".to_string()));
    assert_eq!(file.get_ref().as_slice(), b"no metrics");
    let mut binary = Cursor::new(vec![0xff, 0xfe]);
    assert!(save(&metrics, &mut binary).is_err());
    assert_eq!(binary.get_ref().as_slice(), &[0xff, 0xfe]);
}
