use std::cell::RefCell;
use std::rc::Rc;

use regite::config::{Job, Output};
use regite::executor::{SpawnProcess, SpawnResult};
use regite::full_prefix;
use regite::metric::SendLine;
use regite::runner::{Runner, RunnerPhase};
use regite::{JobContext, Regite, TickReport};

#[test]
fn test_full_prefix() {
    assert_eq!("prefix.host", full_prefix("prefix", "host"));
}

struct FixedSpawner {
    stdout: String,
}

impl SpawnProcess for FixedSpawner {
    fn spawn(&self, _program: &str, _args: &Vec<String>) -> SpawnResult {
        SpawnResult::Completed { success: true, stdout: self.stdout.clone() }
    }
}

#[derive(Clone)]
struct RecordingSender {
    lines: Rc<RefCell<Vec<String>>>,
}

impl SendLine for RecordingSender {
    fn send_line(&self, line: &str) -> Result<(), String> {
        self.lines.borrow_mut().push(line.to_string());
        Ok(())
    }
}

fn job(command: &str, regex: &str, outputs: Vec<(&str, &str)>) -> Job {
    Job {
        name: "name".to_string(),
        interval: 1,
        command: command.to_string(),
        regex: regex.to_string(),
        output: outputs
            .into_iter()
            .map(|(n, v)| Output { name: n.to_string(), value: v.to_string() })
            .collect(),
    }
}

#[test]
fn test_run_once_sends_metrics_in_order() {
    let lines = Rc::new(RefCell::new(Vec::new()));
    let sender = RecordingSender { lines: lines.clone() };
    let spawner = FixedSpawner { stdout: "1;2".to_string() };
    let j = job("some command", "(\\d+);(\\d+)", vec![("left", "$1"), ("right", "$2")]);
    let prefix = full_prefix("prefix", "host");

    let ctx = JobContext::new(prefix.as_str(), &j, spawner, sender).unwrap();
    let report = ctx.run_once(42);

    match report {
        TickReport::Emitted { output, outcomes } => {
            assert_eq!("1;2", output);
            assert_eq!(2, outcomes.len());
            assert!(outcomes.iter().all(|o| o.is_ok()));
        }
        TickReport::ExecutionFailed(e) => panic!("unexpected failure: {}", e.message()),
    }

    assert_eq!(
        vec![
            "prefix.host.left 1 42\n".to_string(),
            "prefix.host.right 2 42\n".to_string()
        ],
        *lines.borrow()
    );
}

#[test]
fn test_run_once_invalid_command() {
    let lines = Rc::new(RefCell::new(Vec::new()));
    let sender = RecordingSender { lines: lines.clone() };
    let spawner = FixedSpawner { stdout: String::new() };
    let j = job("\"", "(.*)", vec![("name", "$1")]);

    let ctx = JobContext::new("prefix.host", &j, spawner, sender).unwrap();
    match ctx.run_once(0) {
        TickReport::ExecutionFailed(e) => {
            assert_eq!("Invalid command string", e.message());
        }
        TickReport::Emitted { .. } => panic!("execution should have failed"),
    }
    assert!(lines.borrow().is_empty());
}

#[test]
fn test_run_once_rejected_pattern() {
    let sender = RecordingSender { lines: Rc::new(RefCell::new(Vec::new())) };
    let spawner = FixedSpawner { stdout: String::new() };
    let j = job("cmd", "(", vec![("name", "$1")]);

    assert!(JobContext::new("prefix.host", &j, spawner, sender).is_none());
}

#[test]
fn test_supervisor_fan_out() {
    let runners = vec![
        Runner::new("a".to_string(), 1, 10u32),
        Runner::new("b".to_string(), 2, 20u32),
    ];
    let mut regite = Regite::new(runners);

    let works = regite.start();
    assert_eq!(vec![10, 20], works);
    assert!(regite
        .runners()
        .iter()
        .all(|r| r.phase() == RunnerPhase::Running && !r.stop_requested()));

    regite.stop();
    assert!(regite
        .runners()
        .iter()
        .all(|r| r.phase() == RunnerPhase::Running && r.stop_requested()));

    regite.join();
    assert!(regite.runners().iter().all(|r| r.phase() == RunnerPhase::Stopped));
    assert_eq!("a", regite.runners()[0].name());
    assert_eq!(2, regite.runners()[1].interval_secs());
}
