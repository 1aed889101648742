use regite::executor::{Executor, ExecutorError, ExecutorImpl, SpawnProcess, SpawnResult};

struct FailingSpawner;

impl SpawnProcess for FailingSpawner {
    fn spawn(&self, _program: &str, _args: &Vec<String>) -> SpawnResult {
        SpawnResult::IoError { detail: "unsupported".to_string() }
    }
}

#[test]
fn test_input_invalid() {
    let executor = ExecutorImpl::new(FailingSpawner);

    assert_eq!(
        ExecutorError::new("Invalid command string"),
        executor.execute("\"").unwrap_err()
    );

    assert_eq!(
        ExecutorError::new("No command specified"),
        executor.execute("").unwrap_err()
    );
}

#[test]
fn executor_test_io_error() {
    let executor = ExecutorImpl::new(FailingSpawner);

    assert_eq!(
        ExecutorError::new("IO Error: unsupported"),
        executor.execute("cmd").unwrap_err()
    );
}

struct FailureExitSpawner;

impl SpawnProcess for FailureExitSpawner {
    fn spawn(&self, program: &str, args: &Vec<String>) -> SpawnResult {
        assert_eq!("command", program);
        assert_eq!(Vec::<String>::new(), *args);
        SpawnResult::Completed { success: false, stdout: String::new() }
    }
}

#[test]
fn test_failed_exit_code() {
    let executor = ExecutorImpl::new(FailureExitSpawner);

    assert_eq!(
        ExecutorError::new("Failure exit code"),
        executor.execute("command").unwrap_err()
    );
}

struct SuccessSpawner;

impl SpawnProcess for SuccessSpawner {
    fn spawn(&self, program: &str, args: &Vec<String>) -> SpawnResult {
        assert_eq!("command", program);
        assert_eq!(vec!["arg1", "arg2"], *args);
        SpawnResult::Completed { success: true, stdout: "output".to_string() }
    }
}

#[test]
fn test_success() {
    let executor = ExecutorImpl::new(SuccessSpawner);

    assert_eq!("output", executor.execute("command arg1 arg2").unwrap());
}

#[test]
fn test_quoted_arguments_are_words() {
    struct QuotedSpawner;

    impl SpawnProcess for QuotedSpawner {
        fn spawn(&self, program: &str, args: &Vec<String>) -> SpawnResult {
            assert_eq!("/bin/bash", program);
            assert_eq!(vec!["-c", "echo 1"], *args);
            SpawnResult::Completed { success: true, stdout: "1\n".to_string() }
        }
    }

    let executor = ExecutorImpl::new(QuotedSpawner);
    assert_eq!("1\n", executor.execute("/bin/bash -c \"echo 1\"").unwrap());
}

#[test]
fn test_error_messages() {
    let e = ExecutorError::new("some text");
    assert_eq!("some text", e.message());
}
