use vstd::prelude::*;

verus! {

/// Failure of one command execution. Execution failures are local to one tick
/// of one job: the tick emits no metrics and the job stays on schedule.
#[derive(Debug)]
pub struct ExecutorError {
    msg: String,
}

impl ExecutorError {
    pub closed spec fn spec_msg(&self) -> Seq<char> {
        self.msg@
    }

    pub fn new(msg: &str) -> (r: ExecutorError)
        ensures
            r.spec_msg() == msg@,
    {
        ExecutorError { msg: msg.to_owned() }
    }

    pub fn from_string(msg: String) -> (r: ExecutorError)
        ensures
            r.spec_msg() == msg@,
    {
        ExecutorError { msg }
    }

    /// The error text, e.g. for operator-facing logs.
    pub fn message(&self) -> (r: &str)
        ensures
            r@ == self.spec_msg(),
    {
        self.msg.as_str()
    }
}

impl PartialEq for ExecutorError {
    fn eq(&self, other: &Self) -> (r: bool) {
        self.msg == other.msg
    }
}

impl vstd::std_specs::cmp::PartialEqSpecImpl for ExecutorError {
    open spec fn obeys_eq_spec() -> bool {
        true
    }

    open spec fn eq_spec(&self, other: &Self) -> bool {
        self.spec_msg() == other.spec_msg()
    }
}

/// How launching the program and waiting for it went, as the spawning port
/// reports it. Standard output arrives already decoded to text (ports decode
/// lossily); standard error is discarded.
#[derive(Debug)]
pub enum SpawnResult {
    Completed { success: bool, stdout: String },
    IoError { detail: String },
}

/// Launches `program` with `args`, waits for it to exit, and reports how it
/// went. Implemented outside the library, since spawning a process is I/O; the
/// library promises nothing about which result comes back.
pub trait SpawnProcess {
    fn spawn(&self, program: &str, args: &Vec<String>) -> SpawnResult;
}

/// What shell word splitting yields on `s`: the argv words, or `None` when the
/// quoting or escaping is erroneous. A pure function of the input string.
pub uninterp spec fn shell_words(s: Seq<char>) -> Option<Seq<Seq<char>>>;

/// Relies on shlex::split: it splits a command line into words by POSIX shell
/// rules (quoting and escaping honored, no expansion), returns `None` exactly
/// on erroneous input, and its result depends on the input string alone.
#[verifier::external_body]
fn split_shell_words(s: &str) -> (r: Option<Vec<String>>)
    ensures
        r is Some == shell_words(s@) is Some,
        r matches Some(v) ==> Some(v.deep_view()) == shell_words(s@),
{
    shlex::split(s)
}

/// Relates one spawn outcome to the result `execute` returns for it: captured
/// standard output on success, an error and no partial output on a non-zero
/// exit, and a prefixed detail message when spawning or talking to the process
/// failed.
pub open spec fn classified(outcome: SpawnResult, r: Result<String, ExecutorError>) -> bool {
    match outcome {
        SpawnResult::Completed { success, stdout } => if success {
            r matches Ok(o) && o@ == stdout@
        } else {
            r matches Err(e) && e.spec_msg() == "Failure exit code"@
        },
        SpawnResult::IoError { detail } => r matches Err(e) && e.spec_msg() == "IO Error: "@
            + detail@,
    }
}

/// Whether some spawn outcome classifies to exactly this execution failure:
/// the failure is one a real spawn can produce, not a fabricated one.
pub open spec fn failure_classified(e: ExecutorError) -> bool {
    exists|o: SpawnResult| classified(o, Err::<String, ExecutorError>(e))
}

/// Turns one spawn outcome into the result of the execution.
pub fn classify_outcome(outcome: SpawnResult) -> (r: Result<String, ExecutorError>)
    ensures
        classified(outcome, r),
{
    match outcome {
        SpawnResult::Completed { success, stdout } => {
            if success {
                Ok(stdout)
            } else {
                Err(ExecutorError::new("Failure exit code"))
            }
        },
        SpawnResult::IoError { detail } => {
            let mut msg = "IO Error: ".to_owned();
            msg.append(detail.as_str());
            Err(ExecutorError::from_string(msg))
        },
    }
}

/// Runs a shell-style command line and returns its captured standard output,
/// or a classified failure. Tokenization follows shell word splitting (argv
/// splitting only, no variable expansion or pipes): erroneous quoting and an
/// empty token list are rejected before anything is spawned, and otherwise the
/// result classifies whatever outcome the spawn produced.
pub trait Executor {
    fn execute(&self, command: &str) -> (r: Result<String, ExecutorError>)
        ensures
            shell_words(command@) is None ==> (r matches Err(e) && e.spec_msg()
                == "Invalid command string"@),
            shell_words(command@) matches Some(ws) && ws.len() == 0 ==> (r matches Err(e)
                && e.spec_msg() == "No command specified"@),
            shell_words(command@) matches Some(ws) && ws.len() > 0 ==> exists|o: SpawnResult|
                classified(o, r),
    ;
}

/// The argument words handed to the spawning port: every word after the
/// program word, in order.
fn tail_words(parts: &Vec<String>) -> (args: Vec<String>)
    requires
        parts@.len() >= 1,
    ensures
        args@.len() + 1 == parts@.len(),
        forall|i: int| 0 <= i < args@.len() ==> args@[i] == parts@[i + 1],
{
    let mut args: Vec<String> = Vec::new();
    let n = parts.len();
    for i in 1..n
        invariant
            n == parts@.len(),
            args@.len() == i - 1,
            forall|q: int| 0 <= q < args@.len() ==> args@[q] == parts@[q + 1],
    {
        args.push(parts[i].clone());
    }
    args
}

/// Executor backed by a spawning port that is injected at construction.
pub struct ExecutorImpl<Sp: SpawnProcess> {
    spawner: Sp,
}

impl<Sp: SpawnProcess> ExecutorImpl<Sp> {
    pub fn new(spawner: Sp) -> ExecutorImpl<Sp> {
        ExecutorImpl { spawner }
    }
}

impl<Sp: SpawnProcess> Executor for ExecutorImpl<Sp> {
    fn execute(&self, command: &str) -> (r: Result<String, ExecutorError>) {
        let parts = match split_shell_words(command) {
            Some(p) => p,
            None => {
                return Err(ExecutorError::new("Invalid command string"));
            },
        };
        if parts.len() == 0 {
            return Err(ExecutorError::new("No command specified"));
        }
        let args = tail_words(&parts);
        let outcome = self.spawner.spawn(parts[0].as_str(), &args);
        let r = classify_outcome(outcome);
        proof {
            assert(classified(outcome, r));
        }
        r
    }
}

} // verus!
