pub mod config;
pub mod executor;
pub mod metric;
pub mod parser;
pub mod runner;

use crate::config::Job;
use crate::executor::{Executor, ExecutorError, ExecutorImpl, SpawnProcess};
use crate::metric::{MetricReporter, MetricReporterError, MetricReporterImpl, SendLine};
use crate::parser::{multiline, output_templates, parse_result, pattern_accepted, Parser, ParserView};
use crate::runner::{Runner, RunnerState};
use vstd::prelude::*;

verus! {

/// Joins the global metric prefix and the host name with a dot, as in
/// `prefix.host`; every metric name of every job starts with this.
pub fn full_prefix(prefix: &str, hostname: &str) -> (r: String)
    ensures
        r@ == prefix@ + seq!['.'] + hostname@,
{
    proof {
        reveal_strlit(".");
    }
    let mut s = prefix.to_owned();
    s.append(".");
    s.append(hostname);
    s
}

/// Everything one tick of one job needs, owned by that job alone: the command
/// line, the executor that runs it, the parser that extracts metrics from its
/// output, and the reporter that sends them. The spawning and sending ports
/// are injected at construction.
pub struct JobContext<Sp: SpawnProcess, S: SendLine> {
    command: String,
    executor: ExecutorImpl<Sp>,
    parser: Parser,
    reporter: MetricReporterImpl<S>,
}

/// What one tick produced: either the command execution failed (the tick emits
/// no metrics), or the command's output together with the outcome of every
/// attempted send, in emission order.
pub enum TickReport {
    ExecutionFailed(ExecutorError),
    Emitted { output: String, outcomes: Vec<Result<(), MetricReporterError>> },
}

impl<Sp: SpawnProcess, S: SendLine> JobContext<Sp, S> {
    pub closed spec fn spec_command(&self) -> Seq<char> {
        self.command@
    }

    pub closed spec fn spec_parser(&self) -> ParserView {
        self.parser@
    }

    /// Builds the context for one job: the parser gets the job's pattern and
    /// the full metric prefix. Returns `None` exactly when the engine rejects
    /// the job's pattern — a configuration error, fatal at startup for the
    /// caller.
    pub fn new(prefix: &str, job: &Job, spawner: Sp, sender: S) -> (r: Option<JobContext<Sp, S>>)
        ensures
            r is Some == pattern_accepted(multiline(job.regex@)),
            r matches Some(c) ==> c.spec_command() == job.command@ && c.spec_parser()
                == (ParserView {
                prefix: prefix@,
                pattern: multiline(job.regex@),
                outputs: Seq::new(job.output@.len(), |i: int| output_templates(job.output@[i])),
            }),
    {
        let parser = match Parser::new(prefix, job.regex.as_str(), &job.output) {
            Some(p) => p,
            None => {
                return None;
            },
        };
        Some(
            JobContext {
                command: job.command.clone(),
                executor: ExecutorImpl::new(spawner),
                parser,
                reporter: MetricReporterImpl::new(sender),
            },
        )
    }

    /// Runs one tick: executes the command, extracts the metrics from its
    /// output, and sends each one with the supplied timestamp, in order. An
    /// execution failure ends the tick with no metrics emitted; a send failure
    /// is recorded and the remaining metrics are still attempted.
    pub fn run_once(&self, timestamp: u64) -> (r: TickReport)
        ensures
            crate::executor::shell_words(self.spec_command()) is None ==> (r matches
                TickReport::ExecutionFailed(e) && e.spec_msg() == "Invalid command string"@),
            crate::executor::shell_words(self.spec_command()) matches Some(ws) && ws.len() == 0
                ==> (r matches TickReport::ExecutionFailed(e) && e.spec_msg()
                == "No command specified"@),
            r is Emitted ==> (crate::executor::shell_words(self.spec_command()) matches Some(ws)
                && ws.len() > 0),
            crate::executor::shell_words(self.spec_command()) matches Some(ws) && ws.len() > 0
                ==> (r matches TickReport::ExecutionFailed(e)
                ==> crate::executor::failure_classified(e)),
            r matches TickReport::Emitted { output, outcomes } ==> outcomes@.len() == parse_result(
                self.spec_parser(),
                output@,
            ).len(),
            r matches TickReport::Emitted { output, outcomes } ==> forall|q: int|
                0 <= q < outcomes@.len() ==> (#[trigger] outcomes@[q] matches Err(e)
                    ==> crate::metric::is_io_error_msg(e.spec_msg())),
    {
        let exec_result = self.executor.execute(self.command.as_str());
        let output = match exec_result {
            Ok(o) => o,
            Err(e) => {
                proof {
                    if crate::executor::shell_words(self.spec_command()) matches Some(ws)
                        && ws.len() > 0 {
                        let o = choose|o: executor::SpawnResult|
                            crate::executor::classified(o, exec_result);
                        assert(crate::executor::classified(
                            o,
                            Err::<String, ExecutorError>(e),
                        ));
                        assert(crate::executor::failure_classified(e));
                    }
                }
                return TickReport::ExecutionFailed(e);
            },
        };
        let metrics = self.parser.parse(output.as_str());
        let mut outcomes: Vec<Result<(), MetricReporterError>> = Vec::new();
        let n = metrics.len();
        for idx in 0..n
            invariant
                n == metrics@.len(),
                metrics.deep_view() == parse_result(self.spec_parser(), output@),
                outcomes@.len() == idx,
                forall|q: int|
                    0 <= q < idx ==> (#[trigger] outcomes@[q] matches Err(e)
                        ==> crate::metric::is_io_error_msg(e.spec_msg())),
        {
            let m = &metrics[idx];
            let res = self.reporter.report(m.0.as_str(), m.1.as_str(), timestamp);
            outcomes.push(res);
        }
        TickReport::Emitted { output, outcomes }
    }
}

/// The top-level orchestrator: one runner per configured job, in declaration
/// order. `start`, `stop` and `join` fan out to every runner in that order.
pub struct Regite<W> {
    runners: Vec<Runner<W>>,
}

impl<W> Regite<W> {
    pub closed spec fn spec_runners(&self) -> Seq<Runner<W>> {
        self.runners@
    }

    /// Every runner still holds its pending work.
    pub open spec fn all_pending(&self) -> bool {
        forall|i: int|
            0 <= i < self.spec_runners().len() ==> (#[trigger] self.spec_runners()[i]).spec_state()
                is Pending
    }

    /// Every runner is running and none has a stop request recorded yet.
    pub open spec fn all_running_unsignaled(&self) -> bool {
        forall|i: int|
            0 <= i < self.spec_runners().len() ==> (#[trigger] self.spec_runners()[i]).spec_state()
                == (RunnerState::<W>::Running { stop_requested: false })
    }

    /// Every runner is running.
    pub open spec fn all_running(&self) -> bool {
        forall|i: int|
            0 <= i < self.spec_runners().len() ==> (#[trigger] self.spec_runners()[i]).spec_state()
                is Running
    }

    /// Every runner has stopped.
    pub open spec fn all_stopped(&self) -> bool {
        forall|i: int|
            0 <= i < self.spec_runners().len() ==> (#[trigger] self.spec_runners()[i]).spec_state()
                is Stopped
    }

    /// Takes ownership of one runner per job, in job-declaration order.
    pub fn new(runners: Vec<Runner<W>>) -> (r: Regite<W>)
        ensures
            r.spec_runners() == runners@,
    {
        Regite { runners }
    }

    pub fn runners(&self) -> (r: &Vec<Runner<W>>)
        ensures
            r@ == self.spec_runners(),
    {
        &self.runners
    }

    /// Starts every runner, in declaration order, and hands back each job's
    /// work, in the same order, for the caller to drive.
    pub fn start(&mut self) -> (works: Vec<W>)
        requires
            old(self).all_pending(),
        ensures
            final(self).spec_runners().len() == old(self).spec_runners().len(),
            works@.len() == old(self).spec_runners().len(),
            final(self).all_running_unsignaled(),
            forall|i: int|
                0 <= i < works@.len() ==> (#[trigger] old(self).spec_runners()[i]).spec_state()
                    == RunnerState::<W>::Pending(works@[i]),
            forall|i: int|
                0 <= i < works@.len() ==> (#[trigger] final(self).spec_runners()[i]).spec_name()
                    == old(self).spec_runners()[i].spec_name() && final(self).spec_runners()[
                    i
                ].spec_interval() == old(self).spec_runners()[i].spec_interval(),
    {
        let mut works: Vec<W> = Vec::new();
        let n = self.runners.len();
        for i in 0..n
            invariant
                n == self.runners@.len(),
                n == old(self).spec_runners().len(),
                works@.len() == i,
                old(self).all_pending(),
                forall|q: int| i <= q < n ==> self.runners@[q] == old(self).spec_runners()[q],
                forall|q: int|
                    0 <= q < i ==> (#[trigger] self.runners@[q]).spec_state() == (
                    RunnerState::<W>::Running { stop_requested: false }),
                forall|q: int|
                    0 <= q < i ==> (#[trigger] old(self).spec_runners()[q]).spec_state()
                        == RunnerState::<W>::Pending(works@[q]),
                forall|q: int|
                    0 <= q < i ==> (#[trigger] self.runners@[q]).spec_name() == old(self).spec_runners()[q].spec_name() && self.runners@[q].spec_interval() == old(self).spec_runners()[q].spec_interval(),
        {
            proof {
                assert(self.runners@[i as int] == old(self).spec_runners()[i as int]);
                assert(old(self).spec_runners()[i as int].spec_state() is Pending);
            }
            let w = self.runners[i].start();
            works.push(w);
        }
        works
    }

    /// Records the stop request of every runner, in declaration order. The
    /// caller signals each worker after its current tick; no in-flight tick is
    /// interrupted.
    pub fn stop(&mut self)
        requires
            old(self).all_running_unsignaled(),
        ensures
            final(self).spec_runners().len() == old(self).spec_runners().len(),
            forall|i: int|
                0 <= i < final(self).spec_runners().len() ==> (#[trigger] final(self).spec_runners()[i]).spec_state() == (RunnerState::<W>::Running {
                    stop_requested: true,
                }),
            forall|i: int|
                0 <= i < final(self).spec_runners().len() ==> (#[trigger] final(self).spec_runners()[i]).spec_name() == old(self).spec_runners()[i].spec_name()
                    && final(self).spec_runners()[i].spec_interval() == old(self).spec_runners()[
                    i
                ].spec_interval(),
    {
        let n = self.runners.len();
        for i in 0..n
            invariant
                n == self.runners@.len(),
                n == old(self).spec_runners().len(),
                old(self).all_running_unsignaled(),
                forall|q: int| i <= q < n ==> self.runners@[q] == old(self).spec_runners()[q],
                forall|q: int|
                    0 <= q < i ==> (#[trigger] self.runners@[q]).spec_state() == (
                    RunnerState::<W>::Running { stop_requested: true }),
                forall|q: int|
                    0 <= q < i ==> (#[trigger] self.runners@[q]).spec_name() == old(self).spec_runners()[q].spec_name() && self.runners@[q].spec_interval() == old(self).spec_runners()[q].spec_interval(),
        {
            proof {
                assert(self.runners@[i as int] == old(self).spec_runners()[i as int]);
                assert(old(self).spec_runners()[i as int].spec_state() == (RunnerState::<W>::Running {
                    stop_requested: false,
                }));
            }
            self.runners[i].stop();
        }
    }

    /// Transitions every runner to `Stopped`, in declaration order, after the
    /// caller has waited for every worker thread to terminate.
    pub fn join(&mut self)
        requires
            old(self).all_running(),
        ensures
            final(self).spec_runners().len() == old(self).spec_runners().len(),
            final(self).all_stopped(),
            forall|i: int|
                0 <= i < final(self).spec_runners().len() ==> (#[trigger] final(self).spec_runners()[i]).spec_name() == old(self).spec_runners()[i].spec_name()
                    && final(self).spec_runners()[i].spec_interval() == old(self).spec_runners()[
                    i
                ].spec_interval(),
    {
        let n = self.runners.len();
        for i in 0..n
            invariant
                n == self.runners@.len(),
                n == old(self).spec_runners().len(),
                old(self).all_running(),
                forall|q: int| i <= q < n ==> self.runners@[q] == old(self).spec_runners()[q],
                forall|q: int| 0 <= q < i ==> (#[trigger] self.runners@[q]).spec_state() is Stopped,
                forall|q: int|
                    0 <= q < i ==> (#[trigger] self.runners@[q]).spec_name() == old(self).spec_runners()[q].spec_name() && self.runners@[q].spec_interval() == old(self).spec_runners()[q].spec_interval(),
        {
            proof {
                assert(self.runners@[i as int] == old(self).spec_runners()[i as int]);
                assert(old(self).spec_runners()[i as int].spec_state() is Running);
            }
            self.runners[i].join();
        }
    }
}

} // verus!
