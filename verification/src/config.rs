use vstd::prelude::*;

verus! {

/// Transport protocol used to deliver metric lines to the collector.
#[derive(Clone, Copy, PartialEq, Eq, Structural, Debug)]
pub enum GraphiteConnectionType {
    Udp,
    Tcp,
}

/// One output template of a job: a name template and a value template, each of
/// which may carry capture-group back-references (`$1`, `$2`, ...) that are
/// resolved against a single match of the job's pattern.
#[derive(Debug)]
pub struct Output {
    pub name: String,
    pub value: String,
}

/// One configured job: a command line to run every `interval` seconds, a
/// pattern to match against its standard output, and the output templates
/// that turn each match into metrics.
#[derive(Debug)]
pub struct Job {
    pub name: String,
    pub interval: u64,
    pub command: String,
    pub regex: String,
    pub output: Vec<Output>,
}

/// Process-wide settings: the global metric prefix, the local host name that
/// is embedded in every metric name, and the collector endpoint.
#[derive(Debug)]
pub struct General {
    pub prefix: String,
    pub hostname: String,
    pub graphite_connection_type: GraphiteConnectionType,
    pub graphite_address: String,
}

/// The whole configuration: general settings plus the list of jobs, in
/// declaration order.
#[derive(Debug)]
pub struct Config {
    pub general: General,
    pub job: Vec<Job>,
}

} // verus!
