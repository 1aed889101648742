use vstd::prelude::*;

verus! {

/// Failure of one metric transmission. Transport failures are local to one
/// send: remaining metrics of the same tick are still attempted.
#[derive(Debug)]
pub struct MetricReporterError {
    msg: String,
}

impl MetricReporterError {
    pub closed spec fn spec_msg(&self) -> Seq<char> {
        self.msg@
    }

    pub fn new(msg: &str) -> (r: MetricReporterError)
        ensures
            r.spec_msg() == msg@,
    {
        MetricReporterError { msg: msg.to_owned() }
    }

    pub fn from_string(msg: String) -> (r: MetricReporterError)
        ensures
            r.spec_msg() == msg@,
    {
        MetricReporterError { msg }
    }

    /// The error text, e.g. for operator-facing logs.
    pub fn message(&self) -> (r: &str)
        ensures
            r@ == self.spec_msg(),
    {
        self.msg.as_str()
    }
}

impl PartialEq for MetricReporterError {
    fn eq(&self, other: &Self) -> (r: bool) {
        self.msg == other.msg
    }
}

impl vstd::std_specs::cmp::PartialEqSpecImpl for MetricReporterError {
    open spec fn obeys_eq_spec() -> bool {
        true
    }

    open spec fn eq_spec(&self, other: &Self) -> bool {
        self.spec_msg() == other.spec_msg()
    }
}

/// The decimal digit character for `d`.
pub open spec fn digit_char(d: nat) -> char
    recommends
        d < 10,
{
    if d == 0 {
        '0'
    } else if d == 1 {
        '1'
    } else if d == 2 {
        '2'
    } else if d == 3 {
        '3'
    } else if d == 4 {
        '4'
    } else if d == 5 {
        '5'
    } else if d == 6 {
        '6'
    } else if d == 7 {
        '7'
    } else if d == 8 {
        '8'
    } else {
        '9'
    }
}

/// The decimal digit string of `n`, most significant digit first, without
/// leading zeros (a single `'0'` for zero).
pub open spec fn decimal_digits(n: nat) -> Seq<char>
    decreases n,
{
    if n < 10 {
        seq![digit_char(n)]
    } else {
        decimal_digits(n / 10) + seq![digit_char(n % 10)]
    }
}

fn digit_str(d: u64) -> (r: &'static str)
    requires
        d < 10,
    ensures
        r@ == seq![digit_char(d as nat)],
{
    proof {
        reveal_strlit("0");
        reveal_strlit("1");
        reveal_strlit("2");
        reveal_strlit("3");
        reveal_strlit("4");
        reveal_strlit("5");
        reveal_strlit("6");
        reveal_strlit("7");
        reveal_strlit("8");
        reveal_strlit("9");
    }
    let r = if d == 0 {
        "0"
    } else if d == 1 {
        "1"
    } else if d == 2 {
        "2"
    } else if d == 3 {
        "3"
    } else if d == 4 {
        "4"
    } else if d == 5 {
        "5"
    } else if d == 6 {
        "6"
    } else if d == 7 {
        "7"
    } else if d == 8 {
        "8"
    } else {
        "9"
    };
    proof {
        assert(r@ =~= seq![digit_char(d as nat)]);
    }
    r
}

/// Renders `n` in decimal.
pub fn u64_to_string(n: u64) -> (s: String)
    ensures
        s@ == decimal_digits(n as nat),
    decreases n,
{
    if n < 10 {
        digit_str(n).to_owned()
    } else {
        let mut s = u64_to_string(n / 10);
        s.append(digit_str(n % 10));
        s
    }
}

/// The wire line for one metric: `<name> <value> <timestamp>\n`.
pub open spec fn metric_line(name: Seq<char>, value: Seq<char>, timestamp: u64) -> Seq<char> {
    name + seq![' '] + value + seq![' '] + decimal_digits(timestamp as nat) + seq!['\n']
}

/// Serializes one metric into its wire line.
pub fn format_metric_line(name: &str, value: &str, timestamp: u64) -> (r: String)
    ensures
        r@ == metric_line(name@, value@, timestamp),
{
    proof {
        reveal_strlit(" ");
        reveal_strlit("\n");
    }
    let mut line = name.to_owned();
    line.append(" ");
    line.append(value);
    line.append(" ");
    let ts = u64_to_string(timestamp);
    line.append(ts.as_str());
    line.append("\n");
    proof {
        assert(line@ =~= metric_line(name@, value@, timestamp));
    }
    line
}

/// Delivers one already-formatted wire line to the collector: one UDP datagram
/// per call, or one write on a persistent TCP stream. Implemented outside the
/// library, since sending is I/O; on failure it reports a detail message. The
/// library promises nothing about which outcome comes back.
pub trait SendLine {
    fn send_line(&self, line: &str) -> Result<(), String>;
}

/// Whether `m` is the message of a transport failure: an `IO Error: ` prefix
/// followed by some detail.
pub open spec fn is_io_error_msg(m: Seq<char>) -> bool {
    exists|d: Seq<char>| m == "IO Error: "@ + d
}

/// Serializes one `(name, value, timestamp)` tuple into its wire line and
/// sends it over the held connection. A failure is reported, never retried.
pub trait MetricReporter {
    fn report(&self, name: &str, value: &str, timestamp: u64) -> (r: Result<
        (),
        MetricReporterError,
    >)
        ensures
            r matches Err(e) ==> is_io_error_msg(e.spec_msg()),
    ;
}

/// Metric reporter backed by a line-sending port that is injected at
/// construction.
pub struct MetricReporterImpl<S: SendLine> {
    sender: S,
}

impl<S: SendLine> MetricReporterImpl<S> {
    pub fn new(sender: S) -> MetricReporterImpl<S> {
        MetricReporterImpl { sender }
    }
}

impl<S: SendLine> MetricReporter for MetricReporterImpl<S> {
    fn report(&self, name: &str, value: &str, timestamp: u64) -> (r: Result<
        (),
        MetricReporterError,
    >) {
        let line = format_metric_line(name, value, timestamp);
        match self.sender.send_line(line.as_str()) {
            Ok(()) => Ok(()),
            Err(detail) => {
                let mut msg = "IO Error: ".to_owned();
                msg.append(detail.as_str());
                let e = MetricReporterError::from_string(msg);
                proof {
                    assert(e.spec_msg() == "IO Error: "@ + detail@);
                }
                Err(e)
            },
        }
    }
}

} // verus!
