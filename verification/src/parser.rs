use crate::config::Output;
use vstd::pervasive::unreached;
use vstd::prelude::*;

verus! {

/// Whether the regular-expression engine accepts `pattern`. Compilation
/// succeeds or fails depending on the pattern alone.
pub uninterp spec fn pattern_accepted(pattern: Seq<char>) -> bool;

/// The successive non-overlapping matches of `pattern` in `text`, leftmost
/// first, each given as the matched substring. Defined by the engine; a pure
/// function of pattern and text. Meaningful only when `pattern` is accepted.
pub uninterp spec fn pattern_matches(pattern: Seq<char>, text: Seq<char>) -> Seq<Seq<char>>;

/// The result of replacing the leftmost match of `pattern` in `text` by
/// `template`, with capture-group back-references (`$1`, `$2`, ...) in the
/// template expanded against that match (`$0` is the whole match, an unmatched
/// optional group expands to nothing); `text` itself when nothing matches. A
/// pure function of its three arguments. Meaningful only when `pattern` is
/// accepted.
pub uninterp spec fn pattern_substitute(
    pattern: Seq<char>,
    text: Seq<char>,
    template: Seq<char>,
) -> Seq<char>;

/// Relies on regex::Regex::new: compiling a given pattern succeeds or fails
/// deterministically.
#[verifier::external_body]
fn regex_accepts(pattern: &str) -> (r: bool)
    ensures
        r == pattern_accepted(pattern@),
{
    regex::Regex::new(pattern).is_ok()
}

/// Relies on regex::Regex::new and regex::Regex::find_iter: the sequence of
/// successive non-overlapping matches depends only on the pattern and the
/// haystack.
#[verifier::external_body]
fn regex_find_matches(pattern: &str, text: &str) -> (r: Option<Vec<String>>)
    ensures
        r is Some == pattern_accepted(pattern@),
        r matches Some(v) ==> v.deep_view() == pattern_matches(pattern@, text@),
{
    match regex::Regex::new(pattern) {
        Ok(re) => Some(re.find_iter(text).map(|m| m.as_str().to_string()).collect()),
        Err(_) => None,
    }
}

/// Relies on regex::Regex::new and regex::Regex::replace: the replacement of
/// the leftmost match by a template, `$`-references expanded, depends only on
/// the pattern, the haystack and the template.
#[verifier::external_body]
fn regex_substitute(pattern: &str, text: &str, template: &str) -> (r: Option<String>)
    ensures
        r is Some == pattern_accepted(pattern@),
        r matches Some(v) ==> v@ == pattern_substitute(pattern@, text@, template@),
{
    match regex::Regex::new(pattern) {
        Ok(re) => Some(re.replace(text, template).into_owned()),
        Err(_) => None,
    }
}

/// The pattern handed to the engine for a job: the configured pattern with
/// multi-line semantics switched on, so that `^` and `$` match at line
/// boundaries.
pub open spec fn multiline(pattern: Seq<char>) -> Seq<char> {
    "(?m)"@ + pattern
}

/// The mathematical content of a parser: the metric-name prefix, the full
/// pattern handed to the engine, and the (name template, value template)
/// pairs in declared order.
pub struct ParserView {
    pub prefix: Seq<char>,
    pub pattern: Seq<char>,
    pub outputs: Seq<(Seq<char>, Seq<char>)>,
}

/// The template pair of one output.
pub open spec fn output_templates(o: Output) -> (Seq<char>, Seq<char>) {
    (o.name@, o.value@)
}

/// The `(name, value)` pair produced by one output template for one match:
/// both templates substituted against the match, the name qualified by the
/// prefix and a dot.
pub open spec fn substituted_pair(p: ParserView, m: Seq<char>, templates: (Seq<char>, Seq<char>)) -> (
    Seq<char>,
    Seq<char>,
) {
    (
        p.prefix + seq!['.'] + pattern_substitute(p.pattern, m, templates.0),
        pattern_substitute(p.pattern, m, templates.1),
    )
}

/// The pairs produced for one match: one per output template, in declared
/// order.
pub open spec fn pairs_for_match(p: ParserView, m: Seq<char>) -> Seq<(Seq<char>, Seq<char>)> {
    p.outputs.map_values(|templates: (Seq<char>, Seq<char>)| substituted_pair(p, m, templates))
}

/// The pairs produced for a sequence of matches, match-major: the outer order
/// follows the matches, the inner order the output templates.
pub open spec fn pairs_for_matches(p: ParserView, ms: Seq<Seq<char>>) -> Seq<
    (Seq<char>, Seq<char>),
>
    decreases ms.len(),
{
    if ms.len() == 0 {
        Seq::empty()
    } else {
        pairs_for_matches(p, ms.drop_last()) + pairs_for_match(p, ms.last())
    }
}

/// Everything `parse` yields on `input`: the pairs of every match of the
/// pattern, match-major, template-minor. No match yields the empty sequence.
pub open spec fn parse_result(p: ParserView, input: Seq<char>) -> Seq<(Seq<char>, Seq<char>)> {
    pairs_for_matches(p, pattern_matches(p.pattern, input))
}

/// Applies a job's pattern to executor output and produces the ordered
/// `(metric name, metric value)` pairs per match per output template.
pub struct Parser {
    prefix: String,
    pattern: String,
    outputs: Vec<Output>,
}

impl View for Parser {
    type V = ParserView;

    closed spec fn view(&self) -> ParserView {
        ParserView {
            prefix: self.prefix@,
            pattern: self.pattern@,
            outputs: Seq::new(self.outputs@.len(), |i: int| output_templates(self.outputs@[i])),
        }
    }
}

impl Parser {
    #[verifier::type_invariant]
    spec fn wf(&self) -> bool {
        pattern_accepted(self.pattern@)
    }

    /// Builds a parser for one job: qualifies the configured pattern with
    /// multi-line semantics and checks it against the engine. Returns `None`
    /// exactly when the engine rejects the pattern — a configuration error,
    /// fatal at startup for the caller.
    pub fn new(prefix: &str, pattern: &str, outputs: &Vec<Output>) -> (r: Option<Parser>)
        ensures
            r is Some == pattern_accepted(multiline(pattern@)),
            r matches Some(p) ==> p@ == (ParserView {
                prefix: prefix@,
                pattern: multiline(pattern@),
                outputs: Seq::new(outputs@.len(), |i: int| output_templates(outputs@[i])),
            }),
    {
        let mut full = "(?m)".to_owned();
        full.append(pattern);
        if !regex_accepts(full.as_str()) {
            return None;
        }
        let mut outs: Vec<Output> = Vec::new();
        let n = outputs.len();
        for i in 0..n
            invariant
                n == outputs@.len(),
                outs@.len() == i,
                forall|j: int|
                    0 <= j < i ==> output_templates(#[trigger] outs@[j]) == output_templates(
                        outputs@[j],
                    ),
        {
            let o = Output { name: outputs[i].name.clone(), value: outputs[i].value.clone() };
            outs.push(o);
        }
        let p = Parser { prefix: prefix.to_owned(), pattern: full, outputs: outs };
        proof {
            assert(p@.outputs =~= Seq::new(
                outputs@.len(),
                |i: int| output_templates(outputs@[i]),
            ));
        }
        Some(p)
    }

    /// Finds every non-overlapping match of the pattern in `input` and, for
    /// each match, substitutes every output template against it, in declared
    /// order: the result is match-major, template-minor. Zero matches yield an
    /// empty result, not an error.
    pub fn parse(&self, input: &str) -> (r: Vec<(String, String)>)
        ensures
            r.deep_view() == parse_result(self@, input@),
    {
        proof {
            use_type_invariant(&*self);
        }
        let matches = match regex_find_matches(self.pattern.as_str(), input) {
            Some(ms) => ms,
            None => unreached(),
        };
        let mut results: Vec<(String, String)> = Vec::new();
        let n = matches.len();
        for i in 0..n
            invariant
                n == matches@.len(),
                matches.deep_view() == pattern_matches(self@.pattern, input@),
                pattern_accepted(self@.pattern),
                results.deep_view() =~= pairs_for_matches(
                    self@,
                    matches.deep_view().take(i as int),
                ),
        {
            let k = self.outputs.len();
            for j in 0..k
                invariant
                    n == matches@.len(),
                    i < n,
                    k == self.outputs@.len(),
                    matches.deep_view() == pattern_matches(self@.pattern, input@),
                    pattern_accepted(self@.pattern),
                    results.deep_view() =~= pairs_for_matches(
                        self@,
                        matches.deep_view().take(i as int),
                    ) + pairs_for_match(self@, matches.deep_view()[i as int]).take(j as int),
            {
                let m: &String = &matches[i];
                let name_sub = match regex_substitute(
                    self.pattern.as_str(),
                    m.as_str(),
                    self.outputs[j].name.as_str(),
                ) {
                    Some(s) => s,
                    None => unreached(),
                };
                let value_sub = match regex_substitute(
                    self.pattern.as_str(),
                    m.as_str(),
                    self.outputs[j].value.as_str(),
                ) {
                    Some(s) => s,
                    None => unreached(),
                };
                proof {
                    reveal_strlit(".");
                }
                let mut full_name = self.prefix.clone();
                full_name.append(".");
                full_name.append(name_sub.as_str());
                let ghost pre = results.deep_view();
                let ghost m_v = matches.deep_view()[i as int];
                let ghost pair = (full_name@, value_sub@);
                proof {
                    assert(self@.outputs[j as int] == output_templates(self.outputs@[j as int]));
                    assert(full_name@ =~= self@.prefix + seq!['.'] + pattern_substitute(
                        self@.pattern,
                        m_v,
                        self@.outputs[j as int].0,
                    ));
                    assert(pair == substituted_pair(self@, m_v, self@.outputs[j as int]));
                    assert(pairs_for_match(self@, m_v)[j as int] == substituted_pair(
                        self@,
                        m_v,
                        self@.outputs[j as int],
                    ));
                    assert(pairs_for_match(self@, m_v).take(j + 1) =~= pairs_for_match(
                        self@,
                        m_v,
                    ).take(j as int) + seq![pair]);
                }
                results.push((full_name, value_sub));
                proof {
                    assert(results.deep_view() =~= pre.push(pair));
                }
            }
            proof {
                assert(pairs_for_match(self@, matches.deep_view()[i as int]).take(k as int)
                    =~= pairs_for_match(self@, matches.deep_view()[i as int]));
                assert(matches.deep_view().take(i + 1).drop_last() =~= matches.deep_view().take(
                    i as int,
                ));
                assert(matches.deep_view().take(i + 1).last() == matches.deep_view()[i as int]);
            }
        }
        proof {
            assert(matches.deep_view().take(n as int) =~= matches.deep_view());
        }
        results
    }
}

} // verus!
