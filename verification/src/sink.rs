//! The result sinks: two append-only output channels, one for live and one
//! for dead domains. A sink records whole lines; the process around the
//! core serializes concurrent callers, so the model here is the sequence of
//! recorded lines and the text they render to.

use vstd::prelude::*;
use crate::check::Verdict;
use crate::check::VerdictRepr;
use crate::text::before_slash;
use crate::text::extract_domain;
use crate::text::host_of;
use crate::text::http_url_spec;
use crate::text::https_url_spec;
use crate::text::lemma_host_of_candidate_urls;
use crate::text::trim_spec;
use vstd::string::StringExecFns;

verus! {

/// An append-only output channel of line-delimited text.
pub struct Sink {
    lines: Vec<String>,
}

impl View for Sink {
    type V = Seq<Seq<char>>;

    closed spec fn view(&self) -> Seq<Seq<char>> {
        self.lines.deep_view()
    }
}

impl Sink {
    /// A fresh sink with nothing recorded (any prior destination content is
    /// gone).
    pub fn new() -> (s: Sink)
        ensures
            s@ == Seq::<Seq<char>>::empty(),
    {
        let s = Sink { lines: Vec::new() };
        proof {
            assert(s@ =~= Seq::<Seq<char>>::empty());
        }
        s
    }

    /// Appends one line of text; every line already recorded is unchanged.
    pub fn record(&mut self, text: String)
        ensures
            final(self)@ == old(self)@.push(text@),
    {
        let ghost pre = self@;
        let ghost t = text@;
        self.lines.push(text);
        proof {
            assert(self@ =~= pre.push(t));
        }
    }

    /// The number of recorded lines.
    pub fn line_count(&self) -> (n: usize)
        ensures
            n == self@.len(),
    {
        self.lines.len()
    }

    /// One recorded line.
    pub fn line(&self, i: usize) -> (l: &String)
        requires
            i < self@.len(),
        ensures
            l@ == self@[i as int],
    {
        &self.lines[i]
    }

    /// The text this sink's destination holds: the recorded lines in order,
    /// each followed by one terminator.
    pub fn rendered_text(&self) -> (t: String)
        ensures
            t@ == rendered(self@),
    {
        let mut t = String::new();
        let n = self.lines.len();
        let mut i: usize = 0;
        proof {
            assert(self@.take(0) =~= Seq::<Seq<char>>::empty());
        }
        while i < n
            invariant
                i <= n,
                n == self@.len(),
                t@ == rendered(self@.take(i as int)),
            decreases n - i,
        {
            t.append(self.lines[i].as_str());
            t.append("\n");
            proof {
                assert(self@.take(i as int).push(self@[i as int]) =~= self@.take(i + 1));
                lemma_record_appends_whole_line(self@.take(i as int), self@[i as int]);
            }
            i = i + 1;
        }
        proof {
            assert(self@.take(n as int) =~= self@);
        }
        t
    }
}

/// The text a sink's lines render to: each line followed by one terminator.
pub open spec fn rendered(lines: Seq<Seq<char>>) -> Seq<char>
    decreases lines.len(),
{
    if lines.len() == 0 {
        Seq::empty()
    } else {
        rendered(lines.drop_last()) + lines.last() + "\n"@
    }
}

/// Each record appends one whole terminated line to the sink's text: a
/// write never interleaves with another and never loses text, so N records
/// always render to exactly N well-formed lines.
pub proof fn lemma_record_appends_whole_line(lines: Seq<Seq<char>>, text: Seq<char>)
    ensures
        rendered(lines.push(text)) == rendered(lines) + text + "\n"@,
{
    assert(lines.push(text).drop_last() =~= lines);
    assert(lines.push(text).last() == text);
}

/// How many line terminators a text holds.
pub open spec fn terminator_count(s: Seq<char>) -> nat
    decreases s.len(),
{
    if s.len() == 0 {
        0
    } else {
        terminator_count(s.drop_last()) + if s.last() == '\n' {
            1nat
        } else {
            0nat
        }
    }
}

proof fn lemma_terminator_count_concat(a: Seq<char>, b: Seq<char>)
    ensures
        terminator_count(a + b) == terminator_count(a) + terminator_count(b),
    decreases b.len(),
{
    if b.len() == 0 {
        assert(a + b =~= a);
    } else {
        lemma_terminator_count_concat(a, b.drop_last());
        assert((a + b).drop_last() =~= a + b.drop_last());
        assert((a + b).last() == b.last());
    }
}

proof fn lemma_terminator_count_free(t: Seq<char>)
    requires
        forall|k: int| 0 <= k < t.len() ==> t[k] != '\n',
    ensures
        terminator_count(t) == 0,
    decreases t.len(),
{
    if t.len() > 0 {
        let d = t.drop_last();
        assert(forall|k: int| 0 <= k < d.len() ==> d[k] == t[k] && d[k] != '\n');
        assert(t.last() == t[t.len() - 1]);
        lemma_terminator_count_free(d);
    }
}

/// N records render to exactly N well-formed lines: when no recorded text
/// holds a terminator itself, the sink's text holds one terminator per
/// recorded line, never more and never fewer.
pub proof fn lemma_rendered_line_count(lines: Seq<Seq<char>>)
    requires
        forall|i: int, k: int|
            0 <= i < lines.len() && 0 <= k < lines[i].len() ==> lines[i][k] != '\n',
    ensures
        terminator_count(rendered(lines)) == lines.len(),
    decreases lines.len(),
{
    reveal_strlit("\n");
    if lines.len() > 0 {
        let d = lines.drop_last();
        assert(forall|i: int, k: int|
            0 <= i < d.len() && 0 <= k < d[i].len() ==> d[i][k] == lines[i][k] && d[i][k]
                != '\n');
        lemma_rendered_line_count(d);
        assert(lines.last() == lines[lines.len() - 1]);
        lemma_terminator_count_free(lines.last());
        assert("\n"@.drop_last().len() == 0);
        assert(terminator_count("\n"@.drop_last()) == 0);
        assert(terminator_count("\n"@) == 1);
        lemma_terminator_count_concat(rendered(d), lines.last());
        lemma_terminator_count_concat(rendered(d) + lines.last(), "\n"@);
    }
}

/// The pair of process-wide sinks.
pub struct SinkPair {
    pub live: Sink,
    pub dead: Sink,
}

/// How one verdict lands in the sinks: a live verdict appends the bare host
/// of its URL to the live sink and leaves the dead sink untouched; a dead
/// verdict appends the domain, exactly as the check received it, to the
/// dead sink and leaves the live sink untouched.
pub open spec fn apply_verdict(
    live: Seq<Seq<char>>,
    dead: Seq<Seq<char>>,
    v: VerdictRepr,
) -> (Seq<Seq<char>>, Seq<Seq<char>>) {
    match v {
        VerdictRepr::Live { url, status } => (live.push(host_of(url)), dead),
        VerdictRepr::Dead { domain } => (live, dead.push(domain)),
    }
}

/// The sinks after a sequence of verdicts, recorded in order.
pub open spec fn apply_verdicts(
    live: Seq<Seq<char>>,
    dead: Seq<Seq<char>>,
    vs: Seq<VerdictRepr>,
) -> (Seq<Seq<char>>, Seq<Seq<char>>)
    decreases vs.len(),
{
    if vs.len() == 0 {
        (live, dead)
    } else {
        let p = apply_verdict(live, dead, vs.first());
        apply_verdicts(p.0, p.1, vs.skip(1))
    }
}

impl SinkPair {
    /// Two fresh sinks, both empty.
    pub fn new() -> (s: SinkPair)
        ensures
            s.live@ == Seq::<Seq<char>>::empty(),
            s.dead@ == Seq::<Seq<char>>::empty(),
    {
        SinkPair { live: Sink::new(), dead: Sink::new() }
    }

    /// Records one verdict in the proper sink.
    pub fn record_verdict(&mut self, v: &Verdict)
        ensures
            final(self).live@ == apply_verdict(old(self).live@, old(self).dead@, v@).0,
            final(self).dead@ == apply_verdict(old(self).live@, old(self).dead@, v@).1,
    {
        match v {
            Verdict::Live { url, .. } => {
                let host = extract_domain(url.as_str());
                self.live.record(host);
            },
            Verdict::Dead { domain } => {
                self.dead.record(domain.clone());
            },
        }
    }
}

/// A live verdict reached under either scheme lands in the live sink as the
/// bare host of the URL that answered — the domain itself, up to its first
/// '/' — and the dead sink is untouched.
pub proof fn lemma_live_lands_as_host(
    live: Seq<Seq<char>>,
    dead: Seq<Seq<char>>,
    domain: Seq<char>,
    code: u16,
)
    ensures
        apply_verdict(live, dead, (VerdictRepr::Live { url: http_url_spec(domain), status: code }))
            == (live.push(before_slash(domain)), dead),
        apply_verdict(live, dead, (VerdictRepr::Live { url: https_url_spec(domain), status: code }))
            == (live.push(before_slash(domain)), dead),
{
    lemma_host_of_candidate_urls(domain);
}

/// A dead verdict lands in the dead sink exactly as the check received the
/// domain — the trimmed input line — and the live sink is untouched.
pub proof fn lemma_dead_lands_verbatim(live: Seq<Seq<char>>, dead: Seq<Seq<char>>, domain: Seq<char>)
    ensures
        apply_verdict(live, dead, (VerdictRepr::Dead { domain })) == (live, dead.push(domain)),
{
}

/// No domain is lost and none is double-counted: recording one verdict per
/// domain grows the two sinks' combined line count by exactly the number of
/// verdicts, so it equals the number of non-blank input lines when each such
/// line yields one verdict.
pub proof fn lemma_no_verdict_lost(
    live: Seq<Seq<char>>,
    dead: Seq<Seq<char>>,
    vs: Seq<VerdictRepr>,
)
    ensures
        apply_verdicts(live, dead, vs).0.len() + apply_verdicts(live, dead, vs).1.len()
            == live.len() + dead.len() + vs.len(),
    decreases vs.len(),
{
    if vs.len() > 0 {
        let p = apply_verdict(live, dead, vs.first());
        lemma_no_verdict_lost(p.0, p.1, vs.skip(1));
    }
}

/// The number of input lines that are non-blank once trimmed: exactly those
/// lines start a check, and every check ends in one verdict.
pub open spec fn accepted_count(lines: Seq<Seq<char>>) -> nat
    decreases lines.len(),
{
    if lines.len() == 0 {
        0
    } else {
        accepted_count(lines.drop_last()) + if trim_spec(lines.last()).len() > 0 {
            1nat
        } else {
            0nat
        }
    }
}

/// For every input list: with one verdict per non-blank input line, the two
/// sinks' combined line count, starting from fresh sinks, equals the number
/// of such lines.
pub proof fn lemma_every_line_accounted(lines: Seq<Seq<char>>, vs: Seq<VerdictRepr>)
    requires
        vs.len() == accepted_count(lines),
    ensures
        apply_verdicts(Seq::<Seq<char>>::empty(), Seq::<Seq<char>>::empty(), vs).0.len()
            + apply_verdicts(Seq::<Seq<char>>::empty(), Seq::<Seq<char>>::empty(), vs).1.len()
            == accepted_count(lines),
{
    lemma_no_verdict_lost(Seq::<Seq<char>>::empty(), Seq::<Seq<char>>::empty(), vs);
}

} // verus!
