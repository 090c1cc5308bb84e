//! The per-domain check: a small state machine that probes the HTTP URL
//! first, then the HTTPS URL, decides Live on the first success status and
//! Dead when both probes fail, and never probes HTTPS once HTTP succeeded.

use vstd::prelude::*;
use crate::status::is_success_spec;
use crate::status::is_success_status;
use crate::text::http_url;
use crate::text::http_url_spec;
use crate::text::https_url;
use crate::text::https_url_spec;

verus! {

/// The final classification of one domain.
pub enum Verdict {
    /// The domain answered with a success status on the recorded URL.
    Live { url: String, status: u16 },
    /// Neither candidate URL answered with a success status.
    Dead { domain: String },
}

/// Spec-level value of a verdict.
#[verifier::ext_equal]
pub enum VerdictRepr {
    Live { url: Seq<char>, status: u16 },
    Dead { domain: Seq<char> },
}

impl View for Verdict {
    type V = VerdictRepr;

    open spec fn view(&self) -> VerdictRepr {
        match self {
            Verdict::Live { url, status } => VerdictRepr::Live { url: url@, status: *status },
            Verdict::Dead { domain } => VerdictRepr::Dead { domain: domain@ },
        }
    }
}

/// Which probe a check is waiting on, or the decision it reached.
pub enum Phase {
    TryingHttp,
    TryingHttps,
    Done(Verdict),
}

/// Spec-level value of a phase.
#[verifier::ext_equal]
pub enum PhaseRepr {
    TryingHttp,
    TryingHttps,
    Done(VerdictRepr),
}

/// One domain's check.
pub struct DomainCheck {
    domain: String,
    phase: Phase,
}

/// Spec-level value of a check.
#[verifier::ext_equal]
pub struct CheckRepr {
    pub domain: Seq<char>,
    pub phase: PhaseRepr,
}

impl View for DomainCheck {
    type V = CheckRepr;

    closed spec fn view(&self) -> CheckRepr {
        CheckRepr {
            domain: self.domain@,
            phase: match &self.phase {
                Phase::TryingHttp => PhaseRepr::TryingHttp,
                Phase::TryingHttps => PhaseRepr::TryingHttps,
                Phase::Done(v) => PhaseRepr::Done(v@),
            },
        }
    }
}

/// Whether a check has reached its verdict.
pub open spec fn decided(s: CheckRepr) -> bool {
    s.phase is Done
}

/// The verdict of a decided check.
pub open spec fn verdict_of(s: CheckRepr) -> VerdictRepr
    recommends
        decided(s),
{
    match s.phase {
        PhaseRepr::Done(v) => v,
        _ => arbitrary(),
    }
}

/// The URL a check wants probed next: the HTTP URL strictly before the
/// HTTPS URL, and nothing once the check is decided.
pub open spec fn next_url_spec(s: CheckRepr) -> Option<Seq<char>> {
    match s.phase {
        PhaseRepr::TryingHttp => Some(http_url_spec(s.domain)),
        PhaseRepr::TryingHttps => Some(https_url_spec(s.domain)),
        PhaseRepr::Done(_) => None,
    }
}

/// The transition a check makes on one probe outcome (the status that
/// arrived, or nothing on a connection error or timeout).
pub open spec fn step_spec(s: CheckRepr, outcome: Option<u16>) -> CheckRepr {
    match s.phase {
        PhaseRepr::TryingHttp => match outcome {
            Some(code) => if is_success_spec(code) {
                CheckRepr {
                    domain: s.domain,
                    phase: PhaseRepr::Done(
                        VerdictRepr::Live { url: http_url_spec(s.domain), status: code },
                    ),
                }
            } else {
                CheckRepr { domain: s.domain, phase: PhaseRepr::TryingHttps }
            },
            None => CheckRepr { domain: s.domain, phase: PhaseRepr::TryingHttps },
        },
        PhaseRepr::TryingHttps => match outcome {
            Some(code) => if is_success_spec(code) {
                CheckRepr {
                    domain: s.domain,
                    phase: PhaseRepr::Done(
                        VerdictRepr::Live { url: https_url_spec(s.domain), status: code },
                    ),
                }
            } else {
                CheckRepr {
                    domain: s.domain,
                    phase: PhaseRepr::Done(VerdictRepr::Dead { domain: s.domain }),
                }
            },
            None => CheckRepr {
                domain: s.domain,
                phase: PhaseRepr::Done(VerdictRepr::Dead { domain: s.domain }),
            },
        },
        PhaseRepr::Done(_) => s,
    }
}

/// The state of a check after its probes: the first outcome, then, only if
/// the check is still undecided, the second.
pub open spec fn run_spec(s: CheckRepr, first: Option<u16>, second: Option<u16>) -> CheckRepr {
    let s1 = step_spec(s, first);
    if decided(s1) {
        s1
    } else {
        step_spec(s1, second)
    }
}

impl DomainCheck {
    /// Starts the check of one (already trimmed) domain.
    pub fn new(domain: String) -> (c: DomainCheck)
        ensures
            c@ == (CheckRepr { domain: domain@, phase: PhaseRepr::TryingHttp }),
    {
        DomainCheck { domain, phase: Phase::TryingHttp }
    }

    /// The domain under check.
    pub fn domain(&self) -> (d: &String)
        ensures
            d@ == self@.domain,
    {
        &self.domain
    }

    /// The next URL to probe, or nothing once the check is decided.
    pub fn next_url(&self) -> (u: Option<String>)
        ensures
            u is Some <==> next_url_spec(self@) is Some,
            u matches Some(s) ==> next_url_spec(self@) == Some(s@),
    {
        match &self.phase {
            Phase::TryingHttp => Some(http_url(self.domain.as_str())),
            Phase::TryingHttps => Some(https_url(self.domain.as_str())),
            Phase::Done(_) => None,
        }
    }

    /// Feeds the outcome of the probe of the current URL: the response
    /// status that arrived, or nothing on a connection error or timeout.
    pub fn report(&mut self, outcome: Option<u16>)
        requires
            !decided(old(self)@),
        ensures
            final(self)@ == step_spec(old(self)@, outcome),
    {
        let ghost pre = self@;
        let success_code: Option<u16> = match outcome {
            Some(code) => if is_success_status(code) {
                Some(code)
            } else {
                None
            },
            None => None,
        };
        let is_http = match &self.phase {
            Phase::TryingHttp => true,
            _ => false,
        };
        match success_code {
            Some(code) => {
                let url = if is_http {
                    http_url(self.domain.as_str())
                } else {
                    https_url(self.domain.as_str())
                };
                self.phase = Phase::Done(Verdict::Live { url, status: code });
            },
            None => {
                if is_http {
                    self.phase = Phase::TryingHttps;
                } else {
                    let domain = self.domain.clone();
                    self.phase = Phase::Done(Verdict::Dead { domain });
                }
            },
        }
        proof {
            assert(self@ =~= step_spec(pre, outcome));
        }
    }

    /// The verdict, once the check is decided.
    pub fn into_verdict(self) -> (v: Option<Verdict>)
        ensures
            v is Some <==> decided(self@),
            v matches Some(x) ==> x@ == verdict_of(self@),
    {
        match self.phase {
            Phase::Done(v) => Some(v),
            _ => None,
        }
    }
}

/// From the start of a check, two probe outcomes always suffice to decide
/// it: every domain receives exactly one verdict.
pub proof fn lemma_two_probes_decide(s: CheckRepr, first: Option<u16>, second: Option<u16>)
    requires
        s.phase is TryingHttp,
    ensures
        decided(run_spec(s, first, second)),
        run_spec(s, first, second).domain == s.domain,
{
}

/// A success status on the HTTP probe decides the check at once: the
/// verdict is Live under the HTTP URL, and no further URL is offered for
/// probing, so the HTTPS endpoint is never probed.
pub proof fn lemma_http_success_short_circuits(s: CheckRepr, code: u16)
    requires
        s.phase is TryingHttp,
        is_success_spec(code),
    ensures
        step_spec(s, Some(code)) == (CheckRepr {
            domain: s.domain,
            phase: PhaseRepr::Done(
                VerdictRepr::Live { url: http_url_spec(s.domain), status: code },
            ),
        }),
        next_url_spec(step_spec(s, Some(code))) is None,
{
    assert(step_spec(s, Some(code)) =~= CheckRepr {
        domain: s.domain,
        phase: PhaseRepr::Done(VerdictRepr::Live { url: http_url_spec(s.domain), status: code }),
    });
}

/// When the HTTP probe fails (no response, a timeout, or a non-success
/// status) and the HTTPS probe answers with a success status, the verdict
/// is Live under the HTTPS URL.
pub proof fn lemma_https_fallback(s: CheckRepr, first: Option<u16>, code: u16)
    requires
        s.phase is TryingHttp,
        !(first matches Some(c) && is_success_spec(c)),
        is_success_spec(code),
    ensures
        run_spec(s, first, Some(code)) == (CheckRepr {
            domain: s.domain,
            phase: PhaseRepr::Done(
                VerdictRepr::Live { url: https_url_spec(s.domain), status: code },
            ),
        }),
{
    assert(run_spec(s, first, Some(code)) =~= CheckRepr {
        domain: s.domain,
        phase: PhaseRepr::Done(VerdictRepr::Live { url: https_url_spec(s.domain), status: code }),
    });
}

/// When both probes fail, the verdict is Dead and carries the domain
/// exactly as it was given to the check.
pub proof fn lemma_both_fail_dead(s: CheckRepr, first: Option<u16>, second: Option<u16>)
    requires
        s.phase is TryingHttp,
        !(first matches Some(c) && is_success_spec(c)),
        !(second matches Some(c) && is_success_spec(c)),
    ensures
        run_spec(s, first, second) == (CheckRepr {
            domain: s.domain,
            phase: PhaseRepr::Done(VerdictRepr::Dead { domain: s.domain }),
        }),
{
    assert(run_spec(s, first, second) =~= CheckRepr {
        domain: s.domain,
        phase: PhaseRepr::Done(VerdictRepr::Dead { domain: s.domain }),
    });
}

} // verus!
