//! The decision rules: what a score means under the configured thresholds,
//! and how the risk gate bears on it.

use vstd::prelude::*;
use crate::config::Config;

verus! {

/// The three decisions a scan can reach, from worst to best.
#[derive(Clone, Copy, Debug, PartialEq, Eq, Structural)]
pub enum Decision {
    Reject,
    Watch,
    Deploy,
}

/// The label a decision is reported under.
pub open spec fn decision_label(v: Decision) -> Seq<char> {
    match v {
        Decision::Reject => "REJECT"@,
        Decision::Watch => "WATCH"@,
        Decision::Deploy => "DEPLOY"@,
    }
}

/// The order of decisions: reject below watch below deploy.
pub open spec fn decision_rank(v: Decision) -> nat {
    match v {
        Decision::Reject => 0,
        Decision::Watch => 1,
        Decision::Deploy => 2,
    }
}

/// The decision for `score` under the thresholds: deploy from
/// `deploy_min` up, else watch from `watch_min` up, else reject.
pub open spec fn decision_for(score: u8, deploy_min: u8, watch_min: u8) -> Decision {
    if score >= deploy_min {
        Decision::Deploy
    } else if score >= watch_min {
        Decision::Watch
    } else {
        Decision::Reject
    }
}

/// The decision with the risk check taken into account: where the check holds, the
/// score's decision; where it does not, watch from `watch_min` up, else reject.
pub open spec fn gated_decision(risk_ok: bool, score: u8, deploy_min: u8, watch_min: u8) -> Decision {
    if risk_ok {
        decision_for(score, deploy_min, watch_min)
    } else if score >= watch_min {
        Decision::Watch
    } else {
        Decision::Reject
    }
}

impl Decision {
    /// The label this decision is reported under.
    pub fn label(&self) -> (r: &'static str)
        ensures
            r@ == decision_label(*self),
    {
        match self {
            Decision::Reject => "REJECT",
            Decision::Watch => "WATCH",
            Decision::Deploy => "DEPLOY",
        }
    }
}

/// The decision for `score` under the thresholds of `cfg`.
pub fn decision(score: u8, cfg: &Config) -> (r: Decision)
    ensures
        r == decision_for(score, cfg.deploy_score_min, cfg.watch_score_min),
        r == Decision::Deploy <==> score >= cfg.deploy_score_min,
        r == Decision::Watch <==> cfg.watch_score_min <= score < cfg.deploy_score_min,
        r == Decision::Reject <==> score < cfg.deploy_score_min && score < cfg.watch_score_min,
{
    if score >= cfg.deploy_score_min {
        Decision::Deploy
    } else if score >= cfg.watch_score_min {
        Decision::Watch
    } else {
        Decision::Reject
    }
}

/// The label of the decision for `score` under the thresholds of `cfg`:
/// `"DEPLOY"`, `"WATCH"` or `"REJECT"`.
pub fn classify(score: u8, cfg: &Config) -> (r: &'static str)
    ensures
        r@ == decision_label(decision_for(score, cfg.deploy_score_min, cfg.watch_score_min)),
        r@ == "DEPLOY"@ <==> score >= cfg.deploy_score_min,
        r@ == "WATCH"@ <==> cfg.watch_score_min <= score < cfg.deploy_score_min,
        r@ == "REJECT"@ <==> score < cfg.deploy_score_min && score < cfg.watch_score_min,
{
    let d = decision(score, cfg);
    proof {
        lemma_labels_distinct(d, Decision::Deploy);
        lemma_labels_distinct(d, Decision::Watch);
        lemma_labels_distinct(d, Decision::Reject);
    }
    d.label()
}

/// The label of the decision once the risk gate is applied: a passed gate
/// leaves the score's decision, a failed one caps it at watch.
pub fn decide_action(risk_ok: bool, score: u8, cfg: &Config) -> (r: &'static str)
    ensures
        r@ == decision_label(gated_decision(risk_ok, score, cfg.deploy_score_min, cfg.watch_score_min)),
        risk_ok ==> (r@ == "DEPLOY"@ <==> score >= cfg.deploy_score_min),
        risk_ok ==> (r@ == "WATCH"@ <==> cfg.watch_score_min <= score < cfg.deploy_score_min),
        risk_ok ==> (r@ == "REJECT"@ <==> score < cfg.deploy_score_min && score < cfg.watch_score_min),
        !risk_ok ==> r@ != "DEPLOY"@,
        !risk_ok ==> (r@ == "WATCH"@ <==> score >= cfg.watch_score_min),
        !risk_ok ==> (r@ == "REJECT"@ <==> score < cfg.watch_score_min),
{
    proof {
        let g = gated_decision(risk_ok, score, cfg.deploy_score_min, cfg.watch_score_min);
        lemma_labels_distinct(g, Decision::Deploy);
        lemma_labels_distinct(g, Decision::Watch);
        lemma_labels_distinct(g, Decision::Reject);
    }
    if risk_ok {
        classify(score, cfg)
    } else if score >= cfg.watch_score_min {
        "WATCH"
    } else {
        "REJECT"
    }
}

/// The labels tell the decisions apart.
pub proof fn lemma_labels_distinct(a: Decision, b: Decision)
    ensures
        decision_label(a) == decision_label(b) <==> a == b,
{
    reveal_strlit("REJECT");
    reveal_strlit("WATCH");
    reveal_strlit("DEPLOY");
    if a != b {
        assert(decision_label(a).len() != decision_label(b).len() || decision_label(a)[0] != decision_label(b)[0]);
    }
}

/// The configured rule, stated by its thresholds: a score is deployed
/// exactly when it reaches the deploy threshold, watched exactly when it
/// reaches the watch threshold but not the deploy threshold, and rejected
/// exactly when it reaches neither. In particular a score below the deploy
/// threshold is never deployed, and one below both is never watched.
pub proof fn lemma_decision_thresholds(score: u8, deploy_min: u8, watch_min: u8)
    ensures
        decision_for(score, deploy_min, watch_min) == Decision::Deploy <==> score >= deploy_min,
        decision_for(score, deploy_min, watch_min) == Decision::Watch <==> watch_min <= score < deploy_min,
        decision_for(score, deploy_min, watch_min) == Decision::Reject <==> score < deploy_min && score < watch_min,
{
}

/// The action with the risk check, stated by the thresholds: where the check
/// holds, deploy exactly from the deploy threshold, watch exactly from the
/// watch threshold below it, reject below both; where it does not, watch
/// exactly from the watch threshold and reject below it, never deploy.
pub proof fn lemma_gated_thresholds(risk_ok: bool, score: u8, deploy_min: u8, watch_min: u8)
    ensures
        risk_ok ==> (gated_decision(risk_ok, score, deploy_min, watch_min) == Decision::Deploy <==> score >= deploy_min),
        risk_ok ==> (gated_decision(risk_ok, score, deploy_min, watch_min) == Decision::Watch
            <==> watch_min <= score < deploy_min),
        risk_ok ==> (gated_decision(risk_ok, score, deploy_min, watch_min) == Decision::Reject
            <==> score < deploy_min && score < watch_min),
        !risk_ok ==> gated_decision(risk_ok, score, deploy_min, watch_min) != Decision::Deploy,
        !risk_ok ==> (gated_decision(risk_ok, score, deploy_min, watch_min) == Decision::Watch <==> score >= watch_min),
        !risk_ok ==> (gated_decision(risk_ok, score, deploy_min, watch_min) == Decision::Reject <==> score < watch_min),
{
}

/// A higher score never gets a worse decision, whatever the thresholds.
pub proof fn lemma_decision_monotone_in_score(s1: u8, s2: u8, deploy_min: u8, watch_min: u8)
    requires
        s1 <= s2,
    ensures
        decision_rank(decision_for(s1, deploy_min, watch_min)) <= decision_rank(decision_for(s2, deploy_min, watch_min)),
{
}

/// Raising a threshold never gets a score a better decision.
pub proof fn lemma_decision_antitone_in_thresholds(score: u8, d1: u8, w1: u8, d2: u8, w2: u8)
    requires
        d1 <= d2,
        w1 <= w2,
    ensures
        decision_rank(decision_for(score, d2, w2)) <= decision_rank(decision_for(score, d1, w1)),
{
}

/// The risk gate only ever demotes: a failed gate never gives a better
/// decision than a passed one, never gives deploy, and rejects exactly the
/// scores below the watch threshold.
pub proof fn lemma_risk_gate_demotes(score: u8, deploy_min: u8, watch_min: u8)
    ensures
        decision_rank(gated_decision(false, score, deploy_min, watch_min))
            <= decision_rank(gated_decision(true, score, deploy_min, watch_min)),
        gated_decision(false, score, deploy_min, watch_min) != Decision::Deploy,
        gated_decision(false, score, deploy_min, watch_min) == Decision::Reject <==> score < watch_min,
{
}

} // verus!
