//! The rules of the single-shot scanner, which has its thresholds fixed
//! rather than configured.

use vstd::prelude::*;
use crate::logic::{Decision, decision_for, decision_label, lemma_labels_distinct};

verus! {

/// The fixed-threshold decision: deploy for 80 to 100, watch for 65 to 79,
/// reject for everything else, scores above 100 included.
pub open spec fn fixed_decision(score: u8) -> Decision {
    if 80 <= score <= 100 {
        Decision::Deploy
    } else if 65 <= score <= 79 {
        Decision::Watch
    } else {
        Decision::Reject
    }
}

/// The label of the fixed-threshold decision for `score`.
pub fn classify(score: u8) -> (r: String)
    ensures
        r@ == decision_label(fixed_decision(score)),
        r@ == "DEPLOY"@ <==> 80 <= score <= 100,
        r@ == "WATCH"@ <==> 65 <= score <= 79,
        r@ == "REJECT"@ <==> score < 65 || score > 100,
{
    proof {
        lemma_labels_distinct(fixed_decision(score), Decision::Deploy);
        lemma_labels_distinct(fixed_decision(score), Decision::Watch);
        lemma_labels_distinct(fixed_decision(score), Decision::Reject);
    }
    let v = if 80 <= score && score <= 100 {
        Decision::Deploy
    } else if 65 <= score && score <= 79 {
        Decision::Watch
    } else {
        Decision::Reject
    };
    v.label().to_string()
}

/// What the single-shot scanner reports for a ticker: the ticker, the
/// decision, the score and the explanation; a failed risk gate reports
/// `"REJECT"` with the reason `"Risk gate failed"` whatever the score.
pub open spec fn fixed_report(ticker: Seq<char>, risk_ok: bool, score: u8, explanation: Seq<char>)
    -> (Seq<char>, Seq<char>, u8, Seq<char>)
{
    if risk_ok {
        (ticker, decision_label(fixed_decision(score)), score, explanation)
    } else {
        (ticker, "REJECT"@, score, "Risk gate failed"@)
    }
}

/// The report for one ticker of the single-shot scanner.
pub fn report_for(ticker: &str, risk_ok: bool, score: u8, explanation: String)
    -> (r: (String, String, u8, String))
    ensures
        (r.0@, r.1@, r.2, r.3@) == fixed_report(ticker@, risk_ok, score, explanation@),
        r.0@ == ticker@,
        r.2 == score,
        !risk_ok ==> r.1@ == "REJECT"@ && r.3@ == "Risk gate failed"@,
        risk_ok ==> r.1@ == decision_label(fixed_decision(score)) && r.3@ == explanation@,
{
    if !risk_ok {
        return (ticker.to_string(), "REJECT".to_string(), score, "Risk gate failed".to_string());
    }
    (ticker.to_string(), classify(score), score, explanation)
}

/// The fixed rule, stated by its bounds: deploy exactly for 80 to 100,
/// watch exactly for 65 to 79, reject exactly below 65 or above 100.
pub proof fn lemma_fixed_bounds(score: u8)
    ensures
        fixed_decision(score) == Decision::Deploy <==> 80 <= score <= 100,
        fixed_decision(score) == Decision::Watch <==> 65 <= score <= 79,
        fixed_decision(score) == Decision::Reject <==> score < 65 || score > 100,
{
}

/// A failed risk check reports the same thing for every score: the
/// ticker, `"REJECT"`, the score and `"Risk gate failed"`, whatever the
/// score and the explanation. A passed one reports the fixed rule's label
/// for the score with the model's explanation.
pub proof fn lemma_report_by_risk(ticker: Seq<char>, score: u8, explanation: Seq<char>)
    ensures
        fixed_report(ticker, false, score, explanation) == (ticker, "REJECT"@, score, "Risk gate failed"@),
        fixed_report(ticker, true, score, explanation).1 == decision_label(fixed_decision(score)),
        fixed_report(ticker, true, score, explanation).3 == explanation,
        forall|s2: u8, e2: Seq<char>| #![trigger fixed_report(ticker, false, s2, e2)]
            fixed_report(ticker, false, s2, e2).1 == fixed_report(ticker, false, score, explanation).1
            && fixed_report(ticker, false, s2, e2).3 == fixed_report(ticker, false, score, explanation).3,
{
}

/// Up to 100 the fixed thresholds are the configured defaults (deploy from
/// 80, watch from 65); above 100 the fixed rule rejects where the
/// configured one deploys.
pub proof fn lemma_fixed_matches_defaults(score: u8)
    ensures
        score <= 100 ==> fixed_decision(score) == decision_for(score, 80, 65),
        score > 100 ==> fixed_decision(score) == Decision::Reject && decision_for(score, 80, 65) == Decision::Deploy,
{
}

} // verus!
