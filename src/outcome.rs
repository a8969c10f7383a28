use vstd::prelude::*;

use crate::event::{EventError, EventResult};

verus! {

/// How one plugin's run ended, as seen by the task that waited on it.
#[derive(Debug)]
pub enum RunReport {
    /// The plugin returned within its time window.
    Completed(EventResult),
    /// The time window ran out before the plugin returned.
    TimedOut,
    /// The plugin's task ended abnormally; the text describes how.
    Panicked(String),
}

/// The message given to a plugin that did not finish in time.
pub open spec fn timeout_text() -> Seq<char> {
    "Plugin timed out"@
}

/// The text put before the description of an abnormal end.
pub open spec fn panic_prefix() -> Seq<char> {
    "Plugin task panicked: "@
}

/// A result seen through its message.
pub open spec fn result_view(r: EventResult) -> Result<(), Seq<char>> {
    match r {
        Ok(()) => Ok(()),
        Err(e) => Err(e.message@),
    }
}

/// The outcome that a run report stands for.
pub open spec fn spec_outcome(report: RunReport) -> Result<(), Seq<char>> {
    match report {
        RunReport::Completed(r) => result_view(r),
        RunReport::TimedOut => Err(timeout_text()),
        RunReport::Panicked(detail) => Err(panic_prefix() + detail@),
    }
}

/// Copies a result, message included.
pub fn copy_result(r: &EventResult) -> (c: EventResult)
    ensures
        result_view(c) == result_view(*r),
{
    match r {
        Ok(()) => Ok(()),
        Err(e) => Err(EventError::new(e.message.clone())),
    }
}

/// Turns how a run ended into the outcome reported for that plugin.
pub fn outcome_of(report: &RunReport) -> (r: EventResult)
    ensures
        result_view(r) == spec_outcome(*report),
{
    match report {
        RunReport::Completed(res) => copy_result(res),
        RunReport::TimedOut => {
            proof {
                reveal_strlit("Plugin timed out");
            }
            Err(EventError::new(String::from_str("Plugin timed out")))
        },
        RunReport::Panicked(detail) => {
            let mut message = String::from_str("Plugin task panicked: ");
            message.append(detail.as_str());
            Err(EventError::new(message))
        },
    }
}

/// One outcome per report, at the report's own position.
pub fn collect_outcomes(reports: &Vec<RunReport>) -> (r: Vec<EventResult>)
    ensures
        r.len() == reports.len(),
        forall|k: int| 0 <= k < r.len() ==> result_view(#[trigger] r[k]) == spec_outcome(reports[k]),
{
    let mut out: Vec<EventResult> = Vec::new();
    let mut i: usize = 0;
    while i < reports.len()
        invariant
            i <= reports.len(),
            out.len() == i,
            forall|k: int| 0 <= k < i ==> result_view(#[trigger] out[k]) == spec_outcome(reports[k]),
        decreases reports.len() - i,
    {
        let o = outcome_of(&reports[i]);
        out.push(o);
        i += 1;
    }
    out
}

/// The positions whose flag is set, in ascending order.
pub open spec fn chosen(flags: Seq<bool>) -> Seq<int>
    decreases flags.len(),
{
    if flags.len() == 0 {
        Seq::empty()
    } else {
        let rest = chosen(flags.drop_last());
        if flags.last() {
            rest.push(flags.len() - 1)
        } else {
            rest
        }
    }
}

/// How many flags are set.
pub open spec fn set_count(flags: Seq<bool>) -> nat
    decreases flags.len(),
{
    if flags.len() == 0 {
        0
    } else {
        set_count(flags.drop_last()) + if flags.last() { 1nat } else { 0nat }
    }
}

/// Selection keeps registration order: the chosen positions ascend strictly,
/// each names a set flag, and every set flag is chosen.
pub proof fn lemma_chosen_in_order(flags: Seq<bool>)
    ensures
        chosen(flags).len() <= flags.len(),
        forall|k: int| 0 <= k < chosen(flags).len() ==> 0 <= #[trigger] chosen(flags)[k] < flags.len() && flags[chosen(flags)[k]],
        forall|a: int, b: int| 0 <= a < b < chosen(flags).len() ==> chosen(flags)[a] < chosen(flags)[b],
        forall|i: int| 0 <= i < flags.len() && #[trigger] flags[i] ==> chosen(flags).contains(i),
    decreases flags.len(),
{
    if flags.len() > 0 {
        let rest = flags.drop_last();
        lemma_chosen_in_order(rest);
        assert forall|i: int| 0 <= i < flags.len() && #[trigger] flags[i] implies chosen(flags).contains(i) by {
            if i < flags.len() - 1 {
                assert(rest[i] == flags[i]);
                let j = choose|j: int| 0 <= j < chosen(rest).len() && chosen(rest)[j] == i;
                assert(chosen(flags)[j] == i);
            } else {
                assert(chosen(flags)[chosen(flags).len() - 1] == i);
            }
        }
        assert forall|k: int| 0 <= k < chosen(flags).len() implies 0 <= #[trigger] chosen(flags)[k] < flags.len() && flags[chosen(flags)[k]] by {
            if k < chosen(rest).len() {
                assert(chosen(flags)[k] == chosen(rest)[k]);
                assert(rest[chosen(rest)[k]] == flags[chosen(rest)[k]]);
            }
        }
    }
}

/// As many positions are chosen as flags are set.
pub proof fn lemma_chosen_counts(flags: Seq<bool>)
    ensures
        chosen(flags).len() == set_count(flags),
    decreases flags.len(),
{
    if flags.len() > 0 {
        lemma_chosen_counts(flags.drop_last());
    }
}

/// A dispatch gives back one outcome for each plugin that took the event,
/// and the outcome at position k is the one of the k-th selected plugin in
/// registration order, whichever run finished first.
pub proof fn lemma_outcomes_follow_selection(
    flags: Seq<bool>,
    reports: Seq<RunReport>,
    outcomes: Seq<EventResult>,
)
    requires
        reports.len() == chosen(flags).len(),
        outcomes.len() == reports.len(),
        forall|k: int| 0 <= k < outcomes.len() ==> result_view(#[trigger] outcomes[k]) == spec_outcome(reports[k]),
    ensures
        outcomes.len() == set_count(flags),
        forall|a: int, b: int| 0 <= a < b < outcomes.len() ==> chosen(flags)[a] < chosen(flags)[b],
        forall|k: int| 0 <= k < outcomes.len() ==> #[trigger] flags[chosen(flags)[k]] && result_view(outcomes[k]) == spec_outcome(reports[k]),
{
    lemma_chosen_counts(flags);
    lemma_chosen_in_order(flags);
    assert forall|k: int| 0 <= k < outcomes.len() implies #[trigger] flags[chosen(flags)[k]] && result_view(outcomes[k]) == spec_outcome(reports[k]) by {
        assert(0 <= chosen(flags)[k] < flags.len());
    }
}

/// The positions of the set flags, in ascending order.
pub fn select_accepted(flags: &Vec<bool>) -> (r: Vec<usize>)
    ensures
        r@.map_values(|x: usize| x as int) == chosen(flags@),
{
    let mut r: Vec<usize> = Vec::new();
    let mut i: usize = 0;
    while i < flags.len()
        invariant
            i <= flags.len(),
            r@.map_values(|x: usize| x as int) == chosen(flags@.take(i as int)),
        decreases flags.len() - i,
    {
        let ghost before = r@;
        if flags[i] {
            r.push(i);
        }
        proof {
            assert(flags@.take(i + 1).drop_last() == flags@.take(i as int));
            if flags@[i as int] {
                assert(r@ == before.push(i));
                assert(r@.map_values(|x: usize| x as int) == before.map_values(|x: usize| x as int).push(i as int));
            }
        }
        i += 1;
    }
    assert(flags@.take(flags.len() as int) == flags@);
    r
}

} // verus!
