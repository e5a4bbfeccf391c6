use vstd::prelude::*;

use crate::letters::ScheduledLetter;

verus! {

/// Seconds between two rounds of handing due letters to the mail service.
pub const SCHEDULER_INTERVAL_SECS: u64 = 3600;

/// The plain value of a scheduled letter: (letter id, mail id).
pub open spec fn scheduled_view(s: ScheduledLetter) -> (Seq<char>, Seq<char>) {
    (s.letter_id@, s.email_id@)
}

/// The letters that the mail service accepted, in the order of the attempts;
/// failed attempts (`None`) leave nothing.
pub open spec fn successes(outcomes: Seq<Option<(Seq<char>, Seq<char>)>>) -> Seq<(Seq<char>, Seq<char>)>
    decreases outcomes.len(),
{
    if outcomes.len() == 0 {
        Seq::empty()
    } else {
        let rest = successes(outcomes.drop_last());
        match outcomes.last() {
            Some(s) => rest.push(s),
            None => rest,
        }
    }
}

/// One round of scheduling: the letters accepted so far.
#[derive(Debug, PartialEq, Eq)]
pub struct SchedulingRound {
    scheduled: Vec<ScheduledLetter>,
}

impl View for SchedulingRound {
    type V = Seq<(Seq<char>, Seq<char>)>;

    closed spec fn view(&self) -> Seq<(Seq<char>, Seq<char>)> {
        self.scheduled@.map_values(|s: ScheduledLetter| scheduled_view(s))
    }
}

impl SchedulingRound {
    /// A round with nothing accepted yet.
    pub fn new() -> (r: SchedulingRound)
        ensures
            r@ == Seq::<(Seq<char>, Seq<char>)>::empty(),
    {
        let r = SchedulingRound { scheduled: Vec::new() };
        assert(r@ =~= Seq::<(Seq<char>, Seq<char>)>::empty());
        r
    }

    /// Records one attempt: an accepted letter is kept, a failure is dropped.
    pub fn record(&mut self, outcome: Option<ScheduledLetter>)
        ensures
            final(self)@ == match outcome {
                Some(s) => old(self)@.push(scheduled_view(s)),
                None => old(self)@,
            },
    {
        match outcome {
            Some(s) => {
                let ghost before = self@;
                let ghost v = scheduled_view(s);
                self.scheduled.push(s);
                assert(self@ =~= before.push(v));
            },
            None => {},
        }
    }

    /// Ends the round: the accepted letters to record, or nothing to record when
    /// none was accepted.
    pub fn finish(self) -> (r: Option<Vec<ScheduledLetter>>)
        ensures
            match r {
                Some(v) => self@.len() > 0 && v@.map_values(|s: ScheduledLetter| scheduled_view(s))
                    == self@,
                None => self@.len() == 0,
            },
    {
        if self.scheduled.is_empty() {
            None
        } else {
            Some(self.scheduled)
        }
    }
}

/// A round collects exactly the accepted letters, in order, and has something to
/// record exactly when at least one attempt succeeded.
pub proof fn law_round_collects_successes(outcomes: Seq<Option<(Seq<char>, Seq<char>)>>)
    ensures
        successes(outcomes).len() > 0 <==> exists|i: int| 0 <= i < outcomes.len() && (#[trigger] outcomes[i]) is Some,
        successes(outcomes).len() <= outcomes.len(),
        forall|o: Option<(Seq<char>, Seq<char>)>| #[trigger] successes(outcomes.push(o)) == match o {
            Some(s) => successes(outcomes).push(s),
            None => successes(outcomes),
        },
    decreases outcomes.len(),
{
    assert forall|o: Option<(Seq<char>, Seq<char>)>| #[trigger] successes(outcomes.push(o)) == match o {
        Some(s) => successes(outcomes).push(s),
        None => successes(outcomes),
    } by {
        assert(outcomes.push(o).drop_last() =~= outcomes);
    }
    if outcomes.len() > 0 {
        let init = outcomes.drop_last();
        law_round_collects_successes(init);
        if successes(outcomes).len() > 0 && outcomes.last() is None {
            let i = choose|i: int| 0 <= i < init.len() && (#[trigger] init[i]) is Some;
            assert(outcomes[i] == init[i]);
        }
        if exists|i: int| 0 <= i < outcomes.len() && (#[trigger] outcomes[i]) is Some {
            let i = choose|i: int| 0 <= i < outcomes.len() && (#[trigger] outcomes[i]) is Some;
            if i < outcomes.len() - 1 {
                assert(init[i] == outcomes[i]);
            }
        }
    }
}

/// The plain values of a list of attempt outcomes.
pub open spec fn outcomes_view(v: Seq<Option<ScheduledLetter>>) -> Seq<Option<(Seq<char>, Seq<char>)>> {
    v.map_values(|o: Option<ScheduledLetter>| match o {
        Some(s) => Some(scheduled_view(s)),
        None => None,
    })
}

/// One whole round over the outcomes of its attempts, in order: the letters to
/// record are exactly the accepted ones, in the order of the attempts, and there
/// is nothing to record when none was accepted.
pub fn schedule_round(outcomes: Vec<Option<ScheduledLetter>>) -> (r: Option<Vec<ScheduledLetter>>)
    ensures
        match r {
            Some(v) => successes(outcomes_view(outcomes@)).len() > 0 && v@.map_values(
                |s: ScheduledLetter| scheduled_view(s),
            ) == successes(outcomes_view(outcomes@)),
            None => successes(outcomes_view(outcomes@)).len() == 0,
        },
{
    let ghost raw = outcomes@;
    let ghost all = outcomes_view(outcomes@);
    let mut round = SchedulingRound::new();
    let mut rest = outcomes;
    assert(all.take(0) =~= Seq::<Option<(Seq<char>, Seq<char>)>>::empty());
    while rest.len() > 0
        invariant
            raw.len() == all.len(),
            all == outcomes_view(raw),
            rest.len() <= raw.len(),
            rest@ == raw.skip(raw.len() - rest.len()),
            round@ == successes(all.take(all.len() - rest.len())),
        decreases rest.len(),
    {
        let n = rest.len();
        let o = rest.remove(0);
        proof {
            let k = all.len() - n;
            assert(o == raw[k]);
            assert(rest@ =~= raw.skip(k + 1));
            assert(all.take(k + 1) =~= all.take(k).push(all[k]));
            law_round_collects_successes(all.take(k));
        }
        round.record(o);
    }
    assert(all.take(all.len() as int) =~= all);
    round.finish()
}

} // verus!
