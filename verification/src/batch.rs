//! Batch orchestration: fail-fast validation of every template reference
//! before any work starts, and the fan-in bookkeeping that turns completions
//! -- in whatever order the workers finish -- into sequential archive
//! entries, with a trailer after which no entry is accepted.
use vstd::prelude::*;

use crate::assets::AssetsModel;
use crate::error::AppError;
use crate::pdf::{spec_has_template, PdfContext};

verus! {

/// One item of a batch request: the template to render, the file name the
/// output gets inside the archive, and the input payload.
pub struct BatchRenderRequest {
    pub template: String,
    pub file_name: String,
    pub input: serde_json::Value,
}

/// Every item's template name resolves in the catalog.
pub open spec fn all_templates_present(m: AssetsModel, reqs: Seq<BatchRenderRequest>) -> bool {
    forall|i: int| 0 <= i < reqs.len() ==> spec_has_template(m, (#[trigger] reqs[i]).template@)
}

/// The batch was rejected for exactly the first item whose template is
/// missing, and the error carries that template's name.
pub open spec fn rejects_first_missing(
    m: AssetsModel,
    reqs: Seq<BatchRenderRequest>,
    e: AppError,
) -> bool {
    exists|k: int|
        {
            &&& 0 <= k < reqs.len()
            &&& e matches AppError::MainSourceNotFound(n) && n@ == (#[trigger] reqs[k]).template@
            &&& !spec_has_template(m, reqs[k].template@)
            &&& forall|j: int| 0 <= j < k ==> spec_has_template(m, (#[trigger] reqs[j]).template@)
        }
}

/// Whether some element of `v` has the same characters as `s`.
fn contains_string(v: &Vec<String>, s: &String) -> (r: bool)
    ensures
        r == exists|k: int| 0 <= k < v@.len() && (#[trigger] v@[k])@ == s@,
{
    let n = v.len();
    let mut i: usize = 0;
    while i < n
        invariant
            i <= n,
            n == v@.len(),
            forall|k: int| 0 <= k < i ==> (#[trigger] v@[k])@ != s@,
        decreases n - i,
    {
        if v[i] == *s {
            return true;
        }
        i = i + 1;
    }
    false
}

/// Ensure each batch request references an existing template before any
/// rendering starts; each distinct name is checked once. The whole batch is
/// rejected on the first item whose template is missing.
#[verifier::loop_isolation(false)]
pub fn validate_batch_templates(context: &PdfContext, requests: &Vec<BatchRenderRequest>) -> (r:
    Result<(), AppError>)
    requires
        context.wf(),
    ensures
        match r {
            Ok(_) => all_templates_present(context@, requests@),
            Err(e) => {
                &&& !all_templates_present(context@, requests@)
                &&& rejects_first_missing(context@, requests@, e)
            },
        },
{
    let n = requests.len();
    let mut seen: Vec<String> = Vec::new();
    let mut i: usize = 0;
    while i < n
        invariant
            i <= n,
            n == requests@.len(),
            forall|j: int|
                0 <= j < i ==> spec_has_template(context@, (#[trigger] requests@[j]).template@),
            forall|k: int|
                0 <= k < seen@.len() ==> spec_has_template(context@, (#[trigger] seen@[k])@),
        decreases n - i,
    {
        let t = &requests[i].template;
        if !contains_string(&seen, t) {
            if !context.has_template(t.as_str()) {
                let e = AppError::MainSourceNotFound(t.clone());
                proof {
                    assert(rejects_first_missing(context@, requests@, e)) by {
                        assert((requests@[i as int]).template@ == t@);
                    }
                }
                return Err(e);
            }
            seen.push(t.clone());
        }
        i = i + 1;
    }
    Ok(())
}

/// The fan-in side of a batch: one unit of bookkeeping per submitted item,
/// completions recorded one at a time in whatever order workers finish, and
/// a trailer after which nothing more is accepted. A failed unit is recorded
/// and skipped -- the batch deliberately continues with partial results
/// rather than aborting the archive in progress.
pub struct BatchRun {
    total: usize,
    completed: usize,
    entries: Vec<String>,
    finished: bool,
}

impl BatchRun {
    /// The run's invariant: completions never exceed submissions, every
    /// entry came from a completion, and the trailer only follows the last
    /// completion.
    pub closed spec fn wf(&self) -> bool {
        &&& self.completed <= self.total
        &&& self.entries@.len() <= self.completed
        &&& (self.finished ==> self.completed == self.total)
    }

    /// How many submitted units this run tracks.
    pub closed spec fn spec_total(&self) -> int {
        self.total as int
    }

    /// How many completions were recorded so far.
    pub closed spec fn spec_completed(&self) -> int {
        self.completed as int
    }

    /// The archive entry names written so far, in writing order.
    pub closed spec fn spec_entries(&self) -> Seq<Seq<char>> {
        self.entries@.map_values(|s: String| s@)
    }

    /// Whether the trailer was written.
    pub closed spec fn spec_finished(&self) -> bool {
        self.finished
    }

    /// Validate a batch and open a run for it: no worker is ever spawned,
    /// and no archive byte produced, for a batch with an unresolvable
    /// template name.
    pub fn begin(context: &PdfContext, requests: &Vec<BatchRenderRequest>) -> (r: Result<
        BatchRun,
        AppError,
    >)
        requires
            context.wf(),
        ensures
            match r {
                Ok(run) => {
                    &&& all_templates_present(context@, requests@)
                    &&& run.wf()
                    &&& run.spec_total() == requests@.len()
                    &&& run.spec_completed() == 0
                    &&& run.spec_entries().len() == 0
                    &&& !run.spec_finished()
                },
                Err(e) => {
                    &&& !all_templates_present(context@, requests@)
                    &&& rejects_first_missing(context@, requests@, e)
                },
            },
    {
        match validate_batch_templates(context, requests) {
            Ok(_) => Ok(
                BatchRun {
                    total: requests.len(),
                    completed: 0,
                    entries: Vec::new(),
                    finished: false,
                },
            ),
            Err(e) => Err(e),
        }
    }

    /// Record one successful completion: its output, under the name the
    /// unit carried, becomes the next archive entry.
    pub fn record_success(&mut self, file_name: String)
        requires
            old(self).wf(),
            !old(self).spec_finished(),
            old(self).spec_completed() < old(self).spec_total(),
        ensures
            final(self).wf(),
            final(self).spec_total() == old(self).spec_total(),
            final(self).spec_completed() == old(self).spec_completed() + 1,
            final(self).spec_entries() == old(self).spec_entries().push(file_name@),
            !final(self).spec_finished(),
    {
        self.entries.push(file_name);
        self.completed = self.completed + 1;
        proof {
            assert(self.spec_entries() =~= old(self).spec_entries().push(
                self.entries@[self.entries@.len() - 1]@,
            ));
        }
    }

    /// Record one failed completion: the failure is reported upstream and
    /// the run continues draining the others; no entry is written for it.
    pub fn record_failure(&mut self)
        requires
            old(self).wf(),
            !old(self).spec_finished(),
            old(self).spec_completed() < old(self).spec_total(),
        ensures
            final(self).wf(),
            final(self).spec_total() == old(self).spec_total(),
            final(self).spec_completed() == old(self).spec_completed() + 1,
            final(self).spec_entries() == old(self).spec_entries(),
            !final(self).spec_finished(),
    {
        self.completed = self.completed + 1;
    }

    /// How many units are still outstanding.
    pub fn remaining(&self) -> (r: usize)
        requires
            self.wf(),
        ensures
            r == self.spec_total() - self.spec_completed(),
    {
        self.total - self.completed
    }

    /// The names of the entries written so far, in writing order.
    pub fn entry_names(&self) -> (r: &Vec<String>)
        ensures
            r@.map_values(|s: String| s@) == self.spec_entries(),
    {
        &self.entries
    }

    /// Whether the trailer was written.
    pub fn is_finished(&self) -> (r: bool)
        ensures
            r == self.spec_finished(),
    {
        self.finished
    }

    /// Write the trailer: only after every unit completed, and afterwards
    /// the run accepts no further entry.
    pub fn finish(&mut self)
        requires
            old(self).wf(),
            !old(self).spec_finished(),
            old(self).spec_completed() == old(self).spec_total(),
        ensures
            final(self).wf(),
            final(self).spec_finished(),
            final(self).spec_entries() == old(self).spec_entries(),
            final(self).spec_total() == old(self).spec_total(),
            final(self).spec_completed() == old(self).spec_completed(),
    {
        self.finished = true;
    }
}

/// The archive entries that a run of completion outcomes produces, starting
/// from the entries already written: a success appends its name, a failure
/// appends nothing.
pub open spec fn entries_after(
    init: Seq<Seq<char>>,
    outcomes: Seq<Option<Seq<char>>>,
) -> Seq<Seq<char>>
    decreases outcomes.len(),
{
    if outcomes.len() == 0 {
        init
    } else {
        entries_after(
            match outcomes[0] {
                Some(n) => init.push(n),
                None => init,
            },
            outcomes.drop_first(),
        )
    }
}

/// The names of the successful outcomes, in completion order.
pub open spec fn successes(outcomes: Seq<Option<Seq<char>>>) -> Seq<Seq<char>>
    decreases outcomes.len(),
{
    if outcomes.len() == 0 {
        Seq::empty()
    } else {
        (match outcomes[0] {
            Some(n) => seq![n],
            None => Seq::<Seq<char>>::empty(),
        }) + successes(outcomes.drop_first())
    }
}

/// A run of completions appends exactly the successful names, in completion
/// order, to what was already written: the archive holds one named entry
/// per successful unit, no more and no less.
pub proof fn lemma_entries_after(init: Seq<Seq<char>>, outcomes: Seq<Option<Seq<char>>>)
    ensures
        entries_after(init, outcomes) == init + successes(outcomes),
    decreases outcomes.len(),
{
    if outcomes.len() == 0 {
        assert(entries_after(init, outcomes) =~= init + successes(outcomes));
    } else {
        match outcomes[0] {
            Some(n) => {
                lemma_entries_after(init.push(n), outcomes.drop_first());
                assert(init.push(n) + successes(outcomes.drop_first()) =~= init + (seq![n]
                    + successes(outcomes.drop_first())));
            },
            None => {
                lemma_entries_after(init, outcomes.drop_first());
                assert(init + successes(outcomes.drop_first()) =~= init + (Seq::<
                    Seq<char>,
                >::empty() + successes(outcomes.drop_first())));
            },
        }
    }
}

/// The successful names across a concatenation of outcome runs are the
/// concatenation of each part's successful names.
proof fn lemma_successes_concat(a: Seq<Option<Seq<char>>>, b: Seq<Option<Seq<char>>>)
    ensures
        successes(a + b) == successes(a) + successes(b),
    decreases a.len(),
{
    if a.len() == 0 {
        assert(a + b =~= b);
        assert(successes(a) + successes(b) =~= successes(b));
    } else {
        assert((a + b).drop_first() =~= a.drop_first() + b);
        lemma_successes_concat(a.drop_first(), b);
        assert(successes(a + b) =~= successes(a) + successes(b));
    }
}

/// The order in which workers finish does not change what the archive
/// holds: two runs whose completion outcomes are permutations of one another
/// produce entries with the same multiset of names.
pub proof fn lemma_archive_order_independent(
    o1: Seq<Option<Seq<char>>>,
    o2: Seq<Option<Seq<char>>>,
)
    requires
        o1.to_multiset() == o2.to_multiset(),
    ensures
        successes(o1).to_multiset() == successes(o2).to_multiset(),
        entries_after(Seq::empty(), o1).to_multiset() == entries_after(
            Seq::empty(),
            o2,
        ).to_multiset(),
    decreases o1.len(),
{
    broadcast use vstd::seq_lib::lemma_multiset_commutative;
    broadcast use vstd::multiset::group_multiset_axioms;

    o1.to_multiset_ensures();
    o2.to_multiset_ensures();
    lemma_entries_after(Seq::empty(), o1);
    lemma_entries_after(Seq::empty(), o2);
    assert(entries_after(Seq::<Seq<char>>::empty(), o1) =~= successes(o1));
    assert(entries_after(Seq::<Seq<char>>::empty(), o2) =~= successes(o2));
    if o1.len() == 0 {
        assert(o2.len() == 0);
        assert(successes(o1) =~= successes(o2));
    } else {
        let o = o1[0];
        assert(o1.contains(o));
        assert(o2.to_multiset().count(o) > 0);
        assert(o2.contains(o));
        let k = choose|k: int| 0 <= k < o2.len() && o2[k] == o;
        let r1 = o1.remove(0);
        let r2 = o2.remove(k);
        assert(r1.to_multiset() =~= o1.to_multiset().remove(o));
        assert(r2.to_multiset() =~= o2.to_multiset().remove(o));
        assert(r1.to_multiset() == r2.to_multiset());
        lemma_archive_order_independent(r1, r2);
        assert(o1 =~= seq![o] + r1);
        lemma_successes_concat(seq![o], r1);
        let t = o2.subrange(0, k);
        let u = o2.subrange(k + 1, o2.len() as int);
        assert(o2 =~= t + seq![o] + u);
        assert(r2 =~= t + u);
        lemma_successes_concat(t, seq![o]);
        lemma_successes_concat(t + seq![o], u);
        lemma_successes_concat(t, u);
        assert(successes(o1).to_multiset() =~= successes(o2).to_multiset());
    }
}

/// Two successful completions produce exactly two named entries, whichever
/// of the two orders the workers finish in: both orders yield the same
/// entries up to writing order.
pub proof fn lemma_two_entries_either_order(n1: Seq<char>, n2: Seq<char>)
    ensures
        entries_after(Seq::empty(), seq![Some(n1), Some(n2)]).to_multiset() == entries_after(
            Seq::empty(),
            seq![Some(n2), Some(n1)],
        ).to_multiset(),
        entries_after(Seq::empty(), seq![Some(n1), Some(n2)]).len() == 2,
{
    lemma_entries_after(Seq::empty(), seq![Some(n1), Some(n2)]);
    lemma_entries_after(Seq::empty(), seq![Some(n2), Some(n1)]);
    let a = entries_after(Seq::<Seq<char>>::empty(), seq![Some(n1), Some(n2)]);
    let b = entries_after(Seq::<Seq<char>>::empty(), seq![Some(n2), Some(n1)]);
    let none = Seq::<Option<Seq<char>>>::empty();
    assert(seq![Some(n1), Some(n2)].drop_first() =~= seq![Some(n2)]);
    assert(seq![Some(n2), Some(n1)].drop_first() =~= seq![Some(n1)]);
    assert(seq![Some(n1)].drop_first() =~= none);
    assert(seq![Some(n2)].drop_first() =~= none);
    assert(successes(seq![Some(n1), Some(n2)]) == seq![n1] + successes(seq![Some(n2)]));
    assert(successes(seq![Some(n2), Some(n1)]) == seq![n2] + successes(seq![Some(n1)]));
    assert(successes(seq![Some(n1)]) == seq![n1] + successes(none));
    assert(successes(seq![Some(n2)]) == seq![n2] + successes(none));
    assert(successes(none) =~= Seq::<Seq<char>>::empty());
    assert(a =~= seq![n1, n2]);
    assert(b =~= seq![n2, n1]);
    assert(seq![n1, n2] =~= Seq::<Seq<char>>::empty().push(n1).push(n2));
    assert(seq![n2, n1] =~= Seq::<Seq<char>>::empty().push(n2).push(n1));
    Seq::<Seq<char>>::empty().push(n1).to_multiset_ensures();
    Seq::<Seq<char>>::empty().push(n2).to_multiset_ensures();
    Seq::<Seq<char>>::empty().to_multiset_ensures();
    assert(a.to_multiset() =~= b.to_multiset());
}

} // verus!
