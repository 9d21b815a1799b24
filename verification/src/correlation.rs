use crate::queue::{id_after, QueueView};
use vstd::prelude::*;

verus! {

/// The number of distinct ids.
pub open spec fn id_space() -> nat {
    0x1_0000_0000
}

/// The id that the `k`-th allocation hands out, counting from 0, when the
/// counter stood at `start`: the arithmetic sequence from `start`, wrapped
/// at the width of `u32`.
pub open spec fn nth_id(start: u32, k: nat) -> u32 {
    ((start + k) % 0x1_0000_0000) as u32
}

impl<E> QueueView<E> {
    /// The table after `n` ids have been handed out one after the other.
    pub open spec fn allocate_n(self, n: nat) -> Self
        decreases n,
    {
        if n == 0 {
            self
        } else {
            self.allocate_n((n - 1) as nat).allocate()
        }
    }

    /// The table after one call has been issued: the next id is handed out
    /// and `entry` is registered under it.
    pub open spec fn issue(self, entry: E) -> Self {
        self.allocate().register(self.next, entry)
    }

    /// The table after one step of a session.
    pub open spec fn step(self, step: Step<E>) -> Self {
        match step {
            Step::Issue(entry) => self.issue(entry),
            Step::Answer(id) => self.take(id),
            Step::Abandon => self.abandon_all(),
        }
    }

    /// The table after the first `n` steps of `steps`.
    pub open spec fn run(self, steps: Seq<Step<E>>, n: nat) -> Self
        decreases n,
    {
        if n == 0 {
            self
        } else {
            self.run(steps, (n - 1) as nat).step(steps[n - 1])
        }
    }
}

/// One step in the life of a session's table. Callers and dispatch workers
/// touch the table only while they hold its lock, so whatever they do at the
/// same time reaches the table as some sequence of these steps.
pub enum Step<E> {
    /// A caller issues a call and registers `E` for its reply.
    Issue(E),
    /// A dispatch worker processes the reply that carries this id.
    Answer(u32),
    /// The runtime gives up every pending call, once its reader has ended.
    Abandon,
}

/// How many calls are issued by the steps from `from` up to, not
/// including, `to`.
pub open spec fn issues_between<E>(steps: Seq<Step<E>>, from: nat, to: nat) -> nat
    decreases to,
{
    if to <= from {
        0
    } else {
        issues_between(steps, from, (to - 1) as nat) + if steps[to - 1] is Issue {
            1nat
        } else {
            0nat
        }
    }
}

/// Stepping from one id to the next follows the wrapped arithmetic sequence.
pub proof fn lemma_id_after_nth(start: u32, k: nat)
    ensures
        id_after(nth_id(start, k)) == nth_id(start, k + 1),
        nth_id(start, 0) == start,
{
}

/// Within one turn of the counter no id is handed out twice.
pub proof fn lemma_nth_id_distinct(start: u32, i: nat, j: nat)
    requires
        i < j,
        j - i < id_space(),
    ensures
        nth_id(start, i) != nth_id(start, j),
{
}

/// Successive allocations hand out the arithmetic sequence from the initial
/// counter, wrapped at the width of `u32`, and leave the pending calls as
/// they are. Up to `2^32` successive ids are pairwise distinct, and as long
/// as the counter does not wrap they strictly increase.
pub proof fn lemma_successive_ids<E>(q: QueueView<E>, n: nat)
    ensures
        q.allocate_n(n).next == nth_id(q.next, n),
        q.allocate_n(n).pending == q.pending,
        forall|k: nat| k < n ==> (#[trigger] q.allocate_n(k)).next == nth_id(q.next, k),
        n <= id_space() ==> forall|i: nat, j: nat|
            i < j < n ==> (#[trigger] q.allocate_n(i)).next != (#[trigger] q.allocate_n(j)).next,
        q.next + n <= id_space() ==> forall|i: nat, j: nat|
            i < j < n ==> (#[trigger] q.allocate_n(i)).next < (#[trigger] q.allocate_n(j)).next,
    decreases n,
{
    if n > 0 {
        lemma_successive_ids(q, (n - 1) as nat);
        lemma_id_after_nth(q.next, (n - 1) as nat);
        assert forall|i: nat, j: nat| i < j < n && n <= id_space() implies (
        #[trigger] q.allocate_n(i)).next != (#[trigger] q.allocate_n(j)).next by {
            lemma_nth_id_distinct(q.next, i, j);
        }
    }
}

/// Counting issued calls over two adjoining stretches of steps adds up.
pub proof fn lemma_issues_add_up<E>(steps: Seq<Step<E>>, from: nat, mid: nat, to: nat)
    requires
        from <= mid <= to,
    ensures
        issues_between(steps, from, to) == issues_between(steps, from, mid) + issues_between(
            steps,
            mid,
            to,
        ),
    decreases to,
{
    if to > mid {
        lemma_issues_add_up(steps, from, mid, (to - 1) as nat);
    }
}

/// After any steps the counter stands where the issued calls have moved it.
pub proof fn lemma_counter_after_run<E>(q: QueueView<E>, steps: Seq<Step<E>>, n: nat)
    ensures
        q.run(steps, n).next == nth_id(q.next, issues_between(steps, 0, n)),
    decreases n,
{
    if n > 0 {
        lemma_counter_after_run(q, steps, (n - 1) as nat);
        lemma_id_after_nth(q.next, issues_between(steps, 0, (n - 1) as nat));
    }
}

/// Every reply reaches the caller that issued its id, and no other caller,
/// whatever else happens to the table in between. Let step `i` issue a call
/// that registers `entry`; its id is the one of its position among the
/// issued calls. As long as no reply with that id has been processed since,
/// the pending calls have not been given up, and fewer than `2^32` further
/// calls have been issued, the table holds `entry` under that id: the reply
/// that arrives next finds it there.
pub proof fn lemma_reply_reaches_its_caller<E>(
    q: QueueView<E>,
    steps: Seq<Step<E>>,
    i: nat,
    n: nat,
    entry: E,
)
    requires
        i < n <= steps.len(),
        steps[i as int] == Step::Issue(entry),
        forall|j: int|
            i < j < n ==> steps[j] != Step::<E>::Answer(
                nth_id(q.next, issues_between(steps, 0, i)),
            ),
        forall|j: int| i < j < n ==> !(steps[j] is Abandon),
        issues_between(steps, i, n) <= id_space(),
    ensures
        q.run(steps, n).lookup(nth_id(q.next, issues_between(steps, 0, i))) == Some(entry),
    decreases n,
{
    let id = nth_id(q.next, issues_between(steps, 0, i));
    let before = (n - 1) as nat;
    lemma_counter_after_run(q, steps, before);
    if before > i {
        lemma_reply_reaches_its_caller(q, steps, i, before, entry);
        if steps[before as int] is Issue {
            lemma_issues_add_up(steps, 0, i, before);
            assert(issues_between(steps, i, (i + 1) as nat) == 1) by {
                assert(issues_between(steps, i, i) == 0);
            }
            lemma_issues_add_up(steps, i, (i + 1) as nat, before);
            lemma_nth_id_distinct(
                q.next,
                issues_between(steps, 0, i),
                issues_between(steps, 0, before),
            );
        }
    }
}

/// Once a reply has been processed nothing is pending under its id, so a
/// reply that arrives twice, or late, is dropped the second time.
pub proof fn lemma_answered_is_gone<E>(q: QueueView<E>, id: u32)
    ensures
        q.take(id).lookup(id) is None,
        q.take(id).take(id) == q.take(id),
{
    assert(q.take(id).pending.remove(id) =~= q.take(id).pending);
}

/// Once the pending calls have been given up nothing is pending under any
/// id, and the ids handed out afterwards go on from where the counter stood.
pub proof fn lemma_abandoned_is_empty<E>(q: QueueView<E>, id: u32)
    ensures
        q.abandon_all().lookup(id) is None,
        q.abandon_all().next == q.next,
{
}

/// A step that concerns one id leaves what is pending under every other id.
pub proof fn lemma_other_ids_untouched<E>(q: QueueView<E>, id: u32, other: u32, entry: E)
    requires
        id != other,
    ensures
        q.register(other, entry).lookup(id) == q.lookup(id),
        q.take(other).lookup(id) == q.lookup(id),
        q.allocate().lookup(id) == q.lookup(id),
{
}

} // verus!
