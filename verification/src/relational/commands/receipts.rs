//! Marking posts and events read.

use vstd::prelude::*;

use crate::laws::order::{law_ordered_set, law_sorted_members};
use crate::relational::command::{
    Ask, AskRow, Shape, Told, ToldRow, affected_at, begin, beginning, commit_of, committing, just,
    no_steps, stamp_at, target_at, text_at, told_affected, told_stamp, told_target, told_text,
    without_steps,
};
use crate::relational::commands::following::{ask_pair, pair_question};
use crate::relational::commands::moderation::{
    just_commit, only_commit, transaction, transaction_of,
};
use crate::relational::commands::opening::{
    ask_clock, ask_text, clock_at, clock_question, lock_question, told_clock,
};
use crate::relational::personal::{
    ActivityLockTarget, ActivityLockTargetRow, Membership, MembershipRow, batch_request,
    categories_to_lock, check_batch, check_receipt_request, in_lock_order, membership_order,
    needs_sequence, posts_to_lock, read_statements, read_writes, receipt_request,
    receipt_statement, receipt_write, target_category, target_order, target_post, target_thread,
    threads_to_lock,
};
use crate::relational::sql::{
    ACTIVITY_TARGET, INSERT_ACTIVITY_RECEIPT, LOCK_CATEGORY, LOCK_EVENT, LOCK_POST_THREAD,
    LOCK_READ_RECEIPT, LOCK_THREAD_CATEGORY, LOCK_THREAD_ID,
};
use crate::relational::statement::{Statement, StatementRow, statement};
use crate::relational::writing::{following_generation, next_generation};
use crate::rows::{append_rows, deduped, map_rows, opt, sorted, views};
use crate::store::types::{Failure, MAX_ACTIVITY_BATCH, MAX_THREAD_READ_BATCH, not_found};
use crate::text::same;
use crate::texts::ordered_set;

verus! {

// ---------------------------------------------------------------------------
// Posts.
// ---------------------------------------------------------------------------

/// Whether one of the first `n` posts was told, from the second answer on, to live elsewhere.
pub open spec fn stranger_told(told: Seq<ToldRow>, n: int, thread_id: Seq<char>) -> bool {
    exists|k: int|
        0 <= k < n && 1 + k < told.len() && #[trigger] text_at(told, 1 + k) != Some(thread_id)
}

fn any_stranger(told: &Vec<Told>, n: usize, thread_id: &str) -> (r: bool)
    ensures
        r == stranger_told(views(told@), n as int, thread_id@),
{
    let total: usize = told.len();
    let mut k: usize = 0;
    while k < n && k + 1 < total
        invariant
            0 <= k <= n,
            total == told@.len(),
            k < total || total == 0,
            forall|j: int|
                0 <= j < k ==> #[trigger] text_at(views(told@), 1 + j) == Some(thread_id@),
        decreases n - k,
    {
        let owner = told_text(told, 1 + k);
        let here = match &owner {
            Some(id) => same(id.as_str(), thread_id),
            None => false,
        };
        if !here {
            assert(text_at(views(told@), 1 + k) != Some(thread_id@));
            return true;
        }
        k = k + 1;
    }
    false
}

/// The posts whose receipt was told, from `at` on, to be missing or without a generation.
pub open spec fn unsequenced_at(told: Seq<ToldRow>, at: int, ids: Seq<Seq<char>>) -> Seq<Seq<char>>
    decreases ids.len(),
{
    if ids.len() == 0 {
        Seq::empty()
    } else {
        let rest = unsequenced_at(told, at, ids.drop_last());
        let stored = stamp_at(told, at + ids.len() - 1);
        if stored is Some && stored->0 is Some {
            rest
        } else {
            rest.push(ids.last())
        }
    }
}

fn told_unsequenced(told: &Vec<Told>, at: usize, ids: &Vec<String>) -> (out: Vec<String>)
    requires
        at + ids@.len() <= told@.len(),
    ensures
        views(out@) == unsequenced_at(views(told@), at as int, views(ids@)),
{
    let ghost all = views(ids@);
    let total: usize = told.len();
    let mut out: Vec<String> = Vec::new();
    assert(views(out@) =~= unsequenced_at(views(told@), at as int, all.take(0)));
    let mut k: usize = 0;
    while k < ids.len()
        invariant
            0 <= k <= ids@.len(),
            at + ids@.len() <= told@.len() == total,
            all == views(ids@),
            views(out@) == unsequenced_at(views(told@), at as int, all.take(k as int)),
        decreases ids@.len() - k,
    {
        assert(all.take(k + 1).drop_last() =~= all.take(k as int));
        let ghost before = out@;
        if needs_sequence(told_stamp(told, at + k)) {
            out.push(ids[k].clone());
            assert(views(out@) =~= views(before).push(all[k as int]));
        }
        k = k + 1;
    }
    assert(all.take(all.len() as int) =~= all);
    out
}

/// Posts of a thread are marked read, once the thread, the posts, and their receipts are locked.
/// All new receipts share one generation; when every post was read before, the clock stays.
pub open spec fn reading(
    viewer_sub: Seq<char>,
    thread_id: Seq<char>,
    post_ids: Seq<Seq<char>>,
    read_at: i64,
    told: Seq<ToldRow>,
) -> AskRow<()> {
    match receipt_request(viewer_sub, post_ids, read_at) {
        Err(e) => AskRow::Fail(e),
        Ok(ids) => {
            let n = ids.len() as int;
            if told.len() == 0 {
                lock_question(begin(), LOCK_THREAD_ID@, thread_id)
            } else if text_at(told, 0) is None {
                AskRow::Fail(Failure::NotFound("thread not found"@))
            } else if stranger_told(told, n, thread_id) {
                AskRow::Fail(Failure::NotFound("thread post not found"@))
            } else if told.len() < 1 + n {
                lock_question(no_steps(), LOCK_POST_THREAD@, ids[told.len() - 1])
            } else if told.len() < 1 + 2 * n {
                pair_question(
                    no_steps(),
                    Shape::Stamp,
                    LOCK_READ_RECEIPT@,
                    viewer_sub,
                    ids[told.len() - 1 - n],
                )
            } else {
                let missing = unsequenced_at(told, 1 + n, ids);
                if missing.len() == 0 {
                    AskRow::Finish(just_commit(), ())
                } else if told.len() == 1 + 2 * n {
                    clock_question(no_steps())
                } else {
                    match following_generation(clock_at(told, 1 + 2 * n)) {
                        Err(e) => AskRow::Fail(e),
                        Ok(seq) => AskRow::Finish(
                            committing(read_writes(viewer_sub, missing, read_at, seq)),
                            (),
                        ),
                    }
                }
            }
        },
    }
}

/// The next step of marking posts read.
pub fn mark_thread_posts_read(
    viewer_sub: &str,
    thread_id: &str,
    post_ids: &[String],
    read_at: i64,
    told: &Vec<Told>,
) -> (r: Ask<()>)
    ensures
        r@ == reading(viewer_sub@, thread_id@, views(post_ids@), read_at, views(told@)),
{
    let ids = match check_receipt_request(viewer_sub, post_ids, read_at) {
        Err(e) => {
            return Ask::Fail(e);
        },
        Ok(ids) => ids,
    };
    let n: usize = ids.len();
    assert(views(ids@).len() == n);
    assert(n <= MAX_THREAD_READ_BATCH);
    if told.len() == 0 {
        return ask_text(beginning(), LOCK_THREAD_ID, thread_id);
    }
    if told_text(told, 0).is_none() {
        return Ask::Fail(not_found("thread not found"));
    }
    if any_stranger(told, n, thread_id) {
        return Ask::Fail(not_found("thread post not found"));
    }
    if told.len() < 1 + n {
        return ask_text(without_steps(), LOCK_POST_THREAD, ids[told.len() - 1].as_str());
    }
    if told.len() < 1 + 2 * n {
        return ask_pair(
            without_steps(),
            Shape::Stamp,
            LOCK_READ_RECEIPT,
            viewer_sub,
            ids[told.len() - 1 - n].as_str(),
        );
    }
    let missing = told_unsequenced(told, 1 + n, &ids);
    assert(views(missing@).len() == missing@.len());
    if missing.is_empty() {
        return Ask::Finish(only_commit(), ());
    }
    if told.len() == 1 + 2 * n {
        return ask_clock(without_steps());
    }
    match next_generation(told_clock(told, 1 + 2 * n)) {
        Err(e) => Ask::Fail(e),
        Ok(seq) => Ask::Finish(
            commit_of(read_statements(viewer_sub, &missing, read_at, seq)),
            (),
        ),
    }
}

// ---------------------------------------------------------------------------
// Events.
// ---------------------------------------------------------------------------

/// A row that is locked, and what it must belong to.
pub struct Lock {
    pub statement: Statement,
    pub owner: Option<String>,
}

/// The mathematical view of a [`Lock`].
#[verifier::ext_equal]
pub struct LockRow {
    pub statement: StatementRow,
    pub owner: Option<Seq<char>>,
}

impl View for Lock {
    type V = LockRow;

    open spec fn view(&self) -> LockRow {
        LockRow { statement: self.statement@, owner: opt(self.owner) }
    }
}

/// Whether a lock found what it was set for.
pub open spec fn lock_holds(l: LockRow, answer: Option<Seq<char>>) -> bool {
    match l.owner {
        None => answer is Some,
        Some(owner) => answer == Some(owner),
    }
}

/// Locks a category.
pub open spec fn category_lock() -> spec_fn(Seq<char>) -> LockRow {
    |id: Seq<char>| LockRow { statement: statement(LOCK_CATEGORY@).text(id), owner: None }
}

/// Locks a thread, which must stand in its category.
pub open spec fn thread_lock() -> spec_fn(MembershipRow) -> LockRow {
    |m: MembershipRow|
        LockRow {
            statement: statement(LOCK_THREAD_CATEGORY@).text(m.member),
            owner: Some(m.owner),
        }
}

/// Locks a post, which must stand in its thread.
pub open spec fn post_lock() -> spec_fn(MembershipRow) -> LockRow {
    |m: MembershipRow|
        LockRow { statement: statement(LOCK_POST_THREAD@).text(m.member), owner: Some(m.owner) }
}

/// Locks an event, which must have been delivered to the viewer.
pub open spec fn event_lock(viewer_sub: Seq<char>) -> spec_fn(ActivityLockTargetRow) -> LockRow {
    |t: ActivityLockTargetRow|
        LockRow {
            statement: statement(LOCK_EVENT@).text(t.activity_id).text(t.thread_id).text(
                t.post_id,
            ).text(viewer_sub),
            owner: None,
        }
}

/// The locks of the targets, from the outside to the inside: categories, threads, posts, events.
pub open spec fn target_locks(viewer_sub: Seq<char>, targets: Seq<ActivityLockTargetRow>) -> Seq<
    LockRow,
> {
    ordered_set(targets.map_values(target_category())).map_values(category_lock()) + sorted(
        deduped(targets.map_values(target_thread())),
        membership_order(),
    ).map_values(thread_lock()) + sorted(
        deduped(targets.map_values(target_post())),
        membership_order(),
    ).map_values(post_lock()) + targets.map_values(event_lock(viewer_sub))
}

fn locks_of(viewer_sub: &str, targets: &Vec<ActivityLockTarget>) -> (out: Vec<Lock>)
    ensures
        views(out@) == target_locks(viewer_sub@, views(targets@)),
{
    let of_category = |id: &String| -> (l: Lock)
        ensures
            l@ == category_lock()(id@),
        { Lock { statement: Statement::new(LOCK_CATEGORY).text(id.as_str()), owner: None } };
    let of_thread = |m: &Membership| -> (l: Lock)
        ensures
            l@ == thread_lock()(m@),
        {
            Lock {
                statement: Statement::new(LOCK_THREAD_CATEGORY).text(m.member.as_str()),
                owner: Some(m.owner.clone()),
            }
        };
    let of_post = |m: &Membership| -> (l: Lock)
        ensures
            l@ == post_lock()(m@),
        {
            Lock {
                statement: Statement::new(LOCK_POST_THREAD).text(m.member.as_str()),
                owner: Some(m.owner.clone()),
            }
        };
    let of_event = |t: &ActivityLockTarget| -> (l: Lock)
        ensures
            l@ == event_lock(viewer_sub@)(t@),
        {
            Lock {
                statement: Statement::new(LOCK_EVENT).text(t.activity_id.as_str()).text(
                    t.thread_id.as_str(),
                ).text(t.post_id.as_str()).text(viewer_sub),
                owner: None,
            }
        };
    let mut out = map_rows(&categories_to_lock(targets), of_category, Ghost(category_lock()));
    append_rows(&mut out, map_rows(&threads_to_lock(targets), of_thread, Ghost(thread_lock())));
    append_rows(&mut out, map_rows(&posts_to_lock(targets), of_post, Ghost(post_lock())));
    append_rows(&mut out, map_rows(targets, of_event, Ghost(event_lock(viewer_sub@))));
    out
}

/// Whether one of the first `n` targets was told to be gone.
pub open spec fn target_missing(told: Seq<ToldRow>, n: int) -> bool {
    exists|k: int| 0 <= k < n && k < told.len() && #[trigger] target_at(told, k) is None
}

/// The first `n` targets that were told.
pub open spec fn targets_told(told: Seq<ToldRow>, n: int) -> Seq<ActivityLockTargetRow>
    decreases n,
{
    if n <= 0 {
        Seq::empty()
    } else {
        targets_told(told, n - 1).push(target_at(told, n - 1)->0)
    }
}

/// Whether one of the locks was told, from `at` on, not to hold.
pub open spec fn lock_broken(told: Seq<ToldRow>, at: int, locks: Seq<LockRow>) -> bool {
    exists|k: int|
        0 <= k < locks.len() && at + k < told.len() && !lock_holds(
            locks[k],
            #[trigger] text_at(told, at + k),
        )
}

/// How far the targets of the events are locked.
pub enum TargetProgress<V> {
    /// The command says this next.
    Say(AskRow<V>),
    /// The targets are locked, and the answers from `at` on are not used yet.
    Ready { targets: Seq<ActivityLockTargetRow>, at: int },
}

/// The targets are read before anything is locked, and locked in one fixed order, so that two
/// commands never wait for each other.
pub open spec fn target_progress<V>(
    viewer_sub: Seq<char>,
    ids: Seq<Seq<char>>,
    told: Seq<ToldRow>,
) -> TargetProgress<V> {
    let n = ids.len() as int;
    if target_missing(told, n) {
        TargetProgress::Say(AskRow::Fail(Failure::NotFound("activity not found"@)))
    } else if told.len() < n {
        TargetProgress::Say(
            AskRow::Fetch(
                no_steps(),
                Shape::Target,
                statement(ACTIVITY_TARGET@).text(ids[told.len() as int]),
            ),
        )
    } else {
        let targets = sorted(targets_told(told, n), target_order());
        let locks = target_locks(viewer_sub, targets);
        if lock_broken(told, n, locks) {
            TargetProgress::Say(AskRow::Fail(Failure::NotFound("activity not found"@)))
        } else if told.len() < n + locks.len() {
            TargetProgress::Say(
                AskRow::Fetch(
                    if told.len() == n {
                        begin()
                    } else {
                        no_steps()
                    },
                    Shape::Text,
                    locks[told.len() - n].statement,
                ),
            )
        } else {
            TargetProgress::Ready { targets, at: n + locks.len() }
        }
    }
}

/// How far the targets of the events are locked.
enum Reach<T> {
    Say(Ask<T>),
    Ready { targets: Vec<ActivityLockTarget>, at: usize },
}

impl<T: View> View for Reach<T> {
    type V = TargetProgress<T::V>;

    closed spec fn view(&self) -> TargetProgress<T::V> {
        match self {
            Reach::Say(ask) => TargetProgress::Say(ask@),
            Reach::Ready { targets, at } => TargetProgress::Ready {
                targets: views(targets@),
                at: *at as int,
            },
        }
    }
}

/// The targets that were told, unless one is gone.
fn told_targets(told: &Vec<Told>, n: usize) -> (r: Option<Vec<ActivityLockTarget>>)
    ensures
        match r {
            None => target_missing(views(told@), n as int),
            Some(out) => !target_missing(views(told@), n as int) && (n <= told@.len() ==> views(
                out@,
            ) == targets_told(views(told@), n as int)),
        },
{
    let total: usize = told.len();
    let mut out: Vec<ActivityLockTarget> = Vec::new();
    assert(views(out@) =~= targets_told(views(told@), 0));
    let mut k: usize = 0;
    while k < n && k < total
        invariant
            0 <= k <= n,
            k <= total == told@.len(),
            views(out@) == targets_told(views(told@), k as int),
            forall|j: int| 0 <= j < k ==> #[trigger] target_at(views(told@), j) is Some,
        decreases n - k,
    {
        let ghost before = out@;
        match told_target(told, k) {
            None => {
                assert(target_at(views(told@), k as int) is None);
                return None;
            },
            Some(t) => {
                out.push(t);
                assert(views(out@) =~= views(before).push(t@));
            },
        }
        k = k + 1;
    }
    Some(out)
}

fn any_broken(told: &Vec<Told>, at: usize, locks: &Vec<Lock>) -> (r: bool)
    requires
        at <= told@.len(),
    ensures
        r == lock_broken(views(told@), at as int, views(locks@)),
{
    let total: usize = told.len();
    let mut k: usize = 0;
    while k < locks.len() && k < total - at
        invariant
            0 <= k <= locks@.len(),
            at <= total == told@.len(),
            k <= total - at,
            forall|j: int|
                0 <= j < k ==> lock_holds(
                    views(locks@)[j],
                    #[trigger] text_at(views(told@), at + j),
                ),
        decreases locks@.len() - k,
    {
        let answer = told_text(told, at + k);
        let holds = match (&locks[k].owner, &answer) {
            (None, a) => a.is_some(),
            (Some(owner), Some(a)) => *owner == *a,
            (Some(_), None) => false,
        };
        assert(holds == lock_holds(
            views(locks@)[k as int],
            text_at(views(told@), at + k),
        ));
        if !holds {
            return true;
        }
        k = k + 1;
    }
    false
}

fn reach_targets<T: View>(viewer_sub: &str, ids: &Vec<String>, told: &Vec<Told>) -> (r: Reach<T>)
    ensures
        r@ == target_progress::<T::V>(viewer_sub@, views(ids@), views(told@)),
        r is Ready ==> r->at <= told@.len() && r->targets@.len() == ids@.len(),
{
    let n: usize = ids.len();
    match told_targets(told, n) {
        None => Reach::Say(Ask::Fail(not_found("activity not found"))),
        Some(found) => {
            if told.len() < n {
                return Reach::Say(
                    Ask::Fetch(
                        without_steps(),
                        Shape::Target,
                        Statement::new(ACTIVITY_TARGET).text(ids[told.len()].as_str()),
                    ),
                );
            }
            proof {
                lemma_targets_len(views(told@), n as int);
                law_sorted_members(targets_told(views(told@), n as int), target_order());
            }
            let targets = in_lock_order(found);
            assert(views(targets@).len() == targets@.len());
            let mut locks = locks_of(viewer_sub, &targets);
            assert(views(locks@).len() == locks@.len());
            if any_broken(told, n, &locks) {
                return Reach::Say(Ask::Fail(not_found("activity not found")));
            }
            let done: usize = told.len() - n;
            if done < locks.len() {
                let steps = if done == 0 {
                    beginning()
                } else {
                    without_steps()
                };
                let lock = locks.remove(done);
                return Reach::Say(Ask::Fetch(steps, Shape::Text, lock.statement));
            }
            Reach::Ready { targets, at: n + locks.len() }
        },
    }
}

/// As many targets are told as were asked for.
pub proof fn lemma_targets_len(told: Seq<ToldRow>, n: int)
    requires
        0 <= n,
    ensures
        targets_told(told, n).len() == n,
    decreases n,
{
    if n > 0 {
        lemma_targets_len(told, n - 1);
    }
}

/// An event is marked read or unread, once its target is locked.
pub open spec fn event_marking(
    activity_id: Seq<char>,
    viewer_sub: Seq<char>,
    read: bool,
    changed_at: i64,
    told: Seq<ToldRow>,
) -> AskRow<()> {
    match target_progress(viewer_sub, seq![activity_id], told) {
        TargetProgress::Say(ask) => ask,
        TargetProgress::Ready { targets, at } => AskRow::Finish(
            committing(seq![receipt_write(activity_id, viewer_sub, read, changed_at)]),
            (),
        ),
    }
}

/// The next step of marking an event read or unread.
pub fn set_activity_read(
    activity_id: &str,
    viewer_sub: &str,
    read: bool,
    changed_at: i64,
    told: &Vec<Told>,
) -> (r: Ask<()>)
    ensures
        r@ == event_marking(activity_id@, viewer_sub@, read, changed_at, views(told@)),
{
    let mut ids: Vec<String> = Vec::new();
    ids.push(activity_id.to_owned());
    assert(views(ids@) =~= seq![activity_id@]);
    match reach_targets(viewer_sub, &ids, told) {
        Reach::Say(ask) => ask,
        Reach::Ready { targets: _, at: _ } => Ask::Finish(
            commit_of(just(receipt_statement(activity_id, viewer_sub, read, changed_at))),
            (),
        ),
    }
}

/// How many of the first `n` receipts were told, from `at` on, to be new.
pub open spec fn new_receipts(told: Seq<ToldRow>, at: int, n: int) -> int
    decreases n,
{
    if n <= 0 {
        0
    } else {
        new_receipts(told, at, n - 1) + if affected_at(told, at + n - 1) > 0 {
            1int
        } else {
            0
        }
    }
}

/// A page of events is marked read, once all targets are locked. The result counts the events that
/// were not read before. A page without events locks nothing: its transaction is empty.
pub open spec fn batch_marking(
    viewer_sub: Seq<char>,
    activity_ids: Seq<Seq<char>>,
    changed_at: i64,
    told: Seq<ToldRow>,
) -> AskRow<i64> {
    match batch_request(activity_ids) {
        Err(e) => AskRow::Fail(e),
        Ok(ids) => if ids.len() == 0 {
            AskRow::Finish(transaction(Seq::empty()), 0)
        } else {
            marking_of(viewer_sub, ids, changed_at, told)
        },
    }
}

/// Events are marked read, once all targets are locked.
pub open spec fn marking_of(
    viewer_sub: Seq<char>,
    ids: Seq<Seq<char>>,
    changed_at: i64,
    told: Seq<ToldRow>,
) -> AskRow<i64> {
    match target_progress(viewer_sub, ids, told) {
        TargetProgress::Say(ask) => ask,
        TargetProgress::Ready { targets, at } => if told.len() < at + targets.len() {
            AskRow::Fetch(
                no_steps(),
                Shape::Affected,
                statement(INSERT_ACTIVITY_RECEIPT@).text(
                    targets[told.len() - at].activity_id,
                ).text(viewer_sub).number(changed_at),
            )
        } else {
            AskRow::Finish(
                just_commit(),
                new_receipts(told, at, targets.len() as int) as i64,
            )
        },
    }
}

/// The next step of marking a page of events read.
pub fn mark_activity_batch_read(
    viewer_sub: &str,
    activity_ids: &[String],
    changed_at: i64,
    told: &Vec<Told>,
) -> (r: Ask<i64>)
    ensures
        r@ == batch_marking(viewer_sub@, views(activity_ids@), changed_at, views(told@)),
{
    let ids = match check_batch(activity_ids) {
        Err(e) => {
            return Ask::Fail(e);
        },
        Ok(ids) => ids,
    };
    proof {
        law_ordered_set(views(activity_ids@));
        assert(views(ids@).len() == ids@.len());
    }
    if ids.is_empty() {
        let none: Vec<Statement> = Vec::new();
        assert(views(none@) =~= Seq::empty());
        return Ask::Finish(transaction_of(none), 0);
    }
    match reach_targets(viewer_sub, &ids, told) {
        Reach::Say(ask) => ask,
        Reach::Ready { targets, at } => {
            let n: usize = targets.len();
            let total: usize = told.len();
            let done: usize = total - at;
            if done < n {
                return Ask::Fetch(
                    without_steps(),
                    Shape::Affected,
                    Statement::new(INSERT_ACTIVITY_RECEIPT).text(
                        targets[done].activity_id.as_str(),
                    ).text(viewer_sub).number(changed_at),
                );
            }
            let mut changed: i64 = 0;
            let mut k: usize = 0;
            while k < n
                invariant
                    0 <= k <= n,
                    n <= MAX_ACTIVITY_BATCH,
                    done == total - at,
                    total == told@.len(),
                    n <= done,
                    0 <= changed <= k,
                    changed == new_receipts(views(told@), at as int, k as int),
                decreases n - k,
            {
                if told_affected(told, at + k) > 0 {
                    changed = changed + 1;
                }
                k = k + 1;
            }
            Ask::Finish(only_commit(), changed)
        },
    }
}

} // verus!
