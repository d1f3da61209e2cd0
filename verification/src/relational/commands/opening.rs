//! Opening threads.

use vstd::prelude::*;

use crate::model::{ActivityDelivery, ActivityDeliveryRow, Post, PostRow, Thread, ThreadRow};
use crate::relational::command::{
    Ask, AskRow, Shape, Step, StepRow, Told, ToldRow, at_most, begin, beginning, commit_of,
    committing, number_at, perhaps, running, steps_of, text_at, texts_at, told_number, told_text,
    told_texts,
};
use crate::relational::sql::{LOCK_CATEGORY, LOCK_CLOCK, SUBJECTS_OF_ALIAS};
use crate::relational::statement::{Statement, statement};
use crate::relational::writing::{
    activity_statements, activity_writes, alias_insertion, decide_opening, following_generation,
    insert_alias, mention_recipient, mention_statements, mention_writes, next_generation,
    opening_decision, opening_statements, opening_writes, point_statements, point_writes,
    post_created, sole_delivery,
};
use crate::rows::{append_rows, deduped, views};
use crate::store::posting::{as_list, post_event};
use crate::store::rules::{
    bounded_mention_aliases, dedupe_deliveries, delivery_subjects, mention_aliases, recipients,
};
use crate::store::types::{ActivityMutation, ActivityMutationRow, MAX_MENTIONS_PER_POST};
use crate::texts::ordered_set;

verus! {

// ---------------------------------------------------------------------------
// Shared by threads and replies.
// ---------------------------------------------------------------------------

/// The clock that was told.
pub open spec fn clock_at(told: Seq<ToldRow>, i: int) -> i64 {
    match number_at(told, i) {
        Some(n) => n,
        None => 0,
    }
}

/// The clock that was told.
pub(crate) fn told_clock(told: &Vec<Told>, i: usize) -> (r: i64)
    ensures
        r == clock_at(views(told@), i as int),
{
    match told_number(told, i) {
        Some(n) => n,
        None => 0,
    }
}

/// The deliveries to the subjects of `n` aliases, whose subjects were told from `at` on.
pub open spec fn mentions_at(told: Seq<ToldRow>, at: int, n: int, actor_sub: Seq<char>) -> Seq<
    ActivityDeliveryRow,
>
    decreases n,
{
    if n <= 0 {
        Seq::empty()
    } else {
        mentions_at(told, at, n - 1, actor_sub) + as_list(
            sole_delivery(texts_at(told, at + n - 1), actor_sub),
        )
    }
}

/// The deliveries to the subjects of `n` aliases, whose subjects were told from `at` on.
pub(crate) fn told_mentions(told: &Vec<Told>, at: usize, n: usize, actor_sub: &str) -> (out: Vec<
    ActivityDelivery,
>)
    requires
        at + n <= usize::MAX,
    ensures
        views(out@) == mentions_at(views(told@), at as int, n as int, actor_sub@),
{
    let mut out: Vec<ActivityDelivery> = Vec::new();
    assert(views(out@) =~= Seq::empty());
    let mut k: usize = 0;
    while k < n
        invariant
            0 <= k <= n,
            at + n <= usize::MAX,
            views(out@) == mentions_at(views(told@), at as int, k as int, actor_sub@),
        decreases n - k,
    {
        let ghost before = out@;
        let subjects = told_texts(told, at + k);
        if let Some(d) = mention_recipient(&subjects, actor_sub) {
            out.push(d);
            assert(views(out@) =~= views(before).push(d@));
        }
        assert(views(out@) =~= views(before) + as_list(
            sole_delivery(texts_at(views(told@), at + k), actor_sub@),
        ));
        k = k + 1;
    }
    out
}

/// Asks for the subjects of an alias.
pub open spec fn alias_question<V>(steps: Seq<StepRow>, alias: Seq<char>) -> AskRow<V> {
    AskRow::Fetch(steps, Shape::Texts, statement(SUBJECTS_OF_ALIAS@).text(alias))
}

/// Asks for the clock, and keeps it locked.
pub open spec fn clock_question<V>(steps: Seq<StepRow>) -> AskRow<V> {
    AskRow::Fetch(steps, Shape::Number, statement(LOCK_CLOCK@))
}

/// Asks whether a row exists, and keeps it locked.
pub open spec fn lock_question<V>(steps: Seq<StepRow>, sql: Seq<char>, id: Seq<char>) -> AskRow<V> {
    AskRow::Fetch(steps, Shape::Text, statement(sql).text(id))
}

/// Asks whether a row exists, and keeps it locked.
pub(crate) fn ask_text<T: View>(steps: Vec<Step>, sql: &str, id: &str) -> (r: Ask<T>)
    ensures
        r@ == lock_question::<T::V>(views(steps@), sql@, id@),
{
    Ask::Fetch(steps, Shape::Text, Statement::new(sql).text(id))
}

/// Asks for the clock, and keeps it locked.
pub(crate) fn ask_clock<T: View>(steps: Vec<Step>) -> (r: Ask<T>)
    ensures
        r@ == clock_question::<T::V>(views(steps@)),
{
    Ask::Fetch(steps, Shape::Number, Statement::new(LOCK_CLOCK))
}

/// Asks for the subjects of an alias.
pub(crate) fn ask_alias<T: View>(steps: Vec<Step>, alias: &str) -> (r: Ask<T>)
    ensures
        r@ == alias_question::<T::V>(views(steps@), alias@),
{
    Ask::Fetch(steps, Shape::Texts, Statement::new(SUBJECTS_OF_ALIAS).text(alias))
}

// ---------------------------------------------------------------------------
// Opening a thread.
// ---------------------------------------------------------------------------

/// A thread is opened: its category is locked, the author's alias is remembered, the thread and
/// its original post are stored, and the post enters the catch-up record.
pub open spec fn opening(thread: ThreadRow, first_post: PostRow, told: Seq<ToldRow>) -> AskRow<()> {
    let found = told.len() == 0 || text_at(told, 0) is Some;
    match opening_decision(thread, first_post, found) {
        Err(e) => AskRow::Fail(e),
        Ok(_) => if told.len() == 0 {
            lock_question(begin(), LOCK_CATEGORY@, thread.category_id)
        } else if told.len() == 1 {
            clock_question(
                running(
                    at_most(
                        alias_insertion(
                            first_post.author_sub,
                            first_post.author_email,
                            first_post.created_at,
                        ),
                    ) + opening_writes(thread, first_post),
                ),
            )
        } else {
            match following_generation(clock_at(told, 1)) {
                Err(e) => AskRow::Fail(e),
                Ok(seq) => AskRow::Finish(committing(point_writes(first_post, seq)), ()),
            }
        },
    }
}

/// The next step of opening a thread.
pub fn create_thread(thread: &Thread, first_post: &Post, told: &Vec<Told>) -> (r: Ask<()>)
    ensures
        r@ == opening(thread@, first_post@, views(told@)),
{
    let found = told.len() == 0 || told_text(told, 0).is_some();
    if let Err(e) = decide_opening(thread, first_post, found) {
        return Ask::Fail(e);
    }
    if told.len() == 0 {
        return ask_text(beginning(), LOCK_CATEGORY, thread.category_id.as_str());
    }
    if told.len() == 1 {
        let mut writes = perhaps(
            insert_alias(
                first_post.author_sub.as_str(),
                first_post.author_email.as_str(),
                first_post.created_at,
            ),
        );
        append_rows(&mut writes, opening_statements(thread, first_post));
        return ask_clock(steps_of(writes));
    }
    match next_generation(told_clock(told, 1)) {
        Err(e) => Ask::Fail(e),
        Ok(seq) => Ask::Finish(commit_of(point_statements(first_post, seq)), ()),
    }
}

/// A thread is opened, its mentions are stored, and the mentioned subjects are told.
pub open spec fn opening_with_activity(
    thread: ThreadRow,
    first_post: PostRow,
    mentioned: Seq<Seq<char>>,
    activity_id: Seq<char>,
    told: Seq<ToldRow>,
) -> AskRow<ActivityMutationRow> {
    match mention_aliases(mentioned) {
        Err(e) => AskRow::Fail(e),
        Ok(aliases) => {
            let n = aliases.len() as int;
            let found = told.len() == 0 || text_at(told, 0) is Some;
            let known = at_most(
                alias_insertion(
                    first_post.author_sub,
                    first_post.author_email,
                    first_post.created_at,
                ),
            );
            match opening_decision(thread, first_post, found) {
                Err(e) => AskRow::Fail(e),
                Ok(_) => if told.len() == 0 {
                    lock_question(begin(), LOCK_CATEGORY@, thread.category_id)
                } else if told.len() < 1 + n {
                    alias_question(
                        running(
                            if told.len() == 1 {
                                known
                            } else {
                                Seq::empty()
                            },
                        ),
                        aliases[told.len() - 1],
                    )
                } else if told.len() == 1 + n {
                    clock_question(
                        running(
                            (if n == 0 {
                                known
                            } else {
                                Seq::empty()
                            }) + opening_writes(thread, first_post),
                        ),
                    )
                } else {
                    let deliveries = deduped(
                        mentions_at(told, 1, n, first_post.author_sub),
                    );
                    match following_generation(clock_at(told, 1 + n)) {
                        Err(e) => AskRow::Fail(e),
                        Ok(seq) => AskRow::Finish(
                            committing(
                                point_writes(first_post, seq) + mention_writes(
                                    first_post.id,
                                    thread.id,
                                    aliases,
                                    first_post.created_at,
                                ) + activity_writes(
                                    post_event(first_post, activity_id),
                                    deliveries,
                                ),
                            ),
                            ActivityMutationRow {
                                delivery_subjects: ordered_set(recipients(deliveries)),
                            },
                        ),
                    }
                },
            }
        },
    }
}

/// The next step of opening a thread and telling the mentioned subjects.
pub fn create_thread_with_activity(
    thread: &Thread,
    first_post: &Post,
    mentioned_usernames: &[String],
    activity_id: &str,
    told: &Vec<Told>,
) -> (r: Ask<ActivityMutation>)
    ensures
        r@ == opening_with_activity(
            thread@,
            first_post@,
            views(mentioned_usernames@),
            activity_id@,
            views(told@),
        ),
{
    let aliases = match bounded_mention_aliases(mentioned_usernames) {
        Err(e) => {
            return Ask::Fail(e);
        },
        Ok(aliases) => aliases,
    };
    let n: usize = aliases.len();
    assert(views(aliases@).len() == n);
    assert(n <= MAX_MENTIONS_PER_POST);
    let found = told.len() == 0 || told_text(told, 0).is_some();
    if let Err(e) = decide_opening(thread, first_post, found) {
        return Ask::Fail(e);
    }
    if told.len() == 0 {
        return ask_text(beginning(), LOCK_CATEGORY, thread.category_id.as_str());
    }
    let known = perhaps(
        insert_alias(
            first_post.author_sub.as_str(),
            first_post.author_email.as_str(),
            first_post.created_at,
        ),
    );
    if told.len() < 1 + n {
        let steps = if told.len() == 1 {
            steps_of(known)
        } else {
            steps_of(Vec::new())
        };
        assert(views(Seq::<Statement>::empty()) =~= Seq::empty());
        return ask_alias(steps, aliases[told.len() - 1].as_str());
    }
    if told.len() == 1 + n {
        let mut writes = if n == 0 {
            known
        } else {
            Vec::new()
        };
        assert(views(Seq::<Statement>::empty()) =~= Seq::empty());
        append_rows(&mut writes, opening_statements(thread, first_post));
        return ask_clock(steps_of(writes));
    }
    let mut deliveries = told_mentions(told, 1, n, first_post.author_sub.as_str());
    dedupe_deliveries(&mut deliveries);
    match next_generation(told_clock(told, 1 + n)) {
        Err(e) => Ask::Fail(e),
        Ok(seq) => {
            let mut writes = point_statements(first_post, seq);
            append_rows(
                &mut writes,
                mention_statements(
                    first_post.id.as_str(),
                    thread.id.as_str(),
                    aliases.as_slice(),
                    first_post.created_at,
                ),
            );
            append_rows(
                &mut writes,
                activity_statements(&post_created(first_post, activity_id), &deliveries),
            );
            Ask::Finish(
                commit_of(writes),
                ActivityMutation { delivery_subjects: delivery_subjects(&deliveries) },
            )
        },
    }
}

} // verus!
