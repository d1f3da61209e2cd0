//! Replying.

use vstd::prelude::*;

use crate::model::{ActivityDelivery, ActivityDeliveryRow, Post, PostRow, Thread, ThreadRow};
use crate::relational::command::{
    Ask, AskRow, OpenedThreadRow, Shape, Told, ToldRow, at_most, begin, beginning, commit_of,
    committing, no_steps, over, perhaps, post_at, running, start_over, steps_of, text_at, texts_at,
    thread_at, told_post, told_text, told_texts, told_thread, without_steps,
};
use crate::relational::commands::opening::{
    alias_question, ask_alias, ask_clock, ask_text, clock_at, clock_question, lock_question,
    mentions_at, told_clock, told_mentions,
};
use crate::relational::sql::{CATEGORY_OF_THREAD, LOCK_CATEGORY, LOCK_POST, LOCK_THREAD, WATCHERS};
use crate::relational::statement::{Statement, statement};
use crate::relational::writing::{
    Contended, Turn, activity_statements, activity_writes, alias_insertion, all_recipients,
    decide_reply, direct_recipients, direct_recipients_of, following_generation, insert_alias,
    insert_post, mention_statements, mention_writes, next_generation, post_created, post_insertion,
    quoted_author, quoted_author_of, reply_statements, reply_turn, reply_writes,
};
use crate::rows::{append_rows, deduped, opt, views};
use crate::store::posting::post_event;
use crate::store::rules::{bounded_mention_aliases, delivery_subjects, mention_aliases, recipients};
use crate::store::types::{
    ActivityMutation, ActivityMutationRow, Failure, MAX_MENTIONS_PER_POST, MAX_THREAD_FOLLOWERS,
    not_found,
};
use crate::texts::ordered_set;

verus! {

/// The thread of a row.
pub open spec fn thread_of(t: Option<OpenedThreadRow>) -> Option<ThreadRow> {
    match t {
        Some(t) => Some(t.thread),
        None => None,
    }
}

/// Asks for a thread, and keeps it locked.
pub open spec fn thread_question<V>(thread_id: Seq<char>) -> AskRow<V> {
    AskRow::Fetch(no_steps(), Shape::Thread, statement(LOCK_THREAD@).text(thread_id))
}

/// Asks for a post, and keeps it locked.
pub open spec fn post_question<V>(post_id: Seq<char>) -> AskRow<V> {
    AskRow::Fetch(no_steps(), Shape::Post, statement(LOCK_POST@).text(post_id))
}

/// Asks for a thread, and keeps it locked.
pub(crate) fn ask_thread<T: View>(thread_id: &str) -> (r: Ask<T>)
    ensures
        r@ == thread_question::<T::V>(thread_id@),
{
    Ask::Fetch(without_steps(), Shape::Thread, Statement::new(LOCK_THREAD).text(thread_id))
}

/// Asks for a post, and keeps it locked.
pub(crate) fn ask_post<T: View>(post_id: &str) -> (r: Ask<T>)
    ensures
        r@ == post_question::<T::V>(post_id@),
{
    Ask::Fetch(without_steps(), Shape::Post, Statement::new(LOCK_POST).text(post_id))
}

/// How far a reply is before anything is written.
pub enum ReplyProgress<V> {
    /// The command says this next.
    Say(AskRow<V>),
    /// The thread is locked and open, the quoted post belongs to it, and the answers from `at` on
    /// are not used yet.
    Ready { thread: ThreadRow, quoted_author: Option<Seq<char>>, at: int },
}

/// The rows of a reply are locked from the outside to the inside: the category that was read
/// before, the thread in it, and the quoted post.
pub open spec fn reply_locks<V>(post: PostRow, attempt: int, told: Seq<ToldRow>) -> ReplyProgress<V> {
    if told.len() == 0 {
        ReplyProgress::Say(lock_question(no_steps(), CATEGORY_OF_THREAD@, post.thread_id))
    } else {
        match text_at(told, 0) {
            None => ReplyProgress::Say(AskRow::Fail(Failure::NotFound("thread not found"@))),
            Some(hint) => if told.len() == 1 {
                ReplyProgress::Say(lock_question(begin(), LOCK_CATEGORY@, hint))
            } else if text_at(told, 1) is None {
                ReplyProgress::Say(AskRow::Fail(Failure::NotFound("category not found"@)))
            } else if told.len() == 2 {
                ReplyProgress::Say(thread_question(post.thread_id))
            } else {
                match reply_turn(hint, true, thread_of(thread_at(told, 2))) {
                    Err(e) => ReplyProgress::Say(AskRow::Fail(e)),
                    Ok(Turn::Retry) => ReplyProgress::Say(over(attempt, Contended::Reply)),
                    Ok(Turn::Proceed) => if post.quoted_post_id.len() == 0 {
                        ReplyProgress::Ready {
                            thread: thread_of(thread_at(told, 2))->0,
                            quoted_author: None,
                            at: 3,
                        }
                    } else if told.len() == 3 {
                        ReplyProgress::Say(post_question(post.quoted_post_id))
                    } else {
                        match quoted_author_of(post, post_at(told, 3)) {
                            Err(e) => ReplyProgress::Say(AskRow::Fail(e)),
                            Ok(quoted_author) => ReplyProgress::Ready {
                                thread: thread_of(thread_at(told, 2))->0,
                                quoted_author,
                                at: 4,
                            },
                        }
                    },
                }
            },
        }
    }
}

/// How far a reply is before anything is written.
enum Progress<T> {
    Say(Ask<T>),
    Ready { thread: Thread, quoted_author: Option<String>, at: usize },
}

impl<T: View> View for Progress<T> {
    type V = ReplyProgress<T::V>;

    closed spec fn view(&self) -> ReplyProgress<T::V> {
        match self {
            Progress::Say(ask) => ReplyProgress::Say(ask@),
            Progress::Ready { thread, quoted_author, at } => ReplyProgress::Ready {
                thread: thread@,
                quoted_author: opt(*quoted_author),
                at: *at as int,
            },
        }
    }
}

fn lock_reply<T: View>(post: &Post, attempt: usize, told: &Vec<Told>) -> (r: Progress<T>)
    ensures
        r@ == reply_locks::<T::V>(post@, attempt as int, views(told@)),
        r is Ready ==> r->at <= 4,
{
    if told.len() == 0 {
        return Progress::Say(
            ask_text(without_steps(), CATEGORY_OF_THREAD, post.thread_id.as_str()),
        );
    }
    let hint = match told_text(told, 0) {
        None => {
            return Progress::Say(Ask::Fail(not_found("thread not found")));
        },
        Some(hint) => hint,
    };
    if told.len() == 1 {
        return Progress::Say(ask_text(beginning(), LOCK_CATEGORY, hint.as_str()));
    }
    if told_text(told, 1).is_none() {
        return Progress::Say(Ask::Fail(not_found("category not found")));
    }
    if told.len() == 2 {
        return Progress::Say(ask_thread(post.thread_id.as_str()));
    }
    let thread = match told_thread(told, 2) {
        Some(opened) => Some(opened.thread),
        None => None,
    };
    match decide_reply(hint.as_str(), true, thread.as_ref()) {
        Err(e) => Progress::Say(Ask::Fail(e)),
        Ok(Turn::Retry) => Progress::Say(start_over(attempt, Contended::Reply)),
        Ok(Turn::Proceed) => match thread {
            None => Progress::Say(Ask::Fail(not_found("thread not found"))),
            Some(thread) => {
                if post.quoted_post_id.as_str().is_empty() {
                    return Progress::Ready { thread, quoted_author: None, at: 3 };
                }
                if told.len() == 3 {
                    return Progress::Say(ask_post(post.quoted_post_id.as_str()));
                }
                let quoted = told_post(told, 3);
                match quoted_author(post, quoted.as_ref()) {
                    Err(e) => Progress::Say(Ask::Fail(e)),
                    Ok(quoted_author) => Progress::Ready { thread, quoted_author, at: 4 },
                }
            },
        },
    }
}

/// A reply is added: once its rows are locked, the author's alias is remembered, the post is
/// stored, enters the catch-up record, and moves its thread.
pub open spec fn replying(post: PostRow, attempt: int, told: Seq<ToldRow>) -> AskRow<()> {
    match reply_locks(post, attempt, told) {
        ReplyProgress::Say(ask) => ask,
        ReplyProgress::Ready { thread, quoted_author, at } => if told.len() == at {
            clock_question(
                running(
                    at_most(
                        alias_insertion(post.author_sub, post.author_email, post.created_at),
                    ).push(post_insertion(post)),
                ),
            )
        } else {
            match following_generation(clock_at(told, at)) {
                Err(e) => AskRow::Fail(e),
                Ok(seq) => AskRow::Finish(committing(reply_writes(post, seq)), ()),
            }
        },
    }
}

/// The next step of adding a reply.
pub fn add_reply(post: &Post, attempt: usize, told: &Vec<Told>) -> (r: Ask<()>)
    ensures
        r@ == replying(post@, attempt as int, views(told@)),
{
    match lock_reply(post, attempt, told) {
        Progress::Say(ask) => ask,
        Progress::Ready { thread: _, quoted_author: _, at } => {
            if told.len() == at {
                let mut writes = perhaps(
                    insert_alias(
                        post.author_sub.as_str(),
                        post.author_email.as_str(),
                        post.created_at,
                    ),
                );
                let ghost before = writes@;
                writes.push(insert_post(post));
                assert(views(writes@) =~= views(before).push(post_insertion(post@)));
                return ask_clock(steps_of(writes));
            }
            match next_generation(told_clock(told, at)) {
                Err(e) => Ask::Fail(e),
                Ok(seq) => Ask::Finish(commit_of(reply_statements(post, seq)), ()),
            }
        },
    }
}

/// Asks for the watchers of a thread, one more than it may have.
pub open spec fn watchers_question<V>(thread_id: Seq<char>) -> AskRow<V> {
    AskRow::Fetch(
        no_steps(),
        Shape::Texts,
        statement(WATCHERS@).text(thread_id).number((MAX_THREAD_FOLLOWERS + 1) as i64),
    )
}

/// A reply is added, its mentions are stored, and its recipients are told: the author of the
/// thread, the quoted author, the watchers, and the mentioned subjects.
pub open spec fn replying_with_activity(
    post: PostRow,
    mentioned: Seq<Seq<char>>,
    activity_id: Seq<char>,
    attempt: int,
    told: Seq<ToldRow>,
) -> AskRow<ActivityMutationRow> {
    match mention_aliases(mentioned) {
        Err(e) => AskRow::Fail(e),
        Ok(aliases) => match reply_locks(post, attempt, told) {
            ReplyProgress::Say(ask) => ask,
            ReplyProgress::Ready { thread, quoted_author, at } => if told.len() == at {
                watchers_question(post.thread_id)
            } else {
                match direct_recipients_of(thread, post, quoted_author, texts_at(told, at)) {
                    Err(e) => AskRow::Fail(e),
                    Ok(direct) => replying_to(post, aliases, activity_id, direct, told, at + 1),
                }
            },
        },
    }
}

/// The reply with its direct recipients; the answers from `at` on are not used yet.
pub open spec fn replying_to(
    post: PostRow,
    aliases: Seq<Seq<char>>,
    activity_id: Seq<char>,
    direct: Seq<ActivityDeliveryRow>,
    told: Seq<ToldRow>,
    at: int,
) -> AskRow<ActivityMutationRow> {
    let n = aliases.len() as int;
    let known = at_most(alias_insertion(post.author_sub, post.author_email, post.created_at));
    if told.len() < at + n {
        alias_question(
            running(
                if told.len() == at {
                    known
                } else {
                    Seq::empty()
                },
            ),
            aliases[told.len() - at],
        )
    } else if told.len() == at + n {
        clock_question(
            running(
                (if n == 0 {
                    known
                } else {
                    Seq::empty()
                }).push(post_insertion(post)),
            ),
        )
    } else {
        let deliveries = deduped(direct + mentions_at(told, at, n, post.author_sub));
        match following_generation(clock_at(told, at + n)) {
            Err(e) => AskRow::Fail(e),
            Ok(seq) => AskRow::Finish(
                committing(
                    reply_writes(post, seq) + mention_writes(
                        post.id,
                        post.thread_id,
                        aliases,
                        post.created_at,
                    ) + activity_writes(post_event(post, activity_id), deliveries),
                ),
                ActivityMutationRow { delivery_subjects: ordered_set(recipients(deliveries)) },
            ),
        }
    }
}

/// The next step of adding a reply and telling its recipients.
pub fn add_reply_with_activity(
    post: &Post,
    mentioned_usernames: &[String],
    activity_id: &str,
    attempt: usize,
    told: &Vec<Told>,
) -> (r: Ask<ActivityMutation>)
    ensures
        r@ == replying_with_activity(
            post@,
            views(mentioned_usernames@),
            activity_id@,
            attempt as int,
            views(told@),
        ),
{
    let aliases = match bounded_mention_aliases(mentioned_usernames) {
        Err(e) => {
            return Ask::Fail(e);
        },
        Ok(aliases) => aliases,
    };
    match lock_reply(post, attempt, told) {
        Progress::Say(ask) => ask,
        Progress::Ready { thread, quoted_author, at } => {
            if told.len() == at {
                return Ask::Fetch(
                    without_steps(),
                    Shape::Texts,
                    Statement::new(WATCHERS).text(post.thread_id.as_str()).number(
                        (MAX_THREAD_FOLLOWERS + 1) as i64,
                    ),
                );
            }
            let watchers = told_texts(told, at);
            let author = match &quoted_author {
                Some(author) => Some(author.as_str()),
                None => None,
            };
            match direct_recipients(&thread, post, author, &watchers) {
                Err(e) => Ask::Fail(e),
                Ok(direct) => reply_to(post, &aliases, activity_id, direct, told, at + 1),
            }
        },
    }
}

fn reply_to(
    post: &Post,
    aliases: &Vec<String>,
    activity_id: &str,
    direct: Vec<ActivityDelivery>,
    told: &Vec<Told>,
    at: usize,
) -> (r: Ask<ActivityMutation>)
    requires
        at <= 5,
        aliases@.len() <= MAX_MENTIONS_PER_POST,
        at <= told@.len(),
    ensures
        r@ == replying_to(
            post@,
            views(aliases@),
            activity_id@,
            views(direct@),
            views(told@),
            at as int,
        ),
{
    let n: usize = aliases.len();
    let known = perhaps(
        insert_alias(post.author_sub.as_str(), post.author_email.as_str(), post.created_at),
    );
    assert(views(Seq::<Statement>::empty()) =~= Seq::empty());
    if told.len() < at + n {
        let steps = if told.len() == at {
            steps_of(known)
        } else {
            steps_of(Vec::new())
        };
        return ask_alias(steps, aliases[told.len() - at].as_str());
    }
    if told.len() == at + n {
        let mut writes = if n == 0 {
            known
        } else {
            Vec::new()
        };
        let ghost before = writes@;
        writes.push(insert_post(post));
        assert(views(writes@) =~= views(before).push(post_insertion(post@)));
        return ask_clock(steps_of(writes));
    }
    let deliveries = all_recipients(
        direct,
        told_mentions(told, at, n, post.author_sub.as_str()),
    );
    match next_generation(told_clock(told, at + n)) {
        Err(e) => Ask::Fail(e),
        Ok(seq) => {
            let mut writes = reply_statements(post, seq);
            append_rows(
                &mut writes,
                mention_statements(
                    post.id.as_str(),
                    post.thread_id.as_str(),
                    aliases.as_slice(),
                    post.created_at,
                ),
            );
            append_rows(
                &mut writes,
                activity_statements(&post_created(post, activity_id), &deliveries),
            );
            Ask::Finish(
                commit_of(writes),
                ActivityMutation { delivery_subjects: delivery_subjects(&deliveries) },
            )
        },
    }
}

} // verus!
