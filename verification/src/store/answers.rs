//! Accepted answers.

use vstd::prelude::*;

use crate::model::{
    ActivityDelivery, ActivityDeliveryRow, ActivityEvent, ActivityEventRow, ActivityKind,
    ActivityReason, Post, PostRow, ThreadRow,
};
use crate::rows::{Record, first_row, get_row, opt, update_first, views};
use crate::store::memory::{Forum, InMemoryStore};
use crate::store::posting::{as_list, with_activity};
use crate::store::rules::{delivery_subjects, delivery_to, recipients, subject_delivery};
use crate::store::tables::{
    category_is, find_category, find_thread, original_id, original_of, post_is_in, thread_is,
};
use crate::store::threads::is_some_text;
use crate::store::types::{
    AcceptedAnswerAction, AcceptedAnswerMutation, AcceptedAnswerMutationRow, Failure, StoreError,
    invalid, not_found, single,
};
use crate::text::{same, trim, trim_text};
use crate::texts::ordered_set;

verus! {

/// A thread with another accepted pointer.
pub open spec fn accepting(post_id: Seq<char>) -> spec_fn(ThreadRow) -> ThreadRow {
    |t: ThreadRow| ThreadRow { accepted_post_id: post_id, ..t }
}

/// What an action makes the accepted reply of a thread. Only a reply of the same thread in a
/// question category can be accepted; clearing needs no reply at all.
pub open spec fn answer_target(f: Forum, thread_id: Seq<char>, action: AcceptedAnswerAction) -> Result<
    (Option<PostRow>, Seq<char>),
    Failure,
> {
    match first_row(f.threads, thread_is(thread_id)) {
        None => Err(Failure::NotFound("thread not found"@)),
        Some(thread) => match first_row(f.categories, category_is(thread.category_id)) {
            None => Err(Failure::NotFound("category not found"@)),
            Some(category) => match action {
                AcceptedAnswerAction::Clear => Ok((None, Seq::empty())),
                AcceptedAnswerAction::Accept { post_id } => {
                    let id = trim_text(post_id@);
                    if !(category.format is Question) {
                        Err(
                            Failure::InvalidOperation(
                                "accepted answers are available only in question categories"@,
                            ),
                        )
                    } else if id.len() == 0 {
                        Err(
                            Failure::InvalidOperation(
                                "reply is required when accepting an answer"@,
                            ),
                        )
                    } else if original_of(f.original_posts, thread_id) == Some(id) {
                        Err(
                            Failure::InvalidOperation(
                                "the original post cannot be the accepted answer"@,
                            ),
                        )
                    } else {
                        match first_row(f.posts, post_is_in(id, thread_id)) {
                            None => Err(Failure::NotFound("reply not found"@)),
                            Some(post) => Ok((Some(post), id)),
                        }
                    }
                },
            },
        },
    }
}

/// The forum after a thread's accepted pointer was set.
pub open spec fn with_answer(f: Forum, thread_id: Seq<char>, next_id: Seq<char>) -> Forum {
    Forum { threads: update_first(f.threads, thread_is(thread_id), accepting(next_id)), ..f }
}

/// The accepted reply of a thread is set or cleared.
pub open spec fn answer_mutation(f: Forum, thread_id: Seq<char>, action: AcceptedAnswerAction) -> (
    Forum,
    Result<AcceptedAnswerMutationRow, Failure>,
) {
    match answer_target(f, thread_id, action) {
        Err(e) => (f, Err(e)),
        Ok((accepted_post, next_id)) => {
            let thread = first_row(f.threads, thread_is(thread_id))->0;
            (
                with_answer(f, thread_id, next_id),
                Ok(
                    AcceptedAnswerMutationRow {
                        thread: accepting(next_id)(thread),
                        accepted_post,
                        changed: thread.accepted_post_id != next_id,
                        delivery_subjects: Seq::empty(),
                    },
                ),
            )
        },
    }
}

/// Whom an accepted answer is delivered to: the author of a newly accepted reply, unless they
/// accepted it themselves.
pub open spec fn answer_deliveries(
    changed: bool,
    accepted_post: Option<PostRow>,
    actor_sub: Seq<char>,
) -> Seq<ActivityDeliveryRow> {
    match accepted_post {
        Some(post) => if changed {
            as_list(delivery_to(post.author_sub, actor_sub, ActivityReason::Answer))
        } else {
            Seq::empty()
        },
        None => Seq::empty(),
    }
}

/// The event that an answer was accepted.
pub open spec fn answer_event(
    thread_id: Seq<char>,
    accepted_post: Option<PostRow>,
    activity_id: Seq<char>,
    actor_sub: Seq<char>,
    created_at: i64,
) -> ActivityEventRow {
    ActivityEventRow {
        id: activity_id,
        kind: ActivityKind::AnswerAccepted,
        thread_id,
        post_id: match accepted_post {
            Some(post) => post.id,
            None => Seq::empty(),
        },
        actor_sub,
        created_at,
    }
}

/// The accepted reply of a thread is set or cleared, and the author of a newly accepted reply is
/// told.
pub open spec fn answer_mutation_with_activity(
    f: Forum,
    thread_id: Seq<char>,
    action: AcceptedAnswerAction,
    activity_id: Seq<char>,
    actor_sub: Seq<char>,
    created_at: i64,
) -> (Forum, Result<AcceptedAnswerMutationRow, Failure>) {
    match answer_mutation(f, thread_id, action) {
        (g, Err(e)) => (g, Err(e)),
        (g, Ok(m)) => {
            let deliveries = answer_deliveries(m.changed, m.accepted_post, actor_sub);
            (
                with_activity(
                    g,
                    answer_event(thread_id, m.accepted_post, activity_id, actor_sub, created_at),
                    deliveries,
                ),
                Ok(
                    AcceptedAnswerMutationRow {
                        delivery_subjects: ordered_set(recipients(deliveries)),
                        ..m
                    },
                ),
            )
        },
    }
}

impl InMemoryStore {
    /// What an action makes the accepted reply of a thread.
    fn resolve_answer(&self, thread_id: &str, action: &AcceptedAnswerAction) -> (r: Result<
        (Option<Post>, String),
        StoreError,
    >)
        ensures
            match r {
                Ok((post, id)) => answer_target(self@, thread_id@, *action) == Ok::<
                    (Option<PostRow>, Seq<char>),
                    Failure,
                >((opt(post), id@)),
                Err(e) => answer_target(self@, thread_id@, *action) == Err::<
                    (Option<PostRow>, Seq<char>),
                    Failure,
                >(e@),
            },
    {
        let i: usize = match find_thread(&self.threads, thread_id) {
            None => return Err(not_found("thread not found")),
            Some(i) => i,
        };
        let k: usize = match find_category(&self.categories, self.threads[i].category_id.as_str()) {
            None => return Err(not_found("category not found")),
            Some(k) => k,
        };
        match action {
            AcceptedAnswerAction::Clear => {
                let none: Option<Post> = None;
                Ok((none, String::new()))
            },
            AcceptedAnswerAction::Accept { post_id } => {
                if !self.categories[k].format.is_question() {
                    return Err(
                        invalid("accepted answers are available only in question categories"),
                    );
                }
                let id = trim(post_id.as_str());
                if id.as_str().is_empty() {
                    return Err(invalid("reply is required when accepting an answer"));
                }
                let op = original_id(&self.original_posts, thread_id);
                if is_some_text(&op, id.as_str()) {
                    return Err(invalid("the original post cannot be the accepted answer"));
                }
                let wanted = id.as_str();
                let test = |p: &Post| -> (b: bool)
                    ensures
                        b == post_is_in(wanted@, thread_id@)(p@),
                    { same(p.id.as_str(), wanted) && same(p.thread_id.as_str(), thread_id) };
                match get_row(&self.posts, test, Ghost(post_is_in(id@, thread_id@))) {
                    None => Err(not_found("reply not found")),
                    Some(post) => Ok((Some(post), id)),
                }
            },
        }
    }

    /// Accept a reply or clear the accepted reply. Accepting never toggles.
    pub fn mutate_accepted_answer(&mut self, thread_id: &str, action: AcceptedAnswerAction) -> (r:
        Result<AcceptedAnswerMutation, StoreError>)
        ensures
            (final(self)@, single(r)) == answer_mutation(old(self)@, thread_id@, action),
    {
        let (accepted_post, next_id) = match self.resolve_answer(thread_id, &action) {
            Ok(target) => target,
            Err(e) => return Err(e),
        };
        let i: usize = match find_thread(&self.threads, thread_id) {
            None => return Err(not_found("thread not found")),
            Some(i) => i,
        };
        let ghost before = self.threads@;
        let changed = self.threads[i].accepted_post_id != next_id;
        let mut thread = self.threads[i].duplicate();
        thread.accepted_post_id = next_id;
        self.threads.set(i, thread.duplicate());
        assert(views(self.threads@) =~= views(before).update(i as int, thread@));
        let delivery_subjects: Vec<String> = Vec::new();
        assert(views(delivery_subjects@) =~= Seq::<Seq<char>>::empty());
        Ok(AcceptedAnswerMutation { thread, accepted_post, changed, delivery_subjects })
    }

    /// Accept a reply or clear the accepted reply, and tell the author of a newly accepted reply.
    pub fn mutate_accepted_answer_with_activity(
        &mut self,
        thread_id: &str,
        action: AcceptedAnswerAction,
        activity_id: &str,
        actor_sub: &str,
        created_at: i64,
    ) -> (r: Result<AcceptedAnswerMutation, StoreError>)
        ensures
            (final(self)@, single(r)) == answer_mutation_with_activity(
                old(self)@,
                thread_id@,
                action,
                activity_id@,
                actor_sub@,
                created_at,
            ),
    {
        let mutation = match self.mutate_accepted_answer(thread_id, action) {
            Ok(mutation) => mutation,
            Err(e) => return Err(e),
        };
        let mut deliveries: Vec<ActivityDelivery> = Vec::new();
        let mut post_id = String::new();
        if let Some(post) = &mutation.accepted_post {
            post_id = post.id.clone();
            if mutation.changed {
                if let Some(delivery) = subject_delivery(
                    post.author_sub.as_str(),
                    actor_sub,
                    ActivityReason::Answer,
                ) {
                    deliveries.push(delivery);
                }
            }
        }
        assert(views(deliveries@) =~= answer_deliveries(
            mutation.changed,
            mutation@.accepted_post,
            actor_sub@,
        ));
        let event = ActivityEvent {
            id: activity_id.to_owned(),
            kind: ActivityKind::AnswerAccepted,
            thread_id: thread_id.to_owned(),
            post_id,
            actor_sub: actor_sub.to_owned(),
            created_at,
        };
        self.record_activity(event, &deliveries);
        Ok(
            AcceptedAnswerMutation {
                thread: mutation.thread,
                accepted_post: mutation.accepted_post,
                changed: mutation.changed,
                delivery_subjects: delivery_subjects(&deliveries),
            },
        )
    }
}

} // verus!
