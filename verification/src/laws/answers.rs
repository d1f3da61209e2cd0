//! What accepted answers promise.

use vstd::prelude::*;

use crate::laws::content::lemma_first_row_update;
use crate::laws::escaping::law_trimming_is_idempotent;
use crate::model::{ActivityDeliveryRow, ThreadRow};
use crate::rows::{first_index, first_row, lemma_first_index, lemma_first_index_unique, some_row};
use crate::store::answers::{
    accepting, answer_mutation, answer_mutation_with_activity, answer_target, with_answer,
};
use crate::store::editing::{moved_to, thread_move};
use crate::store::memory::Forum;
use crate::store::rules::recipients;
use crate::store::tables::{
    category_is, format_of, original_of, post_is_in, public_row, thread_is, valid_accepted,
};
use crate::store::threads::solved_in;
use crate::store::types::AcceptedAnswerAction;
use crate::text::trim_text;

verus! {

/// An accepted reply is a reply of the same question, and is read back as its valid answer.
pub proof fn law_accepted_answer_reads_back(f: Forum, thread_id: Seq<char>, post_id: String)
    requires
        answer_mutation(f, thread_id, AcceptedAnswerAction::Accept { post_id }).1 is Ok,
    ensures
        ({
            let (g, r) = answer_mutation(f, thread_id, AcceptedAnswerAction::Accept { post_id });
            let thread = first_row(g.threads, thread_is(thread_id))->0;
            &&& first_row(g.threads, thread_is(thread_id)) is Some
            &&& first_row(g.categories, category_is(thread.category_id)) is Some
            &&& first_row(g.categories, category_is(thread.category_id))->0.format is Question
            &&& r->Ok_0.thread == thread
            &&& r->Ok_0.accepted_post is Some
            &&& r->Ok_0.accepted_post->0.thread_id == thread_id
            &&& r->Ok_0.accepted_post->0.id == trim_text(post_id@)
            &&& original_of(g.original_posts, thread_id) != Some(trim_text(post_id@))
            &&& thread.accepted_post_id == trim_text(post_id@)
            &&& valid_accepted(thread, g.original_posts, g.posts) == r->Ok_0.accepted_post
        }),
{
    let id = trim_text(post_id@);
    law_trimming_is_idempotent(post_id@);
    lemma_first_row_update(f.threads, thread_is(thread_id), accepting(id));
    lemma_first_index(f.threads, thread_is(thread_id));
    lemma_first_index(f.posts, post_is_in(id, thread_id));
}

/// Accepting the accepted reply again succeeds and changes nothing.
pub proof fn law_accepting_is_idempotent(f: Forum, thread_id: Seq<char>, action: AcceptedAnswerAction)
    requires
        answer_mutation(f, thread_id, action).1 is Ok,
    ensures
        ({
            let (g, first) = answer_mutation(f, thread_id, action);
            let (h, second) = answer_mutation(g, thread_id, action);
            &&& h == g
            &&& second is Ok
            &&& !second->Ok_0.changed
            &&& second->Ok_0.thread == first->Ok_0.thread
            &&& second->Ok_0.accepted_post == first->Ok_0.accepted_post
        }),
{
    let (g, first) = answer_mutation(f, thread_id, action);
    let next_id = answer_target(f, thread_id, action)->Ok_0.1;
    lemma_first_row_update(f.threads, thread_is(thread_id), accepting(next_id));
    lemma_first_index(f.threads, thread_is(thread_id));
    lemma_first_index(g.threads, thread_is(thread_id));
    let i = first_index(f.threads, thread_is(thread_id))->0;
    assert forall|j: int| 0 <= j < i implies !thread_is(thread_id)(#[trigger] g.threads[j]) by {
        assert(!thread_is(thread_id)(f.threads[j]));
    }
    lemma_first_index_unique(g.threads, thread_is(thread_id), i);
    let (h, second) = answer_mutation(g, thread_id, action);
    assert(answer_target(g, thread_id, action) == answer_target(f, thread_id, action));
    assert(h.threads =~= g.threads);
}

/// Nobody is told again about an answer that was accepted before.
pub proof fn law_accepting_again_tells_nobody(
    f: Forum,
    thread_id: Seq<char>,
    action: AcceptedAnswerAction,
    activity_id: Seq<char>,
    actor_sub: Seq<char>,
    created_at: i64,
    later_id: Seq<char>,
    later_actor: Seq<char>,
    later: i64,
)
    requires
        answer_mutation_with_activity(
            f,
            thread_id,
            action,
            activity_id,
            actor_sub,
            created_at,
        ).1 is Ok,
    ensures
        ({
            let g = answer_mutation_with_activity(
                f,
                thread_id,
                action,
                activity_id,
                actor_sub,
                created_at,
            ).0;
            let (h, r) = answer_mutation_with_activity(
                g,
                thread_id,
                action,
                later_id,
                later_actor,
                later,
            );
            &&& h == g
            &&& r is Ok
            &&& r->Ok_0.delivery_subjects.len() == 0
        }),
{
    let (g0, first) = answer_mutation(f, thread_id, action);
    let g = answer_mutation_with_activity(
        f,
        thread_id,
        action,
        activity_id,
        actor_sub,
        created_at,
    ).0;
    law_accepting_is_idempotent(f, thread_id, action);
    assert(answer_target(g, thread_id, action) == answer_target(g0, thread_id, action));
    let next_id = answer_target(f, thread_id, action)->Ok_0.1;
    assert(with_answer(g, thread_id, next_id).threads == with_answer(g0, thread_id, next_id).threads);
    let (h, r) = answer_mutation(g, thread_id, action);
    assert(h =~= g);
    assert(recipients(Seq::<ActivityDeliveryRow>::empty()).len() == 0);
}

/// An answer can always be cleared, whatever became of the accepted reply.
pub proof fn law_clearing_an_answer(f: Forum, thread_id: Seq<char>)
    requires
        first_row(f.threads, thread_is(thread_id)) is Some,
        some_row(
            f.categories,
            category_is(first_row(f.threads, thread_is(thread_id))->0.category_id),
        ),
    ensures
        ({
            let (g, r) = answer_mutation(f, thread_id, AcceptedAnswerAction::Clear);
            let thread = first_row(g.threads, thread_is(thread_id));
            &&& r is Ok
            &&& thread is Some
            &&& thread->0.accepted_post_id.len() == 0
            &&& valid_accepted(thread->0, g.original_posts, g.posts) is None
        }),
{
    let thread = first_row(f.threads, thread_is(thread_id))->0;
    lemma_first_index(f.categories, category_is(thread.category_id));
    lemma_first_row_update(f.threads, thread_is(thread_id), accepting(Seq::empty()));
    assert(trim_text(Seq::<char>::empty()).len() == 0);
}

/// Clearing takes back what accepting did to a thread without an answer.
pub proof fn law_clearing_undoes_accepting(f: Forum, thread_id: Seq<char>, post_id: String)
    requires
        answer_mutation(f, thread_id, AcceptedAnswerAction::Accept { post_id }).1 is Ok,
        first_row(f.threads, thread_is(thread_id))->0.accepted_post_id.len() == 0,
    ensures
        answer_mutation(
            answer_mutation(f, thread_id, AcceptedAnswerAction::Accept { post_id }).0,
            thread_id,
            AcceptedAnswerAction::Clear,
        ).0 == f,
{
    let id = trim_text(post_id@);
    let g = answer_mutation(f, thread_id, AcceptedAnswerAction::Accept { post_id }).0;
    lemma_first_row_update(f.threads, thread_is(thread_id), accepting(id));
    lemma_first_index(f.threads, thread_is(thread_id));
    let i = first_index(f.threads, thread_is(thread_id))->0;
    assert forall|j: int| 0 <= j < i implies !thread_is(thread_id)(#[trigger] g.threads[j]) by {
        assert(!thread_is(thread_id)(f.threads[j]));
    }
    lemma_first_index_unique(g.threads, thread_is(thread_id), i);
    let h = answer_mutation(g, thread_id, AcceptedAnswerAction::Clear).0;
    assert(f.threads[i].accepted_post_id =~= Seq::<char>::empty());
    assert(h.threads =~= f.threads);
}

/// A discussion accepts no answer.
pub proof fn law_discussions_accept_no_answer(f: Forum, thread_id: Seq<char>, post_id: String)
    requires
        first_row(f.threads, thread_is(thread_id)) is Some,
        first_row(
            f.categories,
            category_is(first_row(f.threads, thread_is(thread_id))->0.category_id),
        ) is Some,
        !(first_row(
            f.categories,
            category_is(first_row(f.threads, thread_is(thread_id))->0.category_id),
        )->0.format is Question),
    ensures
        answer_mutation(f, thread_id, AcceptedAnswerAction::Accept { post_id }).0 == f,
        answer_mutation(f, thread_id, AcceptedAnswerAction::Accept { post_id }).1 is Err,
{
}

/// A thread that moved into a discussion has no valid answer, a moved thread stands in its new
/// category, and an invalid pointer does not survive a move.
pub proof fn law_moving_hides_no_answer(f: Forum, thread_id: Seq<char>, category_id: Seq<char>)
    requires
        thread_move(f, thread_id, category_id).1 is Ok,
    ensures
        ({
            let g = thread_move(f, thread_id, category_id).0;
            let source = first_row(f.threads, thread_is(thread_id))->0;
            let thread = first_row(g.threads, thread_is(thread_id));
            let target = first_row(g.categories, category_is(category_id))->0;
            &&& thread is Some
            &&& thread->0.category_id == category_id
            &&& source.category_id != category_id && !(target.format is Question)
                ==> thread->0.accepted_post_id.len() == 0 && valid_accepted(
                thread->0,
                g.original_posts,
                g.posts,
            ) is None
            &&& valid_accepted(source, f.original_posts, f.posts) is Some
                ==> thread->0.accepted_post_id == source.accepted_post_id
        }),
{
    let thread = first_row(f.threads, thread_is(thread_id))->0;
    let valid = valid_accepted(thread, f.original_posts, f.posts) is Some;
    lemma_first_row_update(f.threads, thread_is(thread_id), moved_to(category_id, valid));
    assert(trim_text(Seq::<char>::empty()).len() == 0);
}

/// A pointer that names no reply of its thread is no answer, and lists never show one.
pub proof fn law_lists_show_valid_answers_only(f: Forum, t: ThreadRow)
    ensures
        public_row(t, solved_in(f, t)).accepted_post_id.len() > 0 ==> {
            let answer = valid_accepted(t, f.original_posts, f.posts);
            &&& format_of(f.categories, t.category_id) is Question
            &&& answer is Some
            &&& answer->0.thread_id == t.id
            &&& answer->0.id == trim_text(t.accepted_post_id)
            &&& original_of(f.original_posts, t.id) != Some(answer->0.id)
            &&& f.posts.contains(answer->0)
        },
        public_row(t, solved_in(f, t)) == t || public_row(t, solved_in(f, t))
            == (ThreadRow { accepted_post_id: Seq::empty(), ..t }),
{
    let id = trim_text(t.accepted_post_id);
    lemma_first_index(f.posts, post_is_in(id, t.id));
    if first_index(f.posts, post_is_in(id, t.id)) is Some {
        let i = first_index(f.posts, post_is_in(id, t.id))->0;
        assert(f.posts.contains(f.posts[i]));
    }
}

} // verus!
