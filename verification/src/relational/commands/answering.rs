//! Accepting answers.

use vstd::prelude::*;

use crate::model::{Post, PostRow, Thread, ThreadRow};
use crate::relational::command::{
    Ask, AskRow, OpenedThread, Told, ToldRow, begin, beginning, commit_of, committing, no_steps,
    over, post_at, start_over, text_at, thread_at, told_post, told_text, told_thread,
    without_steps,
};
use crate::relational::commands::opening::{ask_text, lock_question};
use crate::relational::commands::replying::{ask_post, ask_thread, post_question, thread_question};
use crate::relational::moderating::{
    AnswerActivity, AnswerActivityRow, accepted_reply, answer_outcome, answer_writes,
    check_accepted_reply, decide_answer, mutate_answer, wanted_answer,
};
use crate::relational::sql::{CATEGORY_OF_THREAD, LOCK_CATEGORY_FORMAT};
use crate::relational::writing::Contended;
use crate::rows::{opt, views};
use crate::store::types::{
    AcceptedAnswerAction, AcceptedAnswerMutation, AcceptedAnswerMutationRow, Failure, not_found,
};

verus! {

/// A locked thread gets the accepted post, or none.
pub open spec fn answered(
    thread: ThreadRow,
    post: Option<PostRow>,
    activity: Option<AnswerActivityRow>,
) -> AskRow<AcceptedAnswerMutationRow> {
    AskRow::Finish(
        committing(answer_writes(thread, post, activity)),
        answer_outcome(thread, post, activity),
    )
}

/// An answer is accepted or cleared, once the category that was read before, the thread in it, and
/// the wanted reply are locked.
pub open spec fn answering(
    thread_id: Seq<char>,
    action: AcceptedAnswerAction,
    activity: Option<AnswerActivityRow>,
    attempt: int,
    told: Seq<ToldRow>,
) -> AskRow<AcceptedAnswerMutationRow> {
    if told.len() == 0 {
        lock_question(no_steps(), CATEGORY_OF_THREAD@, thread_id)
    } else {
        match text_at(told, 0) {
            None => AskRow::Fail(Failure::NotFound("thread not found"@)),
            Some(hint) => if told.len() == 1 {
                lock_question(begin(), LOCK_CATEGORY_FORMAT@, hint)
            } else {
                match text_at(told, 1) {
                    None => AskRow::Fail(Failure::NotFound("category not found"@)),
                    Some(format) => if told.len() == 2 {
                        thread_question(thread_id)
                    } else {
                        match thread_at(told, 2) {
                            None => AskRow::Fail(Failure::NotFound("thread not found"@)),
                            Some(t) => if t.thread.category_id != hint {
                                over(attempt, Contended::AnswerMutation)
                            } else {
                                match wanted_answer(action, format, t.first_post_id) {
                                    Err(e) => AskRow::Fail(e),
                                    Ok(None) => answered(t.thread, None, activity),
                                    Ok(Some(id)) => if told.len() == 3 {
                                        post_question(id)
                                    } else {
                                        match accepted_reply(thread_id, post_at(told, 3)) {
                                            Err(e) => AskRow::Fail(e),
                                            Ok(p) => answered(t.thread, Some(p), activity),
                                        }
                                    },
                                }
                            },
                        }
                    },
                }
            },
        }
    }
}

fn answer(thread: Thread, post: Option<Post>, activity: Option<AnswerActivity<'_>>) -> (r: Ask<
    AcceptedAnswerMutation,
>)
    ensures
        r@ == answered(thread@, opt(post), opt(activity)),
{
    let (writes, outcome) = mutate_answer(thread, post, activity);
    Ask::Finish(commit_of(writes), outcome)
}

/// The next step of accepting or clearing an answer.
pub fn mutate_accepted_answer(
    thread_id: &str,
    action: &AcceptedAnswerAction,
    activity: Option<AnswerActivity<'_>>,
    attempt: usize,
    told: &Vec<Told>,
) -> (r: Ask<AcceptedAnswerMutation>)
    ensures
        r@ == answering(thread_id@, *action, opt(activity), attempt as int, views(told@)),
{
    if told.len() == 0 {
        return ask_text(without_steps(), CATEGORY_OF_THREAD, thread_id);
    }
    let hint = match told_text(told, 0) {
        None => {
            return Ask::Fail(not_found("thread not found"));
        },
        Some(hint) => hint,
    };
    if told.len() == 1 {
        return ask_text(beginning(), LOCK_CATEGORY_FORMAT, hint.as_str());
    }
    let format = match told_text(told, 1) {
        None => {
            return Ask::Fail(not_found("category not found"));
        },
        Some(format) => format,
    };
    if told.len() == 2 {
        return ask_thread(thread_id);
    }
    match told_thread(told, 2) {
        None => Ask::Fail(not_found("thread not found")),
        Some(t) => {
            let OpenedThread { thread, first_post_id } = t;
            if thread.category_id != hint {
                return start_over(attempt, Contended::AnswerMutation);
            }
            match decide_answer(action, format.as_str(), first_post_id.as_str()) {
                Err(e) => Ask::Fail(e),
                Ok(None) => answer(thread, None, activity),
                Ok(Some(id)) => {
                    if told.len() == 3 {
                        return ask_post(id.as_str());
                    }
                    match check_accepted_reply(thread_id, told_post(told, 3)) {
                        Err(e) => Ask::Fail(e),
                        Ok(p) => answer(thread, Some(p), activity),
                    }
                },
            }
        },
    }
}

} // verus!
