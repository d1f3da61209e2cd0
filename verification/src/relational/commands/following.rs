//! Following threads and focusing on categories.

use vstd::prelude::*;

use crate::model::{CategoryFocusLevel, ThreadFollowLevel};
use crate::relational::command::{
    Ask, AskRow, Shape, Step, StepRow, Told, ToldRow, at_most, begin, beginning, commit_of,
    committing, just, no_steps, over, perhaps, running, start_over, steps_of, text_at, texts_at,
    told_text, told_texts, without_steps,
};
use crate::relational::commands::opening::{ask_text, clock_at, lock_question, told_clock};
use crate::relational::personal::{
    check_focus_request, check_watch, focus_request, focus_statement, focus_writes,
    level_statements, level_writes, watch_check,
};
use crate::relational::sql::{
    ALL_WATCHERS, CATEGORY_OF_THREAD, COUNT_FOCUS_RULES, GUARD_FOCUS_OWNER, LOCK_CATEGORY,
    LOCK_FOCUS_OWNER, LOCK_FOCUS_RULE, LOCK_THREAD_CATEGORY, OWN_WATCH,
};
use crate::relational::statement::{Statement, statement};
use crate::relational::writing::Contended;
use crate::rows::views;
use crate::store::types::{Failure, MAX_THREAD_FOLLOWERS, not_found};

verus! {

/// Asks for the rows of two identifiers.
pub open spec fn pair_question<V>(
    steps: Seq<StepRow>,
    shape: Shape,
    sql: Seq<char>,
    a: Seq<char>,
    b: Seq<char>,
) -> AskRow<V> {
    AskRow::Fetch(steps, shape, statement(sql).text(a).text(b))
}

/// Asks for the rows of two identifiers.
pub(crate) fn ask_pair<T: View>(steps: Vec<Step>, shape: Shape, sql: &str, a: &str, b: &str) -> (r:
    Ask<T>)
    ensures
        r@ == pair_question::<T::V>(views(steps@), shape, sql@, a@, b@),
{
    Ask::Fetch(steps, shape, Statement::new(sql).text(a).text(b))
}

/// A viewer takes a level of a thread, once the category that was read before and the thread in it
/// are locked. Only a new watch counts the watchers.
pub open spec fn follow_change(
    thread_id: Seq<char>,
    viewer_sub: Seq<char>,
    level: ThreadFollowLevel,
    created_at: i64,
    attempt: int,
    told: Seq<ToldRow>,
) -> AskRow<()> {
    if told.len() == 0 {
        lock_question(no_steps(), CATEGORY_OF_THREAD@, thread_id)
    } else {
        match text_at(told, 0) {
            None => AskRow::Fail(Failure::NotFound("thread not found"@)),
            Some(hint) => if told.len() == 1 {
                lock_question(begin(), LOCK_CATEGORY@, hint)
            } else if text_at(told, 1) is None {
                AskRow::Fail(Failure::NotFound("category not found"@))
            } else if told.len() == 2 {
                lock_question(no_steps(), LOCK_THREAD_CATEGORY@, thread_id)
            } else {
                match text_at(told, 2) {
                    None => AskRow::Fail(Failure::NotFound("thread not found"@)),
                    Some(current) => if current != hint {
                        over(attempt, Contended::FollowCommand)
                    } else if told.len() == 3 {
                        pair_question(no_steps(), Shape::Text, OWN_WATCH@, thread_id, viewer_sub)
                    } else if level is Watch && text_at(told, 3) is None && told.len() == 4 {
                        AskRow::Fetch(
                            no_steps(),
                            Shape::Texts,
                            statement(ALL_WATCHERS@).text(thread_id).number(
                                (MAX_THREAD_FOLLOWERS + 1) as i64,
                            ),
                        )
                    } else {
                        match watch_check(
                            level,
                            text_at(told, 3) is Some,
                            texts_at(told, 4).len() as int,
                        ) {
                            Err(e) => AskRow::Fail(e),
                            Ok(_) => AskRow::Finish(
                                committing(level_writes(thread_id, viewer_sub, level, created_at)),
                                (),
                            ),
                        }
                    },
                }
            },
        }
    }
}

/// The next step of setting a viewer's relationship to a thread.
pub fn set_thread_follow_level(
    thread_id: &str,
    subscriber_sub: &str,
    level: ThreadFollowLevel,
    created_at: i64,
    attempt: usize,
    told: &Vec<Told>,
) -> (r: Ask<()>)
    ensures
        r@ == follow_change(
            thread_id@,
            subscriber_sub@,
            level,
            created_at,
            attempt as int,
            views(told@),
        ),
{
    if told.len() == 0 {
        return ask_text(without_steps(), CATEGORY_OF_THREAD, thread_id);
    }
    let hint = match told_text(told, 0) {
        None => {
            return Ask::Fail(not_found("thread not found"));
        },
        Some(hint) => hint,
    };
    if told.len() == 1 {
        return ask_text(beginning(), LOCK_CATEGORY, hint.as_str());
    }
    if told_text(told, 1).is_none() {
        return Ask::Fail(not_found("category not found"));
    }
    if told.len() == 2 {
        return ask_text(without_steps(), LOCK_THREAD_CATEGORY, thread_id);
    }
    let current = match told_text(told, 2) {
        None => {
            return Ask::Fail(not_found("thread not found"));
        },
        Some(current) => current,
    };
    if current != hint {
        return start_over(attempt, Contended::FollowCommand);
    }
    if told.len() == 3 {
        return ask_pair(without_steps(), Shape::Text, OWN_WATCH, thread_id, subscriber_sub);
    }
    let watching = told_text(told, 3).is_some();
    if level == ThreadFollowLevel::Watch && !watching && told.len() == 4 {
        return Ask::Fetch(
            without_steps(),
            Shape::Texts,
            Statement::new(ALL_WATCHERS).text(thread_id).number((MAX_THREAD_FOLLOWERS + 1) as i64),
        );
    }
    let watchers = told_texts(told, 4);
    match check_watch(level, watching, watchers.len()) {
        Err(e) => Ask::Fail(e),
        Ok(_) => Ask::Finish(
            commit_of(level_statements(thread_id, subscriber_sub, level, created_at)),
            (),
        ),
    }
}

/// A viewer sets, replaces, or removes their rule for a category, once the category, the viewer,
/// and the rule are locked. Only a new rule counts the rules.
pub open spec fn focus_setting(
    viewer_sub: Seq<char>,
    category_id: Seq<char>,
    level: CategoryFocusLevel,
    changed_at: i64,
    told: Seq<ToldRow>,
) -> AskRow<()> {
    match focus_request(viewer_sub, changed_at) {
        Err(e) => AskRow::Fail(e),
        Ok(_) => if told.len() == 0 {
            lock_question(begin(), LOCK_CATEGORY@, category_id)
        } else if text_at(told, 0) is None {
            AskRow::Fail(Failure::NotFound("category not found"@))
        } else if told.len() == 1 {
            lock_question(
                running(seq![statement(GUARD_FOCUS_OWNER@).text(viewer_sub)]),
                LOCK_FOCUS_OWNER@,
                viewer_sub,
            )
        } else if told.len() == 2 {
            pair_question(no_steps(), Shape::Text, LOCK_FOCUS_RULE@, viewer_sub, category_id)
        } else if text_at(told, 2) is None && !(level is Unset) && told.len() == 3 {
            AskRow::Fetch(
                no_steps(),
                Shape::Number,
                statement(COUNT_FOCUS_RULES@).text(viewer_sub),
            )
        } else {
            match focus_writes(
                viewer_sub,
                category_id,
                level,
                changed_at,
                text_at(told, 2),
                clock_at(told, 3) as int,
            ) {
                Err(e) => AskRow::Fail(e),
                Ok(s) => AskRow::Finish(committing(at_most(s)), ()),
            }
        },
    }
}

/// The next step of setting a viewer's rule for a category.
pub fn set_category_focus_level(
    viewer_sub: &str,
    category_id: &str,
    level: CategoryFocusLevel,
    changed_at: i64,
    told: &Vec<Told>,
) -> (r: Ask<()>)
    ensures
        r@ == focus_setting(viewer_sub@, category_id@, level, changed_at, views(told@)),
{
    if let Err(e) = check_focus_request(viewer_sub, changed_at) {
        return Ask::Fail(e);
    }
    if told.len() == 0 {
        return ask_text(beginning(), LOCK_CATEGORY, category_id);
    }
    if told_text(told, 0).is_none() {
        return Ask::Fail(not_found("category not found"));
    }
    if told.len() == 1 {
        return ask_text(
            steps_of(just(Statement::new(GUARD_FOCUS_OWNER).text(viewer_sub))),
            LOCK_FOCUS_OWNER,
            viewer_sub,
        );
    }
    if told.len() == 2 {
        return ask_pair(without_steps(), Shape::Text, LOCK_FOCUS_RULE, viewer_sub, category_id);
    }
    let stored = told_text(told, 2);
    if stored.is_none() && level != CategoryFocusLevel::Unset && told.len() == 3 {
        return Ask::Fetch(
            without_steps(),
            Shape::Number,
            Statement::new(COUNT_FOCUS_RULES).text(viewer_sub),
        );
    }
    let stored = match &stored {
        Some(name) => Some(name.as_str()),
        None => None,
    };
    match focus_statement(
        viewer_sub,
        category_id,
        level,
        changed_at,
        stored,
        told_clock(told, 3),
    ) {
        Err(e) => Ask::Fail(e),
        Ok(s) => Ask::Finish(commit_of(perhaps(s)), ()),
    }
}

} // verus!
