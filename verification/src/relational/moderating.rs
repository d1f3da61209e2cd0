//! Categories, deletions, moves, and accepted answers: what is decided on the rows that were read,
//! and which statements follow.

use vstd::prelude::*;
use vstd::string::StringExecFns;

use crate::model::{
    ActivityDelivery, ActivityDeliveryRow, ActivityEvent, ActivityKind, ActivityReason,
    CategoryFormat, Post, PostRow, Thread, ThreadRow,
};
use crate::relational::sql::{
    CLEAR_QUOTES, DELETE_CATEGORY, DELETE_MENTIONS, DELETE_POST, DELETE_POST_EVENTS,
    DELETE_POST_REACTIONS, DELETE_THREAD, DELETE_THREAD_EVENTS, DELETE_THREAD_MENTIONS,
    DELETE_THREAD_POSTS, DELETE_THREAD_PREFERENCES, DELETE_THREAD_REACTIONS, DELETE_THREAD_WATCHES,
    LOCK_POST_EVENTS, LOCK_THREAD_EVENTS, LOCK_THREAD_POSTS, MOVE_THREAD, SETTLE_THREAD,
    SET_ACCEPTED, SET_FORMAT,
};
use crate::relational::statement::{Statement, StatementRow, statement};
use crate::relational::writing::{activity_statements, activity_writes};
use crate::rows::{any_row, append_rows, opt, some_row, views};
use crate::store::answers::{answer_deliveries, answer_event};
use crate::store::rules::{delivery_subjects, nonblank, recipients, subject_delivery};
use crate::store::types::{
    AcceptedAnswerAction, AcceptedAnswerMutation, AcceptedAnswerMutationRow, Failure, StoreError,
    invalid, maybe, not_found, plain, single,
};
use crate::text::{is_blank, same, trim, trim_text};
use crate::texts::{add_ordered, ordered_set};

verus! {

// ---------------------------------------------------------------------------
// Categories.
// ---------------------------------------------------------------------------

/// The format a stored name stands for; an unknown name stands for a discussion.
pub open spec fn stored_format(s: Seq<char>) -> CategoryFormat {
    match CategoryFormat::named(s) {
        Some(format) => format,
        None => CategoryFormat::Discussion,
    }
}

/// The format a stored name stands for; an unknown name stands for a discussion.
pub fn format_from(s: &str) -> (r: CategoryFormat)
    ensures
        r == stored_format(s@),
{
    match CategoryFormat::parse(s) {
        Some(format) => format,
        None => CategoryFormat::Discussion,
    }
}

/// What a change of format has to do.
#[derive(Clone, Copy, Debug, PartialEq, Eq, Structural)]
pub enum FormatChange {
    /// The category has the format already.
    Unchanged,
    /// The threads of the category are examined before the format is stored.
    Examine,
    /// The format is stored.
    Store,
}

/// What a change of format has to do. Only a discussion has to be free of accepted answers.
pub open spec fn format_change(current: Option<Seq<char>>, format: CategoryFormat) -> Result<
    FormatChange,
    Failure,
> {
    match current {
        None => Err(Failure::NotFound("category not found"@)),
        Some(name) => Ok(
            if stored_format(name) == format {
                FormatChange::Unchanged
            } else if format is Discussion {
                FormatChange::Examine
            } else {
                FormatChange::Store
            },
        ),
    }
}

/// What a change of format has to do.
pub fn decide_format_change(current: Option<&str>, format: CategoryFormat) -> (r: Result<
    FormatChange,
    StoreError,
>)
    ensures
        plain(r) == format_change(opt(current), format),
{
    match current {
        None => Err(not_found("category not found")),
        Some(name) => {
            if format_from(name) == format {
                Ok(FormatChange::Unchanged)
            } else if format == CategoryFormat::Discussion {
                Ok(FormatChange::Examine)
            } else {
                Ok(FormatChange::Store)
            }
        },
    }
}

/// A thread with its original post and its accepted pointer.
pub struct LockedThread {
    pub id: String,
    pub first_post_id: String,
    pub accepted_post_id: String,
}

/// The mathematical view of a [`LockedThread`].
#[verifier::ext_equal]
pub struct LockedThreadRow {
    pub id: Seq<char>,
    pub first_post_id: Seq<char>,
    pub accepted_post_id: Seq<char>,
}

impl View for LockedThread {
    type V = LockedThreadRow;

    open spec fn view(&self) -> LockedThreadRow {
        LockedThreadRow {
            id: self.id@,
            first_post_id: self.first_post_id@,
            accepted_post_id: self.accepted_post_id@,
        }
    }
}

/// Which thread a live post belongs to.
pub struct LocatedPost {
    pub post_id: String,
    pub thread_id: String,
}

/// The mathematical view of a [`LocatedPost`].
#[verifier::ext_equal]
pub struct LocatedPostRow {
    pub post_id: Seq<char>,
    pub thread_id: Seq<char>,
}

impl View for LocatedPost {
    type V = LocatedPostRow;

    open spec fn view(&self) -> LocatedPostRow {
        LocatedPostRow { post_id: self.post_id@, thread_id: self.thread_id@ }
    }
}

/// The accepted pointer of a thread.
pub open spec fn accepted_pointer() -> spec_fn(LockedThreadRow) -> Seq<char> {
    |t: LockedThreadRow| t.accepted_post_id
}

/// The accepted posts of the threads that are worth locking, ascending.
pub fn accepted_to_lock(threads: &Vec<LockedThread>) -> (out: Vec<String>)
    ensures
        views(out@) == ordered_set(nonblank(views(threads@).map_values(accepted_pointer()))),
{
    let ghost s = views(threads@).map_values(accepted_pointer());
    let mut out: Vec<String> = Vec::new();
    let mut i: usize = 0;
    assert(views(out@) =~= ordered_set(nonblank(s.take(0))));
    while i < threads.len()
        invariant
            0 <= i <= threads@.len(),
            s == views(threads@).map_values(accepted_pointer()),
            views(out@) == ordered_set(nonblank(s.take(i as int))),
        decreases threads@.len() - i,
    {
        assert(s.take(i + 1).drop_last() =~= s.take(i as int));
        assert(s[i as int] == threads@[i as int]@.accepted_post_id);
        if !is_blank(threads[i].accepted_post_id.as_str()) {
            assert(nonblank(s.take(i + 1)).drop_last() =~= nonblank(s.take(i as int)));
            add_ordered(&mut out, threads[i].accepted_post_id.clone());
        }
        i = i + 1;
    }
    assert(s.take(s.len() as int) =~= s);
    out
}

/// The post located in the thread.
pub open spec fn located_in(post_id: Seq<char>, thread_id: Seq<char>) -> spec_fn(
    LocatedPostRow,
) -> bool {
    |l: LocatedPostRow| l.post_id == post_id && l.thread_id == thread_id
}

/// The threads whose accepted pointer names a live reply of their own.
pub open spec fn holds_answer(located: Seq<LocatedPostRow>) -> spec_fn(LockedThreadRow) -> bool {
    |t: LockedThreadRow|
        t.accepted_post_id.len() > 0 && t.accepted_post_id != t.first_post_id && some_row(
            located,
            located_in(t.accepted_post_id, t.id),
        )
}

/// The change to a discussion of a category with the given threads.
pub open spec fn discussion_change(
    id: Seq<char>,
    threads: Seq<LockedThreadRow>,
    located: Seq<LocatedPostRow>,
) -> Result<StatementRow, Failure> {
    if some_row(threads, holds_answer(located)) {
        Err(
            Failure::InvalidOperation(
                "unmark accepted answers before changing this category to discussion"@,
            ),
        )
    } else {
        Ok(format_update(id, CategoryFormat::Discussion))
    }
}

/// Stores the format of a category.
pub open spec fn format_update(id: Seq<char>, format: CategoryFormat) -> StatementRow {
    statement(SET_FORMAT@).text(format.text()).text(id)
}

/// The statement that stores the format of a category.
pub fn set_format(id: &str, format: CategoryFormat) -> (s: Statement)
    ensures
        s@ == format_update(id@, format),
{
    Statement::new(SET_FORMAT).text(format.as_str()).text(id)
}

/// The statement that makes a category a discussion, unless one of its threads has an accepted
/// answer.
pub fn change_to_discussion(id: &str, threads: &Vec<LockedThread>, located: &Vec<LocatedPost>) -> (r:
    Result<Statement, StoreError>)
    ensures
        single(r) == discussion_change(id@, views(threads@), views(located@)),
{
    let test = |t: &LockedThread| -> (b: bool)
        ensures
            b == holds_answer(views(located@))(t@),
        { has_answer(t, located) };
    if any_row(threads, test, Ghost(holds_answer(views(located@)))) {
        return Err(invalid("unmark accepted answers before changing this category to discussion"));
    }
    Ok(set_format(id, CategoryFormat::Discussion))
}

fn has_answer(t: &LockedThread, located: &Vec<LocatedPost>) -> (r: bool)
    ensures
        r == holds_answer(views(located@))(t@),
{
    let test = |l: &LocatedPost| -> (b: bool)
        ensures
            b == located_in(t@.accepted_post_id, t@.id)(l@),
        { l.post_id == t.accepted_post_id && l.thread_id == t.id };
    !t.accepted_post_id.as_str().is_empty() && t.accepted_post_id != t.first_post_id && any_row(
        located,
        test,
        Ghost(located_in(t@.accepted_post_id, t@.id)),
    )
}

/// The removal of a category that was found or not and has that many threads.
pub open spec fn category_removal(id: Seq<char>, found: bool, threads: int) -> Result<
    Option<StatementRow>,
    Failure,
> {
    if !found {
        Ok(None)
    } else if threads > 0 {
        Err(Failure::InvalidOperation("category still has threads — move or delete them first"@))
    } else {
        Ok(Some(statement(DELETE_CATEGORY@).text(id)))
    }
}

/// The statement that removes a category; none when there is no such category.
pub fn remove_category(id: &str, found: bool, threads: i64) -> (r: Result<
    Option<Statement>,
    StoreError,
>)
    ensures
        maybe(r) == category_removal(id@, found, threads as int),
{
    if !found {
        return Ok(None);
    }
    if threads > 0 {
        return Err(invalid("category still has threads — move or delete them first"));
    }
    Ok(Some(Statement::new(DELETE_CATEGORY).text(id)))
}

// ---------------------------------------------------------------------------
// Deleting a thread.
// ---------------------------------------------------------------------------

/// What is run, in this order, when a thread is deleted with everything that belongs to it.
pub open spec fn thread_removal(thread_id: Seq<char>) -> Seq<StatementRow> {
    seq![
        statement(LOCK_THREAD_POSTS@).text(thread_id),
        statement(DELETE_THREAD_REACTIONS@).text(thread_id),
        statement(DELETE_THREAD_MENTIONS@).text(thread_id),
        statement(DELETE_THREAD_WATCHES@).text(thread_id),
        statement(DELETE_THREAD_PREFERENCES@).text(thread_id),
        statement(LOCK_THREAD_EVENTS@).text(thread_id),
        statement(DELETE_THREAD_EVENTS@).text(thread_id),
        statement(DELETE_THREAD_POSTS@).text(thread_id),
        statement(DELETE_THREAD@).text(thread_id),
    ]
}

/// The statements that delete a thread with everything that belongs to it.
pub fn thread_removal_statements(thread_id: &str) -> (out: Vec<Statement>)
    ensures
        views(out@) == thread_removal(thread_id@),
{
    let mut out: Vec<Statement> = Vec::new();
    out.push(Statement::new(LOCK_THREAD_POSTS).text(thread_id));
    out.push(Statement::new(DELETE_THREAD_REACTIONS).text(thread_id));
    out.push(Statement::new(DELETE_THREAD_MENTIONS).text(thread_id));
    out.push(Statement::new(DELETE_THREAD_WATCHES).text(thread_id));
    out.push(Statement::new(DELETE_THREAD_PREFERENCES).text(thread_id));
    out.push(Statement::new(LOCK_THREAD_EVENTS).text(thread_id));
    out.push(Statement::new(DELETE_THREAD_EVENTS).text(thread_id));
    out.push(Statement::new(DELETE_THREAD_POSTS).text(thread_id));
    out.push(Statement::new(DELETE_THREAD).text(thread_id));
    assert(views(out@) =~= thread_removal(thread_id@));
    out
}

/// What the deletion of a thread does with the category it reads again under its lock.
#[derive(Clone, Copy, Debug, PartialEq, Eq, Structural)]
pub enum ThreadRemoval {
    /// The thread is gone already.
    Gone,
    /// The thread changed its category meanwhile.
    Retry,
    /// The thread is deleted.
    Remove,
}

/// What the deletion of a thread does with the category it reads again under its lock.
pub open spec fn thread_removal_turn(hint: Seq<char>, current: Option<Seq<char>>) -> ThreadRemoval {
    match current {
        None => ThreadRemoval::Gone,
        Some(category_id) => if category_id != hint {
            ThreadRemoval::Retry
        } else {
            ThreadRemoval::Remove
        },
    }
}

/// What the deletion of a thread does with the category it reads again under its lock.
pub fn decide_thread_removal(hint: &str, current: Option<&str>) -> (r: ThreadRemoval)
    ensures
        r == thread_removal_turn(hint@, opt(current)),
{
    match current {
        None => ThreadRemoval::Gone,
        Some(category_id) => {
            if same(category_id, hint) {
                ThreadRemoval::Remove
            } else {
                ThreadRemoval::Retry
            }
        },
    }
}

// ---------------------------------------------------------------------------
// Deleting a post.
// ---------------------------------------------------------------------------

/// What the deletion of a post does with the rows it has locked.
#[derive(Clone, Copy, Debug, PartialEq, Eq, Structural)]
pub enum PostRemoval {
    /// The post is gone already.
    Gone,
    /// The thread or the post moved meanwhile.
    Retry,
    /// The post is the original one, which goes only with its thread.
    Original,
    /// The post is deleted.
    Remove,
}

/// What the deletion of a post does: the locked thread must still be in the category that was read
/// before, and the locked post in the thread.
pub open spec fn post_removal_turn(
    category_hint: Seq<char>,
    thread_hint: Seq<char>,
    thread: ThreadRow,
    first_post_id: Seq<char>,
    post: Option<PostRow>,
) -> PostRemoval {
    if thread.category_id != category_hint {
        PostRemoval::Retry
    } else {
        match post {
            None => PostRemoval::Gone,
            Some(p) => if p.thread_id != thread_hint {
                PostRemoval::Retry
            } else if p.id == first_post_id {
                PostRemoval::Original
            } else {
                PostRemoval::Remove
            },
        }
    }
}

/// What the deletion of a post does with the rows it has locked.
pub fn decide_post_removal(
    category_hint: &str,
    thread_hint: &str,
    thread: &Thread,
    first_post_id: &str,
    post: Option<&Post>,
) -> (r: PostRemoval)
    ensures
        r == post_removal_turn(
            category_hint@,
            thread_hint@,
            thread@,
            first_post_id@,
            opt(post),
        ),
{
    if !same(thread.category_id.as_str(), category_hint) {
        return PostRemoval::Retry;
    }
    match post {
        None => PostRemoval::Gone,
        Some(p) => {
            if !same(p.thread_id.as_str(), thread_hint) {
                PostRemoval::Retry
            } else if same(p.id.as_str(), first_post_id) {
                PostRemoval::Original
            } else {
                PostRemoval::Remove
            }
        },
    }
}

/// The failure to delete an original post by itself.
pub fn original_is_kept() -> (e: StoreError)
    ensures
        e@ == Failure::InvalidOperation(
            "the original post cannot be deleted separately; delete the thread"@,
        ),
{
    invalid("the original post cannot be deleted separately; delete the thread")
}

/// What is run, in this order, when a reply is deleted with everything that belongs to it.
pub open spec fn post_removal(post_id: Seq<char>) -> Seq<StatementRow> {
    seq![
        statement(DELETE_POST_REACTIONS@).text(post_id),
        statement(DELETE_MENTIONS@).text(post_id),
        statement(LOCK_POST_EVENTS@).text(post_id),
        statement(DELETE_POST_EVENTS@).text(post_id),
        statement(CLEAR_QUOTES@).text(post_id),
        statement(DELETE_POST@).text(post_id),
    ]
}

/// The statements that delete a reply with everything that belongs to it.
pub fn post_removal_statements(post_id: &str) -> (out: Vec<Statement>)
    ensures
        views(out@) == post_removal(post_id@),
{
    let mut out: Vec<Statement> = Vec::new();
    out.push(Statement::new(DELETE_POST_REACTIONS).text(post_id));
    out.push(Statement::new(DELETE_MENTIONS).text(post_id));
    out.push(Statement::new(LOCK_POST_EVENTS).text(post_id));
    out.push(Statement::new(DELETE_POST_EVENTS).text(post_id));
    out.push(Statement::new(CLEAR_QUOTES).text(post_id));
    out.push(Statement::new(DELETE_POST).text(post_id));
    assert(views(out@) =~= post_removal(post_id@));
    out
}

/// The accepted pointer of a thread after one of its replies was deleted.
pub open spec fn remaining_answer(thread: ThreadRow, first_post_id: Seq<char>, post_id: Seq<char>) -> Seq<
    char,
> {
    if thread.accepted_post_id == post_id || thread.accepted_post_id == first_post_id {
        Seq::empty()
    } else {
        thread.accepted_post_id
    }
}

/// The thread after one of its replies was deleted; its original post must still be there.
pub open spec fn thread_settling(
    thread: ThreadRow,
    first_post_id: Seq<char>,
    post_id: Seq<char>,
    newest_at: Option<i64>,
) -> Result<StatementRow, Failure> {
    match newest_at {
        None => Err(Failure::Backend("thread has no original post after reply deletion"@)),
        Some(at) => Ok(
            statement(SETTLE_THREAD@).number(at).text(
                remaining_answer(thread, first_post_id, post_id),
            ).text(thread.id),
        ),
    }
}

/// The statement that stores the thread after one of its replies was deleted.
pub fn settle_thread(
    thread: &Thread,
    first_post_id: &str,
    post_id: &str,
    newest_at: Option<i64>,
) -> (r: Result<Statement, StoreError>)
    ensures
        single(r) == thread_settling(thread@, first_post_id@, post_id@, newest_at),
{
    match newest_at {
        None => Err(
            StoreError::Backend("thread has no original post after reply deletion".to_owned()),
        ),
        Some(at) => {
            let mut accepted: String = thread.accepted_post_id.clone();
            if same(accepted.as_str(), post_id) || same(accepted.as_str(), first_post_id) {
                accepted = String::new();
                assert(accepted@ =~= Seq::empty());
            }
            Ok(
                Statement::new(SETTLE_THREAD).number(at).text(accepted.as_str()).text(
                    thread.id.as_str(),
                ),
            )
        },
    }
}

// ---------------------------------------------------------------------------
// Moving a thread.
// ---------------------------------------------------------------------------

/// The categories a move locks, ascending, so that two moves never wait for each other.
pub fn move_lock_order(source: &str, target: &str) -> (out: Vec<String>)
    ensures
        views(out@) == ordered_set(seq![source@, target@]),
{
    let mut out: Vec<String> = Vec::new();
    let ghost s = seq![source@, target@];
    assert(s.drop_last() =~= seq![source@]);
    assert(seq![source@].drop_last() =~= Seq::empty());
    reveal_with_fuel(ordered_set, 3);
    assert(views(out@) =~= ordered_set(Seq::empty()));
    add_ordered(&mut out, source.to_owned());
    add_ordered(&mut out, target.to_owned());
    out
}

/// The format of the category a thread moves to; both categories must exist.
pub open spec fn move_target(source: Option<Seq<char>>, target: Option<Seq<char>>) -> Result<
    CategoryFormat,
    Failure,
> {
    if source is None {
        Err(Failure::NotFound("source category not found"@))
    } else {
        match target {
            Some(name) => match CategoryFormat::named(name) {
                Some(format) => Ok(format),
                None => Err(Failure::InvalidOperation("unknown category"@)),
            },
            None => Err(Failure::InvalidOperation("unknown category"@)),
        }
    }
}

/// The format of the category a thread moves to, from the stored formats of both categories.
pub fn decide_move_target(source: Option<&str>, target: Option<&str>) -> (r: Result<
    CategoryFormat,
    StoreError,
>)
    ensures
        plain(r) == move_target(opt(source), opt(target)),
{
    if source.is_none() {
        return Err(not_found("source category not found"));
    }
    match target {
        Some(name) => match CategoryFormat::parse(name) {
            Some(format) => Ok(format),
            None => Err(invalid("unknown category")),
        },
        None => Err(invalid("unknown category")),
    }
}

/// The move of a locked thread. A valid accepted reply cannot move into a discussion, and an
/// invalid pointer is dropped on the way.
pub open spec fn move_writes(
    thread: ThreadRow,
    first_post_id: Seq<char>,
    accepted_in: Option<Seq<char>>,
    category_id: Seq<char>,
    format: CategoryFormat,
) -> Result<StatementRow, Failure> {
    let valid = thread.accepted_post_id != first_post_id && accepted_in == Some(thread.id);
    if thread.category_id != category_id && valid && !(format is Question) {
        Err(
            Failure::InvalidOperation(
                "unmark the accepted answer before moving this thread to a discussion category"@,
            ),
        )
    } else {
        Ok(
            statement(MOVE_THREAD@).text(category_id).text(
                if valid {
                    thread.accepted_post_id
                } else {
                    Seq::empty()
                },
            ).text(thread.id),
        )
    }
}

/// The statement that moves a locked thread; `accepted_in` is the thread its accepted post lives
/// in.
pub fn move_thread(
    thread: &Thread,
    first_post_id: &str,
    accepted_in: Option<&str>,
    category_id: &str,
    format: CategoryFormat,
) -> (r: Result<Statement, StoreError>)
    ensures
        single(r) == move_writes(
            thread@,
            first_post_id@,
            opt(accepted_in),
            category_id@,
            format,
        ),
{
    let lives_here = match accepted_in {
        Some(id) => same(id, thread.id.as_str()),
        None => false,
    };
    let valid = !same(thread.accepted_post_id.as_str(), first_post_id) && lives_here;
    if !same(thread.category_id.as_str(), category_id) && valid && !format.is_question() {
        return Err(
            invalid("unmark the accepted answer before moving this thread to a discussion category"),
        );
    }
    let accepted: String = if valid {
        thread.accepted_post_id.clone()
    } else {
        String::new()
    };
    assert(!valid ==> accepted@ =~= Seq::empty());
    Ok(
        Statement::new(MOVE_THREAD).text(category_id).text(accepted.as_str()).text(
            thread.id.as_str(),
        ),
    )
}

// ---------------------------------------------------------------------------
// Accepted answers.
// ---------------------------------------------------------------------------

/// The reply an action wants accepted; none when it clears the answer.
pub open spec fn wanted_answer(
    action: AcceptedAnswerAction,
    format: Seq<char>,
    first_post_id: Seq<char>,
) -> Result<Option<Seq<char>>, Failure> {
    match action {
        AcceptedAnswerAction::Clear => Ok(None),
        AcceptedAnswerAction::Accept { post_id } => {
            let id = trim_text(post_id@);
            if !(stored_format(format) is Question) {
                Err(
                    Failure::InvalidOperation(
                        "accepted answers are available only in question categories"@,
                    ),
                )
            } else if id.len() == 0 {
                Err(Failure::InvalidOperation("reply is required when accepting an answer"@))
            } else if id == first_post_id {
                Err(Failure::InvalidOperation("the original post cannot be the accepted answer"@))
            } else {
                Ok(Some(id))
            }
        },
    }
}

/// The reply an action wants accepted, in a category with the stored format.
pub fn decide_answer(action: &AcceptedAnswerAction, format: &str, first_post_id: &str) -> (r: Result<
    Option<String>,
    StoreError,
>)
    ensures
        maybe(r) == wanted_answer(*action, format@, first_post_id@),
{
    match action {
        AcceptedAnswerAction::Clear => Ok(None),
        AcceptedAnswerAction::Accept { post_id } => {
            if !format_from(format).is_question() {
                return Err(
                    invalid("accepted answers are available only in question categories"),
                );
            }
            let id = trim(post_id.as_str());
            if id.as_str().is_empty() {
                return Err(invalid("reply is required when accepting an answer"));
            }
            if same(id.as_str(), first_post_id) {
                return Err(invalid("the original post cannot be the accepted answer"));
            }
            Ok(Some(id))
        },
    }
}

/// The accepted reply must be a post of the thread.
pub open spec fn accepted_reply(thread_id: Seq<char>, post: Option<PostRow>) -> Result<
    PostRow,
    Failure,
> {
    match post {
        Some(p) => if p.thread_id == thread_id {
            Ok(p)
        } else {
            Err(Failure::NotFound("reply not found"@))
        },
        None => Err(Failure::NotFound("reply not found"@)),
    }
}

/// The accepted reply must be a post of the thread.
pub fn check_accepted_reply(thread_id: &str, post: Option<Post>) -> (r: Result<Post, StoreError>)
    ensures
        single(r) == accepted_reply(thread_id@, opt(post)),
{
    match post {
        Some(p) => {
            if same(p.thread_id.as_str(), thread_id) {
                Ok(p)
            } else {
                Err(not_found("reply not found"))
            }
        },
        None => Err(not_found("reply not found")),
    }
}

/// Who accepts an answer, when, and under which event.
pub struct AnswerActivity<'a> {
    pub activity_id: &'a str,
    pub actor_sub: &'a str,
    pub created_at: i64,
}

/// The mathematical view of an [`AnswerActivity`].
#[verifier::ext_equal]
pub struct AnswerActivityRow {
    pub activity_id: Seq<char>,
    pub actor_sub: Seq<char>,
    pub created_at: i64,
}

impl<'a> View for AnswerActivity<'a> {
    type V = AnswerActivityRow;

    open spec fn view(&self) -> AnswerActivityRow {
        AnswerActivityRow {
            activity_id: self.activity_id@,
            actor_sub: self.actor_sub@,
            created_at: self.created_at,
        }
    }
}

/// The identifier of the accepted post; none is empty.
pub open spec fn accepted_id(post: Option<PostRow>) -> Seq<char> {
    match post {
        Some(p) => p.id,
        None => Seq::empty(),
    }
}

/// Whom the mutation is delivered to.
pub open spec fn told_about_answer(
    thread: ThreadRow,
    post: Option<PostRow>,
    activity: Option<AnswerActivityRow>,
) -> Seq<ActivityDeliveryRow> {
    match activity {
        Some(a) => answer_deliveries(
            thread.accepted_post_id != accepted_id(post),
            post,
            a.actor_sub,
        ),
        None => Seq::empty(),
    }
}

/// What is stored when a locked thread gets the accepted post, or none.
pub open spec fn answer_writes(
    thread: ThreadRow,
    post: Option<PostRow>,
    activity: Option<AnswerActivityRow>,
) -> Seq<StatementRow> {
    seq![statement(SET_ACCEPTED@).text(accepted_id(post)).text(thread.id)] + match activity {
        Some(a) => activity_writes(
            answer_event(thread.id, post, a.activity_id, a.actor_sub, a.created_at),
            told_about_answer(thread, post, activity),
        ),
        None => Seq::empty(),
    }
}

/// What the caller is told about the mutation.
pub open spec fn answer_outcome(
    thread: ThreadRow,
    post: Option<PostRow>,
    activity: Option<AnswerActivityRow>,
) -> AcceptedAnswerMutationRow {
    AcceptedAnswerMutationRow {
        thread: ThreadRow { accepted_post_id: accepted_id(post), ..thread },
        accepted_post: post,
        changed: thread.accepted_post_id != accepted_id(post),
        delivery_subjects: ordered_set(recipients(told_about_answer(thread, post, activity))),
    }
}

/// The statements that give a locked thread the accepted post, or none, and what the caller is
/// told.
pub fn mutate_answer(thread: Thread, post: Option<Post>, activity: Option<AnswerActivity<'_>>) -> (r: (
    Vec<Statement>,
    AcceptedAnswerMutation,
))
    ensures
        views(r.0@) == answer_writes(thread@, opt(post), opt(activity)),
        r.1@ == answer_outcome(thread@, opt(post), opt(activity)),
{
    let next_id: String = match &post {
        Some(p) => p.id.clone(),
        None => String::new(),
    };
    assert(next_id@ =~= accepted_id(opt(post)));
    let changed = thread.accepted_post_id != next_id;
    let mut out: Vec<Statement> = Vec::new();
    out.push(Statement::new(SET_ACCEPTED).text(next_id.as_str()).text(thread.id.as_str()));
    let ghost first = seq![
        statement(SET_ACCEPTED@).text(accepted_id(opt(post))).text(thread@.id),
    ];
    assert(views(out@) =~= first);
    let mut deliveries: Vec<ActivityDelivery> = Vec::new();
    assert(views(deliveries@) =~= Seq::empty());
    if let Some(a) = &activity {
        if let Some(p) = &post {
            if changed {
                if let Some(d) = subject_delivery(
                    p.author_sub.as_str(),
                    a.actor_sub,
                    ActivityReason::Answer,
                ) {
                    deliveries.push(d);
                }
            }
        }
        assert(views(deliveries@) =~= told_about_answer(thread@, opt(post), opt(activity)));
        let event = ActivityEvent {
            id: a.activity_id.to_owned(),
            kind: ActivityKind::AnswerAccepted,
            thread_id: thread.id.clone(),
            post_id: next_id.clone(),
            actor_sub: a.actor_sub.to_owned(),
            created_at: a.created_at,
        };
        append_rows(&mut out, activity_statements(&event, &deliveries));
    }
    assert(views(out@) =~= answer_writes(thread@, opt(post), opt(activity)));
    let subjects = delivery_subjects(&deliveries);
    let mut thread = thread;
    thread.accepted_post_id = next_id;
    (
        out,
        AcceptedAnswerMutation { thread, accepted_post: post, changed, delivery_subjects: subjects },
    )
}

} // verus!
