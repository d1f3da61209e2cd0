//! Writing threads and replies: what is decided on the rows that were read, and which statements
//! follow.

use vstd::prelude::*;
use vstd::string::StringExecFns;

use crate::model::{
    ActivityDelivery, ActivityDeliveryRow, ActivityEvent, ActivityEventRow, ActivityKind,
    ActivityReason, Post, PostRow, Thread, ThreadRow,
};
use crate::relational::sql::{
    ADVANCE_CLOCK, BUMP_THREAD, DELETE_MENTIONS, INSERT_ALIAS, INSERT_DELIVERY, INSERT_EVENT,
    INSERT_MENTION, INSERT_POINT, INSERT_POST, INSERT_THREAD,
};
use crate::relational::statement::{Statement, StatementRow, statement};
use crate::rows::{append_rows, collect_rows, collected, deduped, map_rows, opt, views};
use crate::store::posting::{as_list, post_event};
use crate::store::rules::{
    alias_of, dedupe_deliveries, delivery_to, identity_alias, subject_delivery,
};
use crate::store::types::{
    Failure, MAX_THREAD_FOLLOWERS, StoreError, invalid, listed, maybe, not_found, plain,
};
use crate::text::same;
use crate::texts::distinct_names;

verus! {

// ---------------------------------------------------------------------------
// Taking turns.
// ---------------------------------------------------------------------------

/// How often a command starts over when its thread changes its category meanwhile.
pub const MAX_ATTEMPTS: usize = 4;

/// Whether a command goes on with the rows it has locked.
#[derive(Clone, Copy, Debug, PartialEq, Eq, Structural)]
pub enum Turn {
    /// The rows are not the ones the command set out with: it starts over.
    Retry,
    /// The command goes on.
    Proceed,
}

/// A command that gives up after its attempts.
#[derive(Clone, Copy, Debug, PartialEq, Eq, Structural)]
pub enum Contended {
    Reply,
    ThreadDelete,
    PostDelete,
    Move,
    AnswerMutation,
    FollowCommand,
}

impl Contended {
    /// What the caller is told to try again.
    pub open spec fn text(self) -> Seq<char> {
        match self {
            Contended::Reply => "reply"@,
            Contended::ThreadDelete => "thread delete"@,
            Contended::PostDelete => "post delete"@,
            Contended::Move => "move"@,
            Contended::AnswerMutation => "answer mutation"@,
            Contended::FollowCommand => "follow command"@,
        }
    }

    /// The failure of a command whose attempts are used up.
    pub fn given_up(self) -> (e: StoreError)
        ensures
            e@ == Failure::Backend(
                "thread category changed repeatedly; retry the "@ + self.text(),
            ),
    {
        let what = match self {
            Contended::Reply => "reply",
            Contended::ThreadDelete => "thread delete",
            Contended::PostDelete => "post delete",
            Contended::Move => "move",
            Contended::AnswerMutation => "answer mutation",
            Contended::FollowCommand => "follow command",
        };
        StoreError::Backend(
            "thread category changed repeatedly; retry the ".to_owned().concat(what),
        )
    }
}

// ---------------------------------------------------------------------------
// Statements.
// ---------------------------------------------------------------------------

/// Stores a thread with its original post.
pub open spec fn thread_insertion(thread: ThreadRow, first_post: PostRow) -> StatementRow {
    statement(INSERT_THREAD@).text(thread.id).text(thread.category_id).text(thread.title).text(
        thread.author_sub,
    ).text(thread.author_email).number(thread.created_at).number(thread.last_at).text(
        first_post.body_md,
    ).text(first_post.id).flag(thread.locked).flag(thread.pinned).text(thread.accepted_post_id)
}

fn insert_thread(thread: &Thread, first_post: &Post) -> (s: Statement)
    ensures
        s@ == thread_insertion(thread@, first_post@),
{
    Statement::new(INSERT_THREAD).text(thread.id.as_str()).text(thread.category_id.as_str()).text(
        thread.title.as_str(),
    ).text(thread.author_sub.as_str()).text(thread.author_email.as_str()).number(
        thread.created_at,
    ).number(thread.last_at).text(first_post.body_md.as_str()).text(first_post.id.as_str()).flag(
        thread.locked,
    ).flag(thread.pinned).text(thread.accepted_post_id.as_str())
}

/// Stores a post.
pub open spec fn post_insertion(post: PostRow) -> StatementRow {
    statement(INSERT_POST@).text(post.id).text(post.thread_id).text(post.body_md).text(
        post.quoted_post_id,
    ).text(post.author_sub).text(post.author_email).number(post.created_at)
}

/// The statement that stores a post.
pub fn insert_post(post: &Post) -> (s: Statement)
    ensures
        s@ == post_insertion(post@),
{
    Statement::new(INSERT_POST).text(post.id.as_str()).text(post.thread_id.as_str()).text(
        post.body_md.as_str(),
    ).text(post.quoted_post_id.as_str()).text(post.author_sub.as_str()).text(
        post.author_email.as_str(),
    ).number(post.created_at)
}

/// Remembers the alias an author is mentioned by, if they have one.
pub open spec fn alias_insertion(subject: Seq<char>, email: Seq<char>, created_at: i64) -> Option<
    StatementRow,
> {
    match alias_of(subject, email) {
        Some(alias) => Some(statement(INSERT_ALIAS@).text(alias).text(subject).number(created_at)),
        None => None,
    }
}

/// The statement that remembers the alias an author is mentioned by, if they have one.
pub fn insert_alias(subject: &str, email: &str, created_at: i64) -> (r: Option<Statement>)
    ensures
        opt(r) == alias_insertion(subject@, email@, created_at),
{
    match identity_alias(subject, email) {
        Some(alias) => Some(
            Statement::new(INSERT_ALIAS).text(alias.as_str()).text(subject).number(created_at),
        ),
        None => None,
    }
}

// ---------------------------------------------------------------------------
// Opening a thread.
// ---------------------------------------------------------------------------

/// Whether a thread may be opened with a post in a category that was found or not.
pub open spec fn opening_decision(
    thread: ThreadRow,
    first_post: PostRow,
    category_found: bool,
) -> Result<(), Failure> {
    if first_post.thread_id != thread.id {
        Err(Failure::InvalidOperation("the original post must belong to the new thread"@))
    } else if !category_found {
        Err(Failure::NotFound("category not found"@))
    } else {
        Ok(())
    }
}

/// Whether a thread may be opened with a post in a category that was found or not.
pub fn decide_opening(thread: &Thread, first_post: &Post, category_found: bool) -> (r: Result<
    (),
    StoreError,
>)
    ensures
        plain(r) == opening_decision(thread@, first_post@, category_found),
{
    if first_post.thread_id != thread.id {
        return Err(invalid("the original post must belong to the new thread"));
    }
    if !category_found {
        return Err(not_found("category not found"));
    }
    Ok(())
}

/// What is stored when a thread is opened, before the clock is read.
pub open spec fn opening_writes(thread: ThreadRow, first_post: PostRow) -> Seq<StatementRow> {
    seq![thread_insertion(thread, first_post), post_insertion(first_post)]
}

/// The statements that store a thread and its original post.
pub fn opening_statements(thread: &Thread, first_post: &Post) -> (out: Vec<Statement>)
    ensures
        views(out@) == opening_writes(thread@, first_post@),
{
    let mut out: Vec<Statement> = Vec::new();
    out.push(insert_thread(thread, first_post));
    out.push(insert_post(first_post));
    assert(views(out@) =~= opening_writes(thread@, first_post@));
    out
}

// ---------------------------------------------------------------------------
// The catch-up clock.
// ---------------------------------------------------------------------------

/// The generation behind the current one.
pub open spec fn following_generation(current: i64) -> Result<i64, Failure> {
    if current == i64::MAX {
        Err(Failure::InvalidOperation("catch-up generation is exhausted"@))
    } else {
        Ok((current + 1) as i64)
    }
}

/// The generation behind the current one.
pub fn next_generation(current: i64) -> (r: Result<i64, StoreError>)
    ensures
        plain(r) == following_generation(current),
{
    if current == i64::MAX {
        return Err(invalid("catch-up generation is exhausted"));
    }
    Ok(current + 1)
}

/// Stores the clock.
pub open spec fn clock_update(generation: i64) -> StatementRow {
    statement(ADVANCE_CLOCK@).number(generation)
}

/// The statement that stores the clock.
pub fn advance_clock(generation: i64) -> (s: Statement)
    ensures
        s@ == clock_update(generation),
{
    Statement::new(ADVANCE_CLOCK).number(generation)
}

/// Enters a post into the catch-up record.
pub open spec fn point_insertion(post: PostRow, seq: i64) -> StatementRow {
    statement(INSERT_POINT@).text(post.id).text(post.thread_id).number(post.created_at).number(seq)
}

/// What is stored when a post enters the catch-up record at a generation.
pub open spec fn point_writes(post: PostRow, seq: i64) -> Seq<StatementRow> {
    seq![clock_update(seq), point_insertion(post, seq)]
}

/// The statements that enter a post into the catch-up record at a generation.
pub fn point_statements(post: &Post, seq: i64) -> (out: Vec<Statement>)
    ensures
        views(out@) == point_writes(post@, seq),
{
    let mut out: Vec<Statement> = Vec::new();
    out.push(advance_clock(seq));
    out.push(
        Statement::new(INSERT_POINT).text(post.id.as_str()).text(post.thread_id.as_str()).number(
            post.created_at,
        ).number(seq),
    );
    assert(views(out@) =~= point_writes(post@, seq));
    out
}

/// A post that has no catch-up point yet.
pub struct PendingPoint {
    pub post_id: String,
    pub thread_id: String,
    pub activity_at: i64,
}

/// The mathematical view of a [`PendingPoint`].
#[verifier::ext_equal]
pub struct PendingPointRow {
    pub post_id: Seq<char>,
    pub thread_id: Seq<char>,
    pub activity_at: i64,
}

impl View for PendingPoint {
    type V = PendingPointRow;

    open spec fn view(&self) -> PendingPointRow {
        PendingPointRow {
            post_id: self.post_id@,
            thread_id: self.thread_id@,
            activity_at: self.activity_at,
        }
    }
}

/// A read receipt that has no generation yet.
pub struct PendingReceipt {
    pub viewer_sub: String,
    pub post_id: String,
}

/// The mathematical view of a [`PendingReceipt`].
#[verifier::ext_equal]
pub struct PendingReceiptRow {
    pub viewer_sub: Seq<char>,
    pub post_id: Seq<char>,
}

impl View for PendingReceipt {
    type V = PendingReceiptRow;

    open spec fn view(&self) -> PendingReceiptRow {
        PendingReceiptRow { viewer_sub: self.viewer_sub@, post_id: self.post_id@ }
    }
}

// ---------------------------------------------------------------------------
// Mentions and activity.
// ---------------------------------------------------------------------------

/// The delivery for a mentioned alias, from the subjects that use it. An alias that is used by
/// more than one subject reaches nobody.
pub open spec fn sole_delivery(subjects: Seq<Seq<char>>, actor_sub: Seq<char>) -> Option<
    ActivityDeliveryRow,
> {
    if subjects.len() == 1 {
        delivery_to(subjects[0], actor_sub, ActivityReason::Mention)
    } else {
        None
    }
}

/// The delivery for a mentioned alias, from the subjects that use it.
pub fn mention_recipient(subjects: &Vec<String>, actor_sub: &str) -> (r: Option<ActivityDelivery>)
    ensures
        opt(r) == sole_delivery(views(subjects@), actor_sub@),
{
    if subjects.len() == 1 {
        subject_delivery(subjects[0].as_str(), actor_sub, ActivityReason::Mention)
    } else {
        None
    }
}

/// Stores a mention.
pub open spec fn mention_insertion(post_id: Seq<char>, thread_id: Seq<char>, created_at: i64) -> spec_fn(
    Seq<char>,
) -> StatementRow {
    |name: Seq<char>|
        statement(INSERT_MENTION@).text(post_id).text(thread_id).text(name).number(created_at)
}

/// What is stored when the mentions of a post are replaced.
pub open spec fn mention_writes(
    post_id: Seq<char>,
    thread_id: Seq<char>,
    names: Seq<Seq<char>>,
    created_at: i64,
) -> Seq<StatementRow> {
    seq![statement(DELETE_MENTIONS@).text(post_id)] + deduped(names).map_values(
        mention_insertion(post_id, thread_id, created_at),
    )
}

/// The statements that replace the mentions of a post by the distinct names.
pub fn mention_statements(
    post_id: &str,
    thread_id: &str,
    names: &[String],
    created_at: i64,
) -> (out: Vec<Statement>)
    ensures
        views(out@) == mention_writes(post_id@, thread_id@, views(names@), created_at),
{
    let distinct = distinct_names(names);
    let f = |name: &String| -> (s: Statement)
        ensures
            s@ == mention_insertion(post_id@, thread_id@, created_at)(name@),
        {
            Statement::new(INSERT_MENTION).text(post_id).text(thread_id).text(name.as_str()).number(
                created_at,
            )
        };
    let mut out: Vec<Statement> = Vec::new();
    out.push(Statement::new(DELETE_MENTIONS).text(post_id));
    assert(views(out@) =~= seq![statement(DELETE_MENTIONS@).text(post_id@)]);
    append_rows(
        &mut out,
        map_rows(&distinct, f, Ghost(mention_insertion(post_id@, thread_id@, created_at))),
    );
    out
}

/// Stores an event.
pub open spec fn event_insertion(event: ActivityEventRow) -> StatementRow {
    statement(INSERT_EVENT@).text(event.id).text(event.kind.text()).text(event.thread_id).text(
        event.post_id,
    ).text(event.actor_sub).number(event.created_at)
}

/// Stores a delivery.
pub open spec fn delivery_insertion(activity_id: Seq<char>) -> spec_fn(
    ActivityDeliveryRow,
) -> StatementRow {
    |d: ActivityDeliveryRow|
        statement(INSERT_DELIVERY@).text(activity_id).text(d.recipient_kind.text()).text(
            d.recipient_key,
        ).text(d.reason.text())
}

/// What is stored for an event; an event without recipients is not stored.
pub open spec fn activity_writes(event: ActivityEventRow, deliveries: Seq<ActivityDeliveryRow>) -> Seq<
    StatementRow,
> {
    if deliveries.len() == 0 {
        Seq::empty()
    } else {
        seq![event_insertion(event)] + deliveries.map_values(delivery_insertion(event.id))
    }
}

/// The statements that store an event for its recipients.
pub fn activity_statements(event: &ActivityEvent, deliveries: &Vec<ActivityDelivery>) -> (out: Vec<
    Statement,
>)
    ensures
        views(out@) == activity_writes(event@, views(deliveries@)),
{
    let mut out: Vec<Statement> = Vec::new();
    if deliveries.is_empty() {
        assert(views(out@) =~= Seq::empty());
        return out;
    }
    out.push(
        Statement::new(INSERT_EVENT).text(event.id.as_str()).text(event.kind.as_str()).text(
            event.thread_id.as_str(),
        ).text(event.post_id.as_str()).text(event.actor_sub.as_str()).number(event.created_at),
    );
    assert(views(out@) =~= seq![event_insertion(event@)]);
    let f = |d: &ActivityDelivery| -> (s: Statement)
        ensures
            s@ == delivery_insertion(event@.id)(d@),
        {
            Statement::new(INSERT_DELIVERY).text(event.id.as_str()).text(
                d.recipient_kind.as_str(),
            ).text(d.recipient_key.as_str()).text(d.reason.as_str())
        };
    append_rows(&mut out, map_rows(deliveries, f, Ghost(delivery_insertion(event@.id))));
    out
}

/// The event that a post was created.
pub fn post_created(post: &Post, activity_id: &str) -> (event: ActivityEvent)
    ensures
        event@ == post_event(post@, activity_id@),
{
    ActivityEvent {
        id: activity_id.to_owned(),
        kind: ActivityKind::PostCreated,
        thread_id: post.thread_id.clone(),
        post_id: post.id.clone(),
        actor_sub: post.author_sub.clone(),
        created_at: post.created_at,
    }
}

// ---------------------------------------------------------------------------
// Replying.
// ---------------------------------------------------------------------------

/// Whether a reply may be added to the thread that was locked, whose category was read as `hint`
/// before.
pub open spec fn reply_turn(
    hint: Seq<char>,
    category_found: bool,
    thread: Option<ThreadRow>,
) -> Result<Turn, Failure> {
    if !category_found {
        Err(Failure::NotFound("category not found"@))
    } else {
        match thread {
            None => Err(Failure::NotFound("thread not found"@)),
            Some(t) => if t.category_id != hint {
                Ok(Turn::Retry)
            } else if t.locked {
                Err(Failure::InvalidOperation("this thread is locked — no new replies"@))
            } else {
                Ok(Turn::Proceed)
            },
        }
    }
}

/// Whether a reply may be added to the thread that was locked.
pub fn decide_reply(hint: &str, category_found: bool, thread: Option<&Thread>) -> (r: Result<
    Turn,
    StoreError,
>)
    ensures
        plain(r) == reply_turn(hint@, category_found, opt(thread)),
{
    if !category_found {
        return Err(not_found("category not found"));
    }
    match thread {
        None => Err(not_found("thread not found")),
        Some(t) => {
            if !same(t.category_id.as_str(), hint) {
                Ok(Turn::Retry)
            } else if t.locked {
                Err(invalid("this thread is locked — no new replies"))
            } else {
                Ok(Turn::Proceed)
            }
        },
    }
}

/// The author of the post a reply quotes. The quoted post must belong to the same thread.
pub open spec fn quoted_author_of(post: PostRow, quoted: Option<PostRow>) -> Result<
    Option<Seq<char>>,
    Failure,
> {
    if post.quoted_post_id.len() == 0 {
        Ok(None)
    } else {
        match quoted {
            Some(q) => if q.thread_id == post.thread_id {
                Ok(Some(q.author_sub))
            } else {
                Err(Failure::InvalidOperation("quoted post must belong to this thread"@))
            },
            None => Err(Failure::InvalidOperation("quoted post must belong to this thread"@)),
        }
    }
}

/// The author of the post a reply quotes.
pub fn quoted_author(post: &Post, quoted: Option<&Post>) -> (r: Result<Option<String>, StoreError>)
    ensures
        maybe(r) == quoted_author_of(post@, opt(quoted)),
{
    if post.quoted_post_id.as_str().is_empty() {
        return Ok(None);
    }
    match quoted {
        Some(q) => {
            if q.thread_id == post.thread_id {
                Ok(Some(q.author_sub.clone()))
            } else {
                Err(invalid("quoted post must belong to this thread"))
            }
        },
        None => Err(invalid("quoted post must belong to this thread")),
    }
}

/// The delivery of a reply to a watcher.
pub open spec fn watcher_delivery(post: PostRow) -> spec_fn(Seq<char>) -> Option<ActivityDeliveryRow> {
    |sub: Seq<char>| delivery_to(sub, post.author_sub, ActivityReason::Following)
}

/// The deliveries of a reply to the author of the thread, the quoted author, and the watchers.
pub open spec fn direct_recipients_of(
    thread: ThreadRow,
    post: PostRow,
    quoted_author: Option<Seq<char>>,
    watchers: Seq<Seq<char>>,
) -> Result<Seq<ActivityDeliveryRow>, Failure> {
    if watchers.len() > MAX_THREAD_FOLLOWERS {
        Err(Failure::InvalidOperation("a thread may have at most 256 followers"@))
    } else {
        Ok(
            as_list(delivery_to(thread.author_sub, post.author_sub, ActivityReason::Reply))
                + as_list(
                match quoted_author {
                    Some(author) => delivery_to(author, post.author_sub, ActivityReason::Reply),
                    None => None,
                },
            ) + collected(watchers, watcher_delivery(post)),
        )
    }
}

/// The deliveries of a reply to the author of the thread, the quoted author, and the watchers.
pub fn direct_recipients(
    thread: &Thread,
    post: &Post,
    quoted_author: Option<&str>,
    watchers: &Vec<String>,
) -> (r: Result<Vec<ActivityDelivery>, StoreError>)
    ensures
        listed(r) == direct_recipients_of(
            thread@,
            post@,
            opt(quoted_author),
            views(watchers@),
        ),
{
    if watchers.len() > MAX_THREAD_FOLLOWERS {
        return Err(invalid("a thread may have at most 256 followers"));
    }
    let mut out: Vec<ActivityDelivery> = Vec::new();
    if let Some(d) = subject_delivery(
        thread.author_sub.as_str(),
        post.author_sub.as_str(),
        ActivityReason::Reply,
    ) {
        out.push(d);
    }
    let ghost first = as_list(
        delivery_to(thread@.author_sub, post@.author_sub, ActivityReason::Reply),
    );
    assert(views(out@) =~= first);
    if let Some(author) = quoted_author {
        if let Some(d) = subject_delivery(author, post.author_sub.as_str(), ActivityReason::Reply) {
            out.push(d);
        }
    }
    assert(views(out@) =~= first + as_list(
        match opt(quoted_author) {
            Some(author) => delivery_to(author, post@.author_sub, ActivityReason::Reply),
            None => None,
        },
    ));
    let f = |sub: &String| -> (d: Option<ActivityDelivery>)
        ensures
            opt(d) == watcher_delivery(post@)(sub@),
        { subject_delivery(sub.as_str(), post.author_sub.as_str(), ActivityReason::Following) };
    append_rows(&mut out, collect_rows(watchers, f, Ghost(watcher_delivery(post@))));
    Ok(out)
}

/// All deliveries of a post: the direct ones and those to the mentioned subjects, each once.
pub fn all_recipients(direct: Vec<ActivityDelivery>, mentioned: Vec<ActivityDelivery>) -> (out: Vec<
    ActivityDelivery,
>)
    ensures
        views(out@) == deduped(views(direct@) + views(mentioned@)),
{
    let mut out = direct;
    append_rows(&mut out, mentioned);
    dedupe_deliveries(&mut out);
    out
}

/// What is stored for a reply once its generation is known.
pub open spec fn reply_writes(post: PostRow, seq: i64) -> Seq<StatementRow> {
    point_writes(post, seq).push(
        statement(BUMP_THREAD@).number(post.created_at).text(post.thread_id),
    )
}

/// The statements that follow a stored reply: its catch-up point and the time of its thread.
pub fn reply_statements(post: &Post, seq: i64) -> (out: Vec<Statement>)
    ensures
        views(out@) == reply_writes(post@, seq),
{
    let mut out = point_statements(post, seq);
    let ghost before = out@;
    out.push(
        Statement::new(BUMP_THREAD).number(post.created_at).text(post.thread_id.as_str()),
    );
    assert(views(out@) =~= reply_writes(post@, seq));
    out
}

} // verus!
