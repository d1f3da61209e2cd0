//! Bringing the schema up to date.

use vstd::prelude::*;

use crate::relational::command::{
    Ask, AskRow, PastAuthor, PastAuthorRow, Shape, Step, StepRow, Told, ToldRow,
    UnidentifiedBookmark, UnidentifiedBookmarkRow, authors_at, beginning, commit_of, committing,
    flag_at, no_steps, points_at, receipts_at, running, steps_of, told_authors, told_flag,
    told_points, told_receipts, told_unidentified, unidentified_at, without_steps,
};
use crate::relational::commands::moderation::{transaction, transaction_of};
use crate::relational::commands::opening::{clock_at, told_clock};
use crate::relational::schema::{
    ADD_CATEGORIES_FORMAT, ADD_DELIVERY_KEY, ADD_FORUM_BOOKMARKS_BOOKMARK_ID,
    ADD_FORUM_POST_READ_RECEIPTS_READ_SEQ, ADD_POSTS_QUOTED_POST_ID, ADD_PREFERENCE_KEY,
    ADD_RECEIPT_KEY, ADD_THREADS_ACCEPTED_POST_ID, ADD_THREADS_FIRST_BODY_MD,
    ADD_THREADS_FIRST_POST_ID, ADD_THREADS_LOCKED, ADD_THREADS_PINNED, ADD_WATCH_CHECK,
    BACKFILL_FIRST_BODY, BACKFILL_FIRST_POST, CLASSIFY_CATEGORIES, CLEAR_INVALID_ANSWERS,
    CREATE_BANNED_AUTHORS, CREATE_CATEGORIES, CREATE_FORUM_ACTIVITY_DELIVERIES,
    CREATE_FORUM_ACTIVITY_EVENTS, CREATE_FORUM_ACTIVITY_RECEIPTS, CREATE_FORUM_BOOKMARKS,
    CREATE_FORUM_BOOKMARK_OWNER_GUARDS, CREATE_FORUM_CATCH_UP_CLOCK,
    CREATE_FORUM_CATCH_UP_POST_POINTS, CREATE_FORUM_CATEGORY_FOCUS_OWNER_GUARDS,
    CREATE_FORUM_CATEGORY_FOCUS_RULES, CREATE_FORUM_IDENTITY_ALIASES,
    CREATE_FORUM_POST_READ_RECEIPTS, CREATE_POSTS, CREATE_POST_MENTIONS, CREATE_POST_REACTIONS,
    CREATE_THREADS, CREATE_THREAD_FOLLOW_PREFERENCES, CREATE_THREAD_SUBSCRIPTIONS,
    DEFAULT_CATEGORY_FORMAT, DELETE_MUTED_WATCHES, DELETE_STRAY_DELIVERIES,
    DELETE_STRAY_PREFERENCES, DELETE_STRAY_RECEIPTS, DELETE_UNDELIVERED_EVENTS,
    DELETE_UNDELIVERED_RECEIPTS, DELETE_UNRESOLVED_DELIVERIES, DELETE_UNWATCHED_DELIVERIES,
    GREATEST_POINT, GREATEST_RECEIPT, HAS_DELIVERY_KEY, HAS_LEVEL_COLUMN, HAS_PREFERENCE_KEY,
    HAS_RECEIPT_KEY, HAS_WATCH_CHECK, IDENTIFY_BOOKMARK, IDX_ACTIVITY_DELIVERIES_RECIPIENT,
    IDX_ACTIVITY_EVENTS_ORDER, IDX_ACTIVITY_EVENTS_POST, IDX_ACTIVITY_EVENTS_THREAD,
    IDX_ACTIVITY_RECEIPTS_VIEWER, IDX_CATCH_UP_POINTS_THREAD_SNAPSHOT,
    IDX_CATEGORY_FOCUS_SUBJECT_LEVEL, IDX_FOLLOW_PREFERENCES_USER, IDX_FORUM_BOOKMARKS_DUE,
    IDX_FORUM_BOOKMARKS_IDENTITY, IDX_FORUM_BOOKMARKS_RECENT, IDX_FORUM_POST_READ_RECEIPTS_POST,
    IDX_FORUM_POST_READ_RECEIPTS_VIEWER_SNAPSHOT, IDX_IDENTITY_ALIASES_SUBJECT,
    IDX_MENTIONS_THREAD, IDX_MENTIONS_USER, IDX_POSTS_AUTHOR_SNAPSHOT, IDX_POSTS_QUOTE,
    IDX_POSTS_THREAD, IDX_POSTS_THREAD_SNAPSHOT, IDX_POST_READ_RECEIPTS_VIEWER_GENERATION,
    IDX_REACTIONS_POST, IDX_SUBSCRIPTIONS_USER, IDX_SUBSCRIPTIONS_USER_THREAD,
    IDX_THREADS_AUTHOR_SNAPSHOT, IDX_THREADS_CATEGORY, IDX_THREADS_LAST_AT, KEEP_WATCHES,
    MOVE_PREFERENCES, PAST_AUTHORS, PENDING_POINTS, PENDING_RECEIPTS, REQUIRE_BOOKMARK_ID,
    REQUIRE_CATEGORY_FORMAT, RESOLVE_DELIVERIES, START_CLOCK, UNIDENTIFIED_BOOKMARKS,
};
use crate::relational::sql::{BACKFILL_POINT, LOCK_CLOCK, SEQUENCE_READ_RECEIPT};
use crate::relational::statement::{Statement, StatementRow, statement};
use crate::relational::writing::{
    PendingPoint, PendingPointRow, PendingReceipt, PendingReceiptRow, advance_clock,
    alias_insertion, clock_update, insert_alias,
};
use crate::rows::{append_rows, collect_rows, collected, map_rows, opt, views};
use crate::store::types::{Failure, StoreError, invalid, listed};

verus! {

// ---------------------------------------------------------------------------
// The fixed parts.
// ---------------------------------------------------------------------------

/// The tables of content, and what bookmarks have before they have an identity.
pub open spec fn content_schema() -> Seq<StatementRow> {
    seq![
        statement(CREATE_CATEGORIES@),
        statement(ADD_CATEGORIES_FORMAT@),
        statement(CLASSIFY_CATEGORIES@),
        statement(DEFAULT_CATEGORY_FORMAT@),
        statement(REQUIRE_CATEGORY_FORMAT@),
        statement(CREATE_THREADS@),
        statement(ADD_THREADS_FIRST_BODY_MD@),
        statement(ADD_THREADS_FIRST_POST_ID@),
        statement(ADD_THREADS_LOCKED@),
        statement(ADD_THREADS_PINNED@),
        statement(ADD_THREADS_ACCEPTED_POST_ID@),
        statement(IDX_THREADS_CATEGORY@),
        statement(IDX_THREADS_LAST_AT@),
        statement(IDX_THREADS_AUTHOR_SNAPSHOT@),
        statement(CREATE_POSTS@),
        statement(ADD_POSTS_QUOTED_POST_ID@),
        statement(IDX_POSTS_THREAD@),
        statement(IDX_POSTS_AUTHOR_SNAPSHOT@),
        statement(IDX_POSTS_THREAD_SNAPSHOT@),
        statement(CREATE_FORUM_POST_READ_RECEIPTS@),
        statement(IDX_FORUM_POST_READ_RECEIPTS_POST@),
        statement(IDX_FORUM_POST_READ_RECEIPTS_VIEWER_SNAPSHOT@),
        statement(CREATE_FORUM_BOOKMARK_OWNER_GUARDS@),
        statement(CREATE_FORUM_BOOKMARKS@),
        statement(ADD_FORUM_BOOKMARKS_BOOKMARK_ID@),
    ]
}

fn content_schema_statements() -> (out: Vec<Statement>)
    ensures
        views(out@) == content_schema(),
{
    let mut out: Vec<Statement> = Vec::new();
    out.push(Statement::new(CREATE_CATEGORIES));
    out.push(Statement::new(ADD_CATEGORIES_FORMAT));
    out.push(Statement::new(CLASSIFY_CATEGORIES));
    out.push(Statement::new(DEFAULT_CATEGORY_FORMAT));
    out.push(Statement::new(REQUIRE_CATEGORY_FORMAT));
    out.push(Statement::new(CREATE_THREADS));
    out.push(Statement::new(ADD_THREADS_FIRST_BODY_MD));
    out.push(Statement::new(ADD_THREADS_FIRST_POST_ID));
    out.push(Statement::new(ADD_THREADS_LOCKED));
    out.push(Statement::new(ADD_THREADS_PINNED));
    out.push(Statement::new(ADD_THREADS_ACCEPTED_POST_ID));
    out.push(Statement::new(IDX_THREADS_CATEGORY));
    out.push(Statement::new(IDX_THREADS_LAST_AT));
    out.push(Statement::new(IDX_THREADS_AUTHOR_SNAPSHOT));
    out.push(Statement::new(CREATE_POSTS));
    out.push(Statement::new(ADD_POSTS_QUOTED_POST_ID));
    out.push(Statement::new(IDX_POSTS_THREAD));
    out.push(Statement::new(IDX_POSTS_AUTHOR_SNAPSHOT));
    out.push(Statement::new(IDX_POSTS_THREAD_SNAPSHOT));
    out.push(Statement::new(CREATE_FORUM_POST_READ_RECEIPTS));
    out.push(Statement::new(IDX_FORUM_POST_READ_RECEIPTS_POST));
    out.push(Statement::new(IDX_FORUM_POST_READ_RECEIPTS_VIEWER_SNAPSHOT));
    out.push(Statement::new(CREATE_FORUM_BOOKMARK_OWNER_GUARDS));
    out.push(Statement::new(CREATE_FORUM_BOOKMARKS));
    out.push(Statement::new(ADD_FORUM_BOOKMARKS_BOOKMARK_ID));
    assert(views(out@) =~= content_schema());
    out
}

/// What follows once every bookmark has an identity: its indexes, the repair of older threads, and the catch-up record.
pub open spec fn identity_schema() -> Seq<StatementRow> {
    seq![
        statement(REQUIRE_BOOKMARK_ID@),
        statement(IDX_FORUM_BOOKMARKS_IDENTITY@),
        statement(IDX_FORUM_BOOKMARKS_RECENT@),
        statement(IDX_FORUM_BOOKMARKS_DUE@),
        statement(BACKFILL_FIRST_POST@),
        statement(BACKFILL_FIRST_BODY@),
        statement(CLEAR_INVALID_ANSWERS@),
        statement(IDX_POSTS_QUOTE@),
        statement(CREATE_FORUM_CATCH_UP_CLOCK@),
        statement(START_CLOCK@),
        statement(CREATE_FORUM_CATCH_UP_POST_POINTS@),
        statement(IDX_CATCH_UP_POINTS_THREAD_SNAPSHOT@),
        statement(ADD_FORUM_POST_READ_RECEIPTS_READ_SEQ@),
        statement(IDX_POST_READ_RECEIPTS_VIEWER_GENERATION@),
    ]
}

fn identity_schema_statements() -> (out: Vec<Statement>)
    ensures
        views(out@) == identity_schema(),
{
    let mut out: Vec<Statement> = Vec::new();
    out.push(Statement::new(REQUIRE_BOOKMARK_ID));
    out.push(Statement::new(IDX_FORUM_BOOKMARKS_IDENTITY));
    out.push(Statement::new(IDX_FORUM_BOOKMARKS_RECENT));
    out.push(Statement::new(IDX_FORUM_BOOKMARKS_DUE));
    out.push(Statement::new(BACKFILL_FIRST_POST));
    out.push(Statement::new(BACKFILL_FIRST_BODY));
    out.push(Statement::new(CLEAR_INVALID_ANSWERS));
    out.push(Statement::new(IDX_POSTS_QUOTE));
    out.push(Statement::new(CREATE_FORUM_CATCH_UP_CLOCK));
    out.push(Statement::new(START_CLOCK));
    out.push(Statement::new(CREATE_FORUM_CATCH_UP_POST_POINTS));
    out.push(Statement::new(IDX_CATCH_UP_POINTS_THREAD_SNAPSHOT));
    out.push(Statement::new(ADD_FORUM_POST_READ_RECEIPTS_READ_SEQ));
    out.push(Statement::new(IDX_POST_READ_RECEIPTS_VIEWER_GENERATION));
    assert(views(out@) =~= identity_schema());
    out
}

/// The tables of mentions and aliases.
pub open spec fn mention_schema() -> Seq<StatementRow> {
    seq![
        statement(CREATE_POST_MENTIONS@),
        statement(IDX_MENTIONS_USER@),
        statement(IDX_MENTIONS_THREAD@),
        statement(CREATE_FORUM_IDENTITY_ALIASES@),
        statement(IDX_IDENTITY_ALIASES_SUBJECT@),
    ]
}

fn mention_schema_statements() -> (out: Vec<Statement>)
    ensures
        views(out@) == mention_schema(),
{
    let mut out: Vec<Statement> = Vec::new();
    out.push(Statement::new(CREATE_POST_MENTIONS));
    out.push(Statement::new(IDX_MENTIONS_USER));
    out.push(Statement::new(IDX_MENTIONS_THREAD));
    out.push(Statement::new(CREATE_FORUM_IDENTITY_ALIASES));
    out.push(Statement::new(IDX_IDENTITY_ALIASES_SUBJECT));
    assert(views(out@) =~= mention_schema());
    out
}

/// The tables of watches and preferences.
pub open spec fn follow_schema() -> Seq<StatementRow> {
    seq![
        statement(CREATE_THREAD_SUBSCRIPTIONS@),
        statement(CREATE_THREAD_FOLLOW_PREFERENCES@),
    ]
}

fn follow_schema_statements() -> (out: Vec<Statement>)
    ensures
        views(out@) == follow_schema(),
{
    let mut out: Vec<Statement> = Vec::new();
    out.push(Statement::new(CREATE_THREAD_SUBSCRIPTIONS));
    out.push(Statement::new(CREATE_THREAD_FOLLOW_PREFERENCES));
    assert(views(out@) =~= follow_schema());
    out
}

/// The tables of focus rules and activity.
pub open spec fn activity_schema() -> Seq<StatementRow> {
    seq![
        statement(IDX_SUBSCRIPTIONS_USER@),
        statement(IDX_SUBSCRIPTIONS_USER_THREAD@),
        statement(IDX_FOLLOW_PREFERENCES_USER@),
        statement(CREATE_FORUM_CATEGORY_FOCUS_OWNER_GUARDS@),
        statement(CREATE_FORUM_CATEGORY_FOCUS_RULES@),
        statement(IDX_CATEGORY_FOCUS_SUBJECT_LEVEL@),
        statement(CREATE_FORUM_ACTIVITY_EVENTS@),
        statement(IDX_ACTIVITY_EVENTS_ORDER@),
        statement(IDX_ACTIVITY_EVENTS_THREAD@),
        statement(IDX_ACTIVITY_EVENTS_POST@),
        statement(CREATE_FORUM_ACTIVITY_DELIVERIES@),
        statement(IDX_ACTIVITY_DELIVERIES_RECIPIENT@),
        statement(CREATE_FORUM_ACTIVITY_RECEIPTS@),
        statement(IDX_ACTIVITY_RECEIPTS_VIEWER@),
    ]
}

fn activity_schema_statements() -> (out: Vec<Statement>)
    ensures
        views(out@) == activity_schema(),
{
    let mut out: Vec<Statement> = Vec::new();
    out.push(Statement::new(IDX_SUBSCRIPTIONS_USER));
    out.push(Statement::new(IDX_SUBSCRIPTIONS_USER_THREAD));
    out.push(Statement::new(IDX_FOLLOW_PREFERENCES_USER));
    out.push(Statement::new(CREATE_FORUM_CATEGORY_FOCUS_OWNER_GUARDS));
    out.push(Statement::new(CREATE_FORUM_CATEGORY_FOCUS_RULES));
    out.push(Statement::new(IDX_CATEGORY_FOCUS_SUBJECT_LEVEL));
    out.push(Statement::new(CREATE_FORUM_ACTIVITY_EVENTS));
    out.push(Statement::new(IDX_ACTIVITY_EVENTS_ORDER));
    out.push(Statement::new(IDX_ACTIVITY_EVENTS_THREAD));
    out.push(Statement::new(IDX_ACTIVITY_EVENTS_POST));
    out.push(Statement::new(CREATE_FORUM_ACTIVITY_DELIVERIES));
    out.push(Statement::new(IDX_ACTIVITY_DELIVERIES_RECIPIENT));
    out.push(Statement::new(CREATE_FORUM_ACTIVITY_RECEIPTS));
    out.push(Statement::new(IDX_ACTIVITY_RECEIPTS_VIEWER));
    assert(views(out@) =~= activity_schema());
    out
}

/// The repair of older activity.
pub open spec fn activity_repair() -> Seq<StatementRow> {
    seq![
        statement(DELETE_STRAY_DELIVERIES@),
        statement(DELETE_STRAY_RECEIPTS@),
        statement(RESOLVE_DELIVERIES@),
        statement(DELETE_UNRESOLVED_DELIVERIES@),
        statement(DELETE_UNWATCHED_DELIVERIES@),
        statement(DELETE_UNDELIVERED_RECEIPTS@),
        statement(DELETE_UNDELIVERED_EVENTS@),
    ]
}

fn activity_repair_statements() -> (out: Vec<Statement>)
    ensures
        views(out@) == activity_repair(),
{
    let mut out: Vec<Statement> = Vec::new();
    out.push(Statement::new(DELETE_STRAY_DELIVERIES));
    out.push(Statement::new(DELETE_STRAY_RECEIPTS));
    out.push(Statement::new(RESOLVE_DELIVERIES));
    out.push(Statement::new(DELETE_UNRESOLVED_DELIVERIES));
    out.push(Statement::new(DELETE_UNWATCHED_DELIVERIES));
    out.push(Statement::new(DELETE_UNDELIVERED_RECEIPTS));
    out.push(Statement::new(DELETE_UNDELIVERED_EVENTS));
    assert(views(out@) =~= activity_repair());
    out
}

/// The tables of reactions and bans.
pub open spec fn moderation_schema() -> Seq<StatementRow> {
    seq![
        statement(CREATE_POST_REACTIONS@),
        statement(IDX_REACTIONS_POST@),
        statement(CREATE_BANNED_AUTHORS@),
    ]
}

fn moderation_schema_statements() -> (out: Vec<Statement>)
    ensures
        views(out@) == moderation_schema(),
{
    let mut out: Vec<Statement> = Vec::new();
    out.push(Statement::new(CREATE_POST_REACTIONS));
    out.push(Statement::new(IDX_REACTIONS_POST));
    out.push(Statement::new(CREATE_BANNED_AUTHORS));
    assert(views(out@) =~= moderation_schema());
    out
}

// ---------------------------------------------------------------------------
// Rows from before.
// ---------------------------------------------------------------------------

/// Gives a bookmark its identity.
pub open spec fn identification() -> spec_fn(UnidentifiedBookmarkRow) -> StatementRow {
    |b: UnidentifiedBookmarkRow|
        statement(IDENTIFY_BOOKMARK@).text(b.fresh_id).text(b.owner_sub).text(b.post_id)
}

/// Remembers the alias of an identity, if it has one.
pub open spec fn past_alias() -> spec_fn(PastAuthorRow) -> Option<StatementRow> {
    |a: PastAuthorRow| alias_insertion(a.author_sub, a.author_email, a.created_at)
}

/// The greater of two numbers.
pub open spec fn greater(a: i64, b: i64) -> i64 {
    if a > b {
        a
    } else {
        b
    }
}

/// The greatest generation that the clock, a post, or a read receipt carries.
pub open spec fn greatest_at(told: Seq<ToldRow>) -> i64 {
    greater(greater(clock_at(told, 1), clock_at(told, 2)), clock_at(told, 3))
}

/// Enters the `k`-th older post into the catch-up record, behind the generation `start`.
pub open spec fn point_backfill(start: int, points: Seq<PendingPointRow>, k: int) -> StatementRow {
    statement(BACKFILL_POINT@).text(points[k].post_id).text(points[k].thread_id).number(
        points[k].activity_at,
    ).number((start + k + 1) as i64)
}

/// Every older post enters the catch-up record under the next generation, in the given order.
pub open spec fn point_backfills(start: i64, points: Seq<PendingPointRow>) -> Result<
    Seq<StatementRow>,
    Failure,
> {
    if start + points.len() > i64::MAX {
        Err(Failure::InvalidOperation("catch-up generation is exhausted"@))
    } else {
        Ok(Seq::new(points.len(), |k: int| point_backfill(start as int, points, k)))
    }
}

/// Gives the `k`-th older receipt its generation, behind the generation `start`.
pub open spec fn receipt_backfill(start: int, receipts: Seq<PendingReceiptRow>, k: int) -> StatementRow {
    statement(SEQUENCE_READ_RECEIPT@).number((start + k + 1) as i64).text(
        receipts[k].viewer_sub,
    ).text(receipts[k].post_id)
}

/// Every older receipt gets the next generation, in the given order, and the clock follows.
pub open spec fn receipt_backfills(start: int, receipts: Seq<PendingReceiptRow>) -> Result<
    Seq<StatementRow>,
    Failure,
> {
    if start + receipts.len() > i64::MAX {
        Err(Failure::InvalidOperation("catch-up generation is exhausted"@))
    } else {
        Ok(
            Seq::new(receipts.len(), |k: int| receipt_backfill(start, receipts, k)).push(
                clock_update((start + receipts.len()) as i64),
            ),
        )
    }
}

fn backfill_points(start: i64, points: &Vec<PendingPoint>) -> (r: Result<Vec<Statement>, StoreError>)
    ensures
        listed(r) == point_backfills(start, views(points@)),
{
    let ghost all = views(points@);
    let mut out: Vec<Statement> = Vec::new();
    let mut generation: i64 = start;
    let mut i: usize = 0;
    while i < points.len()
        invariant
            0 <= i <= points@.len(),
            all == views(points@),
            generation == start + i,
            out@.len() == i,
            forall|k: int|
                0 <= k < i ==> (#[trigger] out@[k])@ == point_backfill(start as int, all, k),
        decreases points@.len() - i,
    {
        if generation == i64::MAX {
            return Err(invalid("catch-up generation is exhausted"));
        }
        generation = generation + 1;
        out.push(
            Statement::new(BACKFILL_POINT).text(points[i].post_id.as_str()).text(
                points[i].thread_id.as_str(),
            ).number(points[i].activity_at).number(generation),
        );
        i = i + 1;
    }
    assert(views(out@) =~= point_backfills(start, all)->Ok_0);
    Ok(out)
}

fn backfill_receipts(start: i64, receipts: &Vec<PendingReceipt>) -> (r: Result<
    Vec<Statement>,
    StoreError,
>)
    ensures
        listed(r) == receipt_backfills(start as int, views(receipts@)),
{
    let ghost all = views(receipts@);
    let mut out: Vec<Statement> = Vec::new();
    let mut generation: i64 = start;
    let mut i: usize = 0;
    while i < receipts.len()
        invariant
            0 <= i <= receipts@.len(),
            all == views(receipts@),
            generation == start + i,
            out@.len() == i,
            forall|k: int|
                0 <= k < i ==> (#[trigger] out@[k])@ == receipt_backfill(start as int, all, k),
        decreases receipts@.len() - i,
    {
        if generation == i64::MAX {
            return Err(invalid("catch-up generation is exhausted"));
        }
        generation = generation + 1;
        out.push(
            Statement::new(SEQUENCE_READ_RECEIPT).number(generation).text(
                receipts[i].viewer_sub.as_str(),
            ).text(receipts[i].post_id.as_str()),
        );
        i = i + 1;
    }
    out.push(advance_clock(generation));
    assert(views(out@) =~= receipt_backfills(start as int, all)->Ok_0);
    Ok(out)
}

// ---------------------------------------------------------------------------
// The migration.
// ---------------------------------------------------------------------------

/// A statement that runs unless something is there already.
pub open spec fn unless(there: bool, sql: Seq<char>) -> Seq<StatementRow> {
    if there {
        Seq::empty()
    } else {
        seq![statement(sql)]
    }
}

fn run_unless(there: bool, sql: &str) -> (out: Vec<Statement>)
    ensures
        views(out@) == unless(there, sql@),
{
    let mut out: Vec<Statement> = Vec::new();
    if !there {
        out.push(Statement::new(sql));
    }
    assert(views(out@) =~= unless(there, sql@));
    out
}

/// Asks a question without parameters.
pub open spec fn question(steps: Seq<StepRow>, shape: Shape, sql: Seq<char>) -> AskRow<()> {
    AskRow::Fetch(steps, shape, statement(sql))
}

fn ask(steps: Vec<Step>, shape: Shape, sql: &str) -> (r: Ask<()>)
    ensures
        r@ == question(views(steps@), shape, sql@),
{
    Ask::Fetch(steps, shape, Statement::new(sql))
}

/// The migration: it may run on every start, adds what is missing, and repairs what older versions
/// left behind. Generations are given to older rows in one transaction that holds the clock, and
/// the two repairs of the follow and the activity tables are a transaction each.
pub open spec fn migration(told: Seq<ToldRow>) -> AskRow<()> {
    if told.len() == 0 {
        question(running(content_schema()), Shape::Unidentified, UNIDENTIFIED_BOOKMARKS@)
    } else if told.len() == 1 {
        question(
            running(
                unidentified_at(told, 0).map_values(identification()) + identity_schema(),
            ).push(StepRow::Begin),
            Shape::Number,
            LOCK_CLOCK@,
        )
    } else if told.len() == 2 {
        question(no_steps(), Shape::Number, GREATEST_POINT@)
    } else if told.len() == 3 {
        question(no_steps(), Shape::Number, GREATEST_RECEIPT@)
    } else if told.len() == 4 {
        question(no_steps(), Shape::Points, PENDING_POINTS@)
    } else if told.len() == 5 {
        match point_backfills(greatest_at(told), points_at(told, 4)) {
            Err(e) => AskRow::Fail(e),
            Ok(s) => question(running(s), Shape::Receipts, PENDING_RECEIPTS@),
        }
    } else if told.len() == 6 {
        match receipt_backfills(
            greatest_at(told) + points_at(told, 4).len(),
            receipts_at(told, 5),
        ) {
            Err(e) => AskRow::Fail(e),
            Ok(s) => question(
                committing(s) + running(mention_schema()),
                Shape::Authors,
                PAST_AUTHORS@,
            ),
        }
    } else if told.len() == 7 {
        question(
            (transaction(collected(authors_at(told, 6), past_alias())) + running(
                follow_schema(),
            )).push(StepRow::Begin),
            Shape::Flag,
            HAS_LEVEL_COLUMN@,
        )
    } else if flag_at(told, 7) && told.len() == 8 {
        question(
            running(seq![statement(MOVE_PREFERENCES@), statement(KEEP_WATCHES@)]),
            Shape::Flag,
            HAS_WATCH_CHECK@,
        )
    } else if flag_at(told, 7) {
        constraints(unless(flag_at(told, 8), ADD_WATCH_CHECK@), told, 9)
    } else {
        constraints(Seq::empty(), told, 8)
    }
}

/// The rest of the migration, from the constraints of the preferences on; the answers from `at` on
/// are not used yet.
pub open spec fn constraints(pending: Seq<StatementRow>, told: Seq<ToldRow>, at: int) -> AskRow<()> {
    if told.len() == at {
        question(
            running(pending.push(statement(DELETE_STRAY_PREFERENCES@))),
            Shape::Flag,
            HAS_PREFERENCE_KEY@,
        )
    } else if told.len() == at + 1 {
        question(
            (committing(
                unless(flag_at(told, at), ADD_PREFERENCE_KEY@).push(
                    statement(DELETE_MUTED_WATCHES@),
                ),
            ) + running(activity_schema())).push(StepRow::Begin) + running(activity_repair()),
            Shape::Flag,
            HAS_DELIVERY_KEY@,
        )
    } else if told.len() == at + 2 {
        question(
            running(unless(flag_at(told, at + 1), ADD_DELIVERY_KEY@)),
            Shape::Flag,
            HAS_RECEIPT_KEY@,
        )
    } else {
        AskRow::Finish(
            committing(unless(flag_at(told, at + 2), ADD_RECEIPT_KEY@)) + running(
                moderation_schema(),
            ),
            (),
        )
    }
}

fn constrain(pending: Vec<Statement>, told: &Vec<Told>, at: usize) -> (r: Ask<()>)
    requires
        at <= 9,
        at <= told@.len(),
    ensures
        r@ == constraints(views(pending@), views(told@), at as int),
{
    if told.len() == at {
        let mut writes = pending;
        writes.push(Statement::new(DELETE_STRAY_PREFERENCES));
        assert(views(writes@) =~= views(pending@).push(statement(DELETE_STRAY_PREFERENCES@)));
        return ask(steps_of(writes), Shape::Flag, HAS_PREFERENCE_KEY);
    }
    if told.len() == at + 1 {
        let mut writes = run_unless(told_flag(told, at), ADD_PREFERENCE_KEY);
        let ghost before = writes@;
        writes.push(Statement::new(DELETE_MUTED_WATCHES));
        assert(views(writes@) =~= views(before).push(statement(DELETE_MUTED_WATCHES@)));
        let mut steps = commit_of(writes);
        append_rows(&mut steps, steps_of(activity_schema_statements()));
        append_rows(&mut steps, beginning());
        assert(views(steps@) =~= (committing(
            unless(flag_at(views(told@), at as int), ADD_PREFERENCE_KEY@).push(
                statement(DELETE_MUTED_WATCHES@),
            ),
        ) + running(activity_schema())).push(StepRow::Begin));
        append_rows(&mut steps, steps_of(activity_repair_statements()));
        return ask(steps, Shape::Flag, HAS_DELIVERY_KEY);
    }
    if told.len() == at + 2 {
        return ask(
            steps_of(run_unless(told_flag(told, at + 1), ADD_DELIVERY_KEY)),
            Shape::Flag,
            HAS_RECEIPT_KEY,
        );
    }
    let mut steps = commit_of(run_unless(told_flag(told, at + 2), ADD_RECEIPT_KEY));
    append_rows(&mut steps, steps_of(moderation_schema_statements()));
    Ask::Finish(steps, ())
}

fn greatest(told: &Vec<Told>) -> (r: i64)
    ensures
        r == greatest_at(views(told@)),
{
    let clock: i64 = told_clock(told, 1);
    let points: i64 = told_clock(told, 2);
    let receipts: i64 = told_clock(told, 3);
    let best: i64 = if clock > points {
        clock
    } else {
        points
    };
    if best > receipts {
        best
    } else {
        receipts
    }
}

/// The next step of the migration.
pub fn migrate(told: &Vec<Told>) -> (r: Ask<()>)
    ensures
        r@ == migration(views(told@)),
{
    if told.len() == 0 {
        return ask(
            steps_of(content_schema_statements()),
            Shape::Unidentified,
            UNIDENTIFIED_BOOKMARKS,
        );
    }
    if told.len() == 1 {
        return identify(told);
    }
    if told.len() == 2 {
        return ask(without_steps(), Shape::Number, GREATEST_POINT);
    }
    if told.len() == 3 {
        return ask(without_steps(), Shape::Number, GREATEST_RECEIPT);
    }
    if told.len() == 4 {
        return ask(without_steps(), Shape::Points, PENDING_POINTS);
    }
    if told.len() == 5 {
        return match backfill_points(greatest(told), &told_points(told, 4)) {
            Err(e) => Ask::Fail(e),
            Ok(writes) => ask(steps_of(writes), Shape::Receipts, PENDING_RECEIPTS),
        };
    }
    if told.len() == 6 {
        return sequence(told);
    }
    if told.len() == 7 {
        return remember(told);
    }
    let leveled = told_flag(told, 7);
    if leveled && told.len() == 8 {
        let mut writes: Vec<Statement> = Vec::new();
        writes.push(Statement::new(MOVE_PREFERENCES));
        writes.push(Statement::new(KEEP_WATCHES));
        assert(views(writes@) =~= seq![statement(MOVE_PREFERENCES@), statement(KEEP_WATCHES@)]);
        return ask(steps_of(writes), Shape::Flag, HAS_WATCH_CHECK);
    }
    if leveled {
        constrain(run_unless(told_flag(told, 8), ADD_WATCH_CHECK), told, 9)
    } else {
        let none: Vec<Statement> = Vec::new();
        assert(views(none@) =~= Seq::empty());
        constrain(none, told, 8)
    }
}

fn identify(told: &Vec<Told>) -> (r: Ask<()>)
    requires
        told@.len() == 1,
    ensures
        r@ == migration(views(told@)),
{
    let f = |b: &UnidentifiedBookmark| -> (s: Statement)
        ensures
            s@ == identification()(b@),
        {
            Statement::new(IDENTIFY_BOOKMARK).text(b.fresh_id.as_str()).text(
                b.owner_sub.as_str(),
            ).text(b.post_id.as_str())
        };
    let mut writes = map_rows(&told_unidentified(told, 0), f, Ghost(identification()));
    append_rows(&mut writes, identity_schema_statements());
    let mut steps = steps_of(writes);
    let ghost before = steps@;
    steps.push(Step::Begin);
    assert(views(steps@) =~= views(before).push(StepRow::Begin));
    ask(steps, Shape::Number, LOCK_CLOCK)
}

fn sequence(told: &Vec<Told>) -> (r: Ask<()>)
    requires
        told@.len() == 6,
    ensures
        r@ == migration(views(told@)),
{
    let points = told_points(told, 4);
    let start: i64 = greatest(told);
    assert(views(points@).len() == points@.len());
    let reached: i128 = start as i128 + points.len() as i128;
    if reached > i64::MAX as i128 {
        return Ask::Fail(invalid("catch-up generation is exhausted"));
    }
    match backfill_receipts(reached as i64, &told_receipts(told, 5)) {
        Err(e) => Ask::Fail(e),
        Ok(writes) => {
            let mut steps = commit_of(writes);
            append_rows(&mut steps, steps_of(mention_schema_statements()));
            ask(steps, Shape::Authors, PAST_AUTHORS)
        },
    }
}

fn remember(told: &Vec<Told>) -> (r: Ask<()>)
    requires
        told@.len() == 7,
    ensures
        r@ == migration(views(told@)),
{
    let f = |a: &PastAuthor| -> (s: Option<Statement>)
        ensures
            opt(s) == past_alias()(a@),
        { insert_alias(a.author_sub.as_str(), a.author_email.as_str(), a.created_at) };
    let mut steps = transaction_of(
        collect_rows(&told_authors(told, 6), f, Ghost(past_alias())),
    );
    append_rows(&mut steps, steps_of(follow_schema_statements()));
    let ghost before = steps@;
    steps.push(Step::Begin);
    assert(views(steps@) =~= views(before).push(StepRow::Begin));
    ask(steps, Shape::Flag, HAS_LEVEL_COLUMN)
}

} // verus!
