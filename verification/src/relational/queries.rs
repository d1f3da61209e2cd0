//! The reads whose text depends on what is asked for.

use vstd::prelude::*;
use vstd::string::StringExecFns;

use crate::relational::sql::{
    ACTIVITY_PAGE, ALL_BOOKMARKS, BOOKMARKS_SELECT, BOOKMARK_SELECT, CATCH_UP_PAGE,
    CATCH_UP_PROJECTION, CATCH_UP_SNAPSHOT, DUE_BOOKMARKS, FOLLOWING_SCOPE, FOLLOWING_SOURCES,
    HOT_AFTER, HOT_BEFORE, LIST_FOLLOWED, LIST_GROUP, LIST_JOINED, LIST_NOT_MUTED, LIST_SELECT,
    LIST_WATCHED, POST_COLUMNS, QUESTIONS_SCOPE, QUESTIONS_SOURCES, READING_ORDER, READING_SELECT,
    REPLIES_SCOPE, SCHEDULED_BOOKMARKS, SEARCH_ORDER, SEARCH_SELECT, SIGNALS_SELECT, UPDATES_SCOPE,
    UPDATES_SOURCES,
};
use crate::relational::statement::{Statement, StatementRow, statement};
use crate::rows::{opt, views};
use crate::store::rules::{bounded_personal_thread_ids, bounded_thread_ids, reading_ids, signal_ids};
use crate::store::types::{
    ActivityCursor, ActivityCursorRow, ActivityFilter, BookmarkCursor, BookmarkCursorRow,
    BookmarkState, CatchUpCursor, CatchUpCursorRow, CatchUpView, Failure, MAX_BOOKMARK_PAGE,
    MAX_BOOKMARK_POST_BATCH, ReplyAnchor, StoreError, ThreadSort, ThreadStatusFilter, invalid,
    maybe,
};
use crate::text::{
    blank_text, char_lowercase, decimal_len, decimal_text, is_blank, lowercase_char, trim,
    trim_text,
};

verus! {

// ---------------------------------------------------------------------------
// Patterns and parameter lists.
// ---------------------------------------------------------------------------

/// Whether a character has a meaning of its own in a pattern.
pub open spec fn is_wildcard(c: char) -> bool {
    c == '!' || c == '%' || c == '_'
}

/// The text with every wildcard marked to stand for itself.
pub open spec fn literal_pattern(s: Seq<char>) -> Seq<char>
    decreases s.len(),
{
    if s.len() == 0 {
        Seq::empty()
    } else if is_wildcard(s.last()) {
        literal_pattern(s.drop_last()).push('!').push(s.last())
    } else {
        literal_pattern(s.drop_last()).push(s.last())
    }
}

/// The characters of the text in lower case, one character at a time.
pub open spec fn lowered(s: Seq<char>) -> Seq<char>
    decreases s.len(),
{
    if s.len() == 0 {
        Seq::empty()
    } else {
        lowered(s.drop_last()) + char_lowercase(s.last())
    }
}

/// The pattern that matches every text that holds the lowered query.
pub open spec fn contains_pattern(query: Seq<char>) -> Seq<char> {
    seq!['%'] + literal_pattern(lowered(query)) + seq!['%']
}

/// What a marked text stands for.
pub open spec fn unmarked(s: Seq<char>) -> Seq<char>
    decreases s.len(),
{
    if s.len() == 0 {
        Seq::empty()
    } else if s.len() >= 2 && s[0] == '!' {
        seq![s[1]] + unmarked(s.skip(2))
    } else {
        seq![s[0]] + unmarked(s.skip(1))
    }
}

/// The pattern for `LIKE ... ESCAPE '!'` that matches every text that holds the lowered query; the
/// wildcards of the query stand for themselves.
pub fn like_contains_pattern(query: &str) -> (out: String)
    ensures
        out@ == contains_pattern(query@),
{
    let mut pattern = String::new();
    pattern.push('%');
    let ghost base = pattern@;
    assert(base =~= seq!['%']);
    assert(pattern@ =~= base + literal_pattern(lowered(query@.take(0))));
    for ch in it: query.chars()
        invariant
            it.seq() == query@,
            base == seq!['%'],
            pattern@ == base + literal_pattern(lowered(query@.take(it.index()))),
    {
        let ghost i = it.index();
        assert(query@.take(i + 1).drop_last() =~= query@.take(i));
        let low = lowercase_char(ch);
        let ghost done = lowered(query@.take(i));
        assert(done + low@.take(0) =~= done);
        for c in jt: low.as_str().chars()
            invariant
                jt.seq() == low@,
                pattern@ == base + literal_pattern(done + low@.take(jt.index())),
        {
            let ghost j = jt.index();
            let ghost more = done + low@.take(j + 1);
            assert(more.drop_last() =~= done + low@.take(j));
            assert(more.last() == c);
            let ghost before = pattern@;
            if c == '!' || c == '%' || c == '_' {
                pattern.push('!');
            }
            pattern.push(c);
            assert(pattern@ =~= base + literal_pattern(more));
        }
        assert(low@.take(low@.len() as int) =~= low@);
        assert(lowered(query@.take(i + 1)) == done + low@);
    }
    assert(query@.take(query@.len() as int) =~= query@);
    pattern.push('%');
    assert(pattern@ =~= contains_pattern(query@));
    pattern
}

/// Marking is undone by reading the marks.
pub proof fn law_pattern_is_literal(s: Seq<char>)
    ensures
        unmarked(literal_pattern(s)) == s,
    decreases s.len(),
{
    reveal_with_fuel(unmarked, 2);
    if s.len() > 0 {
        law_pattern_is_literal(s.drop_last());
        let rest = literal_pattern(s.drop_last());
        lemma_marks(s.drop_last());
        if is_wildcard(s.last()) {
            assert(literal_pattern(s) =~= rest + seq!['!', s.last()]);
            lemma_unmarked_append(rest, seq!['!', s.last()]);
            assert(seq!['!', s.last()].skip(2) =~= Seq::empty());
            assert(unmarked(seq!['!', s.last()]) =~= seq![s.last()]);
        } else {
            assert(literal_pattern(s) =~= rest + seq![s.last()]);
            lemma_unmarked_append(rest, seq![s.last()]);
            assert(seq![s.last()].skip(1) =~= Seq::empty());
            assert(unmarked(seq![s.last()]) =~= seq![s.last()]);
        }
        assert(unmarked(literal_pattern(s)) =~= s);
    }
}

/// Whether every mark in the text is followed by the character that it marks.
pub open spec fn complete(s: Seq<char>) -> bool
    decreases s.len(),
{
    if s.len() == 0 {
        true
    } else if s[0] == '!' {
        s.len() >= 2 && complete(s.skip(2))
    } else {
        complete(s.skip(1))
    }
}

proof fn lemma_complete_append(a: Seq<char>, b: Seq<char>)
    requires
        complete(a),
        complete(b),
    ensures
        complete(a + b),
    decreases a.len(),
{
    if a.len() == 0 {
        assert(a + b =~= b);
    } else if a[0] == '!' {
        lemma_complete_append(a.skip(2), b);
        assert((a + b).skip(2) =~= a.skip(2) + b);
    } else {
        lemma_complete_append(a.skip(1), b);
        assert((a + b).skip(1) =~= a.skip(1) + b);
    }
}

proof fn lemma_marks(s: Seq<char>)
    ensures
        complete(literal_pattern(s)),
    decreases s.len(),
{
    if s.len() > 0 {
        lemma_marks(s.drop_last());
        let rest = literal_pattern(s.drop_last());
        let tail = if is_wildcard(s.last()) {
            seq!['!', s.last()]
        } else {
            seq![s.last()]
        };
        assert(literal_pattern(s) =~= rest + tail);
        assert(complete(tail)) by {
            assert(complete(Seq::empty()));
            assert(tail.len() == 2 ==> tail.skip(2) =~= Seq::empty());
            assert(tail.len() == 1 ==> tail.skip(1) =~= Seq::empty());
        }
        lemma_complete_append(rest, tail);
    }
}

proof fn lemma_unmarked_append(a: Seq<char>, b: Seq<char>)
    requires
        complete(a),
    ensures
        unmarked(a + b) == unmarked(a) + unmarked(b),
    decreases a.len(),
{
    if a.len() == 0 {
        assert(a + b =~= b);
        assert(unmarked(a) + unmarked(b) =~= unmarked(b));
    } else if a[0] == '!' {
        lemma_unmarked_append(a.skip(2), b);
        assert((a + b).skip(2) =~= a.skip(2) + b);
        assert(unmarked(a + b) =~= unmarked(a) + unmarked(b));
    } else {
        lemma_unmarked_append(a.skip(1), b);
        assert((a + b).skip(1) =~= a.skip(1) + b);
        assert(unmarked(a + b) =~= unmarked(a) + unmarked(b));
    }
}

/// The parameters `$from`, `$from + 1`, and so on, separated by commas.
pub open spec fn placeholder_text(from: int, count: int) -> Seq<char>
    decreases count,
{
    if count <= 0 {
        Seq::empty()
    } else if count == 1 {
        "$"@ + decimal_text(from)
    } else {
        placeholder_text(from, count - 1) + ", "@ + "$"@ + decimal_text(from + count - 1)
    }
}

/// The parameters of a list of `count` values that starts at `$2`.
fn placeholders(count: usize) -> (out: String)
    requires
        count < usize::MAX - 1,
    ensures
        out@ == placeholder_text(2, count as int),
{
    let mut out = String::new();
    assert(out@ =~= placeholder_text(2, 0));
    let mut i: usize = 0;
    while i < count
        invariant
            0 <= i <= count < usize::MAX - 1,
            out@ == placeholder_text(2, i as int),
        decreases count - i,
    {
        let ghost before = out@;
        if i > 0 {
            out.append(", ");
        }
        out.append("$");
        out.append(decimal_len(i + 2).as_str());
        assert(out@ =~= placeholder_text(2, i + 1));
        i = i + 1;
    }
    out
}

/// A statement with one more text for each of the given ones.
pub open spec fn with_texts(s: StatementRow, texts: Seq<Seq<char>>) -> StatementRow
    decreases texts.len(),
{
    if texts.len() == 0 {
        s
    } else {
        with_texts(s, texts.drop_last()).text(texts.last())
    }
}

fn append_texts(s: Statement, texts: &Vec<String>) -> (out: Statement)
    ensures
        out@ == with_texts(s@, views(texts@)),
{
    let ghost all = views(texts@);
    let mut out = s;
    let mut i: usize = 0;
    while i < texts.len()
        invariant
            0 <= i <= texts@.len(),
            all == views(texts@),
            out@ == with_texts(s@, all.take(i as int)),
        decreases texts@.len() - i,
    {
        assert(all.take(i + 1).drop_last() =~= all.take(i as int));
        out = out.text(texts[i].as_str());
        i = i + 1;
    }
    assert(all.take(all.len() as int) =~= all);
    out
}

// ---------------------------------------------------------------------------
// Thread lists.
// ---------------------------------------------------------------------------

/// Nothing, or one.
pub open spec fn one_if(b: bool) -> int {
    if b {
        1
    } else {
        0
    }
}

/// The scope of the threads that a subscriber watches or follows.
pub open spec fn subscription_scope(n: int) -> Seq<char> {
    LIST_WATCHED@ + decimal_text(n) + LIST_NOT_MUTED@ + LIST_FOLLOWED@ + decimal_text(n)
        + LIST_JOINED@
}

/// The condition of a question-state scope.
pub open spec fn status_condition(status: ThreadStatusFilter) -> Seq<char> {
    match status {
        ThreadStatusFilter::Any => ""@,
        ThreadStatusFilter::Questions => "c.format = 'question'"@,
        ThreadStatusFilter::Answered => "c.format = 'question' AND accepted.id IS NOT NULL"@,
        ThreadStatusFilter::Unanswered => "c.format = 'question' AND accepted.id IS NULL"@,
    }
}

fn status_sql(status: ThreadStatusFilter) -> (out: &'static str)
    ensures
        out@ == status_condition(status),
{
    match status {
        ThreadStatusFilter::Any => "",
        ThreadStatusFilter::Questions => "c.format = 'question'",
        ThreadStatusFilter::Answered => "c.format = 'question' AND accepted.id IS NOT NULL",
        ThreadStatusFilter::Unanswered => "c.format = 'question' AND accepted.id IS NULL",
    }
}

/// The conditions of a thread list. A category is always the first parameter.
pub open spec fn list_conditions(category: bool, status: ThreadStatusFilter) -> Seq<char> {
    if category && status != ThreadStatusFilter::Any {
        " WHERE "@ + "t.category_id = $1"@ + " AND "@ + status_condition(status)
    } else if category {
        " WHERE "@ + "t.category_id = $1"@
    } else if status != ThreadStatusFilter::Any {
        " WHERE "@ + status_condition(status)
    } else {
        Seq::empty()
    }
}

/// The order of a thread list below the pinned threads; `now` is the parameter of the current time.
pub open spec fn list_order(sort: ThreadSort, now: int) -> Seq<char> {
    match sort {
        ThreadSort::Latest => "t.last_at DESC, t.created_at DESC, t.id DESC"@,
        ThreadSort::Top =>
            "COUNT(p.id) DESC, t.last_at DESC, t.created_at DESC, t.id DESC"@,
        ThreadSort::Hot => HOT_BEFORE@ + decimal_text(now) + HOT_AFTER@,
    }
}

/// The text of a thread list. Its parameters are the category, the subscriber, the current time
/// for the hot order, and the limit, as far as they are asked for.
pub open spec fn list_text(
    category: bool,
    subscriber: bool,
    sort: ThreadSort,
    status: ThreadStatusFilter,
) -> Seq<char> {
    let who = one_if(category) + 1;
    let now = one_if(category) + one_if(subscriber) + 1;
    LIST_SELECT@ + (if subscriber {
        subscription_scope(who)
    } else {
        Seq::empty()
    }) + list_conditions(category, status) + " GROUP BY "@ + LIST_GROUP@
        + " ORDER BY t.pinned DESC, "@ + list_order(sort, now) + " LIMIT $"@ + decimal_text(
        now + one_if(sort == ThreadSort::Hot),
    )
}

/// The parameter that is there when the value is.
pub open spec fn text_if(s: StatementRow, t: Option<Seq<char>>) -> StatementRow {
    match t {
        Some(t) => s.text(t),
        None => s,
    }
}

/// A thread list; none when nothing may be shown.
pub open spec fn list_statement(
    category_id: Option<Seq<char>>,
    sort: ThreadSort,
    subscribed_sub: Option<Seq<char>>,
    status: ThreadStatusFilter,
    limit: i64,
    now: i64,
) -> Option<StatementRow> {
    if limit <= 0 {
        None
    } else {
        let scoped = text_if(
            text_if(
                statement(
                    list_text(category_id is Some, subscribed_sub is Some, sort, status),
                ),
                category_id,
            ),
            subscribed_sub,
        );
        let timed = if sort == ThreadSort::Hot {
            scoped.number(now)
        } else {
            scoped
        };
        Some(timed.number(limit))
    }
}

fn list_conditions_sql(category: bool, status: ThreadStatusFilter) -> (out: String)
    ensures
        out@ == list_conditions(category, status),
{
    if !category && status == ThreadStatusFilter::Any {
        return String::new();
    }
    let mut out: String = " WHERE ".to_owned();
    if category {
        out.append("t.category_id = $1");
        if status != ThreadStatusFilter::Any {
            out.append(" AND ");
        }
    }
    if status != ThreadStatusFilter::Any {
        out.append(status_sql(status));
    }
    out
}

fn list_order_sql(sort: ThreadSort, now: usize) -> (out: String)
    ensures
        out@ == list_order(sort, now as int),
{
    match sort {
        ThreadSort::Latest => "t.last_at DESC, t.created_at DESC, t.id DESC".to_owned(),
        ThreadSort::Top =>
            "COUNT(p.id) DESC, t.last_at DESC, t.created_at DESC, t.id DESC".to_owned(),
        ThreadSort::Hot => {
            let mut out: String = HOT_BEFORE.to_owned();
            out.append(decimal_len(now).as_str());
            out.append(HOT_AFTER);
            out
        },
    }
}

fn list_sql(
    category: bool,
    subscriber: bool,
    sort: ThreadSort,
    status: ThreadStatusFilter,
) -> (out: String)
    ensures
        out@ == list_text(category, subscriber, sort, status),
{
    let mut next: usize = 1;
    if category {
        next = next + 1;
    }
    let mut out: String = LIST_SELECT.to_owned();
    if subscriber {
        let who = decimal_len(next);
        out.append(LIST_WATCHED);
        out.append(who.as_str());
        out.append(LIST_NOT_MUTED);
        out.append(LIST_FOLLOWED);
        out.append(who.as_str());
        out.append(LIST_JOINED);
        next = next + 1;
    }
    assert(out@ =~= LIST_SELECT@ + (if subscriber {
        subscription_scope(one_if(category) + 1)
    } else {
        Seq::empty()
    }));
    out.append(list_conditions_sql(category, status).as_str());
    out.append(" GROUP BY ");
    out.append(LIST_GROUP);
    out.append(" ORDER BY t.pinned DESC, ");
    out.append(list_order_sql(sort, next).as_str());
    if sort == ThreadSort::Hot {
        next = next + 1;
    }
    out.append(" LIMIT $");
    out.append(decimal_len(next).as_str());
    out
}

/// The statement of a thread list; none when nothing may be shown.
pub fn list_threads_query(
    category_id: Option<&str>,
    sort: ThreadSort,
    subscribed_sub: Option<&str>,
    status: ThreadStatusFilter,
    limit: i64,
    now: i64,
) -> (r: Option<Statement>)
    ensures
        opt(r) == list_statement(opt(category_id), sort, opt(subscribed_sub), status, limit, now),
{
    if limit <= 0 {
        return None;
    }
    let sql = list_sql(category_id.is_some(), subscribed_sub.is_some(), sort, status);
    let mut out = Statement::new(sql.as_str());
    if let Some(category_id) = category_id {
        out = out.text(category_id);
    }
    if let Some(subscribed_sub) = subscribed_sub {
        out = out.text(subscribed_sub);
    }
    if sort == ThreadSort::Hot {
        out = out.number(now);
    }
    Some(out.number(limit))
}

// ---------------------------------------------------------------------------
// Search.
// ---------------------------------------------------------------------------

/// The text of a thread search. Its parameters are the pattern, the category if one is asked for,
/// and the limit.
pub open spec fn search_text(category: bool, status: ThreadStatusFilter) -> Seq<char> {
    SEARCH_SELECT@ + (if category {
        " AND t.category_id = $2"@
    } else {
        ""@
    }) + (if status == ThreadStatusFilter::Any {
        Seq::empty()
    } else {
        " AND "@ + status_condition(status)
    }) + SEARCH_ORDER@ + decimal_text(2 + one_if(category))
}

/// A thread search; none when nothing is asked for or may be shown.
pub open spec fn search_statement(
    query: Seq<char>,
    category_id: Option<Seq<char>>,
    status: ThreadStatusFilter,
    limit: i64,
) -> Option<StatementRow> {
    if blank_text(query) || limit <= 0 {
        None
    } else {
        Some(
            text_if(
                statement(search_text(category_id is Some, status)).text(
                    contains_pattern(trim_text(query)),
                ),
                category_id,
            ).number(limit),
        )
    }
}

/// The statement of a thread search; none when nothing is asked for or may be shown.
pub fn search_threads_query(
    query: &str,
    category_id: Option<&str>,
    status: ThreadStatusFilter,
    limit: i64,
) -> (r: Option<Statement>)
    ensures
        opt(r) == search_statement(query@, opt(category_id), status, limit),
{
    if is_blank(query) || limit <= 0 {
        return None;
    }
    let mut sql: String = SEARCH_SELECT.to_owned();
    sql.append(if category_id.is_some() { " AND t.category_id = $2" } else { "" });
    if status != ThreadStatusFilter::Any {
        sql.append(" AND ");
        sql.append(status_sql(status));
    }
    assert(sql@ =~= SEARCH_SELECT@ + (if category_id is Some {
        " AND t.category_id = $2"@
    } else {
        ""@
    }) + (if status == ThreadStatusFilter::Any {
        Seq::empty()
    } else {
        " AND "@ + status_condition(status)
    }));
    sql.append(SEARCH_ORDER);
    let last: usize = if category_id.is_some() { 3 } else { 2 };
    sql.append(decimal_len(last).as_str());
    let mut out = Statement::new(sql.as_str()).text(
        like_contains_pattern(trim(query).as_str()).as_str(),
    );
    if let Some(category_id) = category_id {
        out = out.text(category_id);
    }
    Some(out.number(limit))
}

/// How many replies a thread with that many posts has.
pub open spec fn replies_of(post_count: int) -> int {
    if post_count - 1 > 0 {
        post_count - 1
    } else {
        0
    }
}

/// How many replies a thread with that many posts has.
pub fn reply_count_of(post_count: i64) -> (r: i64)
    ensures
        r == replies_of(post_count as int),
{
    if post_count > 1 {
        post_count - 1
    } else {
        0
    }
}

// ---------------------------------------------------------------------------
// Replies.
// ---------------------------------------------------------------------------

/// The part of a page of replies that its anchor decides.
pub open spec fn anchor_text(anchor: ReplyAnchor) -> Seq<char> {
    match anchor {
        ReplyAnchor::First => "ORDER BY created_at ASC, id ASC LIMIT $4"@,
        ReplyAnchor::Latest => "ORDER BY created_at DESC, id DESC LIMIT $4"@,
        ReplyAnchor::From(_, _) =>
            "AND (created_at > $4 OR (created_at = $4 AND id >= $5)) ORDER BY created_at ASC, id ASC LIMIT $6"@,
        ReplyAnchor::After(_, _) =>
            "AND (created_at > $4 OR (created_at = $4 AND id > $5)) ORDER BY created_at ASC, id ASC LIMIT $6"@,
        ReplyAnchor::Before(_, _) =>
            "AND (created_at < $4 OR (created_at = $4 AND id < $5)) ORDER BY created_at DESC, id DESC LIMIT $6"@,
        ReplyAnchor::Around(_, _) =>
            "AND (created_at < $4 OR (created_at = $4 AND id <= $5)) ORDER BY created_at DESC, id DESC LIMIT $6"@,
    }
}

/// The statement with the cursor of the anchor, if it has one.
pub open spec fn with_cursor(s: StatementRow, anchor: ReplyAnchor) -> StatementRow {
    match anchor {
        ReplyAnchor::First | ReplyAnchor::Latest => s,
        ReplyAnchor::From(ts, id) | ReplyAnchor::After(ts, id) | ReplyAnchor::Before(ts, id)
        | ReplyAnchor::Around(ts, id) => s.number(ts).text(id@),
    }
}

/// A page of replies.
pub open spec fn replies_statement(
    thread_id: Seq<char>,
    op_id: Seq<char>,
    excluded: Option<Seq<char>>,
    anchor: ReplyAnchor,
    limit: i64,
) -> StatementRow {
    with_cursor(
        statement("SELECT "@ + POST_COLUMNS@ + REPLIES_SCOPE@ + anchor_text(anchor)).text(
            thread_id,
        ).text(op_id).opt_text(excluded),
        anchor,
    ).number(limit)
}

fn anchor_sql(anchor: &ReplyAnchor) -> (out: &'static str)
    ensures
        out@ == anchor_text(*anchor),
{
    match anchor {
        ReplyAnchor::First => "ORDER BY created_at ASC, id ASC LIMIT $4",
        ReplyAnchor::Latest => "ORDER BY created_at DESC, id DESC LIMIT $4",
        ReplyAnchor::From(_, _) =>
            "AND (created_at > $4 OR (created_at = $4 AND id >= $5)) ORDER BY created_at ASC, id ASC LIMIT $6",
        ReplyAnchor::After(_, _) =>
            "AND (created_at > $4 OR (created_at = $4 AND id > $5)) ORDER BY created_at ASC, id ASC LIMIT $6",
        ReplyAnchor::Before(_, _) =>
            "AND (created_at < $4 OR (created_at = $4 AND id < $5)) ORDER BY created_at DESC, id DESC LIMIT $6",
        ReplyAnchor::Around(_, _) =>
            "AND (created_at < $4 OR (created_at = $4 AND id <= $5)) ORDER BY created_at DESC, id DESC LIMIT $6",
    }
}

/// The statement of a page of replies.
pub fn replies_page_query(
    thread_id: &str,
    op_id: &str,
    excluded_post_id: Option<&str>,
    anchor: &ReplyAnchor,
    limit: i64,
) -> (r: Statement)
    ensures
        r@ == replies_statement(thread_id@, op_id@, opt(excluded_post_id), *anchor, limit),
{
    let mut sql: String = "SELECT ".to_owned();
    sql.append(POST_COLUMNS);
    sql.append(REPLIES_SCOPE);
    sql.append(anchor_sql(anchor));
    let base = Statement::new(sql.as_str()).text(thread_id).text(op_id).opt_text(excluded_post_id);
    let placed = match anchor {
        ReplyAnchor::First => base,
        ReplyAnchor::Latest => base,
        ReplyAnchor::From(ts, id) => base.number(*ts).text(id.as_str()),
        ReplyAnchor::After(ts, id) => base.number(*ts).text(id.as_str()),
        ReplyAnchor::Before(ts, id) => base.number(*ts).text(id.as_str()),
        ReplyAnchor::Around(ts, id) => base.number(*ts).text(id.as_str()),
    };
    placed.number(limit)
}

// ---------------------------------------------------------------------------
// Personal reads.
// ---------------------------------------------------------------------------

/// The personal signals of threads.
pub open spec fn signals_statement(viewer: Seq<char>, ids: Seq<Seq<char>>) -> StatementRow {
    with_texts(
        statement(SIGNALS_SELECT@ + placeholder_text(2, ids.len() as int) + ")"@).text(viewer),
        ids,
    )
}

/// The statement of the personal signals of the distinct threads; none when no thread is asked
/// for.
pub fn personal_signals_query(viewer_sub: &str, thread_ids: &[String]) -> (r: Result<
    Option<Statement>,
    StoreError,
>)
    ensures
        maybe(r) == match signal_ids(views(thread_ids@)) {
            Err(e) => Err(e),
            Ok(ids) => Ok(
                if ids.len() == 0 {
                    None
                } else {
                    Some(signals_statement(viewer_sub@, ids))
                },
            ),
        },
{
    match bounded_personal_thread_ids(thread_ids) {
        Err(e) => Err(e),
        Ok(ids) => {
            if ids.is_empty() {
                return Ok(None);
            }
            let mut sql: String = SIGNALS_SELECT.to_owned();
            sql.append(placeholders(ids.len()).as_str());
            sql.append(")");
            Ok(Some(append_texts(Statement::new(sql.as_str()).text(viewer_sub), &ids)))
        },
    }
}

/// The bookmarks of an owner on the given posts.
pub open spec fn saved_statement(owner: Seq<char>, ids: Seq<Seq<char>>) -> StatementRow {
    with_texts(
        statement(
            BOOKMARKS_SELECT@ + "$1 AND post_id IN ("@ + placeholder_text(2, ids.len() as int)
                + ")"@,
        ).text(owner),
        ids,
    )
}

/// The statement of the bookmarks of an owner on the given posts, which are bounded; none when no
/// post is asked for.
pub fn bookmarks_for_posts_query(owner_sub: &str, post_ids: &Vec<String>) -> (r: Result<
    Option<Statement>,
    StoreError,
>)
    ensures
        maybe(r) == if post_ids@.len() > MAX_BOOKMARK_POST_BATCH {
            Err(Failure::InvalidOperation("bookmark post batch may contain at most 32 ids"@))
        } else if post_ids@.len() == 0 {
            Ok(None)
        } else {
            Ok(Some(saved_statement(owner_sub@, views(post_ids@))))
        },
{
    if post_ids.len() > MAX_BOOKMARK_POST_BATCH {
        return Err(invalid("bookmark post batch may contain at most 32 ids"));
    }
    if post_ids.is_empty() {
        return Ok(None);
    }
    let mut sql: String = BOOKMARKS_SELECT.to_owned();
    sql.append("$1 AND post_id IN (");
    sql.append(placeholders(post_ids.len()).as_str());
    sql.append(")");
    Ok(Some(append_texts(Statement::new(sql.as_str()).text(owner_sub), post_ids)))
}

/// The posts of threads in reading order, with the read receipts of the viewer.
pub open spec fn reading_statement(viewer: Seq<char>, ids: Seq<Seq<char>>) -> StatementRow {
    with_texts(
        statement(
            READING_SELECT@ + placeholder_text(2, ids.len() as int) + READING_ORDER@,
        ).text(viewer),
        ids,
    )
}

/// The statement of the reading states of the distinct threads; none when no thread is asked for.
pub fn reading_states_query(viewer_sub: &str, thread_ids: &[String]) -> (r: Result<
    Option<Statement>,
    StoreError,
>)
    ensures
        maybe(r) == match reading_ids(views(thread_ids@)) {
            Err(e) => Err(e),
            Ok(ids) => Ok(
                if ids.len() == 0 {
                    None
                } else {
                    Some(reading_statement(viewer_sub@, ids))
                },
            ),
        },
{
    match bounded_thread_ids(thread_ids) {
        Err(e) => Err(e),
        Ok(ids) => {
            if ids.is_empty() {
                return Ok(None);
            }
            let mut sql: String = READING_SELECT.to_owned();
            sql.append(placeholders(ids.len()).as_str());
            sql.append(READING_ORDER);
            Ok(Some(append_texts(Statement::new(sql.as_str()).text(viewer_sub), &ids)))
        },
    }
}

/// A number between two bounds.
pub open spec fn clamped(n: int, low: int, high: int) -> int {
    if n < low {
        low
    } else if n > high {
        high
    } else {
        n
    }
}

/// The part of a bookmark page that its state decides.
pub open spec fn bookmark_scope(state: BookmarkState) -> Seq<char> {
    match state {
        BookmarkState::All => ALL_BOOKMARKS@,
        BookmarkState::Due => DUE_BOOKMARKS@,
        BookmarkState::Scheduled => SCHEDULED_BOOKMARKS@,
    }
}

/// A page of bookmarks. Only the reminder states depend on the current time.
pub open spec fn bookmarks_statement(
    owner: Seq<char>,
    state: BookmarkState,
    cursor: Option<BookmarkCursorRow>,
    limit: i64,
    now: i64,
) -> StatementRow {
    let placed = statement(BOOKMARK_SELECT@ + bookmark_scope(state)).text(owner).opt_number(
        match cursor {
            Some(c) => Some(c.sort_at),
            None => None,
        },
    ).text(
        match cursor {
            Some(c) => c.post_id,
            None => ""@,
        },
    );
    let timed = if state == BookmarkState::All {
        placed
    } else {
        placed.number(now)
    };
    timed.number(clamped(limit as int, 0, MAX_BOOKMARK_PAGE + 1) as i64)
}

/// The statement of a page of bookmarks.
pub fn bookmark_page_query(
    owner_sub: &str,
    state: BookmarkState,
    cursor: Option<&BookmarkCursor>,
    limit: i64,
    now: i64,
) -> (r: Statement)
    ensures
        r@ == bookmarks_statement(owner_sub@, state, opt(cursor), limit, now),
{
    let mut sql: String = BOOKMARK_SELECT.to_owned();
    sql.append(
        match state {
            BookmarkState::All => ALL_BOOKMARKS,
            BookmarkState::Due => DUE_BOOKMARKS,
            BookmarkState::Scheduled => SCHEDULED_BOOKMARKS,
        },
    );
    let base = Statement::new(sql.as_str()).text(owner_sub);
    let mut out = match cursor {
        Some(c) => base.opt_number(Some(c.sort_at)).text(c.post_id.as_str()),
        None => base.opt_number(None).text(""),
    };
    if state != BookmarkState::All {
        out = out.number(now);
    }
    let most: i64 = MAX_BOOKMARK_PAGE + 1;
    let shown: i64 = if limit < 0 {
        0
    } else if limit > most {
        most
    } else {
        limit
    };
    out.number(shown)
}

/// The scope of a catch-up view.
pub open spec fn view_scope(view: CatchUpView) -> Seq<char> {
    match view {
        CatchUpView::Updates => UPDATES_SCOPE@,
        CatchUpView::Following => FOLLOWING_SCOPE@,
        CatchUpView::Questions => QUESTIONS_SCOPE@,
    }
}

/// The threads that may belong to a catch-up view.
pub open spec fn view_sources(view: CatchUpView) -> Seq<char> {
    match view {
        CatchUpView::Updates => UPDATES_SOURCES@,
        CatchUpView::Following => FOLLOWING_SOURCES@,
        CatchUpView::Questions => QUESTIONS_SOURCES@,
    }
}

/// A page of the catch-up, frozen at a time and a generation.
pub open spec fn catch_up_statement(
    viewer: Seq<char>,
    view: CatchUpView,
    as_of: i64,
    generation: i64,
    before: Option<CatchUpCursorRow>,
    limit: i64,
) -> StatementRow {
    statement(
        CATCH_UP_SNAPSHOT@ + view_sources(view) + CATCH_UP_PROJECTION@ + view_scope(view)
            + CATCH_UP_PAGE@,
    ).text(viewer).number(as_of).number(generation).flag(before is Some).number(
        match before {
            Some(c) => c.activity_at,
            None => 0,
        },
    ).text(
        match before {
            Some(c) => c.thread_id,
            None => ""@,
        },
    ).number(limit)
}

/// The statement of a page of the catch-up.
pub fn catch_up_page_query(
    viewer_sub: &str,
    view: CatchUpView,
    as_of: i64,
    snapshot_generation: i64,
    before: Option<&CatchUpCursor>,
    limit: i64,
) -> (r: Statement)
    ensures
        r@ == catch_up_statement(
            viewer_sub@,
            view,
            as_of,
            snapshot_generation,
            opt(before),
            limit,
        ),
{
    let mut sql: String = CATCH_UP_SNAPSHOT.to_owned();
    sql.append(
        match view {
            CatchUpView::Updates => UPDATES_SOURCES,
            CatchUpView::Following => FOLLOWING_SOURCES,
            CatchUpView::Questions => QUESTIONS_SOURCES,
        },
    );
    sql.append(CATCH_UP_PROJECTION);
    sql.append(
        match view {
            CatchUpView::Updates => UPDATES_SCOPE,
            CatchUpView::Following => FOLLOWING_SCOPE,
            CatchUpView::Questions => QUESTIONS_SCOPE,
        },
    );
    sql.append(CATCH_UP_PAGE);
    let base = Statement::new(sql.as_str()).text(viewer_sub).number(as_of).number(snapshot_generation);
    let placed = match before {
        Some(c) => base.flag(true).number(c.activity_at).text(c.thread_id.as_str()),
        None => base.flag(false).number(0).text(""),
    };
    placed.number(limit)
}

/// The name of an activity filter in a statement.
pub open spec fn filter_key(filter: ActivityFilter) -> Seq<char> {
    match filter {
        ActivityFilter::All => "all"@,
        ActivityFilter::Reason(reason) => reason.text(),
    }
}

/// A page of the activity of a viewer.
pub open spec fn activity_statement(
    viewer: Seq<char>,
    filter: ActivityFilter,
    unread_only: bool,
    before: Option<ActivityCursorRow>,
    limit: i64,
) -> StatementRow {
    statement(ACTIVITY_PAGE@).text(viewer).text(filter_key(filter)).flag(unread_only).opt_number(
        match before {
            Some(c) => Some(c.created_at),
            None => None,
        },
    ).text(
        match before {
            Some(c) => c.id,
            None => ""@,
        },
    ).number(
        if limit > 0 {
            limit
        } else {
            0
        },
    )
}

/// The statement of a page of the activity of a viewer.
pub fn activity_page_query(
    viewer_sub: &str,
    filter: ActivityFilter,
    unread_only: bool,
    before: Option<&ActivityCursor>,
    limit: i64,
) -> (r: Statement)
    ensures
        r@ == activity_statement(viewer_sub@, filter, unread_only, opt(before), limit),
{
    let key = match filter {
        ActivityFilter::All => "all",
        ActivityFilter::Reason(reason) => reason.as_str(),
    };
    let base = Statement::new(ACTIVITY_PAGE).text(viewer_sub).text(key).flag(unread_only);
    let placed = match before {
        Some(c) => base.opt_number(Some(c.created_at)).text(c.id.as_str()),
        None => base.opt_number(None).text(""),
    };
    placed.number(if limit > 0 { limit } else { 0 })
}

} // verus!
