//! What is asked of the tables: which values a statement carries, in which places, and what is made
//! of the rows that come back.

use vstd::prelude::*;

use crate::laws::painting::{group_ends, shows_last};
use crate::laws::rendering::{group_shows, shows_part};
use crate::model::{
    ActivityKind, ActivityReason, CategoryFocusLevel, CategoryFormat, ThreadFollowLevel,
};
use crate::relational::decoding::{
    StoredCatchUpRow, StoredFocusRow, catch_up_row_item, focus_row_item,
};
use crate::relational::moderating::stored_format;
use crate::relational::queries::{
    activity_statement, anchor_text, bookmarks_statement, catch_up_statement, contains_pattern,
    list_order, list_statement, one_if, placeholder_text, reading_statement, replies_statement,
    saved_statement, search_statement, signals_statement, with_texts,
};
use crate::relational::sql::{
    BOOKMARKS_SELECT, FOLLOWING_SCOPE, FOLLOWING_SOURCES, HOT_AFTER, HOT_BEFORE, LIST_FOLLOWED,
    LIST_WATCHED, QUESTIONS_SCOPE, QUESTIONS_SOURCES, READING_ORDER, READING_SELECT, SEARCH_ORDER,
    SIGNALS_SELECT, UPDATES_SCOPE, UPDATES_SOURCES,
};
use crate::relational::statement::{ParamRow, StatementRow, statement};
use crate::store::rules::focus_why;
use crate::store::types::{
    ActivityCursorRow, ActivityFilter, BookmarkCursorRow, BookmarkState, CatchUpCursorRow,
    CatchUpQuestionState, CatchUpView, CategoryFocusItemRow, ReplyAnchor, ThreadSort,
    ThreadStatusFilter,
};
use crate::text::{blank_text, decimal_text, trim_text};

verus! {

// ---------------------------------------------------------------------------
// Statements.
// ---------------------------------------------------------------------------

/// A list is asked for with its category, its subscriber and its limit, each in the place that the
/// statement names for it, under its condition and in its order; nothing is asked for an empty page.
pub proof fn law_list_is_asked_for(
    category_id: Option<Seq<char>>,
    sort: ThreadSort,
    subscribed_sub: Option<Seq<char>>,
    status: ThreadStatusFilter,
    limit: i64,
    now: i64,
)
    ensures
        ({
            let s = list_statement(category_id, sort, subscribed_sub, status, limit, now);
            &&& s is None <==> limit <= 0
            &&& s is Some ==> {
                let sql = s->0.sql;
                let params = s->0.params;
                &&& params.last() == ParamRow::Int(limit)
                &&& shows_last(sql, " LIMIT $"@ + decimal_text(params.len() as int))
                &&& category_id is Some ==> params[0] == ParamRow::Text(category_id->0)
                    && shows_part(sql, "t.category_id = $1"@)
                &&& subscribed_sub is Some ==> exists|k: int|
                    0 <= k < params.len() && #[trigger] params[k] == ParamRow::Text(
                        subscribed_sub->0,
                    ) && shows_part(sql, LIST_WATCHED@ + decimal_text(k + 1)) && shows_part(
                        sql,
                        LIST_FOLLOWED@ + decimal_text(k + 1),
                    )
                &&& sort == ThreadSort::Latest ==> shows_part(
                    sql,
                    " ORDER BY t.pinned DESC, "@ + "t.last_at DESC, t.created_at DESC, t.id DESC"@,
                )
                &&& sort == ThreadSort::Top ==> shows_part(
                    sql,
                    " ORDER BY t.pinned DESC, "@
                        + "COUNT(p.id) DESC, t.last_at DESC, t.created_at DESC, t.id DESC"@,
                )
                &&& sort == ThreadSort::Hot ==> exists|k: int|
                    0 <= k < params.len() && #[trigger] params[k] == ParamRow::Int(now)
                        && shows_part(sql, HOT_BEFORE@ + decimal_text(k + 1) + HOT_AFTER@)
                &&& status == ThreadStatusFilter::Questions ==> shows_part(
                    sql,
                    "c.format = 'question'"@,
                )
                &&& status == ThreadStatusFilter::Answered ==> shows_part(
                    sql,
                    "c.format = 'question' AND accepted.id IS NOT NULL"@,
                )
                &&& status == ThreadStatusFilter::Unanswered ==> shows_part(
                    sql,
                    "c.format = 'question' AND accepted.id IS NULL"@,
                )
                &&& params.len() == 1 + one_if(category_id is Some) + one_if(
                    subscribed_sub is Some,
                ) + one_if(sort == ThreadSort::Hot)
            }
        }),
{
    broadcast use {group_shows, group_ends};

    let s = list_statement(category_id, sort, subscribed_sub, status, limit, now);
    if s is Some {
        let sql = s->0.sql;
        let params = s->0.params;
        if subscribed_sub is Some {
            let k = one_if(category_id is Some);
            assert(params[k] == ParamRow::Text(subscribed_sub->0));
        }
        if sort == ThreadSort::Hot {
            let k = one_if(category_id is Some) + one_if(subscribed_sub is Some);
            assert(params[k] == ParamRow::Int(now));
            assert(shows_part(
                list_order(sort, k + 1),
                HOT_BEFORE@ + decimal_text(k + 1) + HOT_AFTER@,
            ));
        }
    }
}

/// A search is asked for with the pattern of its trimmed words, its category and its limit, each in
/// the place that the statement names for it; nothing is asked for blank words or an empty page.
pub proof fn law_search_is_asked_for(
    query: Seq<char>,
    category_id: Option<Seq<char>>,
    status: ThreadStatusFilter,
    limit: i64,
)
    ensures
        ({
            let s = search_statement(query, category_id, status, limit);
            &&& s is None <==> blank_text(query) || limit <= 0
            &&& s is Some ==> {
                let sql = s->0.sql;
                let params = s->0.params;
                &&& params[0] == ParamRow::Text(contains_pattern(trim_text(query)))
                &&& category_id is Some ==> params.len() == 3 && params[1] == ParamRow::Text(
                    category_id->0,
                ) && shows_part(sql, " AND t.category_id = $2"@)
                &&& category_id is None ==> params.len() == 2
                &&& params.last() == ParamRow::Int(limit)
                &&& shows_last(sql, SEARCH_ORDER@ + decimal_text(params.len() as int))
                &&& status == ThreadStatusFilter::Questions ==> shows_part(
                    sql,
                    "c.format = 'question'"@,
                )
                &&& status == ThreadStatusFilter::Answered ==> shows_part(
                    sql,
                    "c.format = 'question' AND accepted.id IS NOT NULL"@,
                )
                &&& status == ThreadStatusFilter::Unanswered ==> shows_part(
                    sql,
                    "c.format = 'question' AND accepted.id IS NULL"@,
                )
            }
        }),
{
    broadcast use {group_shows, group_ends};

}

/// Replies are asked for with their thread, the original post, the one shown apart, the cursor where
/// there is one, and the limit last.
pub proof fn law_replies_are_asked_for(
    thread_id: Seq<char>,
    op_id: Seq<char>,
    excluded: Option<Seq<char>>,
    anchor: ReplyAnchor,
    limit: i64,
)
    ensures
        ({
            let params = replies_statement(thread_id, op_id, excluded, anchor, limit).params;
            &&& params[0] == ParamRow::Text(thread_id)
            &&& params[1] == ParamRow::Text(op_id)
            &&& params[2] == ParamRow::OptText(excluded)
            &&& match anchor {
                ReplyAnchor::First | ReplyAnchor::Latest => params.len() == 4,
                ReplyAnchor::From(at, id) | ReplyAnchor::After(at, id) | ReplyAnchor::Before(
                    at,
                    id,
                )
                | ReplyAnchor::Around(at, id) => params.len() == 6 && params[3] == ParamRow::Int(at)
                    && params[4] == ParamRow::Text(id@),
            }
            &&& params.last() == ParamRow::Int(limit)
        }),
{
}

/// Replies behind a place are asked for upwards and those before it downwards; the place itself
/// counts for the replies from it on and up to it.
pub proof fn law_reply_order_is_asked_for(at: i64, id: String)
    ensures
        shows_part(anchor_text(ReplyAnchor::First), "ORDER BY created_at ASC, id ASC LIMIT $4"@),
        shows_part(anchor_text(ReplyAnchor::Latest), "ORDER BY created_at DESC, id DESC LIMIT $4"@),
        shows_part(
                anchor_text(ReplyAnchor::From(at, id)),
                "created_at > $4 OR (created_at = $4 AND id >= $5)"@,
            ) && shows_part(
                anchor_text(ReplyAnchor::From(at, id)),
                "ORDER BY created_at ASC, id ASC LIMIT $6"@,
            ),
        shows_part(
                anchor_text(ReplyAnchor::After(at, id)),
                "created_at > $4 OR (created_at = $4 AND id > $5)"@,
            ) && shows_part(
                anchor_text(ReplyAnchor::After(at, id)),
                "ORDER BY created_at ASC, id ASC LIMIT $6"@,
            ),
        shows_part(
                anchor_text(ReplyAnchor::Before(at, id)),
                "created_at < $4 OR (created_at = $4 AND id < $5)"@,
            ) && shows_part(
                anchor_text(ReplyAnchor::Before(at, id)),
                "ORDER BY created_at DESC, id DESC LIMIT $6"@,
            ),
        shows_part(
                anchor_text(ReplyAnchor::Around(at, id)),
                "created_at < $4 OR (created_at = $4 AND id <= $5)"@,
            ) && shows_part(
                anchor_text(ReplyAnchor::Around(at, id)),
                "ORDER BY created_at DESC, id DESC LIMIT $6"@,
            ),
{
    broadcast use group_shows;

    reveal_strlit(
        "AND (created_at > $4 OR (created_at = $4 AND id >= $5)) ORDER BY created_at ASC, id ASC LIMIT $6",
    );
    reveal_strlit(
        "AND (created_at > $4 OR (created_at = $4 AND id > $5)) ORDER BY created_at ASC, id ASC LIMIT $6",
    );
    reveal_strlit(
        "AND (created_at < $4 OR (created_at = $4 AND id < $5)) ORDER BY created_at DESC, id DESC LIMIT $6",
    );
    reveal_strlit(
        "AND (created_at < $4 OR (created_at = $4 AND id <= $5)) ORDER BY created_at DESC, id DESC LIMIT $6",
    );
    reveal_strlit("created_at > $4 OR (created_at = $4 AND id >= $5)");
    reveal_strlit("created_at > $4 OR (created_at = $4 AND id > $5)");
    reveal_strlit("created_at < $4 OR (created_at = $4 AND id < $5)");
    reveal_strlit("created_at < $4 OR (created_at = $4 AND id <= $5)");
    reveal_strlit("ORDER BY created_at ASC, id ASC LIMIT $6");
    reveal_strlit("ORDER BY created_at DESC, id DESC LIMIT $6");
    lemma_part(
        "AND (created_at > $4 OR (created_at = $4 AND id >= $5)) ORDER BY created_at ASC, id ASC LIMIT $6"@,
        5,
        "created_at > $4 OR (created_at = $4 AND id >= $5)"@,
    );
    lemma_part(
        "AND (created_at > $4 OR (created_at = $4 AND id >= $5)) ORDER BY created_at ASC, id ASC LIMIT $6"@,
        56,
        "ORDER BY created_at ASC, id ASC LIMIT $6"@,
    );
    lemma_part(
        "AND (created_at > $4 OR (created_at = $4 AND id > $5)) ORDER BY created_at ASC, id ASC LIMIT $6"@,
        5,
        "created_at > $4 OR (created_at = $4 AND id > $5)"@,
    );
    lemma_part(
        "AND (created_at > $4 OR (created_at = $4 AND id > $5)) ORDER BY created_at ASC, id ASC LIMIT $6"@,
        55,
        "ORDER BY created_at ASC, id ASC LIMIT $6"@,
    );
    lemma_part(
        "AND (created_at < $4 OR (created_at = $4 AND id < $5)) ORDER BY created_at DESC, id DESC LIMIT $6"@,
        5,
        "created_at < $4 OR (created_at = $4 AND id < $5)"@,
    );
    lemma_part(
        "AND (created_at < $4 OR (created_at = $4 AND id < $5)) ORDER BY created_at DESC, id DESC LIMIT $6"@,
        55,
        "ORDER BY created_at DESC, id DESC LIMIT $6"@,
    );
    lemma_part(
        "AND (created_at < $4 OR (created_at = $4 AND id <= $5)) ORDER BY created_at DESC, id DESC LIMIT $6"@,
        5,
        "created_at < $4 OR (created_at = $4 AND id <= $5)"@,
    );
    lemma_part(
        "AND (created_at < $4 OR (created_at = $4 AND id <= $5)) ORDER BY created_at DESC, id DESC LIMIT $6"@,
        56,
        "ORDER BY created_at DESC, id DESC LIMIT $6"@,
    );
}

proof fn lemma_part(text: Seq<char>, i: int, part: Seq<char>)
    requires
        0 <= i <= text.len() - part.len(),
        forall|j: int| 0 <= j < part.len() ==> #[trigger] part[j] == text[i + j],
    ensures
        shows_part(text, part),
{
    assert(text.subrange(i, i + part.len()) =~= part);
}

/// A list of identifiers is carried behind the person who asks, each in the place that the
/// statement names for it.
pub proof fn law_identifiers_are_carried(who: Seq<char>, ids: Seq<Seq<char>>, k: int)
    requires
        0 <= k < ids.len(),
    ensures
        ({
            let signals = signals_statement(who, ids);
            let saved = saved_statement(who, ids);
            let reading = reading_statement(who, ids);
            &&& signals.params == saved.params && saved.params == reading.params
            &&& signals.params.len() == ids.len() + 1
            &&& signals.params[0] == ParamRow::Text(who)
            &&& signals.params[k + 1] == ParamRow::Text(ids[k])
            &&& shows_part(signals.sql, "$"@ + decimal_text(k + 2))
            &&& shows_part(saved.sql, "$"@ + decimal_text(k + 2))
            &&& shows_part(reading.sql, "$"@ + decimal_text(k + 2))
        }),
{
    broadcast use {group_shows, group_ends};

    let n = ids.len() as int;
    lemma_places(2, n, k);
    lemma_with_texts(
        statement(SIGNALS_SELECT@ + placeholder_text(2, n) + ")"@).text(who),
        ids,
    );
    lemma_with_texts(
        statement(BOOKMARKS_SELECT@ + "$1 AND post_id IN ("@ + placeholder_text(2, n) + ")"@).text(
            who,
        ),
        ids,
    );
    lemma_with_texts(
        statement(READING_SELECT@ + placeholder_text(2, n) + READING_ORDER@).text(who),
        ids,
    );
}

proof fn lemma_places(from: int, count: int, k: int)
    requires
        0 <= k < count,
    ensures
        shows_part(placeholder_text(from, count), "$"@ + decimal_text(from + k)),
    decreases count,
{
    broadcast use {group_shows, group_ends};

    if count > 1 && k < count - 1 {
        lemma_places(from, count - 1, k);
    }
}

proof fn lemma_with_texts(s: StatementRow, texts: Seq<Seq<char>>)
    ensures
        with_texts(s, texts).sql == s.sql,
        with_texts(s, texts).params == s.params + texts.map_values(
            |t: Seq<char>| ParamRow::Text(t),
        ),
    decreases texts.len(),
{
    let all = texts.map_values(|t: Seq<char>| ParamRow::Text(t));
    if texts.len() > 0 {
        let d = texts.drop_last();
        lemma_with_texts(s, d);
        assert(s.params + all =~= (s.params + d.map_values(|t: Seq<char>| ParamRow::Text(t))).push(
            ParamRow::Text(texts.last()),
        ));
    } else {
        assert(s.params + all =~= s.params);
    }
}

/// Private pages are asked for with the person, the cursor, the moment and the limit.
pub proof fn law_private_pages_are_asked_for(
    who: Seq<char>,
    state: BookmarkState,
    cursor: Option<BookmarkCursorRow>,
    filter: ActivityFilter,
    unread_only: bool,
    before: Option<ActivityCursorRow>,
    limit: i64,
    now: i64,
)
    ensures
        ({
            let saved = bookmarks_statement(who, state, cursor, limit, now).params;
            let told = activity_statement(who, filter, unread_only, before, limit).params;
            &&& saved[0] == ParamRow::Text(who)
            &&& cursor matches Some(c) ==> saved[1] == ParamRow::OptInt(Some(c.sort_at)) && saved[2]
                == ParamRow::Text(c.post_id)
            &&& cursor is None ==> saved[1] == ParamRow::OptInt(None)
            &&& !(state is All) ==> saved[3] == ParamRow::Int(now)
            &&& saved.len() == (if state is All {
                4int
            } else {
                5int
            })
            &&& 0 <= limit <= 31 ==> saved.last() == ParamRow::Int(limit)
            &&& limit > 31 ==> saved.last() == ParamRow::Int(31)
            &&& limit < 0 ==> saved.last() == ParamRow::Int(0)
            &&& told.len() == 6
            &&& told[0] == ParamRow::Text(who)
            &&& filter is All ==> told[1] == ParamRow::Text("all"@)
            &&& filter matches ActivityFilter::Reason(reason) ==> told[1] == ParamRow::Text(
                reason.text(),
            )
            &&& told[2] == ParamRow::Flag(unread_only)
            &&& before matches Some(c) ==> told[3] == ParamRow::OptInt(Some(c.created_at))
                && told[4] == ParamRow::Text(c.id)
            &&& before is None ==> told[3] == ParamRow::OptInt(None)
            &&& limit > 0 ==> told[5] == ParamRow::Int(limit)
            &&& limit <= 0 ==> told[5] == ParamRow::Int(0)
        }),
{
}

/// The catch-up desk is asked for with the viewer, the snapshot, the cursor and the limit, in the
/// sources and the scope of its view.
pub proof fn law_desk_is_asked_for(
    who: Seq<char>,
    view: CatchUpView,
    as_of: i64,
    generation: i64,
    before: Option<CatchUpCursorRow>,
    limit: i64,
)
    ensures
        ({
            let s = catch_up_statement(who, view, as_of, generation, before, limit);
            let params = s.params;
            &&& params.len() == 7
            &&& params[0] == ParamRow::Text(who)
            &&& params[1] == ParamRow::Int(as_of)
            &&& params[2] == ParamRow::Int(generation)
            &&& params[3] == ParamRow::Flag(before is Some)
            &&& before matches Some(c) ==> params[4] == ParamRow::Int(c.activity_at) && params[5]
                == ParamRow::Text(c.thread_id)
            &&& params[6] == ParamRow::Int(limit)
            &&& view is Updates ==> shows_part(s.sql, UPDATES_SCOPE@) && shows_part(
                s.sql,
                UPDATES_SOURCES@,
            )
            &&& view is Following ==> shows_part(s.sql, FOLLOWING_SCOPE@) && shows_part(
                s.sql,
                FOLLOWING_SOURCES@,
            )
            &&& view is Questions ==> shows_part(s.sql, QUESTIONS_SCOPE@) && shows_part(
                s.sql,
                QUESTIONS_SOURCES@,
            )
        }),
{
    broadcast use group_shows;

}

// ---------------------------------------------------------------------------
// Names.
// ---------------------------------------------------------------------------

/// Every stable name reads back as what it names.
pub proof fn law_names_read_back(
    format: CategoryFormat,
    follow: ThreadFollowLevel,
    focus: CategoryFocusLevel,
    kind: ActivityKind,
    reason: ActivityReason,
)
    ensures
        CategoryFormat::named(format.text()) == Some(format),
        ThreadFollowLevel::named(follow.text()) == Some(follow),
        CategoryFocusLevel::named(focus.text()) == Some(focus),
        ActivityKind::named(kind.text()) == Some(kind),
        ActivityReason::named(reason.text()) == Some(reason),
{
    reveal_strlit("discussion");
    reveal_strlit("question");
    reveal_strlit("none");
    reveal_strlit("watch");
    reveal_strlit("follow");
    reveal_strlit("mute");
    reveal_strlit("priority");
    reveal_strlit("post_created");
    reveal_strlit("answer_accepted");
    reveal_strlit("mention");
    reveal_strlit("reply");
    reveal_strlit("following");
    reveal_strlit("answer");
    assert("discussion"@.len() == 10 && "question"@.len() == 8);
    assert("none"@.len() == 4 && "watch"@.len() == 5 && "follow"@.len() == 6);
    assert("mute"@.len() == 4 && "priority"@.len() == 8);
    assert("none"@[0] == 'n' && "mute"@[0] == 'm');
    assert("post_created"@.len() == 12 && "answer_accepted"@.len() == 15);
    assert("mention"@.len() == 7 && "reply"@.len() == 5);
    assert("following"@.len() == 9 && "answer"@.len() == 6);
}

// ---------------------------------------------------------------------------
// Rows.
// ---------------------------------------------------------------------------

/// A row of the focus page becomes an item with its own thread and category, under the levels that
/// its names say and for the reason that they give.
pub proof fn law_focus_row_is_read(row: StoredFocusRow)
    ensures
        ({
            let r = focus_row_item(row);
            let category_level = CategoryFocusLevel::named(row.category_level@);
            let thread_level = ThreadFollowLevel::named(row.thread_level@);
            &&& r is Ok <==> category_level is Some && thread_level is Some && focus_why(
                category_level->0,
                thread_level->0,
            ) is Some
            &&& r is Ok ==> r->Ok_0 == (CategoryFocusItemRow {
                thread: row.thread@,
                category: row.category@,
                category_level: category_level->0,
                thread_level: thread_level->0,
                reason: focus_why(category_level->0, thread_level->0)->0,
            })
            &&& r is Err ==> r->Err_0 is Backend
        }),
{
}

/// A row of the desk becomes an item of its own thread with its counts, for a reason that the view
/// gives; it has a first unread post exactly when it has unread ones, and a question state exactly
/// when it stands in a question category.
pub proof fn law_desk_row_is_read(view: CatchUpView, row: StoredCatchUpRow)
    ensures
        ({
            let r = catch_up_row_item(view, row);
            &&& r is Err ==> r->Err_0 is Backend
            &&& r is Ok ==> {
                let item = r->Ok_0;
                &&& item.thread == row.thread@
                &&& item.category_name == row.category_name@
                &&& item.unread_count == row.unread_count
                &&& item.first_unread is Some <==> row.unread_count > 0
                &&& item.first_unread is Some ==> row.unread is Some && item.first_unread->0.id
                    == (row.unread->0).id@
                &&& Some(item.follow_level) == ThreadFollowLevel::named(row.follow_level@)
                &&& item.activity_at == row.activity_at
                &&& row.post_count > 1 ==> item.reply_count == row.post_count - 1
                &&& row.post_count <= 1 ==> item.reply_count == 0
                &&& item.question_state is Some ==> (item.question_state == Some(
                    CatchUpQuestionState::Solved,
                ) <==> row.solved)
                &&& item.question_state is Some <==> stored_format(row.category_format@) is Question
                &&& view is Following ==> item.reason is Watch || item.reason is Follow
                &&& item.reason is Watch ==> item.follow_level is Watch
                &&& item.reason is Follow ==> item.follow_level is Follow
                &&& item.reason is Authored ==> row.authored
                &&& item.reason is Bookmarked ==> row.bookmarked
                &&& item.reason is Participated ==> row.participated
                &&& item.reason is ContinueReading ==> row.reading_started
            }
        }),
{
}

} // verus!
