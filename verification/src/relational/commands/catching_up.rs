//! Reading a page of the catch-up feed.

use vstd::prelude::*;

use crate::relational::command::{
    Ask, AskRow, Shape, Told, ToldRow, begin, beginning, no_steps, without_steps,
};
use crate::relational::commands::moderation::{just_commit, only_commit};
use crate::relational::commands::opening::{clock_at, told_clock};
use crate::relational::decoding::check_snapshot;
use crate::relational::queries::{catch_up_page_query, catch_up_statement};
use crate::relational::reads::{GENERATION, catch_up_snapshot_generation_query};
use crate::relational::statement::{Statement, StatementRow, statement};
use crate::rows::{opt, views};
use crate::store::rules::{catch_up_page_check, validate_catch_up_page};
use crate::store::types::{CatchUpCursor, CatchUpCursorRow, CatchUpView, Failure};

verus! {

/// What is read for a page.
pub enum PageRead {
    /// The page has no room.
    Nothing,
    /// The rows of the page.
    Rows(Statement),
}

/// The mathematical view of a [`PageRead`].
pub enum PageReadRow {
    Nothing,
    Rows(StatementRow),
}

impl View for PageRead {
    type V = PageReadRow;

    open spec fn view(&self) -> PageReadRow {
        match self {
            PageRead::Nothing => PageReadRow::Nothing,
            PageRead::Rows(s) => PageReadRow::Rows(s@),
        }
    }
}

/// A page is checked before anything is read; a snapshot is not ahead of the latest generation.
pub open spec fn catching_up(
    viewer: Seq<char>,
    view: CatchUpView,
    as_of: i64,
    generation: i64,
    before: Option<CatchUpCursorRow>,
    limit: i64,
    told: Seq<ToldRow>,
) -> AskRow<PageReadRow> {
    match catch_up_page_check(view, as_of as int, generation as int, before, limit as int) {
        Err(e) => AskRow::Fail(e),
        Ok(_) => if limit == 0 {
            AskRow::Finish(no_steps(), PageReadRow::Nothing)
        } else if told.len() == 0 {
            AskRow::Fetch(begin(), Shape::Number, statement(GENERATION@))
        } else if generation > clock_at(told, 0) {
            AskRow::Fail(
                Failure::InvalidOperation("catch-up snapshot generation is in the future"@),
            )
        } else {
            AskRow::Finish(
                just_commit(),
                PageReadRow::Rows(
                    catch_up_statement(viewer, view, as_of, generation, before, limit),
                ),
            )
        },
    }
}

/// The next step of reading a page of the catch-up feed.
pub fn catch_up_page(
    viewer_sub: &str,
    view: CatchUpView,
    as_of: i64,
    snapshot_generation: i64,
    before: Option<&CatchUpCursor>,
    limit: i64,
    told: &Vec<Told>,
) -> (r: Ask<PageRead>)
    ensures
        r@ == catching_up(
            viewer_sub@,
            view,
            as_of,
            snapshot_generation,
            opt(before),
            limit,
            views(told@),
        ),
{
    if let Err(e) = validate_catch_up_page(view, as_of, snapshot_generation, before, limit) {
        return Ask::Fail(e);
    }
    if limit == 0 {
        return Ask::Finish(without_steps(), PageRead::Nothing);
    }
    if told.len() == 0 {
        return Ask::Fetch(beginning(), Shape::Number, catch_up_snapshot_generation_query());
    }
    match check_snapshot(snapshot_generation, told_clock(told, 0)) {
        Err(e) => Ask::Fail(e),
        Ok(_) => Ask::Finish(
            only_commit(),
            PageRead::Rows(
                catch_up_page_query(viewer_sub, view, as_of, snapshot_generation, before, limit),
            ),
        ),
    }
}

} // verus!
