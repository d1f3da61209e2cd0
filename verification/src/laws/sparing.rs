//! What does not hold is not shown: a part takes room on a page exactly when there is something to
//! say.

use vstd::prelude::*;

use crate::text::{blank_text, decimal_text, escape_text};
use crate::view_model::{
    AdminThreadToolbarVM, AnswerState, BookmarkItemViewerState, CatchUpItemViewerState,
    CategoryFocusLevelVM, FocusItemVM, PaginationVM, PostActionsVM, PostViewerState, ReactionVM,
    ReadingProgressVM, Text, ThreadKind, ThreadRowShared, ThreadRowViewerState, ThreadShared,
    ThreadView, ThreadViewerState,
};
use crate::views::{
    answer_state_chip_html, bookmark_action_html, follow_marker_html, form_action_html,
    kind_chip_html, link_action_html, post_actions_html, post_marks_html, private_marker_html,
    reaction_items_html, resume_link_html, review_links_html, row_marks_html, shared_chips_html,
    shared_flag_html, thread_row_html, unread_label_text,
};
use crate::views::forum::{
    category_terraces_html, control_parts_html, focus_level_label_text, owner_actions_html,
    reading_spine_html, reply_steps_html, summary_block_html, thread_head_html, toolbar_items_html,
    unread_posts_label_text,
};
use crate::views::personal::{
    bookmark_actions_html, bookmark_note_html, bookmark_reminder_html, catch_up_marks_html,
    catch_up_reason_text, continue_label_text, focus_marks_html, focus_reason_text,
    question_state_label_text,
};

verus! {

/// The room that a part takes when there is something to say.
pub open spec fn room(holds: bool, part: Seq<char>) -> nat {
    if holds {
        part.len()
    } else {
        0
    }
}

/// Pinning and locking add their flags to a row and to the head of a thread, and nothing else.
pub proof fn law_flags_take_their_room(
    shared: &ThreadRowShared,
    viewer: &ThreadRowViewerState,
    head: &ThreadShared,
    own: &ThreadViewerState,
    now: i64,
)
    ensures
        ({
            let bare = ThreadRowShared { pinned: false, locked: false, ..*shared };
            let plain = ThreadShared { pinned: false, locked: false, ..*head };
            &&& thread_row_html(shared, viewer, now).len() == thread_row_html(
                &bare,
                viewer,
                now,
            ).len() + room(shared.pinned, shared_flag_html("pinned"@, "Pinned"@)) + room(
                shared.locked,
                shared_flag_html("locked"@, "Locked"@),
            )
            &&& thread_head_html(head, own, now).len() == thread_head_html(&plain, own, now).len()
                + room(
                head.pinned,
                r#"<span class="badge ag-chip-shared ag-flag ag-flag--pinned">Pinned</span>"#@,
            ) + room(
                head.locked,
                r#"<span class="badge ag-chip-shared ag-flag ag-flag--locked">Locked</span>"#@,
            )
        }),
{
    reveal_strlit("");
}

/// The marks of a row take room for how the viewer follows the thread, for having saved it, for what
/// is unread and for where to go on, each where it holds.
pub proof fn law_row_marks_take_their_room(viewer: &ThreadRowViewerState)
    ensures
        row_marks_html(viewer).len() == (match viewer.follow_level {
            Some(level) => room(!(level is Unset), follow_marker_html(level)),
            None => 0,
        }) + room(
            viewer.bookmarked == Some(true),
            private_marker_html("bookmark"@, "Bookmarked"@),
        ) + (match viewer.unread_count {
            Some(n) => room(n > 0, private_marker_html("unread"@, unread_label_text(n))),
            None => 0,
        }) + room(viewer.resume_href is Some, resume_link_html(&viewer.resume_href)),
{
}

/// The marks of a desk item take room for the reason and for the level, for what is unread and for a
/// question's state, each where it holds.
pub proof fn law_desk_marks_take_their_room(vr: &CatchUpItemViewerState)
    ensures
        catch_up_marks_html(vr).len() == private_marker_html(
            "reason"@,
            catch_up_reason_text(vr.reason),
        ).len() + room(
            !(vr.follow_level is Unset),
            follow_marker_html(vr.follow_level),
        ) + room(
            vr.unread_count > 0,
            private_marker_html("unread"@, unread_label_text(vr.unread_count)),
        ) + (match vr.question_state {
            Some(state) => private_marker_html(
                "question"@,
                question_state_label_text(state),
            ).len(),
            None => 0,
        }),
{
}

/// The marks of a focus item take room for the reason, for the levels and for what is new, each
/// where it holds.
pub proof fn law_focus_marks_take_their_room(it: &FocusItemVM)
    ensures
        focus_marks_html(it).len() == private_marker_html(
            "reason"@,
            focus_reason_text(it.reason),
        ).len() + room(
            it.category_level != CategoryFocusLevelVM::Unset,
            private_marker_html("focus"@, focus_level_label_text(it.category_level)),
        ) + room(!(it.thread_level is Unset), follow_marker_html(it.thread_level)) + (match (
            it.viewer.unread_count,
            it.viewer.resume_href,
        ) {
            (Some(n), Some(_)) => room(
                n > 0,
                private_marker_html("unread"@, continue_label_text(n)),
            ),
            _ => 0,
        }),
{
}

/// The marks of a post take room for having saved it and for not having read it.
pub proof fn law_post_marks_take_their_room(viewer: &PostViewerState)
    ensures
        post_marks_html(viewer).len() == room(
            viewer.bookmarked == Some(true),
            private_marker_html("bookmark"@, "Bookmarked"@),
        ) + room(viewer.unread == Some(true), private_marker_html("unread"@, "Unread"@)),
{
}

/// A control takes room exactly where its handler supplied it.
pub proof fn law_controls_take_their_room(
    a: &PostActionsVM,
    bar: &AdminThreadToolbarVM,
    own: &ThreadViewerState,
    saved: &BookmarkItemViewerState,
)
    ensures
        post_actions_html(a).len() == room(a.accept is Some, form_action_html(&a.accept->0)) + room(
            a.remove_solution is Some,
            form_action_html(&a.remove_solution->0),
        ) + room(a.quote is Some, link_action_html(&a.quote->0)) + room(
            a.bookmark is Some,
            bookmark_action_html(&a.bookmark),
        ) + room(a.edit is Some, link_action_html(&a.edit->0)) + review_links_html(
            a.delete_reviews@,
        ).len(),
        bar.move_thread is None ==> toolbar_items_html(bar).len() == room(
            bar.lock is Some,
            form_action_html(&bar.lock->0),
        ) + room(bar.pin is Some, form_action_html(&bar.pin->0)) + room(
            bar.delete_review is Some,
            link_action_html(&bar.delete_review->0),
        ),
        owner_actions_html(own).len() == room(own.edit is Some, link_action_html(&own.edit->0))
            + room(own.delete_review is Some, link_action_html(&own.delete_review->0)),
        bookmark_actions_html(saved).len() == room(
            saved.done is Some,
            form_action_html(&saved.done->0),
        ) + room(
            saved.snooze_tomorrow is Some,
            form_action_html(&saved.snooze_tomorrow->0),
        ) + room(saved.snooze_week is Some, form_action_html(&saved.snooze_week->0))
            + link_action_html(&saved.edit).len() + form_action_html(&saved.remove).len(),
{
}

/// The reading controls take no room for what is neither unread nor caught up, and none without a
/// place to go to or a form to send.
pub proof fn law_reading_controls_take_their_room(reading: &ReadingProgressVM)
    ensures
        reading.resume_href is None && reading.first_unread_href is None
            && reading.mark_page_read is None ==> control_parts_html(reading).len() == (
        match reading.unread_count {
            Some(n) => if n > 0 {
                private_marker_html("unread"@, unread_posts_label_text(n)).len()
            } else {
                room(reading.started, private_marker_html("caught-up"@, "Caught up"@))
            },
            None => 0,
        }),
{
}

/// A summary that is not available takes no room, nor does the guide of a discussion, nor a list of
/// categories without any; an answer state shows on questions only.
pub proof fn law_nothing_takes_no_room(v: &ThreadView, state: AnswerState)
    ensures
        v.summary is Unavailable ==> summary_block_html(&v.summary).len() == 0,
        v.shared.kind is Discussion ==> reading_spine_html(v).len() == 0,
        category_terraces_html(Seq::empty()).len() == 0,
        shared_chips_html(ThreadKind::Discussion, state).len() == kind_chip_html(
            ThreadKind::Discussion,
        ).len(),
        shared_chips_html(ThreadKind::Question, state).len() == kind_chip_html(
            ThreadKind::Question,
        ).len() + answer_state_chip_html(state).len(),
        bookmark_reminder_html(None).len() == 0,
{
    reveal_strlit("");
}

/// A note takes room exactly when it says anything, and an identifier to report by likewise.
pub proof fn law_blank_words_take_no_room(note: &Text)
    ensures
        bookmark_note_html(note).len() > 0 <==> !blank_text(note.0@),
{
    reveal_strlit("</p>");
}

/// The replies are marked as continued exactly where there are earlier or later ones.
pub proof fn law_bounds_take_their_room(v: &ThreadView)
    requires
        v.replies@.len() == 0,
    ensures
        reply_steps_html(v).len() == reply_steps_html(
            &ThreadView {
                pagination: PaginationVM { at_start: true, at_end: true, ..v.pagination },
                ..*v
            },
        ).len() + room(
            !v.pagination.at_start,
            r#"<div class="ag-steps__bound ag-steps__bound--start" role="separator"><span>Earlier replies on previous page</span></div>"#@,
        ) + room(
            !v.pagination.at_end,
            r#"<div class="ag-steps__bound ag-steps__bound--end" role="separator"><span>More replies on next page</span></div>"#@,
        ),
{
    reveal_strlit("");
}

/// A reaction is marked as the viewer's own only when it is.
pub proof fn law_foreign_reaction_is_not_marked(r: ReactionVM)
    requires
        r.toggle is None,
        r.mine != Some(true),
    ensures
        reaction_items_html(seq![r]).len() == r#"<span class="ag-react is-static">"#@.len()
            + escape_text(r.kind.0@).len() + r#" <span class="ag-react__count">"#@.len()
            + decimal_text(r.count as int).len() + 2 * "</span>"@.len(),
{
    reveal_strlit("");
    let none = Seq::<ReactionVM>::empty();
    assert(seq![r].drop_last() =~= none);
    assert(seq![r].last() == r);
    assert(reaction_items_html(none).len() == 0);
    assert(""@.len() == 0);
}

} // verus!
