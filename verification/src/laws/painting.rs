//! What each part of a page shows.

use vstd::prelude::*;

use crate::laws::rendering::{group_shows, shows_part};
use crate::text::{blank_text, decimal_text, escape_text};
use crate::view_model::{
    ActionKind, ActivityFilterLinkVM, ActivityFilterVM, ActivityItemVM, ActivityKindVM,
    ActivityReadScopeLinkVM, ActivityReadScopeVM, ActivityReasonVM, ActivityView, AddBanFormVM,
    AdminCategoryVM, AdminShared, AdminThreadToolbarVM, AdminThreadVM, AdminViewerState,
    AnswerDaisVM, AnswerState, BannedAuthorVM, BookmarkEditView, BookmarkItemVM,
    BookmarkReminderChoiceVM, BookmarkStateVM, BookmarksView, CatchUpFeedVM, CatchUpItemVM,
    CatchUpQuestionStateVM, CatchUpReasonVM, CatchUpTab, CategoryFocusFormVM, CategoryFocusLevelVM,
    CategoryFocusReasonVM, CategoryPageShared, CategoryPageViewerState, CategoryRefVM, CategoryVM,
    ComposeMode, ComposeShared, ComposeViewerState, CreateCategoryFormVM, DestructiveReviewVM,
    ErrorView, FocusItemVM, FocusRuleVM, FocusView, FormActionVM, HiddenField, HomeShared,
    LinkActionVM, NavTab, Opaque, PaginationVM, PersonalCounts, PostActionsVM,
    PostBookmarkActionVM, PostVM, PostViewerState, ReactionVM, ReadingProgressVM, ReplyFormVM,
    SavedBookmarkStateVM, SearchMatchSource, SearchResultVM, SearchShared, SearchViewerState,
    SummaryStateVM, SummaryVM, Text, ThreadFollowLevelVM, ThreadKind, ThreadListControlsVM,
    ThreadOrder, ThreadOrderLinkVM, ThreadRowShared, ThreadRowVM, ThreadRowViewerState,
    ThreadScope, ThreadScopeLinkVM, ThreadShared, ThreadView, ThreadViewerState,
};
use crate::views::{
    answer_dais_html, bookmark_action_html, crumb_html, crumb_items_html, empty_note_html,
    fmt_ts_text, follow_marker_html, form_action_html, here, hidden_fields_html,
    hidden_inputs_html, iso8601_text, link_action_html, linked, note_html, pagination_html,
    post_actions_html, post_html, post_marks_html, quote_block_html, reaction_items_html,
    reactions_row_html, rel_time_text, replies_label_text, review_links_html, row_marks_html,
    thread_row_html, time_el_html, unread_label_text,
};
use crate::views::admin::{
    add_ban_form_html, admin_category_row_html, admin_category_rows_html, admin_main_html,
    admin_thread_row_html, admin_thread_rows_html, banned_author_row_html, banned_author_rows_html,
    create_category_form_html, format_options_html,
};
use crate::views::forum::{
    admin_thread_toolbar_html, category_focus_form_html, category_main_html, category_select_html,
    compose_main_html, compose_options_html, control_parts_html, focus_level_options_html,
    follow_level_options_html, home_main_html, move_options_html, order_tabs_html,
    owner_actions_html, reading_controls_html, reading_spine_html, reply_form_block_html,
    reply_steps_html, scope_heading_text, scope_tabs_html, summary_block_html, summary_items_html,
    terrace_items_html, thread_controls_html, thread_head_html, thread_main_html, thread_rows_html,
    thread_trail_html, toolbar_items_html, unread_posts_label_text, viewer_controls_html,
};
use crate::views::personal::{
    activity_filter_tabs_html, activity_item_html, activity_items_html, activity_main_html,
    activity_scope_tabs_html, bookmark_edit_main_html, bookmark_item_html, bookmark_items_html,
    bookmark_tabs_html, bookmarks_main_html, catch_up_item_html, catch_up_items_html,
    catch_up_main_html, catch_up_tabs_html, continue_label_text, focus_item_html, focus_items_html,
    focus_main_html, focus_rule_html, focus_rules_html, ledger_tab_html, reminder_option_html,
    reminder_options_html,
};
use crate::views::search::{
    category_options_html, no_matches_html, result_row_html, result_rows_html, search_main_html,
    status_options_html,
};
use crate::views::shell::{
    activity_button_html, bar_html, bookmark_button_html, destructive_review_html, error_main_html,
    private_badge_html,
};

verus! {

/// Whether a text ends with a part.
pub open spec fn shows_last(text: Seq<char>, part: Seq<char>) -> bool {
    part.len() <= text.len() && text.skip(text.len() - part.len()) == part
}

pub broadcast proof fn lemma_ends_itself(x: Seq<char>, part: Seq<char>)
    ensures
        #[trigger] shows_last(x + part, part),
{
    assert((x + part).skip(x.len() as int) =~= part);
}

pub broadcast proof fn lemma_ends_whole(x: Seq<char>)
    ensures
        #[trigger] shows_last(x, x),
{
    assert(x.skip(0) =~= x);
}

pub broadcast proof fn lemma_ends_more(x: Seq<char>, part: Seq<char>, y: Seq<char>)
    requires
        shows_last(x, part),
    ensures
        #[trigger] shows_last(x + y, part + y),
{
    let n = x.len() - part.len();
    assert((x + y).skip(n) =~= x.skip(n) + y);
}

pub broadcast proof fn lemma_shows_end(x: Seq<char>, part: Seq<char>, y: Seq<char>)
    requires
        shows_last(x, part + y),
    ensures
        #[trigger] shows_part(x, part + y),
{
    let i = x.len() - (part + y).len();
    assert(x.subrange(i, i + (part + y).len()) =~= x.skip(i));
}

pub broadcast group group_ends {
    lemma_ends_itself,
    lemma_ends_whole,
    lemma_ends_more,
    lemma_shows_end,
}

/// A link shows where it leads and what it is called.
pub proof fn law_link_action_shows(
    a: &LinkActionVM,
)
    ensures
        a.label_kind == ActionKind::EditReply ==> shows_part(
            link_action_html(a),
            r#"" href=""#@ + escape_text(a.href.0@) + r#"">"#@ + "Edit"@ + "</a>"@,
        ),
        a.label_kind == ActionKind::EditThread ==> shows_part(
            link_action_html(a),
            r#"" href=""#@ + escape_text(a.href.0@) + r#"">"#@ + "Edit thread"@ + "</a>"@,
        ),
        a.label_kind == ActionKind::DeleteThreadReview ==> shows_part(
            link_action_html(a),
            r#"" href=""#@ + escape_text(a.href.0@) + r#"">"#@ + "Delete thread"@ + "</a>"@,
        ),
        a.label_kind == ActionKind::DeleteReplyReview ==> shows_part(
            link_action_html(a),
            r#"" href=""#@ + escape_text(a.href.0@) + r#"">"#@ + "Delete"@ + "</a>"@,
        ),
        a.label_kind == ActionKind::DeleteAdminReview ==> shows_part(
            link_action_html(a),
            r#"" href=""#@ + escape_text(a.href.0@) + r#"">"#@ + "Delete (admin)"@ + "</a>"@,
        ),
        a.label_kind == ActionKind::DeleteConfirm ==> shows_part(
            link_action_html(a),
            r#"" href=""#@ + escape_text(a.href.0@) + r#"">"#@ + "Confirm deletion"@ + "</a>"@,
        ),
        a.label_kind == ActionKind::Quote ==> shows_part(
            link_action_html(a),
            r#"" href=""#@ + escape_text(a.href.0@) + r#"">"#@ + "Quote"@ + "</a>"@,
        ),
        a.label_kind == ActionKind::BookmarkSave ==> shows_part(
            link_action_html(a),
            r#"" href=""#@ + escape_text(a.href.0@) + r#"">"#@ + "Bookmark"@ + "</a>"@,
        ),
        a.label_kind == ActionKind::BookmarkEdit ==> shows_part(
            link_action_html(a),
            r#"" href=""#@ + escape_text(a.href.0@) + r#"">"#@ + "Saved"@ + "</a>"@,
        ),
        a.label_kind == ActionKind::SaveBookmarkChanges ==> shows_part(
            link_action_html(a),
            r#"" href=""#@ + escape_text(a.href.0@) + r#"">"#@ + "Save bookmark"@ + "</a>"@,
        ),
        a.label_kind == ActionKind::AcceptAnswer ==> shows_part(
            link_action_html(a),
            r#"" href=""#@ + escape_text(a.href.0@) + r#"">"#@ + "Accept answer"@ + "</a>"@,
        ),
        a.label_kind == ActionKind::RemoveSolution ==> shows_part(
            link_action_html(a),
            r#"" href=""#@ + escape_text(a.href.0@) + r#"">"#@ + "Remove solution"@ + "</a>"@,
        ),
        a.label_kind == ActionKind::ClearInvalidSolution ==> shows_part(
            link_action_html(a),
            r#"" href=""#@ + escape_text(a.href.0@) + r#"">"#@ + "Clear invalid solution"@
                + "</a>"@,
        ),
        a.label_kind == ActionKind::UpdateSubscription ==> shows_part(
            link_action_html(a),
            r#"" href=""#@ + escape_text(a.href.0@) + r#"">"#@ + "Update"@ + "</a>"@,
        ),
        a.label_kind == ActionKind::ApplyFocus ==> shows_part(
            link_action_html(a),
            r#"" href=""#@ + escape_text(a.href.0@) + r#"">"#@ + "Apply"@ + "</a>"@,
        ),
        a.label_kind == ActionKind::SaveFocusRule ==> shows_part(
            link_action_html(a),
            r#"" href=""#@ + escape_text(a.href.0@) + r#"">"#@ + "Save rule"@ + "</a>"@,
        ),
        a.label_kind == ActionKind::OpenActivity ==> shows_part(
            link_action_html(a),
            r#"" href=""#@ + escape_text(a.href.0@) + r#"">"#@ + "Open"@ + "</a>"@,
        ),
        a.label_kind == ActionKind::MarkPageRead ==> shows_part(
            link_action_html(a),
            r#"" href=""#@ + escape_text(a.href.0@) + r#"">"#@ + "Mark this page read"@ + "</a>"@,
        ),
        a.label_kind == ActionKind::MarkThreadPageRead ==> shows_part(
            link_action_html(a),
            r#"" href=""#@ + escape_text(a.href.0@) + r#"">"#@ + "Mark page read &amp; continue"@
                + "</a>"@,
        ),
        a.label_kind == ActionKind::MarkRead ==> shows_part(
            link_action_html(a),
            r#"" href=""#@ + escape_text(a.href.0@) + r#"">"#@ + "Mark read"@ + "</a>"@,
        ),
        a.label_kind == ActionKind::MarkUnread ==> shows_part(
            link_action_html(a),
            r#"" href=""#@ + escape_text(a.href.0@) + r#"">"#@ + "Mark unread"@ + "</a>"@,
        ),
        a.label_kind == ActionKind::CompleteBookmark ==> shows_part(
            link_action_html(a),
            r#"" href=""#@ + escape_text(a.href.0@) + r#"">"#@ + "Done"@ + "</a>"@,
        ),
        a.label_kind == ActionKind::SnoozeTomorrow ==> shows_part(
            link_action_html(a),
            r#"" href=""#@ + escape_text(a.href.0@) + r#"">"#@ + "Snooze 24 hours"@ + "</a>"@,
        ),
        a.label_kind == ActionKind::SnoozeWeek ==> shows_part(
            link_action_html(a),
            r#"" href=""#@ + escape_text(a.href.0@) + r#"">"#@ + "Snooze 7 days"@ + "</a>"@,
        ),
        a.label_kind == ActionKind::RemoveBookmark ==> shows_part(
            link_action_html(a),
            r#"" href=""#@ + escape_text(a.href.0@) + r#"">"#@ + "Remove"@ + "</a>"@,
        ),
        a.label_kind == ActionKind::CreateCategory ==> shows_part(
            link_action_html(a),
            r#"" href=""#@ + escape_text(a.href.0@) + r#"">"#@ + "Create category"@ + "</a>"@,
        ),
        a.label_kind == ActionKind::RenameCategory ==> shows_part(
            link_action_html(a),
            r#"" href=""#@ + escape_text(a.href.0@) + r#"">"#@ + "Rename"@ + "</a>"@,
        ),
        a.label_kind == ActionKind::SetCategoryFormat ==> shows_part(
            link_action_html(a),
            r#"" href=""#@ + escape_text(a.href.0@) + r#"">"#@ + "Set format"@ + "</a>"@,
        ),
        a.label_kind == ActionKind::MoveThread ==> shows_part(
            link_action_html(a),
            r#"" href=""#@ + escape_text(a.href.0@) + r#"">"#@ + "Move"@ + "</a>"@,
        ),
        a.label_kind == ActionKind::MoveCategoryUp ==> shows_part(
            link_action_html(a),
            r#"" href=""#@ + escape_text(a.href.0@) + r#"">"#@ + "Move up"@ + "</a>"@,
        ),
        a.label_kind == ActionKind::MoveCategoryDown ==> shows_part(
            link_action_html(a),
            r#"" href=""#@ + escape_text(a.href.0@) + r#"">"#@ + "Move down"@ + "</a>"@,
        ),
        a.label_kind == ActionKind::Lock ==> shows_part(
            link_action_html(a),
            r#"" href=""#@ + escape_text(a.href.0@) + r#"">"#@ + "Lock"@ + "</a>"@,
        ),
        a.label_kind == ActionKind::Unlock ==> shows_part(
            link_action_html(a),
            r#"" href=""#@ + escape_text(a.href.0@) + r#"">"#@ + "Unlock"@ + "</a>"@,
        ),
        a.label_kind == ActionKind::Pin ==> shows_part(
            link_action_html(a),
            r#"" href=""#@ + escape_text(a.href.0@) + r#"">"#@ + "Pin"@ + "</a>"@,
        ),
        a.label_kind == ActionKind::Unpin ==> shows_part(
            link_action_html(a),
            r#"" href=""#@ + escape_text(a.href.0@) + r#"">"#@ + "Unpin"@ + "</a>"@,
        ),
        a.label_kind == ActionKind::AddBan ==> shows_part(
            link_action_html(a),
            r#"" href=""#@ + escape_text(a.href.0@) + r#"">"#@ + "Ban author"@ + "</a>"@,
        ),
        a.label_kind == ActionKind::Unban ==> shows_part(
            link_action_html(a),
            r#"" href=""#@ + escape_text(a.href.0@) + r#"">"#@ + "Unban"@ + "</a>"@,
        ),
        a.label_kind == ActionKind::PublishThread ==> shows_part(
            link_action_html(a),
            r#"" href=""#@ + escape_text(a.href.0@) + r#"">"#@ + "Publish thread"@ + "</a>"@,
        ),
        a.label_kind == ActionKind::SaveThread ==> shows_part(
            link_action_html(a),
            r#"" href=""#@ + escape_text(a.href.0@) + r#"">"#@ + "Save thread"@ + "</a>"@,
        ),
        a.label_kind == ActionKind::SaveReply ==> shows_part(
            link_action_html(a),
            r#"" href=""#@ + escape_text(a.href.0@) + r#"">"#@ + "Save reply"@ + "</a>"@,
        ),
        a.label_kind == ActionKind::PostReply ==> shows_part(
            link_action_html(a),
            r#"" href=""#@ + escape_text(a.href.0@) + r#"">"#@ + "Post reply"@ + "</a>"@,
        ),
        a.label_kind == ActionKind::PostAnswer ==> shows_part(
            link_action_html(a),
            r#"" href=""#@ + escape_text(a.href.0@) + r#"">"#@ + "Post answer"@ + "</a>"@,
        ),
        a.label_kind == ActionKind::ToggleReaction ==> shows_part(
            link_action_html(a),
            r#"" href=""#@ + escape_text(a.href.0@) + r#"">"#@ + "React"@ + "</a>"@,
        ),
{
    broadcast use {group_shows, group_ends};
}

/// A form carries its token first, and behind it each field, its value under its name.
pub proof fn law_hidden_inputs_show(
    csrf: Seq<char>,
    fields: Seq<HiddenField>,
)
    ensures
        shows_part(
            hidden_inputs_html(csrf, fields),
            r#"<input type="hidden" name="csrf" value=""#@ + escape_text(csrf) + r#"">"#@,
        ),
        shows_part(
            hidden_inputs_html(csrf, fields),
            hidden_fields_html(fields),
        ),
{
    broadcast use {group_shows, group_ends};
}

/// A field carries its value under its name.
pub proof fn law_hidden_field_shows(
    field: HiddenField,
)
    ensures
        shows_part(
            hidden_fields_html(seq![field]),
            r#"<input type="hidden" name=""#@ + escape_text(field.name.0@) + r#"" value=""#@
                + escape_text(field.value.0@) + r#"">"#@,
        ),
{
    broadcast use {group_shows, group_ends};

    assert(seq![field].drop_last() =~= Seq::<HiddenField>::empty());
    assert(seq![field].last() == field);
}

/// A form shows where it is sent, what it carries and what its button is called.
pub proof fn law_form_action_shows(
    a: &FormActionVM,
)
    ensures
        shows_part(
            form_action_html(a),
            r#"<form class="inline-form" method="post" action=""#@ + escape_text(a.action.0@)
                + r#"">"#@,
        ),
        shows_part(
            form_action_html(a),
            hidden_inputs_html(a.csrf.0@, a.fields@),
        ),
        a.label_kind == ActionKind::EditReply ==> shows_part(
            form_action_html(a),
            r#"" type="submit">"#@ + "Edit"@ + "</button></form>"@,
        ),
        a.label_kind == ActionKind::EditThread ==> shows_part(
            form_action_html(a),
            r#"" type="submit">"#@ + "Edit thread"@ + "</button></form>"@,
        ),
        a.label_kind == ActionKind::DeleteThreadReview ==> shows_part(
            form_action_html(a),
            r#"" type="submit">"#@ + "Delete thread"@ + "</button></form>"@,
        ),
        a.label_kind == ActionKind::DeleteReplyReview ==> shows_part(
            form_action_html(a),
            r#"" type="submit">"#@ + "Delete"@ + "</button></form>"@,
        ),
        a.label_kind == ActionKind::DeleteAdminReview ==> shows_part(
            form_action_html(a),
            r#"" type="submit">"#@ + "Delete (admin)"@ + "</button></form>"@,
        ),
        a.label_kind == ActionKind::DeleteConfirm ==> shows_part(
            form_action_html(a),
            r#"" type="submit">"#@ + "Confirm deletion"@ + "</button></form>"@,
        ),
        a.label_kind == ActionKind::Quote ==> shows_part(
            form_action_html(a),
            r#"" type="submit">"#@ + "Quote"@ + "</button></form>"@,
        ),
        a.label_kind == ActionKind::BookmarkSave ==> shows_part(
            form_action_html(a),
            r#"" type="submit">"#@ + "Bookmark"@ + "</button></form>"@,
        ),
        a.label_kind == ActionKind::BookmarkEdit ==> shows_part(
            form_action_html(a),
            r#"" type="submit">"#@ + "Saved"@ + "</button></form>"@,
        ),
        a.label_kind == ActionKind::SaveBookmarkChanges ==> shows_part(
            form_action_html(a),
            r#"" type="submit">"#@ + "Save bookmark"@ + "</button></form>"@,
        ),
        a.label_kind == ActionKind::AcceptAnswer ==> shows_part(
            form_action_html(a),
            r#"" type="submit">"#@ + "Accept answer"@ + "</button></form>"@,
        ),
        a.label_kind == ActionKind::RemoveSolution ==> shows_part(
            form_action_html(a),
            r#"" type="submit">"#@ + "Remove solution"@ + "</button></form>"@,
        ),
        a.label_kind == ActionKind::ClearInvalidSolution ==> shows_part(
            form_action_html(a),
            r#"" type="submit">"#@ + "Clear invalid solution"@ + "</button></form>"@,
        ),
        a.label_kind == ActionKind::UpdateSubscription ==> shows_part(
            form_action_html(a),
            r#"" type="submit">"#@ + "Update"@ + "</button></form>"@,
        ),
        a.label_kind == ActionKind::ApplyFocus ==> shows_part(
            form_action_html(a),
            r#"" type="submit">"#@ + "Apply"@ + "</button></form>"@,
        ),
        a.label_kind == ActionKind::SaveFocusRule ==> shows_part(
            form_action_html(a),
            r#"" type="submit">"#@ + "Save rule"@ + "</button></form>"@,
        ),
        a.label_kind == ActionKind::OpenActivity ==> shows_part(
            form_action_html(a),
            r#"" type="submit">"#@ + "Open"@ + "</button></form>"@,
        ),
        a.label_kind == ActionKind::MarkPageRead ==> shows_part(
            form_action_html(a),
            r#"" type="submit">"#@ + "Mark this page read"@ + "</button></form>"@,
        ),
        a.label_kind == ActionKind::MarkThreadPageRead ==> shows_part(
            form_action_html(a),
            r#"" type="submit">"#@ + "Mark page read &amp; continue"@ + "</button></form>"@,
        ),
        a.label_kind == ActionKind::MarkRead ==> shows_part(
            form_action_html(a),
            r#"" type="submit">"#@ + "Mark read"@ + "</button></form>"@,
        ),
        a.label_kind == ActionKind::MarkUnread ==> shows_part(
            form_action_html(a),
            r#"" type="submit">"#@ + "Mark unread"@ + "</button></form>"@,
        ),
        a.label_kind == ActionKind::CompleteBookmark ==> shows_part(
            form_action_html(a),
            r#"" type="submit">"#@ + "Done"@ + "</button></form>"@,
        ),
        a.label_kind == ActionKind::SnoozeTomorrow ==> shows_part(
            form_action_html(a),
            r#"" type="submit">"#@ + "Snooze 24 hours"@ + "</button></form>"@,
        ),
        a.label_kind == ActionKind::SnoozeWeek ==> shows_part(
            form_action_html(a),
            r#"" type="submit">"#@ + "Snooze 7 days"@ + "</button></form>"@,
        ),
        a.label_kind == ActionKind::RemoveBookmark ==> shows_part(
            form_action_html(a),
            r#"" type="submit">"#@ + "Remove"@ + "</button></form>"@,
        ),
        a.label_kind == ActionKind::CreateCategory ==> shows_part(
            form_action_html(a),
            r#"" type="submit">"#@ + "Create category"@ + "</button></form>"@,
        ),
        a.label_kind == ActionKind::RenameCategory ==> shows_part(
            form_action_html(a),
            r#"" type="submit">"#@ + "Rename"@ + "</button></form>"@,
        ),
        a.label_kind == ActionKind::SetCategoryFormat ==> shows_part(
            form_action_html(a),
            r#"" type="submit">"#@ + "Set format"@ + "</button></form>"@,
        ),
        a.label_kind == ActionKind::MoveThread ==> shows_part(
            form_action_html(a),
            r#"" type="submit">"#@ + "Move"@ + "</button></form>"@,
        ),
        a.label_kind == ActionKind::MoveCategoryUp ==> shows_part(
            form_action_html(a),
            r#"" type="submit">"#@ + "Move up"@ + "</button></form>"@,
        ),
        a.label_kind == ActionKind::MoveCategoryDown ==> shows_part(
            form_action_html(a),
            r#"" type="submit">"#@ + "Move down"@ + "</button></form>"@,
        ),
        a.label_kind == ActionKind::Lock ==> shows_part(
            form_action_html(a),
            r#"" type="submit">"#@ + "Lock"@ + "</button></form>"@,
        ),
        a.label_kind == ActionKind::Unlock ==> shows_part(
            form_action_html(a),
            r#"" type="submit">"#@ + "Unlock"@ + "</button></form>"@,
        ),
        a.label_kind == ActionKind::Pin ==> shows_part(
            form_action_html(a),
            r#"" type="submit">"#@ + "Pin"@ + "</button></form>"@,
        ),
        a.label_kind == ActionKind::Unpin ==> shows_part(
            form_action_html(a),
            r#"" type="submit">"#@ + "Unpin"@ + "</button></form>"@,
        ),
        a.label_kind == ActionKind::AddBan ==> shows_part(
            form_action_html(a),
            r#"" type="submit">"#@ + "Ban author"@ + "</button></form>"@,
        ),
        a.label_kind == ActionKind::Unban ==> shows_part(
            form_action_html(a),
            r#"" type="submit">"#@ + "Unban"@ + "</button></form>"@,
        ),
        a.label_kind == ActionKind::PublishThread ==> shows_part(
            form_action_html(a),
            r#"" type="submit">"#@ + "Publish thread"@ + "</button></form>"@,
        ),
        a.label_kind == ActionKind::SaveThread ==> shows_part(
            form_action_html(a),
            r#"" type="submit">"#@ + "Save thread"@ + "</button></form>"@,
        ),
        a.label_kind == ActionKind::SaveReply ==> shows_part(
            form_action_html(a),
            r#"" type="submit">"#@ + "Save reply"@ + "</button></form>"@,
        ),
        a.label_kind == ActionKind::PostReply ==> shows_part(
            form_action_html(a),
            r#"" type="submit">"#@ + "Post reply"@ + "</button></form>"@,
        ),
        a.label_kind == ActionKind::PostAnswer ==> shows_part(
            form_action_html(a),
            r#"" type="submit">"#@ + "Post answer"@ + "</button></form>"@,
        ),
        a.label_kind == ActionKind::ToggleReaction ==> shows_part(
            form_action_html(a),
            r#"" type="submit">"#@ + "React"@ + "</button></form>"@,
        ),
{
    broadcast use {group_shows, group_ends};
}

/// A row shows what kind of thread it is, where its category is, when it was started and last
/// active, how many replies it has, and what the viewer has of it.
pub proof fn law_row_shows_its_state(
    shared: &ThreadRowShared,
    viewer: &ThreadRowViewerState,
    now: i64,
)
    ensures
        shared.kind == ThreadKind::Question ==> shows_part(
            thread_row_html(shared, viewer, now),
            r#"<span class="badge ag-chip-shared ag-kind ag-kind--question">Question</span>"#@,
        ),
        shared.kind == ThreadKind::Discussion ==> shows_part(
            thread_row_html(shared, viewer, now),
            r#"<span class="badge ag-chip-shared ag-kind ag-kind--discussion">Discussion</span>"#@,
        ),
        shared.kind == ThreadKind::Question && shared.answer_state == AnswerState::NotApplicable ==> shows_part(
            thread_row_html(shared, viewer, now),
            ""@,
        ),
        shared.kind == ThreadKind::Question && shared.answer_state == AnswerState::NeedsAnswer ==> shows_part(
            thread_row_html(shared, viewer, now),
            r#"<span class="badge ag-chip-shared ag-answer-state ag-answer-state--open">Needs answer</span>"#@,
        ),
        shared.kind == ThreadKind::Question && shared.answer_state == AnswerState::Answered ==> shows_part(
            thread_row_html(shared, viewer, now),
            r#"<span class="badge badge-accepted ag-chip-shared ag-answer-state">Answered</span>"#@,
        ),
        shared.category is Some ==> shows_part(
            thread_row_html(shared, viewer, now),
            escape_text("/c/"@ + (shared.category->0).id.0@),
        ),
        shows_part(
            thread_row_html(shared, viewer, now),
            " · started "@ + time_el_html(shared.created_at, now),
        ),
        shows_part(
            thread_row_html(shared, viewer, now),
            " · latest "@ + time_el_html(shared.last_at, now),
        ),
        shared.post_count is Some ==> shows_part(
            thread_row_html(shared, viewer, now),
            escape_text(replies_label_text(shared.post_count->0)),
        ),
        row_marks_html(viewer).len() > 0 ==> shows_part(
            thread_row_html(shared, viewer, now),
            row_marks_html(viewer),
        ),
{
    broadcast use {group_shows, group_ends};
}

/// The marks of a row show how the viewer follows the thread, that they saved it, how much of it is
/// unread, and where to go on.
pub proof fn law_row_marks_show(
    viewer: &ThreadRowViewerState,
)
    ensures
        viewer.follow_level == Some(ThreadFollowLevelVM::Watch) ==> shows_part(
            row_marks_html(viewer),
            escape_text("Watching"@),
        ),
        viewer.follow_level == Some(ThreadFollowLevelVM::Follow) ==> shows_part(
            row_marks_html(viewer),
            escape_text("Following"@),
        ),
        viewer.follow_level == Some(ThreadFollowLevelVM::Mute) ==> shows_part(
            row_marks_html(viewer),
            escape_text("Muted"@),
        ),
        viewer.bookmarked == Some(true) ==> shows_part(
            row_marks_html(viewer),
            escape_text("Bookmarked"@),
        ),
        viewer.unread_count is Some && viewer.unread_count->0 > 0 ==> shows_part(
            row_marks_html(viewer),
            escape_text(unread_label_text(viewer.unread_count->0)),
        ),
        viewer.resume_href is Some ==> shows_part(
            row_marks_html(viewer),
            escape_text((viewer.resume_href->0).0@),
        ),
{
    broadcast use {group_shows, group_ends};
}

/// A reaction shows its kind and how often it was given, says when it is the viewer's own, and is a
/// button where it can be toggled.
pub proof fn law_reaction_shows(
    r: ReactionVM,
)
    ensures
        shows_part(
            reaction_items_html(seq![r]),
            escape_text(r.kind.0@) + r#" <span class="ag-react__count">"#@
                + decimal_text(r.count as int) + "</span>"@,
        ),
        r.mine == Some(true) ==> shows_part(
            reaction_items_html(seq![r]),
            r#" <span class="ag-react__mine">· yours</span>"#@,
        ),
        r.toggle is Some ==> shows_part(
            reaction_items_html(seq![r]),
            escape_text((r.toggle->0).action.0@),
        ),
        r.toggle is Some ==> shows_part(
            reaction_items_html(seq![r]),
            hidden_inputs_html((r.toggle->0).csrf.0@, (r.toggle->0).fields@),
        ),
        r.toggle is Some && r.mine == Some(true) ==> shows_part(
            reaction_items_html(seq![r]),
            r#"" type="submit" aria-pressed=""#@ + "true"@ + r#"">"#@,
        ),
        r.toggle is Some && r.mine != Some(true) ==> shows_part(
            reaction_items_html(seq![r]),
            r#"" type="submit" aria-pressed=""#@ + "false"@ + r#"">"#@,
        ),
{
    broadcast use {group_shows, group_ends};

    assert(seq![r].drop_last() =~= Seq::<ReactionVM>::empty());
    assert(seq![r].last() == r);
}

/// A post says when it is the original one and when it was written, can be linked to, and shows its
/// reactions, its controls and what the viewer has of it.
pub proof fn law_post_shows_its_state(
    p: &PostVM,
    now: i64,
)
    ensures
        p.is_op ==> shows_part(
            post_html(p, now),
            r#"<span class="badge ag-chip-shared ag-op-badge">Original post</span>"#@,
        ),
        shows_part(
            post_html(p, now),
            time_el_html(p.created_at, now),
        ),
        shows_part(
            post_html(p, now),
            r##" <a class="ag-permalink" href="#"##@ + ("post-"@ + escape_text(p.id.0@)),
        ),
        shows_part(
            post_html(p, now),
            reactions_row_html(p.reactions@),
        ),
        shows_part(
            post_html(p, now),
            post_actions_html(&p.actions),
        ),
        post_marks_html(&p.viewer).len() > 0 ==> shows_part(
            post_html(p, now),
            post_marks_html(&p.viewer),
        ),
        p.quote is Some ==> shows_part(
            post_html(p, now),
            quote_block_html(&p.quote->0, now),
        ),
{
    broadcast use {group_shows, group_ends};
}

/// The controls of a post are those that its handler supplied.
pub proof fn law_post_controls_show(
    a: &PostActionsVM,
)
    ensures
        a.accept is Some ==> shows_part(
            post_actions_html(a),
            form_action_html(&a.accept->0),
        ),
        a.remove_solution is Some ==> shows_part(
            post_actions_html(a),
            form_action_html(&a.remove_solution->0),
        ),
        a.quote is Some ==> shows_part(
            post_actions_html(a),
            link_action_html(&a.quote->0),
        ),
        a.edit is Some ==> shows_part(
            post_actions_html(a),
            link_action_html(&a.edit->0),
        ),
        a.bookmark is Some ==> shows_part(
            post_actions_html(a),
            bookmark_action_html(&a.bookmark),
        ),
        shows_part(
            post_actions_html(a),
            review_links_html(a.delete_reviews@),
        ),
{
    broadcast use {group_shows, group_ends};
}

/// The marks of a post show that the viewer saved it and that they have not read it.
pub proof fn law_post_marks_show(
    viewer: &PostViewerState,
)
    ensures
        viewer.bookmarked == Some(true) ==> shows_part(
            post_marks_html(viewer),
            escape_text("Bookmarked"@),
        ),
        viewer.unread == Some(true) ==> shows_part(
            post_marks_html(viewer),
            escape_text("Unread"@),
        ),
{
    broadcast use {group_shows, group_ends};
}

/// A post that can be saved shows the form for it; one that was saved leads to its bookmark.
pub proof fn law_bookmark_control_shows(
    save: FormActionVM,
    edit: LinkActionVM,
    state: SavedBookmarkStateVM,
)
    ensures
        shows_part(
            bookmark_action_html(&Some(PostBookmarkActionVM::Save(save))),
            form_action_html(&save),
        ),
        shows_part(
            bookmark_action_html(&Some(PostBookmarkActionVM::Saved { edit, state })),
            escape_text(edit.href.0@),
        ),
        state == SavedBookmarkStateVM::Saved ==> shows_part(
            bookmark_action_html(&Some(PostBookmarkActionVM::Saved { edit, state })),
            escape_text("Saved"@),
        ),
        state == SavedBookmarkStateVM::Due ==> shows_part(
            bookmark_action_html(&Some(PostBookmarkActionVM::Saved { edit, state })),
            escape_text("Saved · Due"@),
        ),
        state == SavedBookmarkStateVM::Scheduled ==> shows_part(
            bookmark_action_html(&Some(PostBookmarkActionVM::Saved { edit, state })),
            escape_text("Saved · Scheduled"@),
        ),
{
    broadcast use {group_shows, group_ends};
}

/// The foot of a list shows how long a page may be, where the list ends, and the links that there
/// are, the earlier page before the later one.
pub proof fn law_pagination_shows(
    p: &PaginationVM,
)
    ensures
        shows_part(
            pagination_html(p),
            r#"<nav class="ag-page" aria-label="Pagination"><span class="ag-page__bound">Page bound "#@
                + decimal_text(p.visible_limit as int) + "</span>"@,
        ),
        p.at_end ==> shows_part(
            pagination_html(p),
            r#"<span class="ag-page__edge">End of results</span>"#@,
        ),
        p.at_start && !p.at_end ==> shows_part(
            pagination_html(p),
            r#"<span class="ag-page__edge">Beginning of results</span>"#@,
        ),
        p.jump is Some ==> shows_part(
            pagination_html(p),
            escape_text((p.jump->0).href.0@) + r#"">"#@ + escape_text((p.jump->0).label.0@),
        ),
        p.previous is Some ==> shows_part(
            pagination_html(p),
            r#"<a class="btn btn-secondary btn-sm ag-page__link" rel=""#@ + "prev"@
                + r#"" href=""#@ + escape_text((p.previous->0).href.0@) + r#"">"#@
                + escape_text((p.previous->0).label.0@),
        ),
        p.next is Some ==> shows_part(
            pagination_html(p),
            r#"<a class="btn btn-secondary btn-sm ag-page__link" rel=""#@ + "next"@
                + r#"" href=""#@ + escape_text((p.next->0).href.0@) + r#"">"#@
                + escape_text((p.next->0).label.0@),
        ),
{
    broadcast use {group_shows, group_ends};
}

/// A step of the trail shows its name, and where it leads if it leads anywhere.
pub proof fn law_crumb_shows(
    first: bool,
    label: Seq<char>,
    href: Seq<char>,
)
    ensures
        shows_part(
            crumb_html(first, linked(label, href)),
            "<a href=\""@ + escape_text(href) + "\">"@ + escape_text(label) + "</a>"@,
        ),
        shows_part(
            crumb_html(first, here(label)),
            "<span>"@ + escape_text(label) + "</span>"@,
        ),
{
    broadcast use {group_shows, group_ends};
}

/// A moment shows as the time since, with the full time beside it.
pub proof fn law_time_shows(
    ts: i64,
    now: i64,
)
    ensures
        shows_part(
            time_el_html(ts, now),
            r#"<time class="ag-time" datetime=""#@ + escape_text(iso8601_text(ts))
                + r#"" title=""#@ + escape_text(fmt_ts_text(ts)) + r#"">"#@
                + escape_text(rel_time_text(ts, now)) + "</time>"@,
        ),
{
    broadcast use {group_shows, group_ends};
}

/// A tab leads to its list under its name, and exactly the active one is marked.
pub proof fn law_order_tab_shows(
    link: ThreadOrderLinkVM,
    active: ThreadOrder,
)
    ensures
        link.order == ThreadOrder::Latest ==> shows_part(
            order_tabs_html(seq![link], active),
            escape_text(link.href.0@) + r#"">"#@ + "Latest"@ + "</a>"@,
        ),
        link.order == ThreadOrder::Top ==> shows_part(
            order_tabs_html(seq![link], active),
            escape_text(link.href.0@) + r#"">"#@ + "Top"@ + "</a>"@,
        ),
        link.order == ThreadOrder::Hot ==> shows_part(
            order_tabs_html(seq![link], active),
            escape_text(link.href.0@) + r#"">"#@ + "Hot"@ + "</a>"@,
        ),
        link.order == active ==> shows_part(
            order_tabs_html(seq![link], active),
            r#"<a class="tab"#@ + " is-active"@ + r#"""#@ + r#" aria-current="page""#@,
        ),
        link.order != active ==> shows_part(
            order_tabs_html(seq![link], active),
            r#"<a class="tab"#@ + ""@ + r#"""#@ + ""@,
        ),
{
    broadcast use {group_shows, group_ends};

    assert(seq![link].drop_last() =~= Seq::<ThreadOrderLinkVM>::empty());
    assert(seq![link].last() == link);
}

/// A tab leads to its list under its name, and exactly the active one is marked.
pub proof fn law_scope_tab_shows(
    link: ThreadScopeLinkVM,
    active: ThreadScope,
)
    ensures
        link.scope == ThreadScope::Any ==> shows_part(
            scope_tabs_html(seq![link], active),
            escape_text(link.href.0@) + r#"">"#@ + "All"@ + "</a>"@,
        ),
        link.scope == ThreadScope::Questions ==> shows_part(
            scope_tabs_html(seq![link], active),
            escape_text(link.href.0@) + r#"">"#@ + "Questions"@ + "</a>"@,
        ),
        link.scope == ThreadScope::Answered ==> shows_part(
            scope_tabs_html(seq![link], active),
            escape_text(link.href.0@) + r#"">"#@ + "Answered"@ + "</a>"@,
        ),
        link.scope == ThreadScope::Unanswered ==> shows_part(
            scope_tabs_html(seq![link], active),
            escape_text(link.href.0@) + r#"">"#@ + "Unanswered"@ + "</a>"@,
        ),
        link.scope == active ==> shows_part(
            scope_tabs_html(seq![link], active),
            r#"<a class="tab"#@ + " is-active"@ + r#"""#@ + r#" aria-current="page""#@,
        ),
        link.scope != active ==> shows_part(
            scope_tabs_html(seq![link], active),
            r#"<a class="tab"#@ + ""@ + r#"""#@ + ""@,
        ),
{
    broadcast use {group_shows, group_ends};

    assert(seq![link].drop_last() =~= Seq::<ThreadScopeLinkVM>::empty());
    assert(seq![link].last() == link);
}

/// A tab leads to its activity under its name, and exactly the active one is marked.
pub proof fn law_activity_scope_tab_shows(
    tab: ActivityReadScopeLinkVM,
    active: ActivityReadScopeVM,
)
    ensures
        shows_part(
            activity_scope_tabs_html(seq![tab], active),
            escape_text(tab.link.href.0@) + r#"">"#@ + escape_text(tab.link.label.0@) + "</a>"@,
        ),
        tab.scope == active ==> shows_part(
            activity_scope_tabs_html(seq![tab], active),
            r#"<a class="tab"#@ + " is-active"@ + r#"""#@ + r#" aria-current="page""#@,
        ),
        tab.scope != active ==> shows_part(
            activity_scope_tabs_html(seq![tab], active),
            r#"<a class="tab"#@ + ""@ + r#"""#@ + ""@,
        ),
{
    broadcast use {group_shows, group_ends};

    assert(seq![tab].drop_last() =~= Seq::<ActivityReadScopeLinkVM>::empty());
    assert(seq![tab].last() == tab);
}

/// A tab leads to its activity under its name, and exactly the active one is marked.
pub proof fn law_activity_filter_tab_shows(
    tab: ActivityFilterLinkVM,
    active: ActivityFilterVM,
)
    ensures
        shows_part(
            activity_filter_tabs_html(seq![tab], active),
            escape_text(tab.link.href.0@) + r#"">"#@ + escape_text(tab.link.label.0@) + "</a>"@,
        ),
        tab.filter == active ==> shows_part(
            activity_filter_tabs_html(seq![tab], active),
            r#"<a class="tab"#@ + " is-active"@ + r#"""#@ + r#" aria-current="page""#@,
        ),
        tab.filter != active ==> shows_part(
            activity_filter_tabs_html(seq![tab], active),
            r#"<a class="tab"#@ + ""@ + r#"""#@ + ""@,
        ),
{
    broadcast use {group_shows, group_ends};

    assert(seq![tab].drop_last() =~= Seq::<ActivityFilterLinkVM>::empty());
    assert(seq![tab].last() == tab);
}

/// A tab of a private list names its value, and exactly the active one is marked.
pub proof fn law_ledger_tab_shows(
    param: Seq<char>,
    value: Seq<char>,
    label: Seq<char>,
    active: bool,
)
    ensures
        shows_part(
            ledger_tab_html(param, value, label, active),
            r#" href="?"#@ + param + "="@ + value + r#"">"#@ + escape_text(label) + "</a>"@,
        ),
        active ==> shows_part(
            ledger_tab_html(param, value, label, active),
            r#"<a class="tab"#@ + " is-active"@ + r#"""#@ + r#" aria-current="page""#@,
        ),
        !active ==> shows_part(
            ledger_tab_html(param, value, label, active),
            r#"<a class="tab"#@ + ""@ + r#"""#@ + ""@,
        ),
{
    broadcast use {group_shows, group_ends};
}

/// The levels of a category stand to choose from, the current one chosen.
pub proof fn law_focus_options_show(
    selected: CategoryFocusLevelVM,
)
    ensures
        selected == CategoryFocusLevelVM::Unset ==> shows_part(
            focus_level_options_html(selected),
            r#"<option value="none""#@ + " selected"@ + ">No focus</option>"@,
        ),
        selected != CategoryFocusLevelVM::Unset ==> shows_part(
            focus_level_options_html(selected),
            r#"<option value="none""#@ + ""@ + ">No focus</option>"@,
        ),
        selected == CategoryFocusLevelVM::Priority ==> shows_part(
            focus_level_options_html(selected),
            r#"<option value="priority""#@ + " selected"@ + ">Priority</option>"@,
        ),
        selected != CategoryFocusLevelVM::Priority ==> shows_part(
            focus_level_options_html(selected),
            r#"<option value="priority""#@ + ""@ + ">Priority</option>"@,
        ),
        selected == CategoryFocusLevelVM::Follow ==> shows_part(
            focus_level_options_html(selected),
            r#"<option value="follow""#@ + " selected"@ + ">Follow</option>"@,
        ),
        selected != CategoryFocusLevelVM::Follow ==> shows_part(
            focus_level_options_html(selected),
            r#"<option value="follow""#@ + ""@ + ">Follow</option>"@,
        ),
        selected == CategoryFocusLevelVM::Mute ==> shows_part(
            focus_level_options_html(selected),
            r#"<option value="mute""#@ + " selected"@ + ">Mute</option>"@,
        ),
        selected != CategoryFocusLevelVM::Mute ==> shows_part(
            focus_level_options_html(selected),
            r#"<option value="mute""#@ + ""@ + ">Mute</option>"@,
        ),
{
    broadcast use {group_shows, group_ends};
}

/// The levels of a thread stand to choose from, the current one chosen.
pub proof fn law_follow_options_show(
    selected: ThreadFollowLevelVM,
)
    ensures
        selected == ThreadFollowLevelVM::Unset ==> shows_part(
            follow_level_options_html(selected),
            r#"<option value="none""#@ + " selected"@ + ">Not following</option>"@,
        ),
        selected != ThreadFollowLevelVM::Unset ==> shows_part(
            follow_level_options_html(selected),
            r#"<option value="none""#@ + ""@ + ">Not following</option>"@,
        ),
        selected == ThreadFollowLevelVM::Watch ==> shows_part(
            follow_level_options_html(selected),
            r#"<option value="watch""#@ + " selected"@ + ">Add to reading list</option>"@,
        ),
        selected != ThreadFollowLevelVM::Watch ==> shows_part(
            follow_level_options_html(selected),
            r#"<option value="watch""#@ + ""@ + ">Add to reading list</option>"@,
        ),
        selected == ThreadFollowLevelVM::Follow ==> shows_part(
            follow_level_options_html(selected),
            r#"<option value="follow""#@ + " selected"@ + ">Prioritize</option>"@,
        ),
        selected != ThreadFollowLevelVM::Follow ==> shows_part(
            follow_level_options_html(selected),
            r#"<option value="follow""#@ + ""@ + ">Prioritize</option>"@,
        ),
        selected == ThreadFollowLevelVM::Mute ==> shows_part(
            follow_level_options_html(selected),
            r#"<option value="mute""#@ + " selected"@ + ">Mute</option>"@,
        ),
        selected != ThreadFollowLevelVM::Mute ==> shows_part(
            follow_level_options_html(selected),
            r#"<option value="mute""#@ + ""@ + ">Mute</option>"@,
        ),
{
    broadcast use {group_shows, group_ends};
}

/// A category to move to stands under its name, the current one chosen.
pub proof fn law_move_option_shows(
    c: CategoryRefVM,
    chosen: &Opaque,
)
    ensures
        c.id.0@ == chosen.0@ ==> shows_part(
            move_options_html(seq![c], chosen),
            r#"<option value=""#@ + escape_text(c.id.0@) + r#"""#@ + " selected"@ + ">"@
                + escape_text(c.name.0@) + "</option>"@,
        ),
        !(c.id.0@ == chosen.0@) ==> shows_part(
            move_options_html(seq![c], chosen),
            r#"<option value=""#@ + escape_text(c.id.0@) + r#"""#@ + ""@ + ">"@
                + escape_text(c.name.0@) + "</option>"@,
        ),
{
    broadcast use {group_shows, group_ends};

    assert(seq![c].drop_last() =~= Seq::<CategoryRefVM>::empty());
    assert(seq![c].last() == c);
}

/// A category stands under its name, the chosen one chosen.
pub proof fn law_search_option_shows(
    c: CategoryVM,
    chosen: Option<&Opaque>,
)
    ensures
        chosen is Some && (chosen->0).0@ == c.category.id.0@ ==> shows_part(
            category_options_html(seq![c], chosen),
            r#"<option value=""#@ + escape_text(c.category.id.0@) + r#"""#@ + " selected"@ + ">"@
                + escape_text(c.category.name.0@) + "</option>"@,
        ),
        !(chosen is Some && (chosen->0).0@ == c.category.id.0@) ==> shows_part(
            category_options_html(seq![c], chosen),
            r#"<option value=""#@ + escape_text(c.category.id.0@) + r#"""#@ + ""@ + ">"@
                + escape_text(c.category.name.0@) + "</option>"@,
        ),
{
    broadcast use {group_shows, group_ends};

    assert(seq![c].drop_last() =~= Seq::<CategoryVM>::empty());
    assert(seq![c].last() == c);
}

/// A category stands under its name, the chosen one chosen.
pub proof fn law_compose_option_shows(
    c: CategoryVM,
    chosen: Option<&Opaque>,
)
    ensures
        chosen is Some && (chosen->0).0@ == c.category.id.0@ ==> shows_part(
            compose_options_html(seq![c], chosen),
            r#"<option value=""#@ + escape_text(c.category.id.0@) + r#"""#@ + " selected"@ + ">"@
                + escape_text(c.category.name.0@) + " · "@
                + (if c.kind is Question {
                    "Question"@
                } else {
                    "Discussion"@
                })
                + "</option>"@,
        ),
        !(chosen is Some && (chosen->0).0@ == c.category.id.0@) ==> shows_part(
            compose_options_html(seq![c], chosen),
            r#"<option value=""#@ + escape_text(c.category.id.0@) + r#"""#@ + ""@ + ">"@
                + escape_text(c.category.name.0@) + " · "@
                + (if c.kind is Question {
                    "Question"@
                } else {
                    "Discussion"@
                })
                + "</option>"@,
        ),
{
    broadcast use {group_shows, group_ends};

    assert(seq![c].drop_last() =~= Seq::<CategoryVM>::empty());
    assert(seq![c].last() == c);
}

/// A category leads to its page under its name, with its kind.
pub proof fn law_terrace_shows(
    c: CategoryVM,
)
    ensures
        shows_part(
            terrace_items_html(seq![c]),
            escape_text("/c/"@ + c.category.id.0@),
        ),
        shows_part(
            terrace_items_html(seq![c]),
            escape_text(c.category.name.0@),
        ),
        c.kind == ThreadKind::Question ==> shows_part(
            terrace_items_html(seq![c]),
            r#"<span class="badge ag-chip-shared ag-kind ag-kind--question">Question</span>"#@,
        ),
        c.kind == ThreadKind::Discussion ==> shows_part(
            terrace_items_html(seq![c]),
            r#"<span class="badge ag-chip-shared ag-kind ag-kind--discussion">Discussion</span>"#@,
        ),
{
    broadcast use {group_shows, group_ends};

    assert(seq![c].drop_last() =~= Seq::<CategoryVM>::empty());
    assert(seq![c].last() == c);
}

/// The controls of a list show its orders, its scopes where there are any, and the switch to what
/// the viewer subscribes to.
pub proof fn law_list_controls_show(
    c: &ThreadListControlsVM,
)
    ensures
        shows_part(
            thread_controls_html(c),
            order_tabs_html(c.order_links@, c.active_order),
        ),
        c.scope_links@.len() > 0 ==> shows_part(
            thread_controls_html(c),
            scope_tabs_html(c.scope_links@, c.active_scope),
        ),
        c.subscribed_toggle is Some ==> shows_part(
            thread_controls_html(c),
            escape_text((c.subscribed_toggle->0).href.0@),
        ),
        c.subscribed_toggle is Some ==> shows_part(
            thread_controls_html(c),
            escape_text((c.subscribed_toggle->0).label.0@),
        ),
        c.subscribed_toggle is Some && c.subscribed_only ==> shows_part(
            thread_controls_html(c),
            r#"<a class="btn btn-secondary btn-sm ag-key-private"#@ + " is-active"@,
        ),
        c.subscribed_toggle is Some && !c.subscribed_only ==> shows_part(
            thread_controls_html(c),
            r#"<a class="btn btn-secondary btn-sm ag-key-private"#@ + ""@,
        ),
{
    broadcast use {group_shows, group_ends};
}

/// The home page shows the heading of its scope, its threads or why there are none, its controls
/// and the categories.
pub proof fn law_home_shows(
    s: &HomeShared,
    rows: Seq<ThreadRowVM>,
)
    ensures
        shows_part(
            home_main_html(s, rows),
            escape_text(scope_heading_text(s.controls.active_scope, s.controls.subscribed_only)),
        ),
        s.state is Ready ==> shows_part(
            home_main_html(s, rows),
            thread_rows_html(rows, s.now),
        ),
        s.state is ReadyEmpty ==> shows_part(
            home_main_html(s, rows),
            escape_text("No threads here yet. Start the first one."@),
        ),
        shows_part(
            home_main_html(s, rows),
            thread_controls_html(&s.controls),
        ),
        s.categories@.len() > 0 ==> shows_part(
            home_main_html(s, rows),
            terrace_items_html(s.categories@),
        ),
        rows.len() == 1 ==> shows_part(
            home_main_html(s, rows),
            "1 discussion"@,
        ),
        rows.len() != 1 ==> shows_part(
            home_main_html(s, rows),
            decimal_text(rows.len() as int) + " discussions"@,
        ),
        s.controls.questions is Some ==> shows_part(
            home_main_html(s, rows),
            escape_text((s.controls.questions->0).href.0@),
        ),
{
    broadcast use {group_shows, group_ends};
}

/// A category page shows its name and kind, its threads or why there are none, its controls and the
/// viewer's rule for it.
pub proof fn law_category_page_shows(
    s: &CategoryPageShared,
    rows: Seq<ThreadRowVM>,
    vs: &CategoryPageViewerState,
)
    ensures
        shows_part(
            category_main_html(s, rows, vs),
            escape_text(s.category.category.name.0@),
        ),
        s.category.kind == ThreadKind::Question ==> shows_part(
            category_main_html(s, rows, vs),
            r#"<span class="badge ag-chip-shared ag-kind ag-kind--question">Question</span>"#@,
        ),
        s.category.kind == ThreadKind::Discussion ==> shows_part(
            category_main_html(s, rows, vs),
            r#"<span class="badge ag-chip-shared ag-kind ag-kind--discussion">Discussion</span>"#@,
        ),
        s.state is Ready ==> shows_part(
            category_main_html(s, rows, vs),
            thread_rows_html(rows, s.now),
        ),
        s.state is ReadyEmpty ==> shows_part(
            category_main_html(s, rows, vs),
            escape_text("No threads in this category yet."@),
        ),
        shows_part(
            category_main_html(s, rows, vs),
            thread_controls_html(&s.controls),
        ),
        vs.focus is Some ==> shows_part(
            category_main_html(s, rows, vs),
            category_focus_form_html(&vs.focus->0),
        ),
        shows_part(
            category_main_html(s, rows, vs),
            decimal_text(rows.len() as int),
        ),
{
    broadcast use {group_shows, group_ends};
}

/// The form for a category's level shows the levels and says when it was saved.
pub proof fn law_focus_form_shows(
    f: &CategoryFocusFormVM,
)
    ensures
        shows_part(
            category_focus_form_html(f),
            escape_text(f.submit.action.0@),
        ),
        shows_part(
            category_focus_form_html(f),
            hidden_inputs_html(f.submit.csrf.0@, f.submit.fields@),
        ),
        shows_part(
            category_focus_form_html(f),
            focus_level_options_html(f.selected),
        ),
        f.saved && f.selected == CategoryFocusLevelVM::Unset ==> shows_part(
            category_focus_form_html(f),
            r#"<p class="ag-form__status" role="status">Saved: "#@ + "No focus"@ + ".</p>"@,
        ),
        f.saved && f.selected == CategoryFocusLevelVM::Priority ==> shows_part(
            category_focus_form_html(f),
            r#"<p class="ag-form__status" role="status">Saved: "#@ + "Priority"@ + ".</p>"@,
        ),
        f.saved && f.selected == CategoryFocusLevelVM::Follow ==> shows_part(
            category_focus_form_html(f),
            r#"<p class="ag-form__status" role="status">Saved: "#@ + "Follow"@ + ".</p>"@,
        ),
        f.saved && f.selected == CategoryFocusLevelVM::Mute ==> shows_part(
            category_focus_form_html(f),
            r#"<p class="ag-form__status" role="status">Saved: "#@ + "Mute"@ + ".</p>"@,
        ),
{
    broadcast use {group_shows, group_ends};
}

/// The head of a thread shows its title, who started it and when, how many replies it has, its kind
/// and state, and the viewer's own controls.
pub proof fn law_thread_head_shows(
    s: &ThreadShared,
    viewer: &ThreadViewerState,
    now: i64,
)
    ensures
        shows_part(
            thread_head_html(s, viewer, now),
            escape_text(s.title.0@),
        ),
        shows_part(
            thread_head_html(s, viewer, now),
            escape_text(s.author_display.0@),
        ),
        shows_part(
            thread_head_html(s, viewer, now),
            time_el_html(s.created_at, now),
        ),
        s.post_count is Some ==> shows_part(
            thread_head_html(s, viewer, now),
            escape_text(replies_label_text(s.post_count->0)),
        ),
        s.kind == ThreadKind::Question ==> shows_part(
            thread_head_html(s, viewer, now),
            r#"<span class="badge ag-chip-shared ag-kind ag-kind--question">Question</span>"#@,
        ),
        s.kind == ThreadKind::Discussion ==> shows_part(
            thread_head_html(s, viewer, now),
            r#"<span class="badge ag-chip-shared ag-kind ag-kind--discussion">Discussion</span>"#@,
        ),
        s.kind == ThreadKind::Question && s.answer_state == AnswerState::NotApplicable ==> shows_part(
            thread_head_html(s, viewer, now),
            ""@,
        ),
        s.kind == ThreadKind::Question && s.answer_state == AnswerState::NeedsAnswer ==> shows_part(
            thread_head_html(s, viewer, now),
            r#"<span class="badge ag-chip-shared ag-answer-state ag-answer-state--open">Needs answer</span>"#@,
        ),
        s.kind == ThreadKind::Question && s.answer_state == AnswerState::Answered ==> shows_part(
            thread_head_html(s, viewer, now),
            r#"<span class="badge badge-accepted ag-chip-shared ag-answer-state">Answered</span>"#@,
        ),
        s.pinned ==> shows_part(
            thread_head_html(s, viewer, now),
            r#"<span class="badge ag-chip-shared ag-flag ag-flag--pinned">Pinned</span>"#@,
        ),
        s.locked ==> shows_part(
            thread_head_html(s, viewer, now),
            r#"<span class="badge ag-chip-shared ag-flag ag-flag--locked">Locked</span>"#@,
        ),
        viewer_controls_html(viewer).len() > 0 ==> shows_part(
            thread_head_html(s, viewer, now),
            viewer_controls_html(viewer),
        ),
{
    broadcast use {group_shows, group_ends};
}

/// The viewer's controls of a thread are those that its handler supplied.
pub proof fn law_viewer_controls_show(
    viewer: &ThreadViewerState,
)
    ensures
        viewer.subscription is Some ==> shows_part(
            viewer_controls_html(viewer),
            follow_level_options_html((viewer.subscription->0).selected),
        ),
        viewer.subscription is Some ==> shows_part(
            viewer_controls_html(viewer),
            escape_text((viewer.subscription->0).submit.action.0@),
        ),
        viewer.edit is Some && owner_actions_html(viewer).len() > 0 ==> shows_part(
            viewer_controls_html(viewer),
            link_action_html(&viewer.edit->0),
        ),
        viewer.delete_review is Some && owner_actions_html(viewer).len() > 0 ==> shows_part(
            viewer_controls_html(viewer),
            link_action_html(&viewer.delete_review->0),
        ),
        viewer.clear_invalid_solution is Some ==> shows_part(
            viewer_controls_html(viewer),
            form_action_html(&viewer.clear_invalid_solution->0),
        ),
{
    broadcast use {group_shows, group_ends};
}

/// The reading controls lead on from where the viewer stopped, or to the first unread post where
/// they have not started; they count what is unread, or say that everything was read.
pub proof fn law_reading_progress_shows(
    reading: &ReadingProgressVM,
)
    ensures
        reading.resume_href is Some ==> shows_part(
            control_parts_html(reading),
            r#"<a class="ag-mark ag-mark--resume" href=""#@
                + escape_text((reading.resume_href->0).0@) + r#"">Continue reading</a>"#@,
        ),
        reading.resume_href is None && reading.first_unread_href is Some ==> shows_part(
            control_parts_html(reading),
            r#"<a class="ag-mark ag-mark--resume" href=""#@
                + escape_text((reading.first_unread_href->0).0@) + r#"">Start reading</a>"#@,
        ),
        reading.unread_count is Some && reading.unread_count->0 > 0 ==> shows_part(
            control_parts_html(reading),
            escape_text(unread_posts_label_text(reading.unread_count->0)),
        ),
        reading.unread_count is Some && reading.unread_count->0 <= 0 && reading.started ==> shows_part(
            control_parts_html(reading),
            escape_text("Caught up"@),
        ),
        reading.mark_page_read is Some ==> shows_part(
            control_parts_html(reading),
            escape_text((reading.mark_page_read->0).action.0@),
        ),
        reading.mark_page_read is Some ==> shows_part(
            control_parts_html(reading),
            hidden_inputs_html((reading.mark_page_read->0).csrf.0@, (reading.mark_page_read->0).fields@),
        ),
{
    broadcast use {group_shows, group_ends};
}

/// The guide of a question leads to its accepted answer where there is one, on to where the viewer
/// stopped, and counts what is unread.
pub proof fn law_reading_guide_shows(
    v: &ThreadView,
)
    ensures
        v.shared.kind == ThreadKind::Question && v.dais is Some ==> shows_part(
            reading_spine_html(v),
            r##"<div class="ag-spine__section ag-spine__section--dais"><span class="ag-spine__mark">◆</span><a class="ag-spine__link" href="#ag-dais-title">Accepted Answer</a></div>"##@,
        ),
        v.shared.kind == ThreadKind::Question && v.reading.resume_href is Some ==> shows_part(
            reading_spine_html(v),
            escape_text((v.reading.resume_href->0).0@) + r#"">Continue reading</a></div>"#@,
        ),
        v.shared.kind == ThreadKind::Question && v.reading.resume_href is None && v.reading.first_unread_href is Some ==> shows_part(
            reading_spine_html(v),
            escape_text((v.reading.first_unread_href->0).0@) + r#"">Start reading</a></div>"#@,
        ),
        v.shared.kind == ThreadKind::Question && v.reading.unread_count is Some && v.reading.unread_count->0 > 0 ==> shows_part(
            reading_spine_html(v),
            escape_text(unread_label_text(v.reading.unread_count->0)),
        ),
{
    broadcast use {group_shows, group_ends};
}

/// A summary shows its sentences, from how many posts they come, and how many there may be.
pub proof fn law_summary_shows(
    s: SummaryVM,
)
    ensures
        shows_part(
            summary_block_html(&SummaryStateVM::Available(s)),
            summary_items_html(s.sentences@),
        ),
        shows_part(
            summary_block_html(&SummaryStateVM::Available(s)),
            decimal_text(s.source_post_count as int) + " posts on this page · up to "@
                + decimal_text(s.sentence_bound as int),
        ),
{
    broadcast use {group_shows, group_ends};
}

/// The reply form shows where it is sent, what it carries, the text so far and the post it quotes;
/// a question is answered, a discussion replied to.
pub proof fn law_reply_form_shows(
    submit: FormActionVM,
    body: Text,
    quoted_post_id: Option<Opaque>,
    question: bool,
)
    ensures
        shows_part(
            reply_form_block_html(&ReplyFormVM::Available { submit, body, quoted_post_id }, question),
            escape_text(submit.action.0@),
        ),
        shows_part(
            reply_form_block_html(&ReplyFormVM::Available { submit, body, quoted_post_id }, question),
            hidden_inputs_html(submit.csrf.0@, submit.fields@),
        ),
        shows_part(
            reply_form_block_html(&ReplyFormVM::Available { submit, body, quoted_post_id }, question),
            escape_text(body.0@),
        ),
        quoted_post_id is Some ==> shows_part(
            reply_form_block_html(&ReplyFormVM::Available { submit, body, quoted_post_id }, question),
            r#"<input type="hidden" name="quote_post_id" value=""#@
                + escape_text((quoted_post_id->0).0@) + r#"">"#@,
        ),
        question ==> shows_part(
            reply_form_block_html(&ReplyFormVM::Available { submit, body, quoted_post_id }, question),
            "Post answer"@,
        ),
        !question ==> shows_part(
            reply_form_block_html(&ReplyFormVM::Available { submit, body, quoted_post_id }, question),
            "Post reply"@,
        ),
{
    broadcast use {group_shows, group_ends};
}

/// A thread that takes no reply says why.
pub proof fn law_reply_notice_shows(
    heading: Text,
    message: Text,
    question: bool,
)
    ensures
        shows_part(
            reply_form_block_html(&ReplyFormVM::LockedNotice { message }, question),
            escape_text(message.0@),
        ),
        shows_part(
            reply_form_block_html(&ReplyFormVM::UnavailableNotice { heading, message }, question),
            escape_text(heading.0@),
        ),
        shows_part(
            reply_form_block_html(&ReplyFormVM::UnavailableNotice { heading, message }, question),
            escape_text(message.0@),
        ),
{
    broadcast use {group_shows, group_ends};
}

/// The moderation bar shows the controls that its handler supplied.
pub proof fn law_toolbar_shows(
    a: &AdminThreadToolbarVM,
)
    ensures
        a.move_thread is Some ==> shows_part(
            toolbar_items_html(a),
            move_options_html((a.move_thread->0).categories@, &(a.move_thread->0).selected_category),
        ),
        a.move_thread is Some ==> shows_part(
            toolbar_items_html(a),
            escape_text((a.move_thread->0).submit.action.0@),
        ),
        a.lock is Some ==> shows_part(
            toolbar_items_html(a),
            form_action_html(&a.lock->0),
        ),
        a.pin is Some ==> shows_part(
            toolbar_items_html(a),
            form_action_html(&a.pin->0),
        ),
        a.delete_review is Some ==> shows_part(
            toolbar_items_html(a),
            link_action_html(&a.delete_review->0),
        ),
{
    broadcast use {group_shows, group_ends};
}

/// The composer shows where it is sent, what it carries and the text so far; a title where there is
/// one to write, and the categories for a new thread.
pub proof fn law_composer_shows(
    s: &ComposeShared,
    vs: &ComposeViewerState,
)
    ensures
        shows_part(
            compose_main_html(s, vs),
            escape_text(s.heading.0@),
        ),
        shows_part(
            compose_main_html(s, vs),
            escape_text(vs.submit.action.0@),
        ),
        shows_part(
            compose_main_html(s, vs),
            hidden_inputs_html(vs.submit.csrf.0@, vs.submit.fields@),
        ),
        shows_part(
            compose_main_html(s, vs),
            escape_text(vs.body.0@),
        ),
        s.mode != ComposeMode::EditReply ==> shows_part(
            compose_main_html(s, vs),
            escape_text(vs.title.0@),
        ),
        vs.quoted_post_id is Some ==> shows_part(
            compose_main_html(s, vs),
            escape_text((vs.quoted_post_id->0).0@),
        ),
        s.mode == ComposeMode::NewThread ==> shows_part(
            compose_main_html(s, vs),
            category_select_html(s.categories@, (match s.selected_category {
                    Some(inner) => Some(&inner),
                    None => None,
                })),
        ),
{
    broadcast use {group_shows, group_ends};
}

/// An item of the catch-up desk shows its thread, why it is there, how the viewer follows it, what
/// is unread and where that begins.
pub proof fn law_catch_up_item_shows(
    it: &CatchUpItemVM,
    now: i64,
)
    ensures
        shows_part(
            catch_up_item_html(it, now),
            escape_text(it.shared.title.0@),
        ),
        shows_part(
            catch_up_item_html(it, now),
            escape_text("/t/"@ + it.shared.id.0@),
        ),
        shows_part(
            catch_up_item_html(it, now),
            escape_text(it.shared.author_display.0@),
        ),
        shows_part(
            catch_up_item_html(it, now),
            time_el_html(it.shared.last_at, now),
        ),
        it.shared.kind == ThreadKind::Question ==> shows_part(
            catch_up_item_html(it, now),
            r#"<span class="badge ag-chip-shared ag-kind ag-kind--question">Question</span>"#@,
        ),
        it.shared.kind == ThreadKind::Discussion ==> shows_part(
            catch_up_item_html(it, now),
            r#"<span class="badge ag-chip-shared ag-kind ag-kind--discussion">Discussion</span>"#@,
        ),
        it.viewer.reason == CatchUpReasonVM::Watch ==> shows_part(
            catch_up_item_html(it, now),
            escape_text("You are watching this thread"@),
        ),
        it.viewer.reason == CatchUpReasonVM::Follow ==> shows_part(
            catch_up_item_html(it, now),
            escape_text("You follow this thread"@),
        ),
        it.viewer.reason == CatchUpReasonVM::Authored ==> shows_part(
            catch_up_item_html(it, now),
            escape_text("You started this thread"@),
        ),
        it.viewer.reason == CatchUpReasonVM::Bookmarked ==> shows_part(
            catch_up_item_html(it, now),
            escape_text("You bookmarked this thread"@),
        ),
        it.viewer.reason == CatchUpReasonVM::Participated ==> shows_part(
            catch_up_item_html(it, now),
            escape_text("You replied in this thread"@),
        ),
        it.viewer.reason == CatchUpReasonVM::ContinueReading ==> shows_part(
            catch_up_item_html(it, now),
            escape_text("Continue where you left off"@),
        ),
        shows_part(
            catch_up_item_html(it, now),
            follow_marker_html(it.viewer.follow_level),
        ),
        it.viewer.unread_count > 0 ==> shows_part(
            catch_up_item_html(it, now),
            escape_text(unread_label_text(it.viewer.unread_count)),
        ),
        it.viewer.question_state is Some && it.viewer.question_state->0 == CatchUpQuestionStateVM::Waiting ==> shows_part(
            catch_up_item_html(it, now),
            escape_text("Waiting for an answer"@),
        ),
        it.viewer.question_state is Some && it.viewer.question_state->0 == CatchUpQuestionStateVM::Solved ==> shows_part(
            catch_up_item_html(it, now),
            escape_text("Accepted answer recorded"@),
        ),
        it.viewer.first_unread_href is Some ==> shows_part(
            catch_up_item_html(it, now),
            escape_text((it.viewer.first_unread_href->0).0@),
        ),
{
    broadcast use {group_shows, group_ends};
}

/// An item of the focus page shows its thread, why it is there, the levels that put it there and
/// what is new.
pub proof fn law_focus_item_shows(
    it: &FocusItemVM,
    now: i64,
)
    ensures
        shows_part(
            focus_item_html(it, now),
            escape_text(it.shared.title.0@),
        ),
        shows_part(
            focus_item_html(it, now),
            escape_text(it.shared.author_display.0@),
        ),
        shows_part(
            focus_item_html(it, now),
            time_el_html(it.shared.last_at, now),
        ),
        it.viewer.resume_href is Some ==> shows_part(
            focus_item_html(it, now),
            escape_text((it.viewer.resume_href->0).0@),
        ),
        it.viewer.resume_href is None ==> shows_part(
            focus_item_html(it, now),
            escape_text("/t/"@ + it.shared.id.0@),
        ),
        it.reason == CategoryFocusReasonVM::CategoryPriority ==> shows_part(
            focus_item_html(it, now),
            escape_text("Shown by category priority"@),
        ),
        it.reason == CategoryFocusReasonVM::CategoryFollow ==> shows_part(
            focus_item_html(it, now),
            escape_text("Shown by category follow"@),
        ),
        it.reason == CategoryFocusReasonVM::ThreadWatchOverride ==> shows_part(
            focus_item_html(it, now),
            escape_text("Your thread watch overrides the category"@),
        ),
        it.reason == CategoryFocusReasonVM::ThreadFollowOverride ==> shows_part(
            focus_item_html(it, now),
            escape_text("Your thread follow overrides the category"@),
        ),
        it.category_level == CategoryFocusLevelVM::Priority ==> shows_part(
            focus_item_html(it, now),
            escape_text("Priority"@),
        ),
        it.category_level == CategoryFocusLevelVM::Follow ==> shows_part(
            focus_item_html(it, now),
            escape_text("Follow"@),
        ),
        it.category_level == CategoryFocusLevelVM::Mute ==> shows_part(
            focus_item_html(it, now),
            escape_text("Mute"@),
        ),
        shows_part(
            focus_item_html(it, now),
            follow_marker_html(it.thread_level),
        ),
        it.viewer.unread_count is Some && it.viewer.resume_href is Some && it.viewer.unread_count->0 > 0 ==> shows_part(
            focus_item_html(it, now),
            escape_text(continue_label_text(it.viewer.unread_count->0)),
        ),
{
    broadcast use {group_shows, group_ends};
}

/// A rule shows its category, its level and the form to change it.
pub proof fn law_focus_rule_shows(
    r: &FocusRuleVM,
)
    ensures
        shows_part(
            focus_rule_html(r),
            escape_text(r.category.category.name.0@),
        ),
        r.level == CategoryFocusLevelVM::Unset ==> shows_part(
            focus_rule_html(r),
            escape_text("No focus"@),
        ),
        r.level == CategoryFocusLevelVM::Priority ==> shows_part(
            focus_rule_html(r),
            escape_text("Priority"@),
        ),
        r.level == CategoryFocusLevelVM::Follow ==> shows_part(
            focus_rule_html(r),
            escape_text("Follow"@),
        ),
        r.level == CategoryFocusLevelVM::Mute ==> shows_part(
            focus_rule_html(r),
            escape_text("Mute"@),
        ),
        shows_part(
            focus_rule_html(r),
            focus_level_options_html(r.level),
        ),
        shows_part(
            focus_rule_html(r),
            escape_text(r.submit.action.0@),
        ),
        shows_part(
            focus_rule_html(r),
            hidden_inputs_html(r.submit.csrf.0@, r.submit.fields@),
        ),
{
    broadcast use {group_shows, group_ends};
}

/// An event shows what happened, why the viewer is told, who did it, where and when, an excerpt,
/// and whether it was read; it opens the exact post.
pub proof fn law_activity_item_shows(
    it: &ActivityItemVM,
    now: i64,
)
    ensures
        it.shared.kind == ActivityKindVM::PostCreated ==> shows_part(
            activity_item_html(it, now),
            escape_text("New post"@),
        ),
        it.shared.kind == ActivityKindVM::AnswerAccepted ==> shows_part(
            activity_item_html(it, now),
            escape_text("Answer accepted"@),
        ),
        it.viewer.reason == ActivityReasonVM::Mention ==> shows_part(
            activity_item_html(it, now),
            escape_text("Mentioned you"@),
        ),
        it.viewer.reason == ActivityReasonVM::Reply ==> shows_part(
            activity_item_html(it, now),
            escape_text("Replied to you"@),
        ),
        it.viewer.reason == ActivityReasonVM::Following ==> shows_part(
            activity_item_html(it, now),
            escape_text("In a thread you follow"@),
        ),
        it.viewer.reason == ActivityReasonVM::Answer ==> shows_part(
            activity_item_html(it, now),
            escape_text("Answer activity"@),
        ),
        shows_part(
            activity_item_html(it, now),
            time_el_html(it.shared.created_at, now),
        ),
        shows_part(
            activity_item_html(it, now),
            escape_text(it.viewer.open.submit.action.0@),
        ),
        shows_part(
            activity_item_html(it, now),
            hidden_inputs_html(it.viewer.open.submit.csrf.0@, it.viewer.open.submit.fields@),
        ),
        shows_part(
            activity_item_html(it, now),
            r#"<input type="hidden" name="next" value=""#@
                + escape_text(it.viewer.open.exact_target.0@),
        ),
        shows_part(
            activity_item_html(it, now),
            escape_text(it.shared.thread_title.0@),
        ),
        shows_part(
            activity_item_html(it, now),
            escape_text(it.shared.post_excerpt.0@),
        ),
        shows_part(
            activity_item_html(it, now),
            escape_text(it.shared.actor_display.0@),
        ),
        it.viewer.read ==> shows_part(
            activity_item_html(it, now),
            escape_text("Read"@),
        ),
        !it.viewer.read ==> shows_part(
            activity_item_html(it, now),
            escape_text("Unread"@),
        ),
        shows_part(
            activity_item_html(it, now),
            form_action_html(&it.viewer.toggle_read),
        ),
{
    broadcast use {group_shows, group_ends};
}

/// A bookmark shows its post, its thread, who wrote it and when, the owner's note and reminder, and
/// its controls.
pub proof fn law_bookmark_item_shows(
    it: &BookmarkItemVM,
    now: i64,
)
    ensures
        shows_part(
            bookmark_item_html(it, now),
            escape_text(it.shared.exact_post_href.0@),
        ),
        shows_part(
            bookmark_item_html(it, now),
            escape_text(it.shared.thread_title.0@),
        ),
        shows_part(
            bookmark_item_html(it, now),
            escape_text(it.shared.post_author_display.0@),
        ),
        shows_part(
            bookmark_item_html(it, now),
            time_el_html(it.shared.post_created_at, now),
        ),
        shows_part(
            bookmark_item_html(it, now),
            escape_text(it.shared.post_excerpt.0@),
        ),
        !blank_text(it.viewer.note.0@) ==> shows_part(
            bookmark_item_html(it, now),
            escape_text(it.viewer.note.0@),
        ),
        it.viewer.remind_at is Some ==> shows_part(
            bookmark_item_html(it, now),
            escape_text("Reminder "@ + fmt_ts_text(it.viewer.remind_at->0)),
        ),
        it.viewer.done is Some ==> shows_part(
            bookmark_item_html(it, now),
            form_action_html(&it.viewer.done->0),
        ),
        it.viewer.snooze_tomorrow is Some ==> shows_part(
            bookmark_item_html(it, now),
            form_action_html(&it.viewer.snooze_tomorrow->0),
        ),
        it.viewer.snooze_week is Some ==> shows_part(
            bookmark_item_html(it, now),
            form_action_html(&it.viewer.snooze_week->0),
        ),
        shows_part(
            bookmark_item_html(it, now),
            link_action_html(&it.viewer.edit),
        ),
        shows_part(
            bookmark_item_html(it, now),
            form_action_html(&it.viewer.remove),
        ),
{
    broadcast use {group_shows, group_ends};
}

/// A hit shows its thread, where the words were found and an excerpt.
pub proof fn law_search_result_shows(
    r: &SearchResultVM,
    now: i64,
)
    ensures
        shows_part(
            result_row_html(r, now),
            escape_text(r.thread.title.0@),
        ),
        shows_part(
            result_row_html(r, now),
            escape_text("/t/"@ + r.thread.id.0@),
        ),
        r.source == SearchMatchSource::Topic ==> shows_part(
            result_row_html(r, now),
            escape_text("Matched in the topic"@),
        ),
        r.source == SearchMatchSource::AcceptedAnswer ==> shows_part(
            result_row_html(r, now),
            escape_text("Matched in the accepted answer"@),
        ),
        shows_part(
            result_row_html(r, now),
            escape_text(r.excerpt.0@),
        ),
        shows_part(
            result_row_html(r, now),
            escape_text(r.thread.author_display.0@),
        ),
        shows_part(
            result_row_html(r, now),
            time_el_html(r.thread.last_at, now),
        ),
        r.thread.kind == ThreadKind::Question ==> shows_part(
            result_row_html(r, now),
            r#"<span class="badge ag-chip-shared ag-kind ag-kind--question">Question</span>"#@,
        ),
        r.thread.kind == ThreadKind::Discussion ==> shows_part(
            result_row_html(r, now),
            r#"<span class="badge ag-chip-shared ag-kind ag-kind--discussion">Discussion</span>"#@,
        ),
{
    broadcast use {group_shows, group_ends};
}

/// The search page shows the query, and the hits of a valid one or that there are none.
pub proof fn law_search_page_shows(
    s: &SearchShared,
    vs: &SearchViewerState,
)
    ensures
        shows_part(
            search_main_html(s, vs),
            escape_text(vs.query.0@),
        ),
        s.query_state is Valid && s.results@.len() > 0 ==> shows_part(
            search_main_html(s, vs),
            result_rows_html(s.results@, s.now),
        ),
        s.query_state is Valid && s.results@.len() > 0 ==> shows_part(
            search_main_html(s, vs),
            decimal_text(s.results@.len() as int),
        ),
        s.query_state is Valid && s.results@.len() == 0 ==> shows_part(
            search_main_html(s, vs),
            no_matches_html(s.state),
        ),
        s.query_state is TooShort ==> shows_part(
            search_main_html(s, vs),
            escape_text("Search needs at least 2 characters."@),
        ),
        shows_part(
            search_main_html(s, vs),
            category_options_html(s.categories@, (match vs.selected_category {
                    Some(inner) => Some(&inner),
                    None => None,
                })),
        ),
{
    broadcast use {group_shows, group_ends};
}

/// The catch-up page shows its items, or why there are none, and from which moment it is.
pub proof fn law_catch_up_page_shows(
    v: &CatchUpFeedVM,
)
    ensures
        v.viewer.items@.len() > 0 ==> shows_part(
            catch_up_main_html(v),
            catch_up_items_html(v.viewer.items@, v.shared.now),
        ),
        v.viewer.items@.len() > 0 ==> shows_part(
            catch_up_main_html(v),
            pagination_html(&v.viewer.pagination),
        ),
        v.viewer.items@.len() == 0 ==> shows_part(
            catch_up_main_html(v),
            empty_note_html(v.shared.state, "You're all caught up. Nothing new in this view."@),
        ),
        shows_part(
            catch_up_main_html(v),
            escape_text("As of "@ + fmt_ts_text(v.shared.snapshot_as_of) + " · page bound "@ + decimal_text(v.shared.visible_bound as int) + " · a private snapshot, not a global feed"@),
        ),
        shows_part(
            catch_up_main_html(v),
            catch_up_tabs_html(v.shared.active),
        ),
{
    broadcast use {group_shows, group_ends};
}

/// The focus page shows the rules and what they surface.
pub proof fn law_focus_page_shows(
    v: &FocusView,
)
    ensures
        v.viewer.rules@.len() > 0 ==> shows_part(
            focus_main_html(v),
            focus_rules_html(v.viewer.rules@),
        ),
        v.viewer.items@.len() > 0 ==> shows_part(
            focus_main_html(v),
            focus_items_html(v.viewer.items@, v.shared.now),
        ),
        v.viewer.items@.len() == 0 ==> shows_part(
            focus_main_html(v),
            empty_note_html(v.shared.state, "No focused threads right now."@),
        ),
{
    broadcast use {group_shows, group_ends};
}

/// The activity page shows its events, or why there are none, and the way to mark them read.
pub proof fn law_activity_page_shows(
    v: &ActivityView,
)
    ensures
        v.viewer.items@.len() > 0 ==> shows_part(
            activity_main_html(v),
            activity_items_html(v.viewer.items@, v.shared.now),
        ),
        v.viewer.items@.len() > 0 ==> shows_part(
            activity_main_html(v),
            pagination_html(&v.viewer.pagination),
        ),
        v.viewer.items@.len() == 0 ==> shows_part(
            activity_main_html(v),
            empty_note_html(v.shared.state, "No activity in this view yet."@),
        ),
        v.viewer.mark_page_read is Some ==> shows_part(
            activity_main_html(v),
            form_action_html(&v.viewer.mark_page_read->0),
        ),
        shows_part(
            activity_main_html(v),
            activity_scope_tabs_html(v.shared.read_scope_links@, v.shared.read_scope),
        ),
        shows_part(
            activity_main_html(v),
            activity_filter_tabs_html(v.shared.filter_links@, v.shared.active_filter),
        ),
{
    broadcast use {group_shows, group_ends};
}

/// The bookmark page shows its bookmarks, or why there are none.
pub proof fn law_bookmarks_page_shows(
    v: &BookmarksView,
)
    ensures
        v.viewer.items@.len() > 0 ==> shows_part(
            bookmarks_main_html(v),
            bookmark_items_html(v.viewer.items@, v.shared.now),
        ),
        v.viewer.items@.len() > 0 ==> shows_part(
            bookmarks_main_html(v),
            pagination_html(&v.viewer.pagination),
        ),
        v.viewer.items@.len() == 0 ==> shows_part(
            bookmarks_main_html(v),
            empty_note_html(v.shared.state, "No bookmarks in this view."@),
        ),
        shows_part(
            bookmarks_main_html(v),
            bookmark_tabs_html(v.shared.active_state),
        ),
{
    broadcast use {group_shows, group_ends};
}

/// The bookmark editor shows the thread, the note so far, the reminder, and where it is sent.
pub proof fn law_bookmark_editor_shows(
    v: &BookmarkEditView,
)
    ensures
        shows_part(
            bookmark_edit_main_html(v),
            escape_text(v.shared.thread_title.0@),
        ),
        shows_part(
            bookmark_edit_main_html(v),
            escape_text(v.viewer.note.0@),
        ),
        shows_part(
            bookmark_edit_main_html(v),
            escape_text(v.viewer.save.action.0@),
        ),
        shows_part(
            bookmark_edit_main_html(v),
            hidden_inputs_html(v.viewer.save.csrf.0@, v.viewer.save.fields@),
        ),
        shows_part(
            bookmark_edit_main_html(v),
            reminder_options_html(v.shared.current_reminder_at, v.viewer.selected_reminder),
        ),
        shows_part(
            bookmark_edit_main_html(v),
            escape_text(v.viewer.custom_time.0@),
        ),
        shows_part(
            bookmark_edit_main_html(v),
            escape_text(v.shared.exact_post_href.0@),
        ),
{
    broadcast use {group_shows, group_ends};
}

/// A category of the console shows its name, its kind and its controls.
pub proof fn law_console_category_shows(
    c: &AdminCategoryVM,
)
    ensures
        shows_part(
            admin_category_row_html(c),
            escape_text(c.category.category.name.0@),
        ),
        c.category.kind == ThreadKind::Question ==> shows_part(
            admin_category_row_html(c),
            r#"<span class="badge ag-chip-shared ag-kind ag-kind--question">Question</span>"#@,
        ),
        c.category.kind == ThreadKind::Discussion ==> shows_part(
            admin_category_row_html(c),
            r#"<span class="badge ag-chip-shared ag-kind ag-kind--discussion">Discussion</span>"#@,
        ),
        shows_part(
            admin_category_row_html(c),
            escape_text(c.rename.submit.action.0@),
        ),
        shows_part(
            admin_category_row_html(c),
            escape_text(c.set_format.action.0@),
        ),
        shows_part(
            admin_category_row_html(c),
            format_options_html(c.category.kind),
        ),
        c.move_up is Some ==> shows_part(
            admin_category_row_html(c),
            form_action_html(&c.move_up->0),
        ),
        c.move_down is Some ==> shows_part(
            admin_category_row_html(c),
            form_action_html(&c.move_down->0),
        ),
        shows_part(
            admin_category_row_html(c),
            link_action_html(&c.delete_review),
        ),
{
    broadcast use {group_shows, group_ends};
}

/// A thread of the console shows its title, its route and its controls.
pub proof fn law_console_thread_shows(
    t: &AdminThreadVM,
    now: i64,
)
    ensures
        shows_part(
            admin_thread_row_html(t, now),
            escape_text(t.thread.title.0@),
        ),
        shows_part(
            admin_thread_row_html(t, now),
            escape_text("/t/"@ + t.thread.id.0@),
        ),
        shows_part(
            admin_thread_row_html(t, now),
            escape_text(t.thread.author_display.0@),
        ),
        shows_part(
            admin_thread_row_html(t, now),
            admin_thread_toolbar_html(&t.toolbar),
        ),
{
    broadcast use {group_shows, group_ends};
}

/// A ban shows whom, why, by whom and since when, and the way to lift it.
pub proof fn law_console_ban_shows(
    b: &BannedAuthorVM,
    now: i64,
)
    ensures
        shows_part(
            banned_author_row_html(b, now),
            escape_text(b.author_display.0@),
        ),
        shows_part(
            banned_author_row_html(b, now),
            escape_text(b.reason.0@),
        ),
        shows_part(
            banned_author_row_html(b, now),
            escape_text(b.banned_by.0@),
        ),
        shows_part(
            banned_author_row_html(b, now),
            time_el_html(b.created_at, now),
        ),
        shows_part(
            banned_author_row_html(b, now),
            form_action_html(&b.unban),
        ),
{
    broadcast use {group_shows, group_ends};
}

/// The console shows the categories, the threads and the bans, each list behind its own form.
pub proof fn law_console_shows(
    s: &AdminShared,
    vs: &AdminViewerState,
)
    ensures
        shows_part(
            admin_main_html(s, vs),
            create_category_form_html(&vs.create_category),
        ),
        vs.categories@.len() > 0 ==> shows_part(
            admin_main_html(s, vs),
            admin_category_rows_html(vs.categories@),
        ),
        vs.threads@.len() > 0 ==> shows_part(
            admin_main_html(s, vs),
            admin_thread_rows_html(vs.threads@, s.now),
        ),
        vs.threads@.len() == 0 ==> shows_part(
            admin_main_html(s, vs),
            empty_note_html(s.state, "No recent threads."@),
        ),
        shows_part(
            admin_main_html(s, vs),
            add_ban_form_html(&vs.add_ban),
        ),
        vs.banned_authors@.len() > 0 ==> shows_part(
            admin_main_html(s, vs),
            banned_author_rows_html(vs.banned_authors@, s.now),
        ),
{
    broadcast use {group_shows, group_ends};
}

/// An error page shows what happened, and the reference to report it by.
pub proof fn law_error_page_shows(
    v: &ErrorView,
)
    ensures
        shows_part(
            error_main_html(v),
            escape_text(v.heading.0@),
        ),
        shows_part(
            error_main_html(v),
            escape_text(v.message.0@),
        ),
        v.correlation_id is Some && !blank_text((v.correlation_id->0).0@) ==> shows_part(
            error_main_html(v),
            escape_text((v.correlation_id->0).0@),
        ),
{
    broadcast use {group_shows, group_ends};
}

/// A review shows what would be done and what follows, where it is confirmed and where it is left.
pub proof fn law_review_page_shows(
    v: &DestructiveReviewVM,
)
    ensures
        shows_part(
            destructive_review_html(v),
            escape_text(v.heading.0@),
        ),
        shows_part(
            destructive_review_html(v),
            escape_text(v.consequence.summary.0@),
        ),
        v.consequence.detail is Some ==> shows_part(
            destructive_review_html(v),
            escape_text((v.consequence.detail->0).0@),
        ),
        shows_part(
            destructive_review_html(v),
            escape_text(v.commit.action.0@),
        ),
        shows_part(
            destructive_review_html(v),
            hidden_inputs_html(v.commit.csrf.0@, v.commit.fields@),
        ),
        shows_part(
            destructive_review_html(v),
            escape_text(v.cancel_href.0@),
        ),
{
    broadcast use {group_shows, group_ends};
}

/// The bar shows the viewer, their counts, and where in the application they are.
pub proof fn law_bar_shows(
    active: NavTab,
    counts: PersonalCounts,
    email: &Text,
)
    ensures
        shows_part(
            bar_html(active, counts, Some(email)),
            escape_text(email.0@),
        ),
        counts.due_bookmarks is Some && counts.due_bookmarks->0 > 0 ==> shows_part(
            bar_html(active, counts, Some(email)),
            private_badge_html(counts.due_bookmarks),
        ),
        counts.unread_activity is Some && counts.unread_activity->0 > 0 ==> shows_part(
            bar_html(active, counts, Some(email)),
            private_badge_html(counts.unread_activity),
        ),
        active == NavTab::Home ==> shows_part(
            bar_html(active, counts, Some(email)),
            r#"<nav class="appbar__nav" aria-label="Agora"><a class="appnav"#@ + " is-active"@
                + r#"" href="/""#@,
        ),
        active != NavTab::Home ==> shows_part(
            bar_html(active, counts, Some(email)),
            r#"<nav class="appbar__nav" aria-label="Agora"><a class="appnav"#@ + ""@
                + r#"" href="/""#@,
        ),
        active == NavTab::New ==> shows_part(
            bar_html(active, counts, Some(email)),
            " is-active"@ + r#"" href="/new""#@,
        ),
        active != NavTab::New ==> shows_part(
            bar_html(active, counts, Some(email)),
            ""@ + r#"" href="/new""#@,
        ),
        active == NavTab::Bookmarks ==> shows_part(
            bar_html(active, counts, Some(email)),
            r#"<a class="iconbtn ag-bookmark-button"#@ + " is-active"@,
        ),
        active == NavTab::Activity ==> shows_part(
            bar_html(active, counts, Some(email)),
            r#"<a class="iconbtn ag-activity-button"#@ + " is-active"@,
        ),
{
    broadcast use {group_shows, group_ends};
}

/// The views of the catch-up desk stand beside each other, and the active one is marked.
pub proof fn law_catch_up_tabs_show(
    active: CatchUpTab,
)
    ensures
        shows_part(
            catch_up_tabs_html(active),
            ledger_tab_html("view"@, "updates"@, "Updates"@, active is Updates),
        ),
        shows_part(
            catch_up_tabs_html(active),
            ledger_tab_html("view"@, "following"@, "Following"@, active is Following),
        ),
        shows_part(
            catch_up_tabs_html(active),
            ledger_tab_html("view"@, "questions"@, "Questions"@, active is Questions),
        ),
{
    broadcast use {group_shows, group_ends};
}

/// The states of bookmarks stand beside each other, and the active one is marked.
pub proof fn law_bookmark_tabs_show(
    active: BookmarkStateVM,
)
    ensures
        shows_part(
            bookmark_tabs_html(active),
            ledger_tab_html("state"@, "all"@, "All"@, active is All),
        ),
        shows_part(
            bookmark_tabs_html(active),
            ledger_tab_html("state"@, "due"@, "Due"@, active is Due),
        ),
        shows_part(
            bookmark_tabs_html(active),
            ledger_tab_html("state"@, "scheduled"@, "Scheduled"@, active is Scheduled),
        ),
{
    broadcast use {group_shows, group_ends};
}

/// The answer states of a search stand to choose from, the current one chosen; all questions count
/// as any state.
pub proof fn law_status_options_show(
    scope: ThreadScope,
)
    ensures
        scope is Any || scope is Questions ==> shows_part(
            status_options_html(scope),
            r#"<option value="""#@ + " selected"@,
        ),
        !(scope is Any || scope is Questions) ==> shows_part(
            status_options_html(scope),
            r#"<option value="""#@ + ""@,
        ),
        scope is Unanswered ==> shows_part(
            status_options_html(scope),
            r#">Any status</option><option value="unanswered""#@ + " selected"@,
        ),
        !(scope is Unanswered) ==> shows_part(
            status_options_html(scope),
            r#">Any status</option><option value="unanswered""#@ + ""@,
        ),
        scope is Answered ==> shows_part(
            status_options_html(scope),
            r#">Unanswered</option><option value="answered""#@ + " selected"@,
        ),
        !(scope is Answered) ==> shows_part(
            status_options_html(scope),
            r#">Unanswered</option><option value="answered""#@ + ""@,
        ),
{
    broadcast use {group_shows, group_ends};
}

/// The formats of a category stand to choose from, the current one chosen.
pub proof fn law_format_options_show(
    selected: ThreadKind,
)
    ensures
        selected is Discussion ==> shows_part(
            format_options_html(selected),
            r#"<option value="discussion""#@ + " selected"@,
        ),
        selected is Question ==> shows_part(
            format_options_html(selected),
            r#"<option value="discussion""#@ + ""@,
        ),
        selected is Question ==> shows_part(
            format_options_html(selected),
            r#">Discussion</option><option value="question""#@ + " selected"@,
        ),
        selected is Discussion ==> shows_part(
            format_options_html(selected),
            r#">Discussion</option><option value="question""#@ + ""@,
        ),
{
    broadcast use {group_shows, group_ends};
}

/// A reminder to choose stands under its name and says when it is chosen.
pub proof fn law_reminder_option_shows(
    value: Seq<char>,
    label: Seq<char>,
    selected: bool,
)
    ensures
        selected ==> shows_part(
            reminder_option_html(value, label, selected),
            r#"<option value=""#@ + value + r#"""#@ + " selected"@ + ">"@ + escape_text(label)
                + "</option>"@,
        ),
        !selected ==> shows_part(
            reminder_option_html(value, label, selected),
            r#"<option value=""#@ + value + r#"""#@ + ""@ + ">"@ + escape_text(label)
                + "</option>"@,
        ),
{
    broadcast use {group_shows, group_ends};
}

/// The reminders stand to choose from, the current choice chosen; keeping names the reminder that
/// is set.
pub proof fn law_reminder_options_show(
    current: Option<i64>,
    selected: BookmarkReminderChoiceVM,
)
    ensures
        current is Some ==> shows_part(
            reminder_options_html(current, selected),
            reminder_option_html("keep"@, "Keep current — "@ + fmt_ts_text(current->0), selected is Keep),
        ),
        current is None ==> shows_part(
            reminder_options_html(current, selected),
            reminder_option_html("keep"@, "Keep current — "@ + "No reminder set"@, selected is Keep),
        ),
        shows_part(
            reminder_options_html(current, selected),
            reminder_option_html("none"@, "No reminder"@, selected is NoReminder),
        ),
        shows_part(
            reminder_options_html(current, selected),
            reminder_option_html("tomorrow"@, "24 hours from now"@, selected is Tomorrow),
        ),
        shows_part(
            reminder_options_html(current, selected),
            reminder_option_html("week"@, "7 days from now"@, selected is Week),
        ),
        shows_part(
            reminder_options_html(current, selected),
            reminder_option_html("custom"@, "Custom UTC time"@, selected is Custom),
        ),
{
    broadcast use {group_shows, group_ends};
}

/// A count of at least one shows as it is up to ninety-nine, and as more than that beyond.
pub proof fn law_badge_shows(
    n: i64,
)
    ensures
        0 < n <= 99 ==> shows_part(
            private_badge_html(Some(n)),
            decimal_text(n as int),
        ),
        n > 99 ==> shows_part(
            private_badge_html(Some(n)),
            "99+"@,
        ),
{
    broadcast use {group_shows, group_ends};
}

/// The bookmark button leads to what is due where anything is, and to all bookmarks otherwise; both
/// buttons carry their counts.
pub proof fn law_buttons_lead(
    active: bool,
    count: Option<i64>,
)
    ensures
        count is Some && count->0 > 0 ==> shows_part(
            bookmark_button_html(active, count),
            r#"" href=""#@ + "/bookmarks?state=due"@ + r#"" title="Bookmarks" aria-label=""#@,
        ),
        count is None || count->0 <= 0 ==> shows_part(
            bookmark_button_html(active, count),
            r#"" href=""#@ + "/bookmarks"@ + r#"" title="Bookmarks" aria-label=""#@,
        ),
        shows_part(
            bookmark_button_html(active, count),
            private_badge_html(count),
        ),
        shows_part(
            activity_button_html(active, count),
            private_badge_html(count),
        ),
{
    broadcast use {group_shows, group_ends};
}

/// A note shows its title and its text.
pub proof fn law_note_shows(
    title: Seq<char>,
    body: Seq<char>,
)
    ensures
        shows_part(
            note_html(title, body),
            escape_text(title) + r#"</p><p class="muted">"#@ + escape_text(body) + "</p></div>"@,
        ),
{
    broadcast use {group_shows, group_ends};
}

/// A thread page shows its trail, its head, the moderation bar and the summary where there are any,
/// the original post, the answer, the replies, the reading controls and the reply form.
pub proof fn law_thread_page_shows(
    v: &ThreadView,
)
    ensures
        shows_part(
            thread_main_html(v),
            thread_trail_html(&v.shared),
        ),
        shows_part(
            thread_main_html(v),
            thread_head_html(&v.shared, &v.viewer, v.now),
        ),
        v.admin is Some ==> shows_part(
            thread_main_html(v),
            admin_thread_toolbar_html(&v.admin->0),
        ),
        shows_part(
            thread_main_html(v),
            summary_block_html(&v.summary),
        ),
        shows_part(
            thread_main_html(v),
            post_html(&v.op, v.now),
        ),
        v.dais is Some ==> shows_part(
            thread_main_html(v),
            answer_dais_html(&v.dais->0, v.now),
        ),
        shows_part(
            thread_main_html(v),
            reply_steps_html(v),
        ),
        shows_part(
            thread_main_html(v),
            reading_controls_html(v),
        ),
        shows_part(
            thread_main_html(v),
            reply_form_block_html(&v.reply_form, v.shared.kind is Question),
        ),
        shows_part(
            thread_main_html(v),
            reading_spine_html(v),
        ),
{
    broadcast use {group_shows, group_ends};
}

/// The replies say when there are earlier or later ones on other pages, and that there are none
/// when there are none.
pub proof fn law_steps_show(
    v: &ThreadView,
)
    ensures
        !v.pagination.at_start ==> shows_part(
            reply_steps_html(v),
            r#"<div class="ag-steps__bound ag-steps__bound--start" role="separator"><span>Earlier replies on previous page</span></div>"#@,
        ),
        !v.pagination.at_end ==> shows_part(
            reply_steps_html(v),
            r#"<div class="ag-steps__bound ag-steps__bound--end" role="separator"><span>More replies on next page</span></div>"#@,
        ),
        v.replies@.len() == 0 ==> shows_part(
            reply_steps_html(v),
            escape_text("No replies yet."@),
        ),
{
    broadcast use {group_shows, group_ends};
}

/// The accepted answer stands under what accepting means.
pub proof fn law_answer_dais_shows(
    d: &AnswerDaisVM,
    now: i64,
)
    ensures
        shows_part(
            answer_dais_html(d, now),
            post_html(&d.post, now),
        ),
        shows_part(
            answer_dais_html(d, now),
            escape_text("Accepted by the asker or an authorized moderator. This marks acceptance, not objective correctness."@),
        ),
{
    broadcast use {group_shows, group_ends};
}

/// The form for a ban shows the subject and the reason so far.
pub proof fn law_ban_form_shows(
    f: &AddBanFormVM,
)
    ensures
        shows_part(
            add_ban_form_html(f),
            escape_text(f.submit.action.0@),
        ),
        shows_part(
            add_ban_form_html(f),
            hidden_inputs_html(f.submit.csrf.0@, f.submit.fields@),
        ),
        shows_part(
            add_ban_form_html(f),
            escape_text(f.subject_input.0@),
        ),
        shows_part(
            add_ban_form_html(f),
            escape_text(f.reason.0@),
        ),
{
    broadcast use {group_shows, group_ends};
}

/// The form for a category shows what was entered so far.
pub proof fn law_category_form_shows(
    f: &CreateCategoryFormVM,
)
    ensures
        shows_part(
            create_category_form_html(f),
            escape_text(f.submit.action.0@),
        ),
        shows_part(
            create_category_form_html(f),
            hidden_inputs_html(f.submit.csrf.0@, f.submit.fields@),
        ),
        shows_part(
            create_category_form_html(f),
            escape_text(f.id.0@),
        ),
        shows_part(
            create_category_form_html(f),
            escape_text(f.name.0@),
        ),
        shows_part(
            create_category_form_html(f),
            format_options_html(f.selected_kind),
        ),
{
    broadcast use {group_shows, group_ends};
}

/// Each review of a post leads where its link says.
pub proof fn law_review_link_shows(
    a: LinkActionVM,
)
    ensures
        shows_part(
            review_links_html(seq![a]),
            link_action_html(&a),
        ),
{
    broadcast use {group_shows, group_ends};

    assert(seq![a].drop_last() =~= Seq::<LinkActionVM>::empty());
    assert(seq![a].last() == a);
}

/// The trail of a thread leads home and, where it has a category, to that.
pub proof fn law_thread_trail_shows(
    s: &ThreadShared,
)
    ensures
        s.category is Some ==> shows_part(
            thread_trail_html(s),
            crumb_items_html(seq![linked("Home"@, "/"@), linked((s.category->0).name.0@, "/c/"@ + (s.category->0).id.0@), here(s.title.0@)]),
        ),
        s.category is None ==> shows_part(
            thread_trail_html(s),
            crumb_items_html(seq![linked("Home"@, "/"@), here(s.title.0@)]),
        ),
{
    broadcast use {group_shows, group_ends};
}

} // verus!
