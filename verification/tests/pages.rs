//! The pages: what they show, what they leave out, and that everything shown is escaped.

use agora::view_model::{
    AcceptanceMeaning, ActionKind, ActivityFilterVM, ActivityItemShared, ActivityItemVM,
    ActivityItemViewerState, ActivityKindVM, ActivityOpenFormVM, ActivityReadScopeVM,
    ActivityReasonVM, ActivityShared, ActivityView, ActivityViewerState, AddBanFormVM, AdminShared,
    AdminView, AdminViewerState, AnswerDaisVM, AnswerState, BannedAuthorVM, BookmarkEditShared,
    BookmarkEditView, BookmarkEditViewerState, BookmarkItemShared, BookmarkItemVM,
    BookmarkItemViewerState, BookmarkReminderChoiceVM, BookmarkStateVM, BookmarksShared,
    BookmarksView, BookmarksViewerState, CacheClass, CatchUpFeedShared, CatchUpFeedVM,
    CatchUpFeedViewerState, CatchUpItemVM, CatchUpItemViewerState, CatchUpQuestionStateVM,
    CatchUpReasonVM, CatchUpTab, CategoryFocusFormVM, CategoryFocusLevelVM, CategoryFocusReasonVM,
    CategoryPageShared, CategoryPageViewerState, CategoryRefVM, CategoryVM, CategoryView,
    CollectionState, ComposeMode, ComposeShared, ComposeView, ComposeViewerState, ConsequenceVM,
    CreateCategoryFormVM, DestructiveReviewVM, ErrorView, FocusItemVM, FocusRuleVM, FocusShared,
    FocusView, FocusViewerState, FormActionVM, HiddenField, HomeShared, HomeView, LinkActionVM,
    NavTab, Opaque, PageChrome, PageLinkVM, PaginationVM, PersonalCounts, PostActionsVM,
    PostBookmarkActionVM, PostVM, PostViewerState, QuoteVM, ReactionVM, ReadingProgressVM,
    ReplyFormVM, SafeHtml, SavedBookmarkStateVM, SearchMatchSource, SearchQueryState,
    SearchResultVM, SearchShared, SearchView, SearchViewerState, SummaryStateVM,
    SummaryUnavailableReason, Text, ThreadFollowLevelVM, ThreadKind, ThreadListControlsVM,
    ThreadOrder, ThreadOrderLinkVM, ThreadRowShared, ThreadRowVM, ThreadRowViewerState,
    ThreadScope, ThreadShared, ThreadView, ThreadViewerState,
};
use agora::views::admin::admin;
use agora::views::forum::{category, compose, home, thread};
use agora::views::personal::{activity, bookmark_edit, bookmarks, catch_up, focus};
use agora::views::search::search;
use agora::views::shell::{destructive_review, error, page, ShellAssets};

fn text(s: &str) -> Text {
    Text(s.to_string())
}

fn opaque(s: &str) -> Opaque {
    Opaque(s.to_string())
}

/// A shell that is nothing but the content.
fn bare() -> ShellAssets {
    ShellAssets {
        shell: "{{CONTENT}}".to_string(),
        style: String::new(),
        dynamic: String::new(),
    }
}

fn chrome(nav: NavTab) -> PageChrome {
    PageChrome {
        title: text("A < B"),
        viewer_email: Some(text("eve@steadholme.local")),
        active_nav: nav,
        counts: PersonalCounts { unread_activity: Some(120), due_bookmarks: Some(1) },
        cache: CacheClass::PrivateNoStore,
    }
}

fn form(action: &str, kind: ActionKind) -> FormActionVM {
    FormActionVM {
        action: opaque(action),
        label_kind: kind,
        csrf: opaque("tok\"en"),
        fields: vec![HiddenField { name: text("n"), value: opaque("v&") }],
    }
}

const HIDDEN: &str = "<input type=\"hidden\" name=\"csrf\" value=\"tok&quot;en\"><input \
                      type=\"hidden\" name=\"n\" value=\"v&amp;\">";

fn link(href: &str, kind: ActionKind) -> LinkActionVM {
    LinkActionVM { href: opaque(href), label_kind: kind }
}

fn page_link(href: &str, label: &str) -> PageLinkVM {
    PageLinkVM { href: opaque(href), label: text(label) }
}

fn whole() -> PaginationVM {
    PaginationVM {
        previous: None,
        next: None,
        jump: None,
        at_start: true,
        at_end: true,
        visible_limit: 20,
    }
}

fn category_vm(id: &str, name: &str, kind: ThreadKind) -> CategoryVM {
    CategoryVM {
        category: CategoryRefVM { id: opaque(id), name: text(name) },
        kind,
        sort_order: 1,
    }
}

fn row(id: &str) -> ThreadRowShared {
    ThreadRowShared {
        id: opaque(id),
        title: text("<Hello>"),
        category: Some(CategoryRefVM { id: opaque("a&b"), name: text("A & B") }),
        kind: ThreadKind::Question,
        answer_state: AnswerState::NeedsAnswer,
        author_display: text("bob"),
        created_at: 0,
        last_at: 3_600,
        post_count: Some(3),
        pinned: true,
        locked: false,
    }
}

fn nobody() -> ThreadRowViewerState {
    ThreadRowViewerState {
        follow_level: None,
        bookmarked: None,
        unread_count: None,
        resume_href: None,
    }
}

fn controls() -> ThreadListControlsVM {
    ThreadListControlsVM {
        active_order: ThreadOrder::Top,
        active_scope: ThreadScope::Unanswered,
        subscribed_only: true,
        order_links: vec![
            ThreadOrderLinkVM { order: ThreadOrder::Latest, href: opaque("?sort=latest") },
            ThreadOrderLinkVM { order: ThreadOrder::Top, href: opaque("?sort=top") },
        ],
        scope_links: vec![],
        subscribed_toggle: Some(page_link("?all=1", "Everything")),
        questions: None,
    }
}

fn post(id: &str, is_op: bool) -> PostVM {
    PostVM {
        id: opaque(id),
        author_display: text("bob"),
        created_at: 0,
        body: SafeHtml("<p>kept <b>as is</b></p>".to_string()),
        is_op,
        quote: None,
        reactions: vec![],
        viewer: PostViewerState { bookmarked: None, unread: None, resume_anchor: None },
        actions: PostActionsVM {
            edit: None,
            delete_reviews: vec![],
            quote: None,
            bookmark: None,
            accept: None,
            remove_solution: None,
        },
    }
}

const HOUR_AGO: &str = "<time class=\"ag-time\" datetime=\"1970-01-01T01:00:00Z\" \
                        title=\"1970-01-01 01:00 UTC\">1h ago</time>";

const AVATAR: &str = "<span class=\"avatar ag-avatar\" aria-hidden=\"true\">B</span>";

const QUESTION: &str =
    "<span class=\"badge ag-chip-shared ag-kind ag-kind--question\">Question</span>";

const OPEN: &str = "<span class=\"badge ag-chip-shared ag-answer-state \
                    ag-answer-state--open\">Needs answer</span>";

#[test]
fn the_shell_is_filled_in_once() {
    let assets = ShellAssets {
        shell: "<title>{{TITLE}}</title><style>{{STYLE}}</style>{{APPBAR}}<main>{{CONTENT}}</main>\
                <script>{{DYNAMIC}}</script>"
            .to_string(),
        style: "body{}".to_string(),
        dynamic: "go()".to_string(),
    };
    let html = page(&assets, &chrome(NavTab::Home), "<p>main</p>");
    assert!(html.starts_with("<title>A &lt; B</title><style>body{}</style><header class=\"appbar"));
    assert!(html.ends_with("<main><p>main</p></main><script>go()</script>"));
    assert!(html.contains("<a class=\"appnav is-active\" href=\"/\" aria-current=\"location\">"));
    assert!(html.contains("<a class=\"appnav\" href=\"/new\">"));
    assert!(html.contains("aria-label=\"Activity, 120 unread\""));
    assert!(html.contains(
        "<span class=\"ag-count-badge ag-key-private\" aria-hidden=\"true\">99+</span>"
    ));
    assert!(html.contains("href=\"/bookmarks?state=due\""));
    assert!(html.contains("aria-label=\"Bookmarks, 1 due\""));
    assert!(html.contains("<span class=\"usermenu__name\">eve@steadholme.local</span>"));
    assert!(html.contains("<span class=\"avatar\" aria-hidden=\"true\">E</span>"));
}

#[test]
fn an_error_page_names_nobody() {
    let assets = ShellAssets {
        shell: "{{APPBAR}}{{CONTENT}}".to_string(),
        style: String::new(),
        dynamic: String::new(),
    };
    let mut v = ErrorView {
        heading: text("Not <here>"),
        message: text("Gone"),
        correlation_id: Some(opaque("id&1")),
    };
    let html = error(&assets, &v);
    assert!(html.contains("<b>Account</b><span>Not signed in</span>"));
    assert!(html.contains("aria-label=\"Bookmarks\""));
    assert!(!html.contains("ag-count-badge"));
    assert!(html.contains("<h1 class=\"empty-title\" id=\"ag-error-title\">Not &lt;here&gt;</h1>"));
    assert!(html.contains("<code>id&amp;1</code>"));
    v.correlation_id = Some(opaque("  "));
    assert!(!error(&assets, &v).contains("<code>"));
}

#[test]
fn a_destructive_review_states_its_consequence() {
    let html = destructive_review(&DestructiveReviewVM {
        heading: text("Delete?"),
        consequence: ConsequenceVM { summary: text("All & every"), detail: None },
        commit: form("/t/1/delete", ActionKind::DeleteConfirm),
        cancel_href: opaque("/t/1"),
    });
    assert_eq!(
        html,
        format!(
            "<nav class=\"crumbs\" aria-label=\"Breadcrumb\"><a href=\"/\">Home</a><span \
             class=\"crumbs__sep\">/</span><span>Review action</span></nav><section class=\"card \
             ag-destructive-review ag-review\" aria-labelledby=\"destructive-review-title\">\n  <p \
             class=\"eyebrow ag-eyebrow\">Consequence review</p>\n  <h1 \
             id=\"destructive-review-title\">Delete?</h1>\n  <p>All &amp; every</p>\n  \
             <p><strong>This action cannot be undone.</strong></p>\n  <form class=\"ag-form\" \
             method=\"post\" action=\"/t/1/delete\">\n    {HIDDEN}\n    <div \
             class=\"form-actions\">\n      <button class=\"btn btn-danger\" \
             type=\"submit\">Confirm deletion</button>\n      <a class=\"btn btn-secondary\" \
             href=\"/t/1\">Cancel</a>\n    </div>\n  </form>\n</section>"
        )
    );
}

#[test]
fn the_home_page_lists_rows_and_categories() {
    let view = HomeView {
        chrome: chrome(NavTab::Home),
        shared: HomeShared {
            categories: vec![category_vm("a&b", "A & B", ThreadKind::Discussion)],
            controls: controls(),
            state: CollectionState::Ready,
            visible_bound: 20,
            now: 7_200,
        },
        rows: vec![ThreadRowVM {
            shared: row("t1"),
            viewer: ThreadRowViewerState {
                follow_level: Some(ThreadFollowLevelVM::Watch),
                bookmarked: Some(true),
                unread_count: Some(2),
                resume_href: Some(opaque("/t/t1#x")),
            },
        }],
    };
    let html = home(&bare(), &view);
    assert!(html.contains(
        "<h1 class=\"ag-head__title\" id=\"ag-home-title\">Questions that need an answer you \
         subscribe to</h1>"
    ));
    assert!(html.contains("1 discussion in this view"));
    assert!(html.contains(
        "<a class=\"tab is-active\" aria-current=\"page\" data-sort-tab=\"top\" \
         href=\"?sort=top\">Top</a>"
    ));
    assert!(html.contains(
        "<a class=\"tab\" data-sort-tab=\"latest\" href=\"?sort=latest\">Latest</a>"
    ));
    assert!(!html.contains("answer-tabs"));
    assert!(html.contains(
        "<a class=\"btn btn-secondary btn-sm ag-key-private is-active\" href=\"?all=1\" \
         aria-current=\"page\">Everything</a>"
    ));
    assert!(html.contains("href=\"/c/a&amp;b\"><span class=\"ag-terrace__name\">A &amp; B</span>"));
    let row = format!(
        "<li class=\"ag-row ag-key-shared\">\n  <div class=\"ag-row__body\">\n    <div \
         class=\"ag-row__chips\">{QUESTION}{OPEN}<span class=\"badge ag-chip-shared ag-flag \
         ag-flag--pinned\">Pinned</span></div>\n    <a class=\"ag-row__title\" \
         href=\"/t/t1\">&lt;Hello&gt;</a>\n    <p class=\"ag-row__by\">{AVATAR} <span \
         class=\"ag-row__author\">bob</span> <span class=\"ag-row__cat\">in <a \
         href=\"/c/a&amp;b\">A &amp; B</a></span> · started <time class=\"ag-time\" \
         datetime=\"1970-01-01T00:00:00Z\" title=\"1970-01-01 00:00 UTC\">2h ago</time> · 2 \
         replies · latest {HOUR_AGO}</p>\n    <p class=\"ag-row__mine ag-key-private\"><span \
         class=\"ag-mark ag-key-private ag-mark--watch\">Watching</span><span class=\"ag-mark \
         ag-key-private ag-mark--bookmark\">Bookmarked</span><span class=\"ag-mark \
         ag-key-private ag-mark--unread\">2 unread</span><a class=\"ag-mark ag-key-private \
         ag-mark--resume\" href=\"/t/t1#x\">Resume</a></p>\n  </div>\n</li>"
    );
    assert!(html.contains(&row), "{html}");
}

#[test]
fn an_empty_category_page_says_so() {
    let view = CategoryView {
        chrome: chrome(NavTab::Home),
        shared: CategoryPageShared {
            category: category_vm("c", "Help", ThreadKind::Question),
            controls: controls(),
            state: CollectionState::ReadyEmpty,
            visible_bound: 20,
            now: 0,
        },
        rows: vec![],
        viewer: CategoryPageViewerState {
            focus: Some(CategoryFocusFormVM {
                selected: CategoryFocusLevelVM::Priority,
                saved: true,
                submit: form("/c/c/focus", ActionKind::SaveFocusRule),
            }),
        },
    };
    let html = category(&bare(), &view);
    assert!(html.contains("<p class=\"muted\">No threads in this category yet.</p>"));
    assert!(html.contains("0 discussions in this view"));
    assert!(html.contains("<p class=\"ag-form__status\" role=\"status\">Saved: Priority.</p>"));
    assert!(html.contains("<option value=\"priority\" selected>Priority</option>"));
    assert!(html.contains("<option value=\"none\">No focus</option>"));
}

fn thread_view() -> ThreadView {
    let mut op = post("p0", true);
    op.reactions = vec![ReactionVM {
        kind: text("heart"),
        count: 2,
        mine: Some(true),
        toggle: Some(form("/react", ActionKind::ToggleReaction)),
    }];
    let mut reply = post("p1", false);
    reply.quote = Some(QuoteVM {
        post_id: opaque("p0"),
        author_display: text("bob"),
        created_at: 0,
        body: SafeHtml("<i>q</i>".to_string()),
    });
    reply.viewer.unread = Some(true);
    reply.viewer.resume_anchor = Some(opaque("first-unread"));
    reply.actions.bookmark = Some(PostBookmarkActionVM::Saved {
        edit: link("/b/p1", ActionKind::BookmarkEdit),
        state: SavedBookmarkStateVM::Due,
    });
    ThreadView {
        chrome: chrome(NavTab::Home),
        shared: ThreadShared {
            id: opaque("t1"),
            title: text("Why & how"),
            category: None,
            kind: ThreadKind::Question,
            answer_state: AnswerState::Answered,
            author_display: text("bob"),
            created_at: 0,
            post_count: Some(3),
            pinned: false,
            locked: true,
        },
        viewer: ThreadViewerState {
            subscription: None,
            edit: None,
            delete_review: Some(link("/t/t1/delete", ActionKind::DeleteThreadReview)),
            clear_invalid_solution: None,
        },
        op,
        dais: Some(AnswerDaisVM {
            post: post("p2", false),
            acceptance: AcceptanceMeaning::AcceptedByAskerOrAuthorizedModerator,
        }),
        replies: vec![reply, post("p2", false)],
        pagination: whole(),
        reply_form: ReplyFormVM::LockedNotice { message: text("This thread is locked.") },
        summary: SummaryStateVM::Unavailable(SummaryUnavailableReason::TooFewPosts),
        reading: ReadingProgressVM {
            started: false,
            unread_count: None,
            first_unread_href: None,
            resume_href: None,
            mark_page_read: None,
        },
        admin: None,
        now: 3_600,
    }
}

#[test]
fn a_thread_page_shows_its_answer_once() {
    let html = thread(&bare(), &thread_view());
    assert!(html.contains("Why &amp; how"));
    assert_eq!(html.matches("id=\"post-p2\"").count(), 1, "the answer stands on the dais only");
    assert!(html.contains("<h2 class=\"eyebrow ag-eyebrow\" id=\"ag-dais-title\">Answer Dais</h2>"));
    assert!(html.contains("This marks acceptance, not objective correctness."));
    assert!(html.contains("<p>kept <b>as is</b></p>"));
    assert!(html.contains("<blockquote class=\"ag-quote ag-key-shared\">"));
    assert!(html.contains("id=\"first-unread\" role=\"separator\""));
    assert!(html.contains(&format!(
        "<form class=\"inline-form\" method=\"post\" action=\"/react\">{HIDDEN}<button \
         class=\"ag-react is-mine\" type=\"submit\" aria-pressed=\"true\">heart <span \
         class=\"ag-react__count\">2</span> <span class=\"ag-react__mine\">· \
         yours</span></button></form>"
    )));
    assert!(html.contains(
        "<a class=\"btn btn-ghost btn-sm ag-post-bookmark is-saved\" href=\"/b/p1\" \
         aria-label=\"Edit saved bookmark, due\">Saved · Due</a>"
    ));
    assert!(html.contains(
        "<a class=\"btn btn-danger btn-sm\" href=\"/t/t1/delete\">Delete thread</a>"
    ));
    assert!(html.contains("This thread is locked."));
    assert!(!html.contains("data-thread-read-sentinel"));

    let mut view = thread_view();
    view.dais = None;
    view.replies = vec![];
    view.pagination.at_start = false;
    view.pagination.at_end = false;
    view.reading.mark_page_read = Some(form("/read", ActionKind::MarkThreadPageRead));
    let html = thread(&bare(), &view);
    assert!(html.contains("No replies yet."));
    assert!(html.contains("Earlier replies on previous page"));
    assert!(html.contains("More replies on next page"));
    assert!(html.contains("data-thread-read-sentinel"));
    assert!(!html.contains("Answer Dais"));
}

#[test]
fn a_compose_page_keeps_what_was_typed() {
    let view = ComposeView {
        chrome: chrome(NavTab::New),
        shared: ComposeShared {
            mode: ComposeMode::NewThread,
            heading: text("New thread"),
            categories: vec![category_vm("c", "Help", ThreadKind::Question)],
            selected_category: Some(opaque("c")),
            thread_kind: Some(ThreadKind::Question),
        },
        viewer: ComposeViewerState {
            title: text("\"T\""),
            body: text("</textarea>"),
            quoted_post_id: None,
            submit: form("/new", ActionKind::PublishThread),
            cancel_href: opaque("/"),
        },
    };
    let html = compose(&bare(), &view);
    assert!(html.contains("value=\"&quot;T&quot;\""));
    assert!(html.contains("&lt;/textarea&gt;</textarea>"));
    assert!(html.contains("Publish thread"));
    assert!(html.contains(HIDDEN));
}

#[test]
fn the_catch_up_page_explains_each_row() {
    let mut view = CatchUpFeedVM {
        chrome: chrome(NavTab::Home),
        shared: CatchUpFeedShared {
            active: CatchUpTab::Following,
            snapshot_as_of: 0,
            visible_bound: 30,
            state: CollectionState::ReadyEmpty,
            now: 7_200,
        },
        viewer: CatchUpFeedViewerState {
            items: vec![CatchUpItemVM {
                shared: row("t1"),
                viewer: CatchUpItemViewerState {
                    reason: CatchUpReasonVM::Bookmarked,
                    follow_level: ThreadFollowLevelVM::Unset,
                    unread_count: 1,
                    first_unread_href: Some(opaque("/t/t1#u")),
                    question_state: Some(CatchUpQuestionStateVM::Waiting),
                },
            }],
            pagination: whole(),
        },
    };
    let html = catch_up(&bare(), &view);
    assert!(html.contains(
        "As of 1970-01-01 00:00 UTC · page bound 30 · a private snapshot, not a global feed"
    ));
    assert!(html.contains(
        "<a class=\"tab is-active\" aria-current=\"page\" href=\"?view=following\">Following</a>"
    ));
    assert!(html.contains(&format!(
        "<li class=\"ag-ledger-item ag-key-shared\">\n  <div \
         class=\"ag-row__chips\">{QUESTION}{OPEN}</div>\n  <a class=\"ag-row__title\" \
         href=\"/t/t1\">&lt;Hello&gt;</a>\n  <p class=\"ag-row__by\">{AVATAR} <span \
         class=\"ag-row__author\">bob</span> · latest {HOUR_AGO}</p>\n  <p \
         class=\"ag-ledger-item__mine ag-key-private\"><span class=\"ag-mark ag-key-private \
         ag-mark--reason\">You bookmarked this thread</span><span class=\"ag-mark ag-key-private \
         ag-mark--unread\">1 unread</span><span class=\"ag-mark ag-key-private \
         ag-mark--question\">Waiting for an answer</span><a class=\"ag-mark ag-key-private \
         ag-mark--resume\" href=\"/t/t1#u\">Jump to first unread</a></p>\n</li>"
    )));
    assert!(html.contains("<span class=\"ag-page__edge\">End of results</span>"));
    view.viewer.items.clear();
    let html = catch_up(&bare(), &view);
    assert!(html.contains("You&#x27;re all caught up. Nothing new in this view."));
    assert!(!html.contains("ag-page__bound"));
}

#[test]
fn the_focus_page_lists_rules_and_threads() {
    let view = FocusView {
        chrome: chrome(NavTab::Home),
        shared: FocusShared {
            visible_thread_bound: 30,
            rule_bound: 64,
            state: CollectionState::Ready,
            now: 7_200,
        },
        viewer: FocusViewerState {
            rules: vec![FocusRuleVM {
                category: category_vm("c", "Help", ThreadKind::Question),
                level: CategoryFocusLevelVM::Mute,
                submit: form("/focus/c", ActionKind::ApplyFocus),
            }],
            items: vec![FocusItemVM {
                shared: row("t1"),
                category_level: CategoryFocusLevelVM::Priority,
                thread_level: ThreadFollowLevelVM::Follow,
                reason: CategoryFocusReasonVM::CategoryPriority,
                viewer: ThreadRowViewerState {
                    unread_count: Some(4),
                    resume_href: Some(opaque("/t/t1?x&y")),
                    ..nobody()
                },
            }],
        },
    };
    let html = focus(&bare(), &view);
    assert!(html.contains("Up to 64 rules · up to 30 threads shown · private to you"));
    assert!(html.contains("<option value=\"mute\" selected>Mute</option>"));
    assert!(html.contains("Shown by category priority"));
    assert!(html.contains("Continue · 4 new"));
    assert!(html.contains("<a class=\"ag-row__title\" href=\"/t/t1?x&amp;y\">"));
}

#[test]
fn the_activity_page_opens_by_a_form() {
    let view = ActivityView {
        chrome: chrome(NavTab::Activity),
        shared: ActivityShared {
            active_filter: ActivityFilterVM::All,
            read_scope: ActivityReadScopeVM::All,
            filter_links: vec![],
            read_scope_links: vec![],
            visible_bound: 30,
            state: CollectionState::Ready,
            now: 3_600,
        },
        viewer: ActivityViewerState {
            items: vec![ActivityItemVM {
                shared: ActivityItemShared {
                    id: opaque("a1"),
                    kind: ActivityKindVM::AnswerAccepted,
                    thread_id: opaque("t1"),
                    post_id: opaque("p1"),
                    thread_title: text("Why"),
                    post_excerpt: text("Because <x>"),
                    actor_display: text("bob"),
                    created_at: 0,
                },
                viewer: ActivityItemViewerState {
                    reason: ActivityReasonVM::Answer,
                    read: false,
                    open: ActivityOpenFormVM {
                        submit: form("/activity/open", ActionKind::OpenActivity),
                        exact_target: opaque("/t/t1#post-p1"),
                    },
                    toggle_read: form("/activity/read", ActionKind::MarkRead),
                },
            }],
            pagination: whole(),
            mark_page_read: Some(form("/activity/page", ActionKind::MarkPageRead)),
        },
    };
    let html = activity(&bare(), &view);
    assert!(html.contains(&format!(
        "<form class=\"ag-activity-open\" method=\"post\" action=\"/activity/open\">{HIDDEN}<input \
         type=\"hidden\" name=\"next\" value=\"/t/t1#post-p1\"><button class=\"ag-row__title\" \
         type=\"submit\">Why</button></form>"
    )));
    assert!(html.contains("Answer accepted"));
    assert!(html.contains("Answer activity"));
    assert!(html.contains("Because &lt;x&gt;"));
    assert!(html.contains(
        "<span class=\"ag-mark ag-key-private ag-mark--unread\">Unread</span><form \
         class=\"inline-form\" method=\"post\" action=\"/activity/read\">"
    ));
    assert!(html.contains("Mark this page read"));
}

#[test]
fn the_bookmark_pages_show_notes_and_reminders() {
    let item = BookmarkItemVM {
        shared: BookmarkItemShared {
            post_id: opaque("p1"),
            thread_id: opaque("t1"),
            thread_title: text("Why"),
            post_author_display: text("bob"),
            exact_post_href: opaque("/t/t1#post-p1"),
            post_excerpt: text("Because"),
            post_created_at: 0,
        },
        viewer: BookmarkItemViewerState {
            note: text("  "),
            remind_at: Some(1_700_000_000),
            created_at: 0,
            updated_at: 0,
            edit: link("/b/p1", ActionKind::BookmarkEdit),
            remove: form("/b/p1/remove", ActionKind::RemoveBookmark),
            done: Some(form("/b/p1/done", ActionKind::CompleteBookmark)),
            snooze_tomorrow: None,
            snooze_week: None,
        },
    };
    let view = BookmarksView {
        chrome: chrome(NavTab::Bookmarks),
        shared: BookmarksShared {
            active_state: BookmarkStateVM::Due,
            visible_bound: 30,
            state: CollectionState::Ready,
            now: 3_600,
        },
        viewer: BookmarksViewerState { items: vec![item], pagination: whole() },
    };
    let html = bookmarks(&bare(), &view);
    assert!(html.contains("Reminder 2023-11-14 22:13 UTC"));
    assert!(!html.contains("ag-bookmark-note"));
    assert!(html.contains(">Done</button>"));
    assert!(!html.contains("Snooze"));
    assert!(html.contains(
        "<a class=\"tab is-active\" aria-current=\"page\" href=\"?state=due\">Due</a>"
    ));

    let edit = BookmarkEditView {
        chrome: chrome(NavTab::Bookmarks),
        shared: BookmarkEditShared {
            thread_title: text("Why"),
            exact_post_href: opaque("/t/t1#post-p1"),
            current_reminder_at: None,
            note_max_chars: 200,
        },
        viewer: BookmarkEditViewerState {
            note: text("<n>"),
            selected_reminder: BookmarkReminderChoiceVM::Week,
            custom_time: text(""),
            save: form("/b/p1", ActionKind::SaveBookmarkChanges),
        },
    };
    let html = bookmark_edit(&bare(), &edit);
    assert!(html.contains("<option value=\"keep\">Keep current — No reminder set</option>"));
    assert!(html.contains("<option value=\"week\" selected>7 days from now</option>"));
    assert!(html.contains("maxlength=\"200\""));
    assert!(html.contains("&lt;n&gt;</textarea>"));
}

#[test]
fn the_search_page_answers_its_query() {
    let mut view = SearchView {
        chrome: chrome(NavTab::Search),
        shared: SearchShared {
            categories: vec![category_vm("c", "Help", ThreadKind::Question)],
            query_state: SearchQueryState::Valid,
            results: vec![SearchResultVM {
                thread: row("t1"),
                excerpt: text("an <em>"),
                source: SearchMatchSource::AcceptedAnswer,
            }],
            visible_bound: 50,
            state: CollectionState::Ready,
            now: 7_200,
        },
        viewer: SearchViewerState {
            query: text("\"q\""),
            selected_category: Some(opaque("c")),
            order: ThreadOrder::Latest,
            scope: ThreadScope::Answered,
        },
    };
    let html = search(&bare(), &view);
    assert!(html.contains("value=\"&quot;q&quot;\""));
    assert!(html.contains("<option value=\"c\" selected>Help</option>"));
    assert!(html.contains("<option value=\"answered\" selected>Answered</option>"));
    assert!(html.contains("Matched in the accepted answer"));
    assert!(html.contains("Showing 1 · up to 50 results (a bounded set, not a total count)"));
    assert!(html.contains("an &lt;em&gt;"));
    view.shared.results.clear();
    assert!(search(&bare(), &view).contains("No threads matched this search."));
    view.shared.query_state = SearchQueryState::TooShort;
    assert!(search(&bare(), &view).contains("Search needs at least 2 characters."));
}

#[test]
fn the_admin_page_lists_bans() {
    let view = AdminView {
        chrome: chrome(NavTab::Home),
        shared: AdminShared {
            visible_thread_bound: 20,
            state: CollectionState::ReadyEmpty,
            now: 3_600,
        },
        viewer: AdminViewerState {
            create_category: CreateCategoryFormVM {
                id: text(""),
                name: text(""),
                selected_kind: ThreadKind::Question,
                id_max_chars: 40,
                name_max_chars: 80,
                submit: form("/admin/c", ActionKind::CreateCategory),
            },
            add_ban: AddBanFormVM {
                subject_input: text("u_x"),
                reason: text("sp<am"),
                author_sub_max_chars: 120,
                reason_max_chars: 300,
                submit: form("/admin/ban", ActionKind::AddBan),
            },
            categories: vec![],
            threads: vec![],
            banned_authors: vec![BannedAuthorVM {
                author_display: text("mallory"),
                reason: text("spam"),
                banned_by: text("root"),
                created_at: 0,
                unban: form("/admin/unban", ActionKind::Unban),
            }],
        },
    };
    let html = admin(&bare(), &view);
    assert!(html.contains("<p class=\"ag-admin-row__name\">mallory</p>"));
    assert!(html.contains("Banned by root · "));
    assert!(html.contains(">Unban</button>"));
    assert!(html.contains("value=\"sp&lt;am\""));
    assert!(html.contains("No recent threads."));
}

#[test]
fn absent_private_state_is_not_shown() {
    let mut view = HomeView {
        chrome: chrome(NavTab::Home),
        shared: HomeShared {
            categories: vec![],
            controls: controls(),
            state: CollectionState::Ready,
            visible_bound: 20,
            now: 7_200,
        },
        rows: vec![ThreadRowVM { shared: row("t1"), viewer: nobody() }],
    };
    let without = home(&bare(), &view);
    assert!(!without.contains("ag-row__mine"));
    view.rows[0].viewer = ThreadRowViewerState {
        follow_level: Some(ThreadFollowLevelVM::Unset),
        bookmarked: Some(false),
        unread_count: Some(0),
        resume_href: None,
    };
    view.chrome.cache = CacheClass::PublicStatic;
    assert_eq!(home(&bare(), &view), without);
}

#[test]
fn what_fills_a_slot_is_not_searched_for_slots() {
    let assets = ShellAssets {
        shell: "{{TITLE}}|{{CONTENT}}|{{STYLE}}".to_string(),
        style: "{{TITLE}}".to_string(),
        dynamic: String::new(),
    };
    let mut look = chrome(NavTab::Home);
    look.title = text("{{CONTENT}}");
    assert_eq!(page(&assets, &look, "<p>M</p>"), "{{CONTENT}}|<p>M</p>|{{TITLE}}");
    look.title = text("A & B");
    assert_eq!(
        page(&assets, &look, "{{CONTENT}} {{STYLE}}"),
        "A &amp; B|{{CONTENT}} {{STYLE}}|{{TITLE}}"
    );
}

#[test]
fn a_route_is_escaped_once() {
    let view = HomeView {
        chrome: chrome(NavTab::Home),
        shared: HomeShared {
            categories: vec![],
            controls: controls(),
            state: CollectionState::Ready,
            visible_bound: 20,
            now: 7_200,
        },
        rows: vec![ThreadRowVM { shared: row("a&b"), viewer: nobody() }],
    };
    assert!(home(&bare(), &view).contains("<a class=\"ag-row__title\" href=\"/t/a&amp;b\">"));
}
