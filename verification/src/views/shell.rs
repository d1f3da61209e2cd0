//! The page shell: the chrome every page renders through.

use vstd::prelude::*;
use vstd::string::StringExecFns;

use crate::rows::views;
use crate::text::{
    Slot, SlotRow, blank_text, decimal, decimal_text, escape, escape_text, fill_slots, filled_from,
    is_blank, slot, slot_row,
};
use crate::view_model::{
    CacheClass, DestructiveReviewVM, ErrorView, NavTab, PageChrome, PersonalCounts, Text,
};
use crate::views::{
    ag_initial, crumbs, crumbs_html, here, here_crumb, hidden_inputs, hidden_inputs_html,
    initial_text, link_crumb, linked, t, t_html, trail2,
};

verus! {

/// The shield glyph of the brand.
pub const SHIELD_SVG: &'static str = r##"<svg viewBox="0 0 48 48" fill="none" xmlns="http://www.w3.org/2000/svg" aria-hidden="true"><path d="M24 4 8 9.5V22c0 11 7 17.4 16 21.5C33 39.4 40 33 40 22V9.5L24 4Z" fill="currentColor"/><rect x="20" y="19" width="8" height="13" rx="1" fill="var(--bg)"/><path d="M20 19v-2.5a4 4 0 0 1 8 0V19" stroke="var(--bg)" stroke-width="2" fill="none"/></svg>"##;

/// The icon of the app tile.
pub const APP_ICON: &'static str = r##"<svg viewBox="0 0 24 24" fill="none" stroke="currentColor" stroke-width="2" stroke-linecap="round" stroke-linejoin="round" aria-hidden="true"><path d="M21 15a2 2 0 0 1-2 2H7l-4 4V5a2 2 0 0 1 2-2h14a2 2 0 0 1 2 2z"/></svg>"##;

/// The logout link of the gateway.
pub const LOGOUT_URL: &'static str = "https://sso.w33d.xyz/_gw/auth/logout";

/// The texts a page is assembled from: the shell with its slots, the inlined style, and the inlined
/// scripts.
pub struct ShellAssets {
    pub shell: String,
    pub style: String,
    pub dynamic: String,
}

/// The forum navigation of the app bar.
pub open spec fn app_nav_html(active: NavTab) -> Seq<char> {
    r#"<nav class="appbar__nav" aria-label="Agora"><a class="appnav"#@
        + (if active == NavTab::Home {
        " is-active"@
    } else {
        ""@
    }) + r#"" href="/""#@ + (if active == NavTab::Home {
        r#" aria-current="location""#@
    } else {
        ""@
    }) + r#"><svg viewBox="0 0 24 24" fill="none" stroke="currentColor" stroke-width="2" stroke-linecap="round" stroke-linejoin="round" aria-hidden="true"><path d="m3 9 9-7 9 7v11a2 2 0 0 1-2 2H5a2 2 0 0 1-2-2z"/><path d="M9 22V12h6v10"/></svg>Home</a><a class="appnav"#@ + (if active == NavTab::New {
        " is-active"@
    } else {
        ""@
    }) + r#"" href="/new""#@ + (if active == NavTab::New {
        r#" aria-current="location""#@
    } else {
        ""@
    }) + r#"><svg viewBox="0 0 24 24" fill="none" stroke="currentColor" stroke-width="2" stroke-linecap="round" stroke-linejoin="round" aria-hidden="true"><path d="M5 12h14"/><path d="M12 5v14"/></svg>New thread</a></nav>"#@
}

/// The forum navigation of the app bar.
pub(crate) fn app_nav(active: NavTab) -> (out: String)
    ensures
        out@ == app_nav_html(active),
{
    let mut out: String = r#"<nav class="appbar__nav" aria-label="Agora"><a class="appnav"#.to_owned();
    let part = if active == NavTab::Home {
        " is-active"
    } else {
        ""
    };
    out.append(part);
    out.append(r#"" href="/""#);
    let part = if active == NavTab::Home {
        r#" aria-current="location""#
    } else {
        ""
    };
    out.append(part);
    out.append(r#"><svg viewBox="0 0 24 24" fill="none" stroke="currentColor" stroke-width="2" stroke-linecap="round" stroke-linejoin="round" aria-hidden="true"><path d="m3 9 9-7 9 7v11a2 2 0 0 1-2 2H5a2 2 0 0 1-2-2z"/><path d="M9 22V12h6v10"/></svg>Home</a><a class="appnav"#);
    let part = if active == NavTab::New {
        " is-active"
    } else {
        ""
    };
    out.append(part);
    out.append(r#"" href="/new""#);
    let part = if active == NavTab::New {
        r#" aria-current="location""#
    } else {
        ""
    };
    out.append(part);
    out.append(r#"><svg viewBox="0 0 24 24" fill="none" stroke="currentColor" stroke-width="2" stroke-linecap="round" stroke-linejoin="round" aria-hidden="true"><path d="M5 12h14"/><path d="M12 5v14"/></svg>New thread</a></nav>"#);
    out
}

/// The quick search of the app bar.
pub open spec fn quick_search_html(active: NavTab) -> Seq<char> {
    r#"<form class="ag-quick-search"#@ + (if active == NavTab::Search {
        " is-active"@
    } else {
        ""@
    }) + r#"" method="get" action="/search" role="search" aria-label="Quick search" data-ag-quick-search>
  <button class="ag-quick-search__submit" type="submit" aria-label="Search discussions"><svg viewBox="0 0 24 24" fill="none" stroke="currentColor" stroke-width="2" stroke-linecap="round" stroke-linejoin="round" aria-hidden="true"><circle cx="11" cy="11" r="8"/><path d="m21 21-4.3-4.3"/></svg></button>
  <input id="ag-quick-search-input" type="search" name="q" maxlength="160" placeholder="Search discussions" autocomplete="off" role="combobox" aria-label="Search discussions" aria-autocomplete="list" aria-haspopup="listbox" aria-controls="ag-quick-search-results" aria-expanded="false">
  <kbd class="ag-quick-search__key" aria-hidden="true">/</kbd>
  <div id="ag-quick-search-results" class="ag-quick-search__results" role="listbox" aria-label="Search suggestions" data-ag-search-results hidden></div>
</form>"#@
}

/// The quick search of the app bar.
pub(crate) fn quick_search(active: NavTab) -> (out: String)
    ensures
        out@ == quick_search_html(active),
{
    let mut out: String = r#"<form class="ag-quick-search"#.to_owned();
    let part = if active == NavTab::Search {
        " is-active"
    } else {
        ""
    };
    out.append(part);
    out.append(r#"" method="get" action="/search" role="search" aria-label="Quick search" data-ag-quick-search>
  <button class="ag-quick-search__submit" type="submit" aria-label="Search discussions"><svg viewBox="0 0 24 24" fill="none" stroke="currentColor" stroke-width="2" stroke-linecap="round" stroke-linejoin="round" aria-hidden="true"><circle cx="11" cy="11" r="8"/><path d="m21 21-4.3-4.3"/></svg></button>
  <input id="ag-quick-search-input" type="search" name="q" maxlength="160" placeholder="Search discussions" autocomplete="off" role="combobox" aria-label="Search discussions" aria-autocomplete="list" aria-haspopup="listbox" aria-controls="ag-quick-search-results" aria-expanded="false">
  <kbd class="ag-quick-search__key" aria-hidden="true">/</kbd>
  <div id="ag-quick-search-results" class="ag-quick-search__results" role="listbox" aria-label="Search suggestions" data-ag-search-results hidden></div>
</form>"#);
    out
}

/// A private count badge; an unavailable count paints nothing, never a zero.
pub open spec fn private_badge_html(count: Option<i64>) -> Seq<char> {
    (match count {
        Some(n) => {
            (if n > 0 {
                r#"<span class="ag-count-badge ag-key-private" aria-hidden="true">"#@ + (if n > 99 {
                    "99+"@
                } else {
                    decimal_text(n as int)
                }) + "</span>"@
            } else {
                Seq::<char>::empty()
            })
        },
        None => {
            Seq::<char>::empty()
        },
    })
}

/// A private count badge; an unavailable count paints nothing, never a zero.
pub(crate) fn private_badge(count: Option<i64>) -> (out: String)
    ensures
        out@ == private_badge_html(count),
{
    match count {
        Some(n) => {
            if n > 0 {
                let mut out: String = r#"<span class="ag-count-badge ag-key-private" aria-hidden="true">"#.to_owned();
                let part = if n > 99 {
                    "99+".to_owned()
                } else {
                    decimal(n)
                };
                out.append(part.as_str());
                out.append("</span>");
                out
            } else {
                String::new()
            }
        },
        None => {
            String::new()
        },
    }
}

/// A private count in words; an unavailable count has none.
pub open spec fn private_count_label_text(count: Option<i64>, singular: Seq<char>, plural: Seq<char>) -> Seq<char> {
    (match count {
        Some(n) => {
            (if n > 0 {
                (if n == 1 {
                    "1 "@ + singular
                } else {
                    decimal_text(n as int) + " "@ + plural
                })
            } else {
                Seq::<char>::empty()
            })
        },
        None => {
            Seq::<char>::empty()
        },
    })
}

/// A private count in words; an unavailable count has none.
pub(crate) fn private_count_label(count: Option<i64>, singular: &str, plural: &str) -> (out: String)
    ensures
        out@ == private_count_label_text(count, singular@, plural@),
{
    match count {
        Some(n) => {
            if n > 0 {
                if n == 1 {
                    let mut out: String = "1 ".to_owned();
                    out.append(singular);
                    out
                } else {
                    let mut out: String = decimal(n);
                    out.append(" ");
                    out.append(plural);
                    out
                }
            } else {
                String::new()
            }
        },
        None => {
            String::new()
        },
    }
}

/// The bookmarks button of the app bar.
pub open spec fn bookmark_button_html(active: bool, due_bookmarks: Option<i64>) -> Seq<char> {
    let state = private_count_label_text(due_bookmarks, "due"@, "due"@);
    let label = (if state.len() == 0 {
        "Bookmarks"@
    } else {
        "Bookmarks, "@ + state
    });
    r#"<a class="iconbtn ag-bookmark-button"#@ + (if active {
        " is-active"@
    } else {
        ""@
    }) + r#"" href=""#@ + (match due_bookmarks {
        Some(n) => {
            (if n > 0 {
                "/bookmarks?state=due"@
            } else {
                "/bookmarks"@
            })
        },
        None => {
            "/bookmarks"@
        },
    }) + r#"" title="Bookmarks" aria-label=""#@ + escape_text(label) + r#"""#@ + (if active {
        r#" aria-current="location""#@
    } else {
        ""@
    }) + r#"><svg viewBox="0 0 24 24" fill="none" stroke="currentColor" stroke-width="2" stroke-linecap="round" stroke-linejoin="round" aria-hidden="true"><path d="M6 3h12a1 1 0 0 1 1 1v17l-7-4-7 4V4a1 1 0 0 1 1-1z"/></svg>"#@ + private_badge_html(due_bookmarks) + "</a>"@
}

/// The bookmarks button of the app bar.
pub(crate) fn bookmark_button(active: bool, due_bookmarks: Option<i64>) -> (out: String)
    ensures
        out@ == bookmark_button_html(active, due_bookmarks),
{
    let state: String = private_count_label(due_bookmarks, "due", "due");
    let label: String = if state.as_str().is_empty() {
        "Bookmarks".to_owned()
    } else {
        let mut out: String = "Bookmarks, ".to_owned();
        out.append(state.as_str());
        out
    };
    let mut out: String = r#"<a class="iconbtn ag-bookmark-button"#.to_owned();
    let part = if active {
        " is-active"
    } else {
        ""
    };
    out.append(part);
    out.append(r#"" href=""#);
    let part = match due_bookmarks {
        Some(n) => {
            if n > 0 {
                "/bookmarks?state=due"
            } else {
                "/bookmarks"
            }
        },
        None => {
            "/bookmarks"
        },
    };
    out.append(part);
    out.append(r#"" title="Bookmarks" aria-label=""#);
    out.append(escape(label.as_str()).as_str());
    out.append(r#"""#);
    let part = if active {
        r#" aria-current="location""#
    } else {
        ""
    };
    out.append(part);
    out.append(r#"><svg viewBox="0 0 24 24" fill="none" stroke="currentColor" stroke-width="2" stroke-linecap="round" stroke-linejoin="round" aria-hidden="true"><path d="M6 3h12a1 1 0 0 1 1 1v17l-7-4-7 4V4a1 1 0 0 1 1-1z"/></svg>"#);
    out.append(private_badge(due_bookmarks).as_str());
    out.append("</a>");
    out
}

/// The activity button of the app bar.
pub open spec fn activity_button_html(active: bool, unread_activity: Option<i64>) -> Seq<char> {
    let state = private_count_label_text(unread_activity, "unread"@, "unread"@);
    let label = (if state.len() == 0 {
        "Activity"@
    } else {
        "Activity, "@ + state
    });
    r#"<a class="iconbtn ag-activity-button"#@ + (if active {
        " is-active"@
    } else {
        ""@
    }) + r#"" href="/activity" title="Activity" aria-label=""#@ + escape_text(label) + r#"""#@ + (if active {
        r#" aria-current="location""#@
    } else {
        ""@
    }) + r#"><svg viewBox="0 0 24 24" fill="none" stroke="currentColor" stroke-width="2" stroke-linecap="round" stroke-linejoin="round" aria-hidden="true"><path d="M18 8a6 6 0 0 0-12 0c0 7-3 7-3 9h18c0-2-3-2-3-9"/><path d="M13.73 21a2 2 0 0 1-3.46 0"/></svg>"#@ + private_badge_html(unread_activity) + "</a>"@
}

/// The activity button of the app bar.
pub(crate) fn activity_button(active: bool, unread_activity: Option<i64>) -> (out: String)
    ensures
        out@ == activity_button_html(active, unread_activity),
{
    let state: String = private_count_label(unread_activity, "unread", "unread");
    let label: String = if state.as_str().is_empty() {
        "Activity".to_owned()
    } else {
        let mut out: String = "Activity, ".to_owned();
        out.append(state.as_str());
        out
    };
    let mut out: String = r#"<a class="iconbtn ag-activity-button"#.to_owned();
    let part = if active {
        " is-active"
    } else {
        ""
    };
    out.append(part);
    out.append(r#"" href="/activity" title="Activity" aria-label=""#);
    out.append(escape(label.as_str()).as_str());
    out.append(r#"""#);
    let part = if active {
        r#" aria-current="location""#
    } else {
        ""
    };
    out.append(part);
    out.append(r#"><svg viewBox="0 0 24 24" fill="none" stroke="currentColor" stroke-width="2" stroke-linecap="round" stroke-linejoin="round" aria-hidden="true"><path d="M18 8a6 6 0 0 0-12 0c0 7-3 7-3 9h18c0-2-3-2-3-9"/><path d="M13.73 21a2 2 0 0 1-3.46 0"/></svg>"#);
    out.append(private_badge(unread_activity).as_str());
    out.append("</a>");
    out
}

/// All apps and the user menu; without an identity there is no guessed one.
pub open spec fn user_menu_html(viewer_email: Option<&Text>) -> Seq<char> {
    let avatar = (match viewer_email {
        Some(email) => {
            escape_text(initial_text(email.0@))
        },
        None => {
            r#"<svg viewBox="0 0 24 24" fill="none" stroke="currentColor" stroke-width="2" stroke-linecap="round" stroke-linejoin="round" aria-hidden="true" style="width:16px;height:16px"><path d="M19 21v-2a4 4 0 0 0-4-4H9a4 4 0 0 0-4 4v2"/><circle cx="12" cy="7" r="4"/></svg>"#@
        },
    });
    r#"<a class="iconbtn allapps" href="https://w33d.xyz" title="All apps" aria-label="All apps"><svg viewBox="0 0 24 24" fill="none" stroke="currentColor" stroke-width="2" stroke-linecap="round" stroke-linejoin="round" aria-hidden="true"><rect x="3" y="3" width="7" height="7" rx="1.5"/><rect x="14" y="3" width="7" height="7" rx="1.5"/><rect x="3" y="14" width="7" height="7" rx="1.5"/><rect x="14" y="14" width="7" height="7" rx="1.5"/></svg></a>
    <div class="usermenu userchip">
      <button class="usermenu__btn" type="button" aria-label="Account options">
        <span class="avatar" aria-hidden="true">"#@ + avatar + r#"</span>
        "#@ + (match viewer_email {
        Some(email) => {
            r#"<span class="usermenu__name">"#@ + t_html(email) + "</span>"@
        },
        None => {
            Seq::<char>::empty()
        },
    }) + r#"
        <svg class="usermenu__caret" viewBox="0 0 24 24" fill="none" stroke="currentColor" stroke-width="2" stroke-linecap="round" stroke-linejoin="round" aria-hidden="true"><path d="m6 9 6 6 6-6"/></svg>
      </button>
      <div class="usermenu__pop">
        <div class="usermenu__head"><span class="avatar" aria-hidden="true">"#@ + avatar + "</span><div><b>"@ + (match viewer_email {
        Some(email) => {
            t_html(email)
        },
        None => {
            "Account"@
        },
    }) + "</b><span>"@ + (match viewer_email {
        Some(email) => {
            "Signed in"@
        },
        None => {
            "Not signed in"@
        },
    }) + r#"</span></div></div>
        <a class="menuitem" href="https://account.w33d.xyz"><svg viewBox="0 0 24 24" fill="none" stroke="currentColor" stroke-width="2" stroke-linecap="round" stroke-linejoin="round" aria-hidden="true"><path d="M19 21v-2a4 4 0 0 0-4-4H9a4 4 0 0 0-4 4v2"/><circle cx="12" cy="7" r="4"/></svg>Account</a>
        <a class="menuitem" href="https://w33d.xyz"><svg viewBox="0 0 24 24" fill="none" stroke="currentColor" stroke-width="2" stroke-linecap="round" stroke-linejoin="round" aria-hidden="true"><rect x="3" y="3" width="7" height="7" rx="1.5"/><rect x="14" y="3" width="7" height="7" rx="1.5"/><rect x="3" y="14" width="7" height="7" rx="1.5"/><rect x="14" y="14" width="7" height="7" rx="1.5"/></svg>All apps</a>
        <a class="menuitem menuitem--danger" href=""#@ + LOGOUT_URL@ + r#""><svg viewBox="0 0 24 24" fill="none" stroke="currentColor" stroke-width="2" stroke-linecap="round" stroke-linejoin="round" aria-hidden="true"><path d="M9 21H5a2 2 0 0 1-2-2V5a2 2 0 0 1 2-2h4"/><path d="m16 17 5-5-5-5"/><path d="M21 12H9"/></svg>Sign out</a>
      </div>
    </div>"#@
}

/// All apps and the user menu; without an identity there is no guessed one.
pub(crate) fn user_menu(viewer_email: Option<&Text>) -> (out: String)
    ensures
        out@ == user_menu_html(viewer_email),
{
    let avatar: String = match viewer_email {
        Some(email) => {
            escape(ag_initial(email.0.as_str()).as_str())
        },
        None => {
            r#"<svg viewBox="0 0 24 24" fill="none" stroke="currentColor" stroke-width="2" stroke-linecap="round" stroke-linejoin="round" aria-hidden="true" style="width:16px;height:16px"><path d="M19 21v-2a4 4 0 0 0-4-4H9a4 4 0 0 0-4 4v2"/><circle cx="12" cy="7" r="4"/></svg>"#.to_owned()
        },
    };
    let mut out: String = r#"<a class="iconbtn allapps" href="https://w33d.xyz" title="All apps" aria-label="All apps"><svg viewBox="0 0 24 24" fill="none" stroke="currentColor" stroke-width="2" stroke-linecap="round" stroke-linejoin="round" aria-hidden="true"><rect x="3" y="3" width="7" height="7" rx="1.5"/><rect x="14" y="3" width="7" height="7" rx="1.5"/><rect x="3" y="14" width="7" height="7" rx="1.5"/><rect x="14" y="14" width="7" height="7" rx="1.5"/></svg></a>
    <div class="usermenu userchip">
      <button class="usermenu__btn" type="button" aria-label="Account options">
        <span class="avatar" aria-hidden="true">"#.to_owned();
    out.append(avatar.as_str());
    out.append(r#"</span>
        "#);
    let part = match viewer_email {
        Some(email) => {
            let mut out: String = r#"<span class="usermenu__name">"#.to_owned();
            out.append(t(email).as_str());
            out.append("</span>");
            out
        },
        None => {
            String::new()
        },
    };
    out.append(part.as_str());
    out.append(r#"
        <svg class="usermenu__caret" viewBox="0 0 24 24" fill="none" stroke="currentColor" stroke-width="2" stroke-linecap="round" stroke-linejoin="round" aria-hidden="true"><path d="m6 9 6 6 6-6"/></svg>
      </button>
      <div class="usermenu__pop">
        <div class="usermenu__head"><span class="avatar" aria-hidden="true">"#);
    out.append(avatar.as_str());
    out.append("</span><div><b>");
    let part = match viewer_email {
        Some(email) => {
            t(email)
        },
        None => {
            "Account".to_owned()
        },
    };
    out.append(part.as_str());
    out.append("</b><span>");
    let part = match viewer_email {
        Some(email) => {
            "Signed in"
        },
        None => {
            "Not signed in"
        },
    };
    out.append(part);
    out.append(r#"</span></div></div>
        <a class="menuitem" href="https://account.w33d.xyz"><svg viewBox="0 0 24 24" fill="none" stroke="currentColor" stroke-width="2" stroke-linecap="round" stroke-linejoin="round" aria-hidden="true"><path d="M19 21v-2a4 4 0 0 0-4-4H9a4 4 0 0 0-4 4v2"/><circle cx="12" cy="7" r="4"/></svg>Account</a>
        <a class="menuitem" href="https://w33d.xyz"><svg viewBox="0 0 24 24" fill="none" stroke="currentColor" stroke-width="2" stroke-linecap="round" stroke-linejoin="round" aria-hidden="true"><rect x="3" y="3" width="7" height="7" rx="1.5"/><rect x="14" y="3" width="7" height="7" rx="1.5"/><rect x="3" y="14" width="7" height="7" rx="1.5"/><rect x="14" y="14" width="7" height="7" rx="1.5"/></svg>All apps</a>
        <a class="menuitem menuitem--danger" href=""#);
    out.append(LOGOUT_URL);
    out.append(r#""><svg viewBox="0 0 24 24" fill="none" stroke="currentColor" stroke-width="2" stroke-linecap="round" stroke-linejoin="round" aria-hidden="true"><path d="M9 21H5a2 2 0 0 1-2-2V5a2 2 0 0 1 2-2h4"/><path d="m16 17 5-5-5-5"/><path d="M21 12H9"/></svg>Sign out</a>
      </div>
    </div>"#);
    out
}

/// The app bar: brand, navigation, quick search, private buttons, and user menu.
pub open spec fn bar_html(active: NavTab, counts: PersonalCounts, viewer_email: Option<&Text>) -> Seq<char> {
    r#"<header class="appbar ag-appbar">
  <a class="appbar__brand" href="/" aria-label="Steadholme Agora home">
    <span class="app-tile" aria-hidden="true" style="--app:var(--brand);--app-soft:var(--brand-soft)">"#@
        + APP_ICON@ + r#"</span>
    <span class="appbar__name"><b>Forum</b><span>forum.w33d.xyz</span></span>
  </a>
  "#@ + app_nav_html(active) + r#"
  "#@ + quick_search_html(active) + r#"
  <span class="appbar__spacer"></span>
  <div class="appbar__right">"#@
        + bookmark_button_html(active == NavTab::Bookmarks, counts.due_bookmarks)
        + activity_button_html(active == NavTab::Activity, counts.unread_activity)
        + user_menu_html(viewer_email) + r#"</div>
</header>"#@
}

/// The app bar: brand, navigation, quick search, private buttons, and user menu.
pub(crate) fn bar(active: NavTab, counts: PersonalCounts, viewer_email: Option<&Text>) -> (out: String)
    ensures
        out@ == bar_html(active, counts, viewer_email),
{
    let mut out: String = r#"<header class="appbar ag-appbar">
  <a class="appbar__brand" href="/" aria-label="Steadholme Agora home">
    <span class="app-tile" aria-hidden="true" style="--app:var(--brand);--app-soft:var(--brand-soft)">"#.to_owned();
    out.append(APP_ICON);
    out.append(r#"</span>
    <span class="appbar__name"><b>Forum</b><span>forum.w33d.xyz</span></span>
  </a>
  "#);
    out.append(app_nav(active).as_str());
    out.append(r#"
  "#);
    out.append(quick_search(active).as_str());
    out.append(r#"
  <span class="appbar__spacer"></span>
  <div class="appbar__right">"#);
    out.append(bookmark_button(active == NavTab::Bookmarks, counts.due_bookmarks).as_str());
    out.append(activity_button(active == NavTab::Activity, counts.unread_activity).as_str());
    out.append(user_menu(viewer_email).as_str());
    out.append(r#"</div>
</header>"#);
    out
}

/// The app bar of a page.
pub open spec fn app_bar_html(chrome: &PageChrome) -> Seq<char> {
    bar_html(chrome.active_nav, chrome.counts, (match chrome.viewer_email {
        Some(inner) => Some(&inner), None => None
    }))
}

/// The app bar of a page.
pub(crate) fn app_bar(chrome: &PageChrome) -> (out: String)
    ensures
        out@ == app_bar_html(chrome),
{
    bar(chrome.active_nav, chrome.counts, chrome.viewer_email.as_ref())
}

/// The slots of the shell.
pub open spec fn shell_slots(
    assets: &ShellAssets,
    app_bar: Seq<char>,
    title: Seq<char>,
    main_html: Seq<char>,
) -> Seq<SlotRow> {
    seq![
        slot_row("{{STYLE}}"@, assets.style@),
        slot_row("{{DYNAMIC}}"@, assets.dynamic@),
        slot_row("{{APPBAR}}"@, app_bar),
        slot_row("{{TITLE}}"@, title),
        slot_row("{{CONTENT}}"@, main_html),
    ]
}

/// The shell with its slots filled. What fills a slot is not searched for slots.
pub open spec fn filled_shell(
    assets: &ShellAssets,
    app_bar: Seq<char>,
    title: Seq<char>,
    main_html: Seq<char>,
) -> Seq<char> {
    filled_from(assets.shell@, shell_slots(assets, app_bar, title, main_html), 0)
}

/// A full page: the app bar, the escaped title, and the main markup inside the shell.
pub open spec fn page_html(assets: &ShellAssets, chrome: &PageChrome, main_html: Seq<char>) -> Seq<char> {
    filled_shell(assets, app_bar_html(chrome), t_html(&chrome.title), main_html)
}

/// Render a full page around the main markup. The cache class is never rendered.
pub fn page(assets: &ShellAssets, chrome: &PageChrome, main_html: &str) -> (out: String)
    ensures
        out@ == page_html(assets, chrome, main_html@),
{
    let bar = app_bar(chrome);
    let title = t(&chrome.title);
    let mut slots: Vec<Slot<'_>> = Vec::new();
    slots.push(slot("{{STYLE}}", assets.style.as_str()));
    slots.push(slot("{{DYNAMIC}}", assets.dynamic.as_str()));
    slots.push(slot("{{APPBAR}}", bar.as_str()));
    slots.push(slot("{{TITLE}}", title.as_str()));
    slots.push(slot("{{CONTENT}}", main_html));
    assert(views(slots@) =~= shell_slots(assets, bar@, title@, main_html@));
    fill_slots(assets.shell.as_str(), &slots)
}

/// The main markup of the error page.
pub open spec fn error_main_html(v: &ErrorView) -> Seq<char> {
    crumbs_html(seq![linked("Home"@, "/"@), here(v.heading.0@)])
        + r#"<section class="card pad empty-card ag-review" aria-labelledby="ag-error-title">
  <p class="eyebrow ag-eyebrow">Request could not be completed</p>
  <h1 class="empty-title" id="ag-error-title">"#@ + t_html(&v.heading) + r#"</h1>
  <p class="muted">"#@ + t_html(&v.message) + "</p>"@ + (match v.correlation_id {
        Some(id) => {
            (if blank_text(id.0@) {
                Seq::<char>::empty()
            } else {
                r#"<p class="muted ag-correlation">Reference <code>"#@ + escape_text(id.0@)
                    + "</code> if you report this.</p>"@
            })
        },
        None => {
            Seq::<char>::empty()
        },
    }) + r#"
  <p><a class="btn btn-primary" href="/">Back to the forum</a></p>
</section>"#@
}

/// The main markup of the error page.
pub(crate) fn error_main(v: &ErrorView) -> (out: String)
    ensures
        out@ == error_main_html(v),
{
    let mut out: String = crumbs(&trail2(link_crumb("Home", "/"), here_crumb(v.heading.0.as_str())));
    out.append(r#"<section class="card pad empty-card ag-review" aria-labelledby="ag-error-title">
  <p class="eyebrow ag-eyebrow">Request could not be completed</p>
  <h1 class="empty-title" id="ag-error-title">"#);
    out.append(t(&v.heading).as_str());
    out.append(r#"</h1>
  <p class="muted">"#);
    out.append(t(&v.message).as_str());
    out.append("</p>");
    let part = match &v.correlation_id {
        Some(id) => {
            if is_blank(id.0.as_str()) {
                String::new()
            } else {
                let mut out: String = r#"<p class="muted ag-correlation">Reference <code>"#.to_owned();
                out.append(escape(id.0.as_str()).as_str());
                out.append("</code> if you report this.</p>");
                out
            }
        },
        None => {
            String::new()
        },
    };
    out.append(part.as_str());
    out.append(r#"
  <p><a class="btn btn-primary" href="/">Back to the forum</a></p>
</section>"#);
    out
}

/// The consequence review of a destructive action: it states what will happen and carries the confirmed commit form.
pub open spec fn destructive_review_html(v: &DestructiveReviewVM) -> Seq<char> {
    crumbs_html(seq![linked("Home"@, "/"@), here("Review action"@)])
        + r#"<section class="card ag-destructive-review ag-review" aria-labelledby="destructive-review-title">
  <p class="eyebrow ag-eyebrow">Consequence review</p>
  <h1 id="destructive-review-title">"#@ + t_html(&v.heading) + r#"</h1>
  <p>"#@ + t_html(&v.consequence.summary) + "</p>"@ + (match v.consequence.detail {
        Some(detail) => {
            r#"<p class="muted">"#@ + t_html(&detail) + "</p>"@
        },
        None => {
            Seq::<char>::empty()
        },
    }) + r#"
  <p><strong>This action cannot be undone.</strong></p>
  <form class="ag-form" method="post" action=""#@ + escape_text(v.commit.action.0@) + r#"">
    "#@ + hidden_inputs_html(v.commit.csrf.0@, v.commit.fields@) + r#"
    <div class="form-actions">
      <button class="btn btn-danger" type="submit">Confirm deletion</button>
      <a class="btn btn-secondary" href=""#@ + escape_text(v.cancel_href.0@) + r#"">Cancel</a>
    </div>
  </form>
</section>"#@
}

/// The consequence review of a destructive action: it states what will happen and carries the confirmed commit form.
pub fn destructive_review(v: &DestructiveReviewVM) -> (out: String)
    ensures
        out@ == destructive_review_html(v),
{
    let mut out: String = crumbs(&trail2(link_crumb("Home", "/"), here_crumb("Review action")));
    out.append(r#"<section class="card ag-destructive-review ag-review" aria-labelledby="destructive-review-title">
  <p class="eyebrow ag-eyebrow">Consequence review</p>
  <h1 id="destructive-review-title">"#);
    out.append(t(&v.heading).as_str());
    out.append(r#"</h1>
  <p>"#);
    out.append(t(&v.consequence.summary).as_str());
    out.append("</p>");
    let part = match &v.consequence.detail {
        Some(detail) => {
            let mut out: String = r#"<p class="muted">"#.to_owned();
            out.append(t(detail).as_str());
            out.append("</p>");
            out
        },
        None => {
            String::new()
        },
    };
    out.append(part.as_str());
    out.append(r#"
  <p><strong>This action cannot be undone.</strong></p>
  <form class="ag-form" method="post" action=""#);
    out.append(escape(v.commit.action.0.as_str()).as_str());
    out.append(r#"">
    "#);
    out.append(hidden_inputs(v.commit.csrf.0.as_str(), &v.commit.fields).as_str());
    out.append(r#"
    <div class="form-actions">
      <button class="btn btn-danger" type="submit">Confirm deletion</button>
      <a class="btn btn-secondary" href=""#);
    out.append(escape(v.cancel_href.0.as_str()).as_str());
    out.append(r#"">Cancel</a>
    </div>
  </form>
</section>"#);
    out
}

/// The chrome of the error page: no identity and no private counts.
fn error_chrome(title: &str) -> (chrome: PageChrome)
    ensures
        chrome.title.0@ == title@,
        chrome.viewer_email is None,
        chrome.active_nav == NavTab::Home,
        chrome.counts == no_counts(),
        chrome.cache == CacheClass::PrivateNoStore,
{
    PageChrome {
        title: Text(title.to_owned()),
        viewer_email: None,
        active_nav: NavTab::Home,
        counts: PersonalCounts { unread_activity: None, due_bookmarks: None },
        cache: CacheClass::PrivateNoStore,
    }
}

/// No private counts.
pub open spec fn no_counts() -> PersonalCounts {
    PersonalCounts { unread_activity: None, due_bookmarks: None }
}

/// The error page: the error in a shell that shows no identity.
pub open spec fn error_html(assets: &ShellAssets, v: &ErrorView) -> Seq<char> {
    filled_shell(
        assets,
        bar_html(NavTab::Home, no_counts(), None),
        t_html(&v.heading),
        error_main_html(v),
    )
}

/// Render the error page. The error arrives already generic; the page escapes and frames it.
pub fn error(assets: &ShellAssets, v: &ErrorView) -> (out: String)
    ensures
        out@ == error_html(assets, v),
{
    let chrome = error_chrome(v.heading.0.as_str());
    page(assets, &chrome, error_main(v).as_str())
}

} // verus!
