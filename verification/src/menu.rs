//! The native settings menu opened by a right click on the timeline: its
//! entries, their labels, which are enabled and which are checked.
use vstd::prelude::*;
use crate::account::{normalized_username, normalized_username_spec, opt_view, AuthState};
use crate::text::{concat_text, same_text};
use crate::tracking::{tracking_status_label, tracking_status_label_spec, WindowTrackingSettings};

verus! {

/// The commands of the settings menu.
#[derive(Clone, Copy, PartialEq, Eq, Structural)]
pub enum MenuId {
    Login,
    Logout,
    LoggedInAs,
    TimelineSettings,
    AlwaysOnTop,
    HideWhenUnfocused,
    ExcludeFromCapture,
    AttachWindow,
    AttachedProcess,
    StartWithWindows,
    OpenSite,
    BecomePremium,
    Close,
}

/// The identifier that a menu command carries in native menu events.
pub open spec fn menu_id_text(id: MenuId) -> Seq<char> {
    match id {
        MenuId::Login => "login"@,
        MenuId::Logout => "logout"@,
        MenuId::LoggedInAs => "logged-in-as"@,
        MenuId::TimelineSettings => "timeline-settings"@,
        MenuId::AlwaysOnTop => "always-on-top"@,
        MenuId::HideWhenUnfocused => "hide-when-unfocused"@,
        MenuId::ExcludeFromCapture => "exclude-from-capture"@,
        MenuId::AttachWindow => "attach-window"@,
        MenuId::AttachedProcess => "attached-process"@,
        MenuId::StartWithWindows => "start-with-windows"@,
        MenuId::OpenSite => "open-naphwiki"@,
        MenuId::BecomePremium => "become-premium"@,
        MenuId::Close => "close"@,
    }
}

impl MenuId {
    pub fn as_str(&self) -> (r: &'static str)
        ensures
            r@ == menu_id_text(*self),
    {
        match self {
            MenuId::Login => "login",
            MenuId::Logout => "logout",
            MenuId::LoggedInAs => "logged-in-as",
            MenuId::TimelineSettings => "timeline-settings",
            MenuId::AlwaysOnTop => "always-on-top",
            MenuId::HideWhenUnfocused => "hide-when-unfocused",
            MenuId::ExcludeFromCapture => "exclude-from-capture",
            MenuId::AttachWindow => "attach-window",
            MenuId::AttachedProcess => "attached-process",
            MenuId::StartWithWindows => "start-with-windows",
            MenuId::OpenSite => "open-naphwiki",
            MenuId::BecomePremium => "become-premium",
            MenuId::Close => "close",
        }
    }

    /// The command whose identifier is `id`, if any.
    pub fn from_id(id: &str) -> (r: Option<MenuId>)
        ensures
            match r {
                Some(m) => menu_id_text(m) == id@,
                None => forall|m: MenuId| menu_id_text(m) != id@,
            },
    {
        if same_text(id, MenuId::Login.as_str()) {
            return Some(MenuId::Login);
        }
        if same_text(id, MenuId::Logout.as_str()) {
            return Some(MenuId::Logout);
        }
        if same_text(id, MenuId::LoggedInAs.as_str()) {
            return Some(MenuId::LoggedInAs);
        }
        if same_text(id, MenuId::TimelineSettings.as_str()) {
            return Some(MenuId::TimelineSettings);
        }
        if same_text(id, MenuId::AlwaysOnTop.as_str()) {
            return Some(MenuId::AlwaysOnTop);
        }
        if same_text(id, MenuId::HideWhenUnfocused.as_str()) {
            return Some(MenuId::HideWhenUnfocused);
        }
        if same_text(id, MenuId::ExcludeFromCapture.as_str()) {
            return Some(MenuId::ExcludeFromCapture);
        }
        if same_text(id, MenuId::AttachWindow.as_str()) {
            return Some(MenuId::AttachWindow);
        }
        if same_text(id, MenuId::AttachedProcess.as_str()) {
            return Some(MenuId::AttachedProcess);
        }
        if same_text(id, MenuId::StartWithWindows.as_str()) {
            return Some(MenuId::StartWithWindows);
        }
        if same_text(id, MenuId::OpenSite.as_str()) {
            return Some(MenuId::OpenSite);
        }
        if same_text(id, MenuId::BecomePremium.as_str()) {
            return Some(MenuId::BecomePremium);
        }
        if same_text(id, MenuId::Close.as_str()) {
            return Some(MenuId::Close);
        }
        assert forall|m: MenuId| #[trigger] menu_id_text(m) != id@ by {
            match m {
                MenuId::Login => {},
                MenuId::Logout => {},
                MenuId::LoggedInAs => {},
                MenuId::TimelineSettings => {},
                MenuId::AlwaysOnTop => {},
                MenuId::HideWhenUnfocused => {},
                MenuId::ExcludeFromCapture => {},
                MenuId::AttachWindow => {},
                MenuId::AttachedProcess => {},
                MenuId::StartWithWindows => {},
                MenuId::OpenSite => {},
                MenuId::BecomePremium => {},
                MenuId::Close => {},
            }
        }
        None
    }
}

/// An entry of a menu.
pub enum MenuEntry {
    Item { id: MenuId, label: String, enabled: bool },
    Check { id: MenuId, label: String, enabled: bool, checked: bool },
    Separator,
}

/// An entry of the menu bar level: a submenu or a plain entry.
pub enum MenuNode {
    Submenu { title: String, entries: Vec<MenuEntry> },
    Entry(MenuEntry),
}

/// What a menu entry is, with its texts as character sequences.
pub enum MenuEntryView {
    Item { id: MenuId, label: Seq<char>, enabled: bool },
    Check { id: MenuId, label: Seq<char>, enabled: bool, checked: bool },
    Separator,
}

pub enum MenuNodeView {
    Submenu { title: Seq<char>, entries: Seq<MenuEntryView> },
    Entry(MenuEntryView),
}

pub open spec fn entry_view(e: MenuEntry) -> MenuEntryView {
    match e {
        MenuEntry::Item { id, label, enabled } => MenuEntryView::Item { id, label: label@, enabled },
        MenuEntry::Check { id, label, enabled, checked } => MenuEntryView::Check {
            id,
            label: label@,
            enabled,
            checked,
        },
        MenuEntry::Separator => MenuEntryView::Separator,
    }
}

pub open spec fn node_view(n: MenuNode) -> MenuNodeView {
    match n {
        MenuNode::Submenu { title, entries } => MenuNodeView::Submenu {
            title: title@,
            entries: entries@.map_values(|e: MenuEntry| entry_view(e)),
        },
        MenuNode::Entry(e) => MenuNodeView::Entry(entry_view(e)),
    }
}

pub open spec fn nodes_view(nodes: Seq<MenuNode>) -> Seq<MenuNodeView> {
    nodes.map_values(|n: MenuNode| node_view(n))
}

/// The first line of the account submenu while logged in.
pub open spec fn logged_in_label(username: Option<Seq<char>>) -> Seq<char> {
    match normalized_username_spec(username) {
        Some(name) => "Logged in as "@ + name,
        None => "Logged in"@,
    }
}

/// The account submenu: the account name, the settings window and "Log out"
/// while logged in; "Login" otherwise.
pub open spec fn account_entries(logged_in: bool, username: Option<Seq<char>>) -> Seq<MenuEntryView> {
    if logged_in {
        seq![
            MenuEntryView::Item { id: MenuId::LoggedInAs, label: logged_in_label(username), enabled: false },
            MenuEntryView::Separator,
            MenuEntryView::Item { id: MenuId::TimelineSettings, label: "Timeline settings"@, enabled: true },
            MenuEntryView::Item { id: MenuId::Logout, label: "Log out"@, enabled: true },
        ]
    } else {
        seq![MenuEntryView::Item { id: MenuId::Login, label: "Login"@, enabled: true }]
    }
}

/// The label of the capture-exclusion entry.
pub open spec fn capture_label(capture_exclusion_supported: bool) -> Seq<char> {
    if capture_exclusion_supported {
        "Exclude from capture"@
    } else {
        "Exclude from capture (requires Windows 10 2004+)"@
    }
}

/// What the menu shows about the system.
pub struct MenuFacts {
    /// Whether the Windows-only entries are shown.
    pub windows: bool,
    pub capture_exclusion_supported: bool,
    pub start_with_windows: bool,
}

/// The whole menu. The Windows-only parts (window tracking, capture
/// exclusion, starting with Windows) appear only where `facts.windows` holds;
/// capture exclusion shows as checked only where it is supported.
pub open spec fn context_menu_spec(
    logged_in: bool,
    username: Option<Seq<char>>,
    settings: &WindowTrackingSettings,
    facts: MenuFacts,
) -> Seq<MenuNodeView> {
    let status = tracking_status_label_spec(settings);
    let account = seq![MenuNodeView::Submenu { title: "Account"@, entries: account_entries(logged_in, username) }];
    let tracking = if facts.windows {
        seq![
            MenuNodeView::Submenu {
                title: "Window tracking"@,
                entries: seq![
                    MenuEntryView::Item { id: MenuId::AttachWindow, label: "Attach to window"@, enabled: true },
                    MenuEntryView::Item { id: MenuId::AttachedProcess, label: status, enabled: false },
                    MenuEntryView::Separator,
                    MenuEntryView::Check {
                        id: MenuId::HideWhenUnfocused,
                        label: "Hide when game is not in focus"@,
                        enabled: true,
                        checked: settings.hide_when_unfocused,
                    },
                ],
            },
        ]
    } else {
        Seq::empty()
    };
    let window = seq![MenuNodeView::Submenu { title: "Window behavior"@, entries: behavior_entries(settings, facts) }];
    let application = if facts.windows {
        seq![
            MenuNodeView::Submenu {
                title: "Application"@,
                entries: seq![
                    MenuEntryView::Check {
                        id: MenuId::StartWithWindows,
                        label: "Start with Windows"@,
                        enabled: true,
                        checked: facts.start_with_windows,
                    },
                ],
            },
        ]
    } else {
        Seq::empty()
    };
    let tail = seq![
        MenuNodeView::Entry(MenuEntryView::Separator),
        MenuNodeView::Entry(MenuEntryView::Item { id: MenuId::OpenSite, label: "Go to Naphwiki.com"@, enabled: true }),
        MenuNodeView::Entry(MenuEntryView::Item { id: MenuId::BecomePremium, label: "Become a premium supporter"@, enabled: true }),
        MenuNodeView::Entry(MenuEntryView::Separator),
        MenuNodeView::Entry(MenuEntryView::Item { id: MenuId::Close, label: "Close"@, enabled: true }),
    ];
    account + tracking + window + application + tail
}

fn item(id: MenuId, label: &str, enabled: bool) -> (e: MenuEntry)
    ensures
        entry_view(e) == (MenuEntryView::Item { id, label: label@, enabled }),
{
    MenuEntry::Item { id, label: String::from_str(label), enabled }
}

fn check(id: MenuId, label: &str, enabled: bool, checked: bool) -> (e: MenuEntry)
    ensures
        entry_view(e) == (MenuEntryView::Check { id, label: label@, enabled, checked }),
{
    MenuEntry::Check { id, label: String::from_str(label), enabled, checked }
}

fn account_submenu(auth: &AuthState) -> (r: MenuNode)
    ensures
        node_view(r) == (MenuNodeView::Submenu {
            title: "Account"@,
            entries: account_entries(auth.logged_in, opt_view(auth.username)),
        }),
{
    let mut entries: Vec<MenuEntry> = Vec::new();
    if auth.logged_in {
        let name = match &auth.username {
            Some(u) => normalized_username(Some(u.as_str())),
            None => normalized_username(None),
        };
        let label = match name {
            Some(name) => concat_text("Logged in as ", name.as_str()),
            None => String::from_str("Logged in"),
        };
        entries.push(MenuEntry::Item { id: MenuId::LoggedInAs, label, enabled: false });
        entries.push(MenuEntry::Separator);
        entries.push(item(MenuId::TimelineSettings, "Timeline settings", true));
        entries.push(item(MenuId::Logout, "Log out", true));
    } else {
        entries.push(item(MenuId::Login, "Login", true));
    }
    let r = MenuNode::Submenu { title: String::from_str("Account"), entries };
    assert(entries@.map_values(|e: MenuEntry| entry_view(e)) =~= account_entries(
        auth.logged_in,
        opt_view(auth.username),
    ));
    r
}

fn tracking_submenu(settings: &WindowTrackingSettings, facts: &MenuFacts) -> (r: MenuNode)
    ensures
        node_view(r) == (MenuNodeView::Submenu {
            title: "Window tracking"@,
            entries: seq![
                MenuEntryView::Item { id: MenuId::AttachWindow, label: "Attach to window"@, enabled: true },
                MenuEntryView::Item {
                    id: MenuId::AttachedProcess,
                    label: tracking_status_label_spec(settings),
                    enabled: false,
                },
                MenuEntryView::Separator,
                MenuEntryView::Check {
                    id: MenuId::HideWhenUnfocused,
                    label: "Hide when game is not in focus"@,
                    enabled: true,
                    checked: settings.hide_when_unfocused,
                },
            ],
        }),
{
    let mut entries: Vec<MenuEntry> = Vec::new();
    entries.push(item(MenuId::AttachWindow, "Attach to window", true));
    entries.push(
        MenuEntry::Item {
            id: MenuId::AttachedProcess,
            label: tracking_status_label(settings),
            enabled: false,
        },
    );
    entries.push(MenuEntry::Separator);
    entries.push(
        check(
            MenuId::HideWhenUnfocused,
            "Hide when game is not in focus",
            true,
            settings.hide_when_unfocused,
        ),
    );
    let r = MenuNode::Submenu { title: String::from_str("Window tracking"), entries };
    assert(entries@.map_values(|e: MenuEntry| entry_view(e)) =~= seq![
        MenuEntryView::Item { id: MenuId::AttachWindow, label: "Attach to window"@, enabled: true },
        MenuEntryView::Item {
            id: MenuId::AttachedProcess,
            label: tracking_status_label_spec(settings),
            enabled: false,
        },
        MenuEntryView::Separator,
        MenuEntryView::Check {
            id: MenuId::HideWhenUnfocused,
            label: "Hide when game is not in focus"@,
            enabled: true,
            checked: settings.hide_when_unfocused,
        },
    ]);
    r
}

pub open spec fn behavior_entries(settings: &WindowTrackingSettings, facts: MenuFacts) -> Seq<MenuEntryView> {
    let on_top = MenuEntryView::Check {
        id: MenuId::AlwaysOnTop,
        label: "Always on top"@,
        enabled: true,
        checked: settings.always_on_top,
    };
    if facts.windows {
        seq![
            on_top,
            MenuEntryView::Check {
                id: MenuId::ExcludeFromCapture,
                label: capture_label(facts.capture_exclusion_supported),
                enabled: facts.capture_exclusion_supported,
                checked: settings.exclude_from_capture && facts.capture_exclusion_supported,
            },
        ]
    } else {
        seq![on_top]
    }
}

fn behavior_submenu(settings: &WindowTrackingSettings, facts: &MenuFacts) -> (r: MenuNode)
    ensures
        node_view(r) == (MenuNodeView::Submenu {
            title: "Window behavior"@,
            entries: behavior_entries(settings, *facts),
        }),
{
    let mut behavior: Vec<MenuEntry> = Vec::new();
    behavior.push(check(MenuId::AlwaysOnTop, "Always on top", true, settings.always_on_top));
    if facts.windows {
        let label = if facts.capture_exclusion_supported {
            "Exclude from capture"
        } else {
            "Exclude from capture (requires Windows 10 2004+)"
        };
        behavior.push(
            check(
                MenuId::ExcludeFromCapture,
                label,
                facts.capture_exclusion_supported,
                settings.exclude_from_capture && facts.capture_exclusion_supported,
            ),
        );
    }
    let r = MenuNode::Submenu { title: String::from_str("Window behavior"), entries: behavior };
    assert(behavior@.map_values(|e: MenuEntry| entry_view(e)) =~= behavior_entries(settings, *facts));
    r
}

fn application_submenu(facts: &MenuFacts) -> (r: MenuNode)
    ensures
        node_view(r) == (MenuNodeView::Submenu {
            title: "Application"@,
            entries: seq![
                MenuEntryView::Check {
                    id: MenuId::StartWithWindows,
                    label: "Start with Windows"@,
                    enabled: true,
                    checked: facts.start_with_windows,
                },
            ],
        }),
{
    let mut application: Vec<MenuEntry> = Vec::new();
    application.push(
        check(MenuId::StartWithWindows, "Start with Windows", true, facts.start_with_windows),
    );
    let r = MenuNode::Submenu { title: String::from_str("Application"), entries: application };
    assert(application@.map_values(|e: MenuEntry| entry_view(e)) =~= seq![
        MenuEntryView::Check {
            id: MenuId::StartWithWindows,
            label: "Start with Windows"@,
            enabled: true,
            checked: facts.start_with_windows,
        },
    ]);
    r
}

fn push_node(menu: &mut Vec<MenuNode>, node: MenuNode)
    ensures
        nodes_view(final(menu)@) == nodes_view(old(menu)@).push(node_view(node)),
{
    menu.push(node);
    assert(nodes_view(menu@) =~= nodes_view(old(menu)@).push(node_view(node)));
}

/// The settings menu for the given login state, tracking settings and facts.
pub fn context_menu(auth: &AuthState, settings: &WindowTrackingSettings, facts: &MenuFacts) -> (r:
    Vec<MenuNode>)
    ensures
        nodes_view(r@) == context_menu_spec(
            auth.logged_in,
            opt_view(auth.username),
            settings,
            *facts,
        ),
{
    let mut menu: Vec<MenuNode> = Vec::new();
    assert(nodes_view(menu@) =~= Seq::<MenuNodeView>::empty());
    push_node(&mut menu, account_submenu(auth));
    if facts.windows {
        push_node(&mut menu, tracking_submenu(settings, facts));
    }
    push_node(&mut menu, behavior_submenu(settings, facts));
    if facts.windows {
        push_node(&mut menu, application_submenu(facts));
    }
    push_node(&mut menu, MenuNode::Entry(MenuEntry::Separator));
    push_node(&mut menu, MenuNode::Entry(item(MenuId::OpenSite, "Go to Naphwiki.com", true)));
    push_node(
        &mut menu,
        MenuNode::Entry(item(MenuId::BecomePremium, "Become a premium supporter", true)),
    );
    push_node(&mut menu, MenuNode::Entry(MenuEntry::Separator));
    push_node(&mut menu, MenuNode::Entry(item(MenuId::Close, "Close", true)));
    assert(nodes_view(menu@) =~= context_menu_spec(
        auth.logged_in,
        opt_view(auth.username),
        settings,
        *facts,
    ));
    menu
}

/// While logged out (also when the page's answer failed or was malformed),
/// the account submenu offers only "Login".
pub proof fn logged_out_menu_offers_login(
    username: Option<Seq<char>>,
    settings: &WindowTrackingSettings,
    facts: MenuFacts,
)
    ensures
        context_menu_spec(false, username, settings, facts)[0] == (MenuNodeView::Submenu {
            title: "Account"@,
            entries: seq![MenuEntryView::Item { id: MenuId::Login, label: "Login"@, enabled: true }],
        }),
{
}

/// While logged in, the account submenu offers the settings window and
/// "Log out", and no "Login".
pub proof fn logged_in_menu_offers_logout(username: Option<Seq<char>>)
    ensures
        ({
            let entries = account_entries(true, username);
            &&& entries.contains(
                MenuEntryView::Item { id: MenuId::Logout, label: "Log out"@, enabled: true },
            )
            &&& entries.contains(
                MenuEntryView::Item {
                    id: MenuId::TimelineSettings,
                    label: "Timeline settings"@,
                    enabled: true,
                },
            )
            &&& forall|i: int|
                0 <= i < entries.len() ==> !(#[trigger] entries[i] matches MenuEntryView::Item {
                    id: MenuId::Login,
                    ..
                })
        }),
{
    let entries = account_entries(true, username);
    assert(entries[3] == MenuEntryView::Item { id: MenuId::Logout, label: "Log out"@, enabled: true });
    assert(entries[2] == MenuEntryView::Item {
        id: MenuId::TimelineSettings,
        label: "Timeline settings"@,
        enabled: true,
    });
}

/// The menu's layout and checkmarks. With the Windows entries it holds, in
/// order: Account, Window tracking (the status line and the "hide when
/// unfocused" check from the settings), Window behavior ("always on top" from
/// the settings; capture exclusion enabled only where supported and checked
/// only where it is on and supported), Application ("Start with Windows"
/// checked exactly when starting with Windows is in effect), then the links
/// and "Close". Without them, Account, Window behavior with "always on top"
/// only, the links and "Close".
pub proof fn menu_layout_and_checks(
    logged_in: bool,
    username: Option<Seq<char>>,
    settings: &WindowTrackingSettings,
    facts: MenuFacts,
)
    ensures
        ({
            let m = context_menu_spec(logged_in, username, settings, facts);
            let on_top = MenuEntryView::Check {
                id: MenuId::AlwaysOnTop,
                label: "Always on top"@,
                enabled: true,
                checked: settings.always_on_top,
            };
            let tail = seq![
                MenuNodeView::Entry(MenuEntryView::Separator),
                MenuNodeView::Entry(MenuEntryView::Item { id: MenuId::OpenSite, label: "Go to Naphwiki.com"@, enabled: true }),
                MenuNodeView::Entry(MenuEntryView::Item { id: MenuId::BecomePremium, label: "Become a premium supporter"@, enabled: true }),
                MenuNodeView::Entry(MenuEntryView::Separator),
                MenuNodeView::Entry(MenuEntryView::Item { id: MenuId::Close, label: "Close"@, enabled: true }),
            ];
            &&& m[0] is Submenu
            &&& facts.windows ==> {
                &&& m.len() == 9
                &&& m[1] == MenuNodeView::Submenu {
                    title: "Window tracking"@,
                    entries: seq![
                        MenuEntryView::Item { id: MenuId::AttachWindow, label: "Attach to window"@, enabled: true },
                        MenuEntryView::Item {
                            id: MenuId::AttachedProcess,
                            label: tracking_status_label_spec(settings),
                            enabled: false,
                        },
                        MenuEntryView::Separator,
                        MenuEntryView::Check {
                            id: MenuId::HideWhenUnfocused,
                            label: "Hide when game is not in focus"@,
                            enabled: true,
                            checked: settings.hide_when_unfocused,
                        },
                    ],
                }
                &&& m[2] == MenuNodeView::Submenu {
                    title: "Window behavior"@,
                    entries: seq![
                        on_top,
                        MenuEntryView::Check {
                            id: MenuId::ExcludeFromCapture,
                            label: if facts.capture_exclusion_supported {
                                "Exclude from capture"@
                            } else {
                                "Exclude from capture (requires Windows 10 2004+)"@
                            },
                            enabled: facts.capture_exclusion_supported,
                            checked: settings.exclude_from_capture && facts.capture_exclusion_supported,
                        },
                    ],
                }
                &&& m[3] == MenuNodeView::Submenu {
                    title: "Application"@,
                    entries: seq![
                        MenuEntryView::Check {
                            id: MenuId::StartWithWindows,
                            label: "Start with Windows"@,
                            enabled: true,
                            checked: facts.start_with_windows,
                        },
                    ],
                }
                &&& m.subrange(4, 9) == tail
            }
            &&& !facts.windows ==> {
                &&& m.len() == 7
                &&& m[1] == MenuNodeView::Submenu { title: "Window behavior"@, entries: seq![on_top] }
                &&& m.subrange(2, 7) == tail
            }
        }),
{
    let m = context_menu_spec(logged_in, username, settings, facts);
    let tail = seq![
        MenuNodeView::Entry(MenuEntryView::Separator),
        MenuNodeView::Entry(MenuEntryView::Item { id: MenuId::OpenSite, label: "Go to Naphwiki.com"@, enabled: true }),
        MenuNodeView::Entry(MenuEntryView::Item { id: MenuId::BecomePremium, label: "Become a premium supporter"@, enabled: true }),
        MenuNodeView::Entry(MenuEntryView::Separator),
        MenuNodeView::Entry(MenuEntryView::Item { id: MenuId::Close, label: "Close"@, enabled: true }),
    ];
    if facts.windows {
        assert(m.subrange(4, 9) =~= tail);
    } else {
        assert(m.subrange(2, 7) =~= tail);
    }
}

/// While logged in, the first line names the account as it is normalized,
/// or says only "Logged in" when no name is left.
pub proof fn logged_in_line_names_the_account(username: Option<Seq<char>>)
    ensures
        account_entries(true, username)[0] == (MenuEntryView::Item {
            id: MenuId::LoggedInAs,
            label: match normalized_username_spec(username) {
                Some(name) => "Logged in as "@ + name,
                None => "Logged in"@,
            },
            enabled: false,
        }),
{
}

} // verus!
