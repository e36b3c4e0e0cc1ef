//! The shell around the child: menus, panels and the close button.

use vstd::prelude::*;
use vstd::string::*;

use crate::child::filled;
use crate::dsh::Phase;
use crate::dsh::Shared;
use crate::dsh::SharedView;
use crate::paths::join_path;
use crate::paths::path_join;
use crate::runtime::Settings;
use crate::text::blank;
use crate::text::maybe_text;
use crate::text::result_of;
use crate::text::same;
use crate::watch::CloseStep;

verus! {

/// How long a start may take before the shell window comes up, in milliseconds.
pub const SLOW_START_MILLIS: u64 = 1200;

impl SharedView {
    /// The state in which the shell UI opens a panel when it loads.
    pub open spec fn wanting(self, panel: Seq<char>) -> SharedView {
        SharedView { ui_intent: Some(panel), ..self }
    }

    /// The state in which the shell UI opens no panel.
    pub open spec fn satisfied(self) -> SharedView {
        SharedView { ui_intent: None, ..self }
    }
}

/// The panel that was asked for last is the one that is handed out, and it is handed out once.
pub proof fn law_panel_once(s: SharedView, first: Seq<char>, second: Seq<char>)
    ensures
        s.wanting(first).wanting(second).ui_intent == Some(second),
        s.wanting(first).wanting(second).satisfied().ui_intent is None,
        s.wanting(first).wanting(second).satisfied() == s.satisfied(),
{
}

impl Shared {
    /// What the shell UI is told about the child.
    pub fn dsh_status(&self) -> (r: Phase)
        ensures
            r@ == self@.phase,
    {
        self.phase.clone()
    }

    /// The panel that the shell UI opens when it loads. It is handed out once.
    pub fn ui_intent(&mut self) -> (r: Option<String>)
        ensures
            maybe_text(r) == old(self)@.ui_intent,
            final(self)@ == old(self)@.satisfied(),
    {
        self.ui_intent.take()
    }

    /// The shell UI is to open a panel.
    pub fn open_shell_panel(&mut self, panel: &str)
        ensures
            final(self)@ == old(self)@.wanting(panel@),
    {
        self.ui_intent = Some(panel.to_owned());
    }

    /// Whether a start that has taken its time brings up the shell window.
    pub fn slow_start(&self) -> (r: bool)
        ensures
            r == (self@.phase is Starting),
    {
        match self.phase {
            Phase::Starting => true,
            _ => false,
        }
    }
}

/// An entry of a menu.
#[derive(Debug)]
pub struct MenuEntry {
    pub id: String,
    pub text: String,
    pub accelerator: Option<String>,
}

/// The texts of a [`MenuEntry`].
#[verifier::ext_equal]
pub struct MenuEntryView {
    pub id: Seq<char>,
    pub text: Seq<char>,
    pub accelerator: Option<Seq<char>>,
}

impl View for MenuEntry {
    type V = MenuEntryView;

    open spec fn view(&self) -> MenuEntryView {
        MenuEntryView {
            id: self.id@,
            text: self.text@,
            accelerator: maybe_text(self.accelerator),
        }
    }
}

/// The texts of the entries of a menu.
pub open spec fn menu_texts(v: Seq<MenuEntry>) -> Seq<MenuEntryView> {
    v.map_values(|e: MenuEntry| e@)
}

/// An entry without a key.
pub open spec fn plain_entry(id: Seq<char>, text: Seq<char>) -> MenuEntryView {
    MenuEntryView { id, text, accelerator: None }
}

/// The menu of the application.
pub open spec fn app_menu_entries() -> Seq<MenuEntryView> {
    seq![
        plain_entry("menu-check-update"@, "检查更新…"@),
        plain_entry("menu-install-plugin"@, "安装插件…"@),
        plain_entry("menu-restart-dsh"@, "重启 dsh"@),
        MenuEntryView {
            id: "menu-settings"@,
            text: "设置…"@,
            accelerator: Some("CmdOrCtrl+,"@),
        },
        plain_entry("menu-open-logs"@, "打开日志目录…"@),
        MenuEntryView {
            id: "menu-quit"@,
            text: "退出 dsh desktop"@,
            accelerator: Some("CmdOrCtrl+Q"@),
        },
    ]
}

/// The menu of the tray icon.
pub open spec fn tray_menu_entries() -> Seq<MenuEntryView> {
    seq![
        plain_entry("menu-tray-show"@, "显示窗口"@),
        plain_entry("menu-check-update"@, "检查更新…"@),
        plain_entry("menu-install-plugin"@, "安装插件…"@),
        plain_entry("menu-settings"@, "设置…"@),
        plain_entry("menu-open-logs"@, "打开日志目录…"@),
        plain_entry("menu-quit"@, "退出 dsh desktop"@),
    ]
}

fn entry(id: &str, text: &str) -> (r: MenuEntry)
    ensures
        r@ == plain_entry(id@, text@),
{
    MenuEntry { id: id.to_owned(), text: text.to_owned(), accelerator: None }
}

fn key_entry(id: &str, text: &str, key: &str) -> (r: MenuEntry)
    ensures
        r@ == (MenuEntryView { id: id@, text: text@, accelerator: Some(key@) }),
{
    MenuEntry { id: id.to_owned(), text: text.to_owned(), accelerator: Some(key.to_owned()) }
}

/// Makes the menu of the application.
pub fn app_menu() -> (r: Vec<MenuEntry>)
    ensures
        menu_texts(r@) == app_menu_entries(),
{
    let mut r: Vec<MenuEntry> = Vec::new();
    r.push(entry("menu-check-update", "检查更新…"));
    r.push(entry("menu-install-plugin", "安装插件…"));
    r.push(entry("menu-restart-dsh", "重启 dsh"));
    r.push(key_entry("menu-settings", "设置…", "CmdOrCtrl+,"));
    r.push(entry("menu-open-logs", "打开日志目录…"));
    r.push(key_entry("menu-quit", "退出 dsh desktop", "CmdOrCtrl+Q"));
    assert(menu_texts(r@) =~= app_menu_entries());
    r
}

/// Makes the menu of the tray icon.
pub fn tray_menu() -> (r: Vec<MenuEntry>)
    ensures
        menu_texts(r@) == tray_menu_entries(),
{
    let mut r: Vec<MenuEntry> = Vec::new();
    r.push(entry("menu-tray-show", "显示窗口"));
    r.push(entry("menu-check-update", "检查更新…"));
    r.push(entry("menu-install-plugin", "安装插件…"));
    r.push(entry("menu-settings", "设置…"));
    r.push(entry("menu-open-logs", "打开日志目录…"));
    r.push(entry("menu-quit", "退出 dsh desktop"));
    assert(menu_texts(r@) =~= tray_menu_entries());
    r
}

/// A panel of the shell window.
#[derive(Debug, Clone, Copy, PartialEq, Eq, Structural)]
pub enum Panel {
    Update,
    Plugin,
    Settings,
}

impl Panel {
    /// The name under which the shell UI knows the panel.
    pub open spec fn word(self) -> Seq<char> {
        match self {
            Panel::Update => "update"@,
            Panel::Plugin => "plugin"@,
            Panel::Settings => "settings"@,
        }
    }

    /// Names the panel.
    pub fn name(&self) -> (r: &'static str)
        ensures
            r@ == self.word(),
    {
        match self {
            Panel::Update => "update",
            Panel::Plugin => "plugin",
            Panel::Settings => "settings",
        }
    }
}

/// What an entry of a menu does.
#[derive(Debug, Clone, Copy, PartialEq, Eq, Structural)]
pub enum MenuAction {
    OpenPanel(Panel),
    OpenLogs,
    Restart,
    /// Show the main window, or the shell window where there is none.
    ShowWindow,
    Quit,
    Nothing,
}

/// What the entry with an id does.
pub open spec fn action_of(id: Seq<char>) -> MenuAction {
    if id == "menu-check-update"@ {
        MenuAction::OpenPanel(Panel::Update)
    } else if id == "menu-install-plugin"@ {
        MenuAction::OpenPanel(Panel::Plugin)
    } else if id == "menu-settings"@ {
        MenuAction::OpenPanel(Panel::Settings)
    } else if id == "menu-open-logs"@ {
        MenuAction::OpenLogs
    } else if id == "menu-restart-dsh"@ {
        MenuAction::Restart
    } else if id == "menu-tray-show"@ {
        MenuAction::ShowWindow
    } else if id == "menu-quit"@ {
        MenuAction::Quit
    } else {
        MenuAction::Nothing
    }
}

/// Decides what the entry with an id does; the two menus share their entries.
pub fn menu_action(id: &str) -> (r: MenuAction)
    ensures
        r == action_of(id@),
{
    if same(id, "menu-check-update") {
        MenuAction::OpenPanel(Panel::Update)
    } else if same(id, "menu-install-plugin") {
        MenuAction::OpenPanel(Panel::Plugin)
    } else if same(id, "menu-settings") {
        MenuAction::OpenPanel(Panel::Settings)
    } else if same(id, "menu-open-logs") {
        MenuAction::OpenLogs
    } else if same(id, "menu-restart-dsh") {
        MenuAction::Restart
    } else if same(id, "menu-tray-show") {
        MenuAction::ShowWindow
    } else if same(id, "menu-quit") {
        MenuAction::Quit
    } else {
        MenuAction::Nothing
    }
}

/// No entry of either menu is dead.
pub proof fn law_menus_live(i: int)
    ensures
        0 <= i < app_menu_entries().len() ==> !(action_of(app_menu_entries()[i].id) is Nothing),
        0 <= i < tray_menu_entries().len() ==> !(action_of(tray_menu_entries()[i].id) is Nothing),
{
}

/// The settings name for a choice in the panel that asks how to close.
pub open spec fn choice_word(quit: bool) -> Seq<char> {
    if quit {
        "quit"@
    } else {
        "background"@
    }
}

/// The settings to save for a choice in the panel that asks how to close: a choice that is to be
/// remembered changes how to close and nothing else; for any other there is nothing to save.
pub fn close_choice(settings: Settings, quit: bool, remember: bool) -> (r: Option<Settings>)
    ensures
        r is Some <==> remember,
        r matches Some(s) ==> s.close_action@ == choice_word(quit) && s == (Settings {
            close_action: s.close_action,
            ..settings
        }),
{
    if remember {
        Some(
            Settings {
                close_action: if quit {
                    "quit".to_owned()
                } else {
                    "background".to_owned()
                },
                ..settings
            },
        )
    } else {
        None
    }
}

/// What a choice in the panel that asks how to close leads to.
#[derive(Debug)]
pub enum ChoiceStep {
    /// Leave the application.
    Quit,
    /// Hide the main window and close the shell window.
    Hide,
    /// Stay as it is and return the error.
    Refuse(String),
}

/// The values of a [`ChoiceStep`].
#[verifier::ext_equal]
pub enum ChoiceStepView {
    Quit,
    Hide,
    Refuse(Seq<char>),
}

impl View for ChoiceStep {
    type V = ChoiceStepView;

    open spec fn view(&self) -> ChoiceStepView {
        match self {
            ChoiceStep::Quit => ChoiceStepView::Quit,
            ChoiceStep::Hide => ChoiceStepView::Hide,
            ChoiceStep::Refuse(e) => ChoiceStepView::Refuse(e@),
        }
    }
}

/// What a choice leads to: where it was to be remembered and could not be saved, to nothing.
pub open spec fn choice_step(quit: bool, remember: bool, saved: Result<(), Seq<char>>) -> ChoiceStepView {
    match saved {
        Err(e) if remember => ChoiceStepView::Refuse(e),
        _ => if quit {
            ChoiceStepView::Quit
        } else {
            ChoiceStepView::Hide
        },
    }
}

/// Decides what a choice leads to, once it has been saved where it was to be remembered.
pub fn choice_made(quit: bool, remember: bool, saved: Result<(), String>) -> (r: ChoiceStep)
    ensures
        r@ == choice_step(quit, remember, result_of(saved)),
{
    if remember {
        if let Err(e) = saved {
            return ChoiceStep::Refuse(e);
        }
    }
    if quit {
        ChoiceStep::Quit
    } else {
        ChoiceStep::Hide
    }
}

/// A choice that was remembered is acted on at the next close of a window of a child that is
/// ready, without asking again.
pub proof fn law_choice_kept(s: SharedView, quit: bool)
    requires
        s.phase is Ready,
    ensures
        s.close_step(choice_word(quit)) == (if quit {
            CloseStep::Quit
        } else {
            CloseStep::Hide
        }),
{
    reveal_strlit("quit");
    reveal_strlit("background");
    assert("quit"@.len() != "background"@.len());
}

/// The directory where dsh keeps its data: `DSH_HOME`, else `.dsh` in the home directory.
pub fn dsh_home_info(dsh_home: Option<&str>, home: Option<&str>) -> (r: String)
    ensures
        r@ == (match (filled(dsh_home), home) {
            (Some(dir), _) => dir,
            (None, Some(home)) => path_join(home@, ".dsh"@),
            (None, None) => "~/.dsh"@,
        }),
{
    if let Some(dir) = dsh_home {
        if !blank(dir) {
            return dir.to_owned();
        }
    }
    match home {
        Some(home) => join_path(home, ".dsh"),
        None => "~/.dsh".to_owned(),
    }
}

/// The panel that the shell UI opens is all that a wish for one changes.
pub proof fn law_panel_alone(s: SharedView, panel: Seq<char>)
    ensures
        s.wanting(panel) == (SharedView { ui_intent: Some(panel), ..s }),
        s.satisfied() == (SharedView { ui_intent: None, ..s }),
{
}

/// The menus show these entries in this order; but for the tray's first one, and the restart that the
/// tray does not offer, they show the same ones under the same ids.
pub proof fn law_menus()
    ensures
        ({
            let app = app_menu_entries();
            let tray = tray_menu_entries();
            &&& app.len() == 6
            &&& tray.len() == 6
            &&& app[0].id == "menu-check-update"@ && app[0].text == "检查更新…"@
            &&& app[1].id == "menu-install-plugin"@ && app[1].text == "安装插件…"@
            &&& app[2].id == "menu-restart-dsh"@ && app[2].text == "重启 dsh"@
            &&& app[3].id == "menu-settings"@ && app[3].text == "设置…"@
            &&& app[4].id == "menu-open-logs"@ && app[4].text == "打开日志目录…"@
            &&& app[5].id == "menu-quit"@ && app[5].text == "退出 dsh desktop"@
            &&& app[3].accelerator == Some("CmdOrCtrl+,"@)
            &&& app[5].accelerator == Some("CmdOrCtrl+Q"@)
            &&& forall|i: int|
                0 <= i < 6 && i != 3 && i != 5 ==> (#[trigger] app[i]).accelerator is None
            &&& tray[0].id == "menu-tray-show"@ && tray[0].text == "显示窗口"@
            &&& tray[1].id == app[0].id && tray[1].text == app[0].text
            &&& tray[2].id == app[1].id && tray[2].text == app[1].text
            &&& tray[3].id == app[3].id && tray[3].text == app[3].text
            &&& tray[4].id == app[4].id && tray[4].text == app[4].text
            &&& tray[5].id == app[5].id && tray[5].text == app[5].text
            &&& forall|i: int| 0 <= i < 6 ==> (#[trigger] tray[i]).accelerator is None
        }),
{
}

/// Each entry does what its text says, and an id that is in no menu does nothing.
pub proof fn law_menu_actions(id: Seq<char>)
    ensures
        action_of("menu-check-update"@) == MenuAction::OpenPanel(Panel::Update),
        action_of("menu-install-plugin"@) == MenuAction::OpenPanel(Panel::Plugin),
        action_of("menu-settings"@) == MenuAction::OpenPanel(Panel::Settings),
        action_of("menu-open-logs"@) == MenuAction::OpenLogs,
        action_of("menu-restart-dsh"@) == MenuAction::Restart,
        action_of("menu-tray-show"@) == MenuAction::ShowWindow,
        action_of("menu-quit"@) == MenuAction::Quit,
        (forall|i: int| 0 <= i < 6 ==> (#[trigger] app_menu_entries()[i]).id != id) && id
            != "menu-tray-show"@ ==> action_of(id) == MenuAction::Nothing,
{
    reveal_strlit("menu-check-update");
    reveal_strlit("menu-install-plugin");
    reveal_strlit("menu-settings");
    reveal_strlit("menu-open-logs");
    reveal_strlit("menu-restart-dsh");
    reveal_strlit("menu-tray-show");
    reveal_strlit("menu-quit");
    let app = app_menu_entries();
    assert("menu-check-update"@[5] == 'c');
    assert("menu-install-plugin"@[5] == 'i');
    assert("menu-settings"@[5] == 's');
    assert("menu-open-logs"@[5] == 'o');
    assert("menu-restart-dsh"@[5] == 'r');
    assert("menu-tray-show"@[5] == 't');
    assert("menu-quit"@[5] == 'q');
    assert(app[0].id == "menu-check-update"@ && app[1].id == "menu-install-plugin"@ && app[2].id
        == "menu-restart-dsh"@);
    assert(app[3].id == "menu-settings"@ && app[4].id == "menu-open-logs"@ && app[5].id
        == "menu-quit"@);
}

/// The panels have the names by which the shell UI knows them.
pub proof fn law_panel_words(panel: Panel)
    ensures
        panel is Update <==> panel.word() == "update"@,
        panel is Plugin <==> panel.word() == "plugin"@,
        panel is Settings <==> panel.word() == "settings"@,
{
    reveal_strlit("update");
    reveal_strlit("plugin");
    reveal_strlit("settings");
    assert("update"@[0] == 'u' && "plugin"@[0] == 'p' && "settings"@[0] == 's');
}

/// A choice is acted on as it was made, whether or not it is remembered; only one that was to be
/// remembered and could not be saved is refused, with the reason.
pub proof fn law_choice_step(quit: bool, remember: bool, e: Seq<char>)
    ensures
        choice_step(true, remember, Ok(())) is Quit,
        choice_step(false, remember, Ok(())) is Hide,
        choice_step(quit, false, Err(e)) == choice_step(quit, false, Ok(())),
        choice_step(quit, true, Err(e)) == ChoiceStepView::Refuse(e),
        choice_word(true) == "quit"@,
        choice_word(false) == "background"@,
{
}

/// An entry of a menu is shown as it is.
pub proof fn law_menu_entry_shown(x: MenuEntry)
    ensures
        x@.id == x.id@,
        x@.text == x.text@,
        x.accelerator is None ==> x@.accelerator is None,
        x.accelerator matches Some(s) ==> x@.accelerator == Some(s@),
{
}

/// What a choice leads to is shown as it is.
pub proof fn law_choice_step_shown(x: ChoiceStep)
    ensures
        x is Quit ==> x@ is Quit,
        x is Hide ==> x@ is Hide,
        x matches ChoiceStep::Refuse(e) ==> x@ == (ChoiceStepView::Refuse(e@)),
{
}

/// The entries of a menu are shown one for one and in their order.
pub proof fn law_menu_texts(v: Seq<MenuEntry>, i: int, id: Seq<char>, text: Seq<char>)
    ensures
        menu_texts(v).len() == v.len(),
        0 <= i < v.len() ==> menu_texts(v)[i] == v[i]@,
        plain_entry(id, text) == (MenuEntryView { id, text, accelerator: None }),
{
}

} // verus!
