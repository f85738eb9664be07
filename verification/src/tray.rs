//! The tray of one web app: its icon, its clicks, and how long it lives.

use vstd::prelude::*;
use vstd::string::StringExecFns;

use crate::effects::{followed_by, Deed, Effect};
use crate::kwin::{plan_for, script_text, set_window_hidden};
use crate::options::{Options, OptionsModel};
use crate::paths::tray_pidfile;
use crate::text::{
    contains_text, decimal, decimal_text, i32_of, parse_i32, parse_u32, signed_decimal, signed_text,
    trim, trimmed, u32_of,
};

verus! {

/// The process number in a file, if it can be read and holds one.
pub open spec fn pid_of(contents: Option<Seq<char>>) -> Option<i32> {
    match contents {
        Some(text) => i32_of(trimmed(text)),
        None => None,
    }
}

/// The number of unread messages in a file; none where the file does not tell.
pub open spec fn unread_of(contents: Option<Seq<char>>) -> u32 {
    match contents {
        Some(text) => match u32_of(trimmed(text)) {
            Some(unread) => unread,
            None => 0,
        },
        None => 0,
    }
}

/// The directory that is there while the process `pid` is.
pub open spec fn process_dir(pid: i32) -> Seq<char> {
    "/proc/"@ + signed_text(pid as int)
}

/// A file with these contents holds the number of a process, and that process is alive, if
/// `present` are the paths that exist.
pub open spec fn alive(contents: Option<Seq<char>>, present: Seq<Seq<char>>) -> bool {
    match pid_of(contents) {
        Some(pid) => present.contains(process_dir(pid)),
        None => false,
    }
}

/// The process number in a file with these contents.
pub fn read_pid(contents: Option<&str>) -> (r: Option<i32>)
    ensures
        r == pid_of(contents.deep_view()),
{
    match contents {
        Some(text) => parse_i32(trim(text)),
        None => None,
    }
}

/// The number of unread messages in a file with these contents.
pub fn read_unread(contents: Option<&str>) -> (r: u32)
    ensures
        r == unread_of(contents.deep_view()),
{
    match contents {
        Some(text) => match parse_u32(trim(text)) {
            Some(unread) => unread,
            None => 0,
        },
        None => 0,
    }
}

/// The directory that is there while the process is whose number stands in a file.
pub fn process_path(contents: Option<&str>) -> (r: Option<String>)
    ensures
        r.deep_view() == (match pid_of(contents.deep_view()) {
            Some(pid) => Some(process_dir(pid)),
            None => None,
        }),
{
    match read_pid(contents) {
        Some(pid) => {
            let mut path = "/proc/".to_owned();
            path.append(signed_decimal(pid).as_str());
            Some(path)
        },
        None => None,
    }
}

/// Whether the process is alive whose number stands in a file, if `present` are the paths that
/// exist.
pub fn pid_alive(contents: Option<&str>, present: &Vec<String>) -> (r: bool)
    ensures
        r == alive(contents.deep_view(), present.deep_view()),
{
    match process_path(contents) {
        Some(path) => contains_text(present, path.as_str()),
        None => false,
    }
}

/// Whether the window is marked as hidden, if `present` are the paths that exist.
pub fn is_hidden(opts: &Options, present: &Vec<String>) -> (r: bool)
    ensures
        r == present.deep_view().contains(opts@.hidden_file),
{
    contains_text(present, opts.hidden_file.as_str())
}

/// Running the script for the window, where there is one.
pub open spec fn script_deeds(
    opts: OptionsModel,
    hidden: bool,
) -> Seq<Deed> {
    if opts.wmclass.len() == 0 {
        seq![]
    } else {
        seq![
            Deed::Script(
                script_text(opts.wmclass, plan_for(hidden)),
            ),
        ]
    }
}

/// Hiding the window: the script, then the mark.
pub open spec fn hide_deeds(opts: OptionsModel) -> Seq<Deed> {
    script_deeds(opts, true) + seq![Deed::Write(opts.hidden_file, "1"@)]
}

/// Showing the window: the script, then the mark is gone.
pub open spec fn show_deeds(opts: OptionsModel) -> Seq<Deed> {
    script_deeds(opts, false) + seq![Deed::Remove(opts.hidden_file)]
}

/// Removing what the tray leaves behind.
pub open spec fn cleanup_deeds(opts: OptionsModel) -> Seq<Deed> {
    seq![
        Deed::Remove(opts.unread_file),
        Deed::Remove(opts.hide_file),
        Deed::Remove(opts.show_file),
        Deed::Remove(opts.hidden_file),
        Deed::Remove(opts.pid_file()),
    ]
}

/// A click on the icon: start the web app where it is not running, and toggle its window where it
/// is.
pub open spec fn activate_deeds(
    opts: OptionsModel,
    running: Option<Seq<char>>,
    present: Seq<Seq<char>>,
) -> Seq<Deed> {
    if !alive(running, present) {
        seq![
            Deed::Log("activate: not running -> launch"@),
            Deed::Start(seq!["sh"@, "-c"@, opts.command]),
            Deed::Remove(opts.hidden_file),
        ]
    } else if present.contains(opts.hidden_file) {
        seq![Deed::Log("activate: show"@)] + show_deeds(opts)
    } else {
        seq![Deed::Log("activate: hide"@)] + hide_deeds(opts)
    }
}

/// How long a runtime that was asked to end is waited for, in milliseconds.
pub const QUIT_MILLIS: u64 = 5000;

/// A signal for a process.
pub open spec fn signal(name: Seq<char>, pid: i32) -> Deed {
    Deed::Call(seq!["kill"@, name, signed_text(pid as int)])
}

/// The first half of quitting: where the runtime's process number is known, ask it to end and give
/// it time.
pub open spec fn quit_deeds(running: Option<Seq<char>>) -> Seq<Deed> {
    match pid_of(running) {
        Some(pid) => seq![
            Deed::Log("quit: terminating runtime"@),
            signal("-TERM"@, pid),
            Deed::Sleep(QUIT_MILLIS),
        ],
        None => seq![Deed::Log("quit: terminating runtime"@)],
    }
}

/// Ending a runtime that is still there.
pub open spec fn force_deeds(running: Option<Seq<char>>, present: Seq<Seq<char>>) -> Seq<Deed> {
    if alive(running, present) {
        seq![signal("-KILL"@, pid_of(running)->0)]
    } else {
        seq![]
    }
}

/// The second half of quitting: end the runtime where it is still there, clean up, and end the
/// tray.
pub open spec fn quit_end_deeds(
    opts: OptionsModel,
    running: Option<Seq<char>>,
    present: Seq<Seq<char>>,
) -> Seq<Deed> {
    force_deeds(running, present) + cleanup_deeds(opts) + seq![Deed::Exit(0)]
}

/// A signal for a process.
fn send(name: &str, pid: i32) -> (r: Effect)
    ensures
        r.deep_view() == signal(name@, pid),
{
    let words = vec!["kill".to_owned(), name.to_owned(), signed_decimal(pid)];
    assert(words.deep_view() =~= seq!["kill"@, name@, signed_text(pid as int)]);
    Effect::Call(words)
}

fn script_effects(opts: &Options, hidden: bool) -> (r: Vec<Effect>)
    ensures
        r.deep_view() == script_deeds(opts@, hidden),
{
    let r = match set_window_hidden(opts.wmclass.as_str(), hidden) {
        Some(script) => vec![Effect::Script(script)],
        None => Vec::new(),
    };
    assert(r.deep_view() =~= script_deeds(opts@, hidden));
    r
}

/// Hides the window off-screen and marks it as hidden. The mark is a file, so it outlives the
/// tray.
pub fn hide_window(opts: &Options) -> (r: Vec<Effect>)
    ensures
        r.deep_view() == hide_deeds(opts@),
{
    let mut r = script_effects(opts, true);
    r.push(Effect::Write(opts.hidden_file.clone(), "1".to_owned()));
    assert(r.deep_view() =~= hide_deeds(opts@));
    r
}

/// Restores and focuses the window, and takes the mark away.
pub fn show_window(opts: &Options) -> (r: Vec<Effect>)
    ensures
        r.deep_view() == show_deeds(opts@),
{
    let mut r = script_effects(opts, false);
    r.push(Effect::Remove(opts.hidden_file.clone()));
    assert(r.deep_view() =~= show_deeds(opts@));
    r
}

/// Removes the files of the web app that the tray answers for.
pub fn cleanup(opts: &Options) -> (r: Vec<Effect>)
    ensures
        r.deep_view() == cleanup_deeds(opts@),
{
    let r = vec![
        Effect::Remove(opts.unread_file.clone()),
        Effect::Remove(opts.hide_file.clone()),
        Effect::Remove(opts.show_file.clone()),
        Effect::Remove(opts.hidden_file.clone()),
        Effect::Remove(tray_pidfile(opts.rt.as_str(), opts.id.as_str())),
    ];
    assert(r.deep_view() =~= cleanup_deeds(opts@));
    r
}

/// What the icon shows beside the options.
#[derive(Clone, Copy, Debug, PartialEq, Eq, Structural)]
pub struct State {
    pub unread: u32,
}

/// The icon of one web app.
pub struct AppTray {
    pub opts: Options,
    pub state: State,
}

/// The text that the icon shows under the pointer.
pub struct ToolTip {
    pub icon_name: String,
    pub title: String,
    pub description: String,
}

/// How much attention the icon asks for.
#[derive(Clone, Copy, Debug, PartialEq, Eq, Structural)]
pub enum Status {
    Passive,
    Active,
    NeedsAttention,
}

/// What an entry of the menu does.
#[derive(Clone, Copy, Debug, PartialEq, Eq, Structural)]
pub enum MenuAction {
    Activate,
    Quit,
}

/// An entry of the menu.
pub enum MenuEntry {
    Item { label: String, icon_name: String, action: MenuAction },
    Separator,
}

/// The model of a `MenuEntry`.
pub ghost enum MenuEntryModel {
    Item { label: Seq<char>, icon_name: Seq<char>, action: MenuAction },
    Separator,
}

impl DeepView for MenuEntry {
    type V = MenuEntryModel;

    open spec fn deep_view(&self) -> MenuEntryModel {
        match self {
            MenuEntry::Item { label, icon_name, action } => MenuEntryModel::Item {
                label: label@,
                icon_name: icon_name@,
                action: *action,
            },
            MenuEntry::Separator => MenuEntryModel::Separator,
        }
    }
}

/// The name of the tray item.
pub open spec fn item_name(opts: OptionsModel) -> Seq<char> {
    "ffwebapps-"@ + opts.id
}

/// A single click on the icon.
pub open spec fn click_deeds(
    opts: OptionsModel,
    running: Option<Seq<char>>,
    present: Seq<Seq<char>>,
) -> Seq<Deed> {
    seq![Deed::Log("ksni activate() (single click)"@)] + activate_deeds(opts, running, present)
}

/// The menu of the icon.
pub open spec fn menu_entries(opts: OptionsModel) -> Seq<MenuEntryModel> {
    seq![
        MenuEntryModel::Item {
            label: "Open"@,
            icon_name: opts.icon,
            action: MenuAction::Activate,
        },
        MenuEntryModel::Separator,
        MenuEntryModel::Item {
            label: "Quit"@,
            icon_name: "application-exit"@,
            action: MenuAction::Quit,
        },
    ]
}

/// What the icon says of unread messages under the pointer.
pub open spec fn unread_note(unread: u32) -> Seq<char> {
    if unread > 0 {
        decimal_text(unread as nat) + " unread"@
    } else {
        ""@
    }
}

/// The icon that is laid over the icon of the web app, if any is.
pub open spec fn badge(unread: u32) -> Seq<char> {
    if unread > 0 {
        "mail-unread"@
    } else {
        ""@
    }
}

impl AppTray {
    /// A click: toggles the window, or starts the web app where it is not running. `running` are
    /// the contents of the file that holds the runtime's process number, and `present` the paths
    /// that exist.
    pub fn activate_app(&self, running: Option<&str>, present: &Vec<String>) -> (r: Vec<Effect>)
        ensures
            r.deep_view() == activate_deeds(
                self.opts@,
                running.deep_view(),
                present.deep_view(),
            ),
    {
        let r = if !pid_alive(running, present) {
            let words = vec!["sh".to_owned(), "-c".to_owned(), self.opts.command.clone()];
            assert(words.deep_view() =~= seq!["sh"@, "-c"@, self.opts@.command]);
            vec![
                Effect::Log("activate: not running -> launch".to_owned()),
                Effect::Start(words),
                Effect::Remove(self.opts.hidden_file.clone()),
            ]
        } else if is_hidden(&self.opts, present) {
            followed_by(vec![Effect::Log("activate: show".to_owned())], show_window(&self.opts))
        } else {
            followed_by(vec![Effect::Log("activate: hide".to_owned())], hide_window(&self.opts))
        };
        assert(r.deep_view() =~= activate_deeds(
            self.opts@,
            running.deep_view(),
            present.deep_view(),
        ));
        r
    }

    /// Quitting the whole web app begins: the runtime is asked to end, and given time to do so.
    /// `running` are the contents of the file that holds the runtime's process number.
    pub fn quit_app(&self, running: Option<&str>) -> (r: Vec<Effect>)
        ensures
            r.deep_view() == quit_deeds(running.deep_view()),
    {
        let line = Effect::Log("quit: terminating runtime".to_owned());
        let r = match read_pid(running) {
            Some(pid) => vec![line, send("-TERM", pid), Effect::Sleep(QUIT_MILLIS)],
            None => vec![line],
        };
        assert(r.deep_view() =~= quit_deeds(running.deep_view()));
        r
    }

    /// Quitting the whole web app ends: a runtime that is still there is ended whatever it does,
    /// then what is left behind is removed, and the tray ends. `running` is what quitting began
    /// with, and `present` are the paths that exist by now.
    pub fn quit_end(&self, running: Option<&str>, present: &Vec<String>) -> (r: Vec<Effect>)
        ensures
            r.deep_view() == quit_end_deeds(
                self.opts@,
                running.deep_view(),
                present.deep_view(),
            ),
    {
        let mut force = Vec::new();
        if pid_alive(running, present) {
            if let Some(pid) = read_pid(running) {
                force.push(send("-KILL", pid));
            }
        }
        assert(force.deep_view() =~= force_deeds(running.deep_view(), present.deep_view()));
        let mut r = followed_by(force, cleanup(&self.opts));
        r.push(Effect::Exit(0));
        assert(r.deep_view() =~= quit_end_deeds(
            self.opts@,
            running.deep_view(),
            present.deep_view(),
        ));
        r
    }

    /// The name of the icon.
    pub fn icon_name(&self) -> (r: String)
        ensures
            r@ == self.opts@.icon,
    {
        self.opts.icon.clone()
    }

    /// The name of the tray item.
    pub fn id(&self) -> (r: String)
        ensures
            r@ == item_name(self.opts@),
    {
        let mut r = "ffwebapps-".to_owned();
        r.append(self.opts.id.as_str());
        r
    }

    /// The title of the tray item.
    pub fn title(&self) -> (r: String)
        ensures
            r@ == self.opts@.name,
    {
        self.opts.name.clone()
    }

    /// The text under the pointer, with the number of unread messages where there are any.
    pub fn tool_tip(&self) -> (r: ToolTip)
        ensures
            r.icon_name@ == self.opts@.icon,
            r.title@ == self.opts@.name,
            r.description@ == unread_note(self.state.unread),
    {
        let description = if self.state.unread > 0 {
            let mut text = decimal(self.state.unread);
            text.append(" unread");
            text
        } else {
            "".to_owned()
        };
        ToolTip {
            icon_name: self.opts.icon.clone(),
            title: self.opts.name.clone(),
            description,
        }
    }

    /// The badge on the icon: there is one while there are unread messages.
    pub fn overlay_icon_name(&self) -> (r: String)
        ensures
            r@ == badge(self.state.unread),
    {
        if self.state.unread > 0 {
            "mail-unread".to_owned()
        } else {
            "".to_owned()
        }
    }

    /// The icon is always there and never asks for attention.
    pub fn status(&self) -> (r: Status)
        ensures
            r == Status::Active,
    {
        Status::Active
    }

    /// A single click on the icon.
    pub fn activate(&self, running: Option<&str>, present: &Vec<String>) -> (r: Vec<Effect>)
        ensures
            r.deep_view() == click_deeds(self.opts@, running.deep_view(), present.deep_view()),
    {
        let r = followed_by(
            vec![Effect::Log("ksni activate() (single click)".to_owned())],
            self.activate_app(running, present),
        );
        assert(r.deep_view() =~= seq![
            Deed::Log("ksni activate() (single click)"@),
        ] + activate_deeds(self.opts@, running.deep_view(), present.deep_view()));
        r
    }

    /// The menu of the icon: open and quit.
    pub fn menu(&self) -> (r: Vec<MenuEntry>)
        ensures
            r.deep_view() == menu_entries(self.opts@),
    {
        let r = vec![
            MenuEntry::Item {
                label: "Open".to_owned(),
                icon_name: self.opts.icon.clone(),
                action: MenuAction::Activate,
            },
            MenuEntry::Separator,
            MenuEntry::Item {
                label: "Quit".to_owned(),
                icon_name: "application-exit".to_owned(),
                action: MenuAction::Quit,
            },
        ];
        assert(r.deep_view() =~= seq![
            MenuEntryModel::Item {
                label: "Open"@,
                icon_name: self.opts@.icon,
                action: MenuAction::Activate,
            },
            MenuEntryModel::Separator,
            MenuEntryModel::Item {
                label: "Quit"@,
                icon_name: "application-exit"@,
                action: MenuAction::Quit,
            },
        ]);
        r
    }
}

} // verus!
