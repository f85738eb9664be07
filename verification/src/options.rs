//! The command line of the tray.

use vstd::prelude::*;

use crate::paths::{app_file, app_file_path, AppFile};
use crate::text::same_text;

verus! {

/// What a tray is told on its command line, and the files that follow from it.
pub struct Options {
    pub id: String,
    pub name: String,
    pub icon: String,
    pub wmclass: String,
    pub command: String,
    pub rt: String,
    pub unread_file: String,
    pub hide_file: String,
    pub show_file: String,
    pub hidden_file: String,
    pub running_file: String,
}

/// The values of the flags on a command line.
pub ghost struct Flags {
    pub id: Seq<char>,
    pub name: Seq<char>,
    pub icon: Seq<char>,
    pub wmclass: Seq<char>,
    pub command: Seq<char>,
}

impl Flags {
    /// The values of flags that are not given.
    pub open spec fn unset() -> Flags {
        Flags {
            id: ""@,
            name: "Web App"@,
            icon: "applications-internet"@,
            wmclass: ""@,
            command: ""@,
        }
    }

    /// With `value` for `flag`; unchanged where there is no such flag.
    pub open spec fn with(self, flag: Seq<char>, value: Seq<char>) -> Flags {
        if flag == "--id"@ {
            Flags { id: value, ..self }
        } else if flag == "--name"@ {
            Flags { name: value, ..self }
        } else if flag == "--icon"@ {
            Flags { icon: value, ..self }
        } else if flag == "--wmclass"@ {
            Flags { wmclass: value, ..self }
        } else if flag == "--exec"@ {
            Flags { command: value, ..self }
        } else {
            self
        }
    }

    /// After the rest of a command line. A flag takes the next argument as its value, whatever
    /// that is, and an empty one at the end of the line; other arguments are passed over.
    pub open spec fn after(self, args: Seq<Seq<char>>) -> Flags
        decreases args.len(),
    {
        if args.len() == 0 {
            self
        } else if !is_flag(args[0]) {
            self.after(args.skip(1))
        } else if args.len() == 1 {
            self.with(args[0], ""@)
        } else {
            self.with(args[0], args[1]).after(args.skip(2))
        }
    }
}

/// Whether an argument is one of the flags.
pub open spec fn is_flag(arg: Seq<char>) -> bool {
    arg == "--id"@ || arg == "--name"@ || arg == "--icon"@ || arg == "--wmclass"@ || arg
        == "--exec"@
}

/// The options that flags stand for, with files in the runtime directory `rt`.
pub open spec fn options_of(flags: Flags, rt: Seq<char>) -> OptionsModel {
    OptionsModel {
        id: flags.id,
        name: flags.name,
        icon: flags.icon,
        wmclass: flags.wmclass,
        command: flags.command,
        rt,
        unread_file: app_file(rt, flags.id, AppFile::Unread),
        hide_file: app_file(rt, flags.id, AppFile::Hide),
        show_file: app_file(rt, flags.id, AppFile::Show),
        hidden_file: app_file(rt, flags.id, AppFile::Hidden),
        running_file: app_file(rt, flags.id, AppFile::Running),
    }
}

/// The model of `Options`.
pub ghost struct OptionsModel {
    pub id: Seq<char>,
    pub name: Seq<char>,
    pub icon: Seq<char>,
    pub wmclass: Seq<char>,
    pub command: Seq<char>,
    pub rt: Seq<char>,
    pub unread_file: Seq<char>,
    pub hide_file: Seq<char>,
    pub show_file: Seq<char>,
    pub hidden_file: Seq<char>,
    pub running_file: Seq<char>,
}

impl OptionsModel {
    /// The files are those of the web app `id` in the runtime directory.
    pub open spec fn well_formed(self) -> bool {
        &&& self.unread_file == app_file(self.rt, self.id, AppFile::Unread)
        &&& self.hide_file == app_file(self.rt, self.id, AppFile::Hide)
        &&& self.show_file == app_file(self.rt, self.id, AppFile::Show)
        &&& self.hidden_file == app_file(self.rt, self.id, AppFile::Hidden)
        &&& self.running_file == app_file(self.rt, self.id, AppFile::Running)
    }

    /// The file that holds the tray's process number.
    pub open spec fn pid_file(self) -> Seq<char> {
        app_file(self.rt, self.id, AppFile::TrayPid)
    }
}

impl View for Options {
    type V = OptionsModel;

    open spec fn view(&self) -> OptionsModel {
        OptionsModel {
            id: self.id@,
            name: self.name@,
            icon: self.icon@,
            wmclass: self.wmclass@,
            command: self.command@,
            rt: self.rt@,
            unread_file: self.unread_file@,
            hide_file: self.hide_file@,
            show_file: self.show_file@,
            hidden_file: self.hidden_file@,
            running_file: self.running_file@,
        }
    }
}

/// Reads a command line, without the name of the program, for the runtime directory `rt`.
pub fn parse_args(args: &Vec<String>, rt: &str) -> (r: Options)
    ensures
        r@ == options_of(Flags::unset().after(args.deep_view()), rt@),
        r@.well_formed(),
{
    let mut id = "".to_owned();
    let mut name = "Web App".to_owned();
    let mut icon = "applications-internet".to_owned();
    let mut wmclass = "".to_owned();
    let mut command = "".to_owned();
    let ghost all = args.deep_view();
    let mut i: usize = 0;
    assert(all.skip(0) =~= all);
    while i < args.len()
        invariant
            i <= args.len(),
            all == args.deep_view(),
            Flags::unset().after(all) == (Flags {
                id: id@,
                name: name@,
                icon: icon@,
                wmclass: wmclass@,
                command: command@,
            }).after(all.skip(i as int)),
        decreases args.len() - i,
    {
        let ghost before = Flags {
            id: id@,
            name: name@,
            icon: icon@,
            wmclass: wmclass@,
            command: command@,
        };
        let ghost rest = all.skip(i as int);
        let flag = args[i].as_str();
        assert(rest[0] == flag@);
        assert(rest.skip(1) =~= all.skip(i + 1));
        let known = same_text(flag, "--id") || same_text(flag, "--name") || same_text(
            flag,
            "--icon",
        ) || same_text(flag, "--wmclass") || same_text(flag, "--exec");
        if !known {
            i = i + 1;
        } else {
            let value = if i + 1 < args.len() {
                assert(rest[1] == args[i + 1]@);
                assert(rest.skip(2) =~= all.skip(i + 2));
                args[i + 1].clone()
            } else {
                "".to_owned()
            };
            let ghost given = value@;
            if same_text(flag, "--id") {
                id = value;
            } else if same_text(flag, "--name") {
                name = value;
            } else if same_text(flag, "--icon") {
                icon = value;
            } else if same_text(flag, "--wmclass") {
                wmclass = value;
            } else {
                command = value;
            }
            assert((Flags { id: id@, name: name@, icon: icon@, wmclass: wmclass@, command: command@ })
                == before.with(flag@, given)) by {
                reveal_strlit("--id");
                reveal_strlit("--name");
                reveal_strlit("--icon");
                reveal_strlit("--wmclass");
                reveal_strlit("--exec");
            }
            if i + 1 < args.len() {
                i = i + 2;
            } else {
                assert(all.skip(i + 1) =~= Seq::empty());
                i = i + 1;
            }
        }
    }
    assert(all.skip(i as int) =~= Seq::empty());
    let unread_file = app_file_path(rt, id.as_str(), AppFile::Unread);
    let hide_file = app_file_path(rt, id.as_str(), AppFile::Hide);
    let show_file = app_file_path(rt, id.as_str(), AppFile::Show);
    let hidden_file = app_file_path(rt, id.as_str(), AppFile::Hidden);
    let running_file = app_file_path(rt, id.as_str(), AppFile::Running);
    Options {
        id,
        name,
        icon,
        wmclass,
        command,
        rt: rt.to_owned(),
        unread_file,
        hide_file,
        show_file,
        hidden_file,
        running_file,
    }
}

} // verus!
