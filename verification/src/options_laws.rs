//! What holds of command lines, of files, and of telling one tray from another.

use vstd::prelude::*;

use crate::options::{options_of, Flags};
use crate::paths::{app_file, AppFile};
use crate::process::{cut, is_tray_of, texts_of, words_of};
use crate::text::utf8_lossy;

verus! {

/// Without any flag, the tray is that of no web app, under a plain name and icon, for no window and
/// without a command line; and the end of a command line changes nothing.
pub proof fn law_flags_begin_unset(flags: Flags)
    ensures
        Flags::unset().id.len() == 0,
        Flags::unset().name == "Web App"@,
        Flags::unset().icon == "applications-internet"@,
        Flags::unset().wmclass.len() == 0,
        Flags::unset().command.len() == 0,
        flags.after(Seq::<Seq<char>>::empty()) == flags,
{
    reveal_strlit("");
}

/// The flags are five different words.
proof fn lemma_flags_differ()
    ensures
        "--id"@ != "--name"@,
        "--id"@ != "--icon"@,
        "--id"@ != "--wmclass"@,
        "--id"@ != "--exec"@,
        "--name"@ != "--icon"@,
        "--name"@ != "--wmclass"@,
        "--name"@ != "--exec"@,
        "--icon"@ != "--wmclass"@,
        "--icon"@ != "--exec"@,
        "--wmclass"@ != "--exec"@,
{
    reveal_strlit("--id");
    reveal_strlit("--name");
    reveal_strlit("--icon");
    reveal_strlit("--wmclass");
    reveal_strlit("--exec");
    assert("--id"@.len() == 4 && "--name"@.len() == 6 && "--icon"@.len() == 6 && "--exec"@.len()
        == 6 && "--wmclass"@.len() == 9);
    assert("--name"@[2] == 'n' && "--icon"@[2] == 'i' && "--exec"@[2] == 'e');
}

/// Each flag gives just its own setting the word behind it, whatever that word is and whatever was
/// set before, and the rest of the command line is read on from there.
pub proof fn law_a_flag_takes_the_next_word(flags: Flags, value: Seq<char>, rest: Seq<Seq<char>>)
    ensures
        flags.after(seq!["--id"@, value] + rest) == (Flags { id: value, ..flags }).after(rest),
        flags.after(seq!["--name"@, value] + rest) == (Flags { name: value, ..flags }).after(rest),
        flags.after(seq!["--icon"@, value] + rest) == (Flags { icon: value, ..flags }).after(rest),
        flags.after(seq!["--wmclass"@, value] + rest) == (Flags { wmclass: value, ..flags }).after(
            rest,
        ),
        flags.after(seq!["--exec"@, value] + rest) == (Flags { command: value, ..flags }).after(
            rest,
        ),
{
    lemma_flags_differ();
    let a = seq!["--id"@, value] + rest;
    let b = seq!["--name"@, value] + rest;
    let c = seq!["--icon"@, value] + rest;
    let d = seq!["--wmclass"@, value] + rest;
    let e = seq!["--exec"@, value] + rest;
    assert(a[0] == "--id"@ && a[1] == value && a.skip(2) =~= rest);
    assert(b[0] == "--name"@ && b[1] == value && b.skip(2) =~= rest);
    assert(c[0] == "--icon"@ && c[1] == value && c.skip(2) =~= rest);
    assert(d[0] == "--wmclass"@ && d[1] == value && d.skip(2) =~= rest);
    assert(e[0] == "--exec"@ && e[1] == value && e.skip(2) =~= rest);
}

/// A flag at the end of the command line empties its setting.
pub proof fn law_a_flag_at_the_end_takes_nothing(flags: Flags)
    ensures
        flags.after(seq!["--id"@]) == (Flags { id: ""@, ..flags }),
        flags.after(seq!["--name"@]) == (Flags { name: ""@, ..flags }),
        flags.after(seq!["--icon"@]) == (Flags { icon: ""@, ..flags }),
        flags.after(seq!["--wmclass"@]) == (Flags { wmclass: ""@, ..flags }),
        flags.after(seq!["--exec"@]) == (Flags { command: ""@, ..flags }),
{
    lemma_flags_differ();
}

/// Any other word is passed over.
pub proof fn law_other_words_are_passed_over(
    flags: Flags,
    word: Seq<char>,
    rest: Seq<Seq<char>>,
)
    requires
        word != "--id"@,
        word != "--name"@,
        word != "--icon"@,
        word != "--wmclass"@,
        word != "--exec"@,
    ensures
        flags.after(seq![word] + rest) == flags.after(rest),
{
    let args = seq![word] + rest;
    assert(args[0] == word);
    assert(args.skip(1) =~= rest);
}

/// The settings of a tray are what the flags say, and its files are those of its web app in the
/// runtime directory.
pub proof fn law_the_settings_are_what_the_flags_say(flags: Flags, rt: Seq<char>)
    ensures
        ({
            let opts = options_of(flags, rt);
            &&& opts.id == flags.id
            &&& opts.name == flags.name
            &&& opts.icon == flags.icon
            &&& opts.wmclass == flags.wmclass
            &&& opts.command == flags.command
            &&& opts.rt == rt
            &&& opts.unread_file == rt + "/ffwebapps-"@ + flags.id + ".unread"@
            &&& opts.hide_file == rt + "/ffwebapps-"@ + flags.id + ".hide"@
            &&& opts.show_file == rt + "/ffwebapps-"@ + flags.id + ".show"@
            &&& opts.hidden_file == rt + "/ffwebapps-"@ + flags.id + ".hidden"@
            &&& opts.running_file == rt + "/ffwebapps-"@ + flags.id + ".running"@
            &&& opts.pid_file() == rt + "/ffwebapps-tray-"@ + flags.id + ".pid"@
        }),
{
}

/// The socket, too, lies in the runtime directory under the identifier of the web app.
pub proof fn law_the_socket_is_named_after_the_app(rt: Seq<char>, id: Seq<char>)
    ensures
        app_file(rt, id, AppFile::Socket) == rt + "/ffwebapps-"@ + id + ".sock"@,
{
}

/// A process serves a web app just where its flags, behind the name of its program, give the
/// identifier of that web app; one without a command line serves none.
pub proof fn law_a_tray_is_told_by_its_flags(
    program: Seq<char>,
    args: Seq<Seq<char>>,
    id: Seq<char>,
)
    ensures
        is_tray_of(seq![program] + args, id) <==> Flags::unset().after(args).id == id,
        !is_tray_of(Seq::<Seq<char>>::empty(), id),
{
    assert((seq![program] + args).skip(1) =~= args);
}

/// Each word of a command line is read on its own, in its place.
pub proof fn law_words_are_read_one_by_one(words: Seq<Seq<u8>>)
    ensures
        texts_of(words).len() == words.len(),
        forall|i: int|
            0 <= i < words.len() ==> #[trigger] texts_of(words)[i] == utf8_lossy(words[i]),
{
}

/// A byte more in a command line ends the word that it stands behind if it is zero, and belongs to
/// that word otherwise.
pub proof fn law_a_zero_byte_ends_a_word(bytes: Seq<u8>, b: u8)
    ensures
        words_of(Seq::<u8>::empty()).len() == 0,
        cut(Seq::<u8>::empty()).1.len() == 0,
        ({
            let (words, rest) = cut(bytes);
            if b == 0 {
                &&& cut(bytes.push(b)) == (words.push(rest), Seq::<u8>::empty())
                &&& words_of(bytes.push(b)) == words.push(rest)
            } else {
                &&& cut(bytes.push(b)) == (words, rest.push(b))
                &&& words_of(bytes.push(b)) == words.push(rest.push(b))
            }
        }),
{
    assert(bytes.push(b).drop_last() =~= bytes);
}

} // verus!
