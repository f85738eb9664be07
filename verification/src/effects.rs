//! What the tray does to the world outside, as a list to be carried out in order.

use vstd::prelude::*;

verus! {

/// One thing to be done. Whether it succeeds is not asked.
pub enum Effect {
    /// Add a line to the log.
    Log(String),
    /// Print a line for the user.
    Complain(String),
    /// Write a file, over an earlier one.
    Write(String, String),
    /// Remove a file.
    Remove(String),
    /// Have KWin run a script.
    Script(String),
    /// Start a program with its arguments, and leave it to itself.
    Start(Vec<String>),
    /// Run a program with its arguments to its end.
    Call(Vec<String>),
    /// Have the icon drawn anew.
    Refresh,
    /// Wait for some milliseconds.
    Sleep(u64),
    /// End the process with a status.
    Exit(i32),
}

/// The model of an `Effect`.
pub ghost enum Deed {
    Log(Seq<char>),
    Complain(Seq<char>),
    Write(Seq<char>, Seq<char>),
    Remove(Seq<char>),
    Script(Seq<char>),
    Start(Seq<Seq<char>>),
    Call(Seq<Seq<char>>),
    Refresh,
    Sleep(u64),
    Exit(i32),
}

impl DeepView for Effect {
    type V = Deed;

    open spec fn deep_view(&self) -> Deed {
        match self {
            Effect::Log(line) => Deed::Log(line@),
            Effect::Complain(line) => Deed::Complain(line@),
            Effect::Write(path, contents) => Deed::Write(path@, contents@),
            Effect::Remove(path) => Deed::Remove(path@),
            Effect::Script(script) => Deed::Script(script@),
            Effect::Start(words) => Deed::Start(words.deep_view()),
            Effect::Call(words) => Deed::Call(words.deep_view()),
            Effect::Refresh => Deed::Refresh,
            Effect::Sleep(millis) => Deed::Sleep(*millis),
            Effect::Exit(status) => Deed::Exit(*status),
        }
    }
}

/// The files, by path, after one deed that succeeds.
pub open spec fn files_after_one(
    files: Map<Seq<char>, Seq<char>>,
    deed: Deed,
) -> Map<Seq<char>, Seq<char>> {
    match deed {
        Deed::Write(path, contents) => files.insert(path, contents),
        Deed::Remove(path) => files.remove(path),
        _ => files,
    }
}

/// The files, by path, after deeds that all succeed. The log and the files that scripts pass
/// through are not among them.
pub open spec fn files_after(
    files: Map<Seq<char>, Seq<char>>,
    deeds: Seq<Deed>,
) -> Map<Seq<char>, Seq<char>>
    decreases deeds.len(),
{
    if deeds.len() == 0 {
        files
    } else {
        files_after_one(files_after(files, deeds.drop_last()), deeds.last())
    }
}

/// Deeds done one list after the other are done as one list.
pub proof fn lemma_files_after_both(
    files: Map<Seq<char>, Seq<char>>,
    first: Seq<Deed>,
    second: Seq<Deed>,
)
    ensures
        files_after(files, first + second) == files_after(files_after(files, first), second),
    decreases second.len(),
{
    if second.len() == 0 {
        assert(first + second =~= first);
    } else {
        lemma_files_after_both(files, first, second.drop_last());
        assert((first + second).drop_last() =~= first + second.drop_last());
    }
}

/// Two lists of effects as one.
pub fn followed_by(first: Vec<Effect>, second: Vec<Effect>) -> (r: Vec<Effect>)
    ensures
        r.deep_view() == first.deep_view() + second.deep_view(),
{
    let mut r = first;
    let mut rest = second;
    r.append(&mut rest);
    assert(r.deep_view() =~= first.deep_view() + second.deep_view());
    r
}

} // verus!
