//! Other processes, told by their command lines.

use vstd::prelude::*;

use crate::options::{options_of, parse_args, Flags};
use crate::text::{from_utf8_lossy, same_text, utf8_lossy};

verus! {

/// A command line as the system keeps it, cut at its zero bytes: the words that are complete, and
/// what stands behind the last zero byte.
pub open spec fn cut(bytes: Seq<u8>) -> (Seq<Seq<u8>>, Seq<u8>)
    decreases bytes.len(),
{
    if bytes.len() == 0 {
        (seq![], seq![])
    } else {
        let (words, rest) = cut(bytes.drop_last());
        if bytes.last() == 0 {
            (words.push(rest), seq![])
        } else {
            (words, rest.push(bytes.last()))
        }
    }
}

/// The words of a command line as the system keeps it: a zero byte ends each; the last may lack
/// it.
pub open spec fn words_of(bytes: Seq<u8>) -> Seq<Seq<u8>> {
    let (words, rest) = cut(bytes);
    if rest.len() == 0 {
        words
    } else {
        words.push(rest)
    }
}

/// A command line as the system keeps it.
pub open spec fn kept(words: Seq<Seq<u8>>) -> Seq<u8>
    decreases words.len(),
{
    if words.len() == 0 {
        seq![]
    } else {
        kept(words.drop_last()) + words.last() + seq![0u8]
    }
}

proof fn lemma_cut_behind(before: Seq<u8>, word: Seq<u8>)
    requires
        cut(before).1 == Seq::<u8>::empty(),
        !word.contains(0),
    ensures
        cut(before + word) == (cut(before).0, word),
    decreases word.len(),
{
    if word.len() == 0 {
        assert(before + word =~= before);
        assert(word =~= seq![]);
    } else {
        let shorter = word.drop_last();
        assert(!shorter.contains(0)) by {
            if shorter.contains(0) {
                let i = choose|i: int| 0 <= i < shorter.len() && shorter[i] == 0;
                assert(word[i] == 0);
            }
        }
        assert(word[word.len() - 1] != 0);
        lemma_cut_behind(before, shorter);
        assert((before + word).drop_last() =~= before + shorter);
        assert(shorter.push(word.last()) =~= word);
    }
}

/// A command line reads back as the words that it was made of.
pub proof fn law_a_command_line_reads_back(words: Seq<Seq<u8>>)
    requires
        forall|i: int| 0 <= i < words.len() ==> !(#[trigger] words[i]).contains(0),
    ensures
        cut(kept(words)) == (words, Seq::<u8>::empty()),
        words_of(kept(words)) == words,
    decreases words.len(),
{
    if words.len() > 0 {
        let shorter = words.drop_last();
        let last = words.last();
        assert forall|i: int| 0 <= i < shorter.len() implies !(#[trigger] shorter[i]).contains(
            0,
        ) by {
            assert(shorter[i] == words[i]);
        }
        law_a_command_line_reads_back(shorter);
        assert(!words[words.len() - 1].contains(0));
        lemma_cut_behind(kept(shorter), last);
        let bytes = kept(words);
        assert(bytes.drop_last() =~= kept(shorter) + last);
        assert(shorter.push(last) =~= words);
    } else {
        assert(words =~= seq![]);
    }
}

/// A list of words as text.
pub open spec fn texts_of(words: Seq<Seq<u8>>) -> Seq<Seq<char>> {
    words.map_values(|word: Seq<u8>| utf8_lossy(word))
}

/// The words of a command line as the system keeps it. Each is read as the UTF-8 that it is, where
/// it is.
pub fn command_words(bytes: &Vec<u8>) -> (r: Vec<String>)
    ensures
        r.deep_view() == texts_of(words_of(bytes@)),
        forall|i: int|
            0 <= i < r.len() && vstd::utf8::valid_utf8(words_of(bytes@)[i]) ==> (#[trigger] r[i])@
                == vstd::utf8::decode_utf8(words_of(bytes@)[i]),
{
    let mut r: Vec<String> = Vec::new();
    let mut rest: Vec<u8> = Vec::new();
    let mut i: usize = 0;
    assert(bytes@.take(0) =~= seq![]);
    while i < bytes.len()
        invariant
            i <= bytes.len(),
            cut(bytes@.take(i as int)).1 == rest@,
            cut(bytes@.take(i as int)).0.len() == r.len(),
            forall|j: int|
                0 <= j < r.len() ==> (#[trigger] r[j])@ == utf8_lossy(
                    cut(bytes@.take(i as int)).0[j],
                ) && (vstd::utf8::valid_utf8(cut(bytes@.take(i as int)).0[j]) ==> r[j]@
                    == vstd::utf8::decode_utf8(cut(bytes@.take(i as int)).0[j])),
        decreases bytes.len() - i,
    {
        assert(bytes@.take(i + 1).drop_last() =~= bytes@.take(i as int));
        if bytes[i] == 0 {
            r.push(from_utf8_lossy(rest.as_slice()));
            rest = Vec::new();
        } else {
            rest.push(bytes[i]);
        }
        i = i + 1;
    }
    assert(bytes@.take(i as int) =~= bytes@);
    if rest.len() > 0 {
        r.push(from_utf8_lossy(rest.as_slice()));
    }
    assert(r.deep_view() =~= texts_of(words_of(bytes@)));
    r
}

/// The command line of a tray of the web app `id`: whatever the program is called, its flags name
/// that web app.
pub open spec fn is_tray_of(words: Seq<Seq<char>>, id: Seq<char>) -> bool {
    words.len() > 0 && Flags::unset().after(words.skip(1)).id == id
}

/// Whether a command line is that of a tray of the web app `id`.
pub fn serves_app(words: &Vec<String>, id: &str) -> (r: bool)
    ensures
        r == is_tray_of(words.deep_view(), id@),
{
    if words.len() == 0 {
        return false;
    }
    let mut args: Vec<String> = Vec::new();
    let mut i: usize = 1;
    while i < words.len()
        invariant
            1 <= i <= words.len(),
            args.deep_view() == words.deep_view().subrange(1, i as int),
        decreases words.len() - i,
    {
        let ghost before = args.deep_view();
        args.push(words[i].clone());
        assert(args.deep_view() =~= before.push(words.deep_view()[i as int]));
        i = i + 1;
        assert(args.deep_view() =~= words.deep_view().subrange(1, i as int));
    }
    assert(args.deep_view() =~= words.deep_view().skip(1));
    let opts = parse_args(&args, "");
    same_text(opts.id.as_str(), id)
}

/// Every tray is known by its command line as the tray of the web app that it serves, under
/// whatever name it was started.
pub proof fn law_every_tray_is_recognised(program: Seq<char>, args: Seq<Seq<char>>, rt: Seq<char>)
    ensures
        is_tray_of(seq![program] + args, options_of(Flags::unset().after(args), rt).id),
{
    assert((seq![program] + args).skip(1) =~= args);
}

} // verus!
