//! Splitting a command line into a program and its arguments.
use vstd::prelude::*;

verus! {

/// Characters with the Unicode `White_Space` property.
pub open spec fn is_space(c: char) -> bool {
    ('\u{9}' <= c && c <= '\u{d}') || c == ' ' || c == '\u{85}' || c == '\u{a0}'
        || c == '\u{1680}' || ('\u{2000}' <= c && c <= '\u{200a}') || c == '\u{2028}'
        || c == '\u{2029}' || c == '\u{202f}' || c == '\u{205f}' || c == '\u{3000}'
}

/// Reading `s` from the left: the words completed so far, and the word in progress.
pub open spec fn scan(s: Seq<char>) -> (Seq<Seq<char>>, Seq<char>)
    decreases s.len(),
{
    if s.len() == 0 {
        (seq![], seq![])
    } else {
        let (done, cur) = scan(s.drop_last());
        if is_space(s.last()) {
            if cur.len() > 0 {
                (done.push(cur), seq![])
            } else {
                (done, cur)
            }
        } else {
            (done, cur.push(s.last()))
        }
    }
}

/// The maximal runs of non-space characters of `s`, in order.
pub open spec fn words(s: Seq<char>) -> Seq<Seq<char>> {
    let (done, cur) = scan(s);
    if cur.len() > 0 {
        done.push(cur)
    } else {
        done
    }
}

/// The characters of each string.
pub open spec fn views(v: Seq<String>) -> Seq<Seq<char>> {
    v.map_values(|x: String| x@)
}

/// Whether `c` is a whitespace character.
pub fn is_space_char(c: char) -> (r: bool)
    ensures
        r == is_space(c),
{
    ('\u{9}' <= c && c <= '\u{d}') || c == ' ' || c == '\u{85}' || c == '\u{a0}'
        || c == '\u{1680}' || ('\u{2000}' <= c && c <= '\u{200a}') || c == '\u{2028}'
        || c == '\u{2029}' || c == '\u{202f}' || c == '\u{205f}' || c == '\u{3000}'
}

/// The whitespace-separated words of `s`.
pub fn split_words(s: &str) -> (r: Vec<String>)
    ensures
        views(r@) == words(s@),
{
    let n = s.unicode_len();
    let mut done: Vec<String> = Vec::new();
    let mut start: usize = 0;
    let mut i: usize = 0;
    while i < n
        invariant
            n == s@.len(),
            start <= i <= n,
            views(done@) == scan(s@.take(i as int)).0,
            s@.subrange(start as int, i as int) == scan(s@.take(i as int)).1,
        decreases n - i,
    {
        let c = s.get_char(i);
        proof {
            assert(s@.take(i + 1).drop_last() =~= s@.take(i as int));
            assert(s@.take(i + 1).last() == c);
        }
        if is_space_char(c) {
            if start < i {
                let w = s.substring_char(start, i).to_owned();
                done.push(w);
                assert(views(done@) =~= scan(s@.take(i + 1)).0);
            }
            start = i + 1;
            assert(s@.subrange(start as int, i + 1) =~= Seq::<char>::empty());
        } else {
            assert(s@.subrange(start as int, i + 1) =~= s@.subrange(start as int, i as int).push(c));
        }
        i = i + 1;
    }
    assert(s@.take(n as int) =~= s@);
    if start < n {
        let w = s.substring_char(start, n).to_owned();
        done.push(w);
    }
    assert(views(done@) =~= words(s@));
    done
}

/// A command line split for execution: the program and its arguments.
#[derive(Debug)]
pub struct CommandLine {
    pub program: String,
    pub args: Vec<String>,
}

/// Why a command line cannot be run.
#[derive(Debug, PartialEq, Eq, Structural)]
pub enum CommandError {
    /// The command line holds no program name.
    EmptyCommand,
}

/// Whether `r` is the split of the command line `s`.
pub open spec fn is_split_of(r: Result<CommandLine, CommandError>, s: Seq<char>) -> bool {
    if words(s).len() == 0 {
        r == Err::<CommandLine, CommandError>(CommandError::EmptyCommand)
    } else {
        &&& r is Ok
        &&& r->Ok_0.program@ == words(s)[0]
        &&& views(r->Ok_0.args@) == words(s).drop_first()
    }
}

impl CommandError {
    /// The line that reports the error.
    pub fn report(&self) -> (r: String)
        ensures
            r@ == "Cannot run an empty command"@,
    {
        String::from_str("Cannot run an empty command")
    }
}

/// Splits a command line on whitespace: the first word names the program,
/// the others are its arguments. No quoting is interpreted.
pub fn split_command(s: &str) -> (r: Result<CommandLine, CommandError>)
    ensures
        is_split_of(r, s@),
{
    let mut parts = split_words(s);
    if parts.len() == 0 {
        return Err(CommandError::EmptyCommand);
    }
    let program = parts.remove(0);
    assert(views(parts@) =~= words(s@).drop_first());
    Ok(CommandLine { program, args: parts })
}

} // verus!
