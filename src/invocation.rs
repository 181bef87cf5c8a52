//! Assembling the inputs of one run: the prompt and the target platform.
use vstd::prelude::*;
use crate::command::views;

verus! {

/// The words joined with single spaces.
pub open spec fn join_spaced(ws: Seq<Seq<char>>) -> Seq<char>
    decreases ws.len(),
{
    if ws.len() == 0 {
        seq![]
    } else if ws.len() == 1 {
        ws[0]
    } else {
        join_spaced(ws.drop_last()) + seq![' '] + ws.last()
    }
}

/// The platform asked for, or the host's where none was.
pub open spec fn platform_choice(flag: Option<Seq<char>>, host: Seq<char>) -> Seq<char> {
    match flag {
        Some(p) => p,
        None => host,
    }
}

/// The characters of an optional string.
pub open spec fn opt_view(s: Option<String>) -> Option<Seq<char>> {
    match s {
        Some(t) => Some(t@),
        None => None,
    }
}

/// The prompt: the words joined with single spaces. No words give the empty prompt.
pub fn join_prompt(words: &Vec<String>) -> (r: String)
    ensures
        r@ == join_spaced(views(words@)),
{
    let mut r = String::new();
    let n = words.len();
    let mut i: usize = 0;
    while i < n
        invariant
            n == words@.len(),
            i <= n,
            r@ == join_spaced(views(words@).take(i as int)),
        decreases n - i,
    {
        let ghost prev = views(words@).take(i as int);
        let ghost next = views(words@).take(i + 1);
        assert(next.drop_last() =~= prev);
        if i > 0 {
            r = r.concat(" ");
            proof {
                reveal_strlit(" ");
            }
        }
        r = r.concat(words[i].as_str());
        assert(r@ =~= join_spaced(next));
        i = i + 1;
    }
    assert(views(words@).take(n as int) =~= views(words@));
    r
}

/// The target platform: the one asked for, else the host's.
pub fn resolve_platform(flag: Option<String>, host: &str) -> (r: String)
    ensures
        r@ == platform_choice(opt_view(flag), host@),
{
    match flag {
        Some(p) => p,
        None => host.to_owned(),
    }
}

/// The inputs of one run.
pub struct Invocation {
    pub prompt: String,
    pub platform: String,
    /// Copy the command to the clipboard.
    pub copy: bool,
    /// Run the command.
    pub run: bool,
}

impl Invocation {
    /// Assembles a run from the prompt's words, the platform flag, the host's
    /// platform name and the two switches.
    pub fn new(words: &Vec<String>, platform: Option<String>, host: &str, copy: bool, run: bool) -> (r:
        Invocation)
        ensures
            r.prompt@ == join_spaced(views(words@)),
            r.platform@ == platform_choice(opt_view(platform), host@),
            r.copy == copy,
            r.run == run,
    {
        Invocation {
            prompt: join_prompt(words),
            platform: resolve_platform(platform, host),
            copy,
            run,
        }
    }
}

} // verus!
