//! Where the agent and its tools are looked for: the names that a program
//! may have, and the search path of an application that was started without
//! the user's shell.

use crate::text::{join, joined, owned, push_text, texts};
use vstd::prelude::*;

verus! {

/// The names under which the program `bin` may be installed where programs
/// carry an ending, in the order in which they are tried.
pub fn program_candidates(bin: &str) -> (r: Vec<String>)
    ensures
        texts(r@) == seq![bin@ + ".cmd"@, bin@ + ".exe"@],
{
    let mut cmd = owned(bin);
    push_text(&mut cmd, ".cmd");
    let mut exe = owned(bin);
    push_text(&mut exe, ".exe");
    let mut r: Vec<String> = Vec::new();
    let ghost views = seq![cmd@, exe@];
    r.push(cmd);
    r.push(exe);
    assert(texts(r@) =~= views);
    r
}

/// The view of an optional string slice.
pub open spec fn opt_path(s: Option<&str>) -> Option<Seq<char>> {
    match s {
        Some(s) => Some(s@),
        None => None,
    }
}

/// The user's home directory: the one that is set, else the profile
/// directory, else the directory of the user's name, else that of an unknown
/// user.
pub open spec fn home_or_guess(
    home: Option<Seq<char>>,
    profile: Option<Seq<char>>,
    user: Option<Seq<char>>,
) -> Seq<char> {
    match home {
        Some(h) => h,
        None => match profile {
            Some(p) => p,
            None => match user {
                Some(u) => "/Users/"@ + u,
                None => "/Users/unknown"@,
            },
        },
    }
}

/// The user's home directory, from what the environment sets of it.
pub fn guess_home(home: Option<&str>, profile: Option<&str>, user: Option<&str>) -> (r: String)
    ensures
        r@ == home_or_guess(opt_path(home), opt_path(profile), opt_path(user)),
{
    match home {
        Some(h) => owned(h),
        None => match profile {
            Some(p) => owned(p),
            None => match user {
                Some(u) => {
                    let mut r = owned("/Users/");
                    push_text(&mut r, u);
                    r
                },
                None => owned("/Users/unknown"),
            },
        },
    }
}

/// The directories in which tools are commonly installed, for the home
/// directory `home`.
pub open spec fn tool_dirs(home: Seq<char>) -> Seq<Seq<char>> {
    seq![
        "/opt/homebrew/bin"@,
        "/opt/homebrew/sbin"@,
        "/usr/local/bin"@,
        "/usr/local/sbin"@,
        "/usr/local/share/npm/bin"@,
        home + "/.local/bin"@,
        home + "/.volta/bin"@,
        home + "/.fnm/aliases/default/bin"@,
        home + "/.cargo/bin"@,
        home + "/.bun/bin"@,
    ]
}

/// `base` followed by `rest`.
fn under(base: &str, rest: &str) -> (r: String)
    ensures
        r@ == base@ + rest@,
{
    let mut r = owned(base);
    push_text(&mut r, rest);
    r
}

/// Appends `dir` to `dirs`.
fn push_dir(dirs: &mut Vec<String>, dir: String)
    ensures
        texts(final(dirs)@) == texts(old(dirs)@).push(dir@),
{
    dirs.push(dir);
    assert(texts(dirs@) =~= texts(old(dirs)@).push(dir@));
}

/// The directories in which tools are commonly installed, for the home
/// directory `home`.
pub fn common_tool_dirs(home: &str) -> (r: Vec<String>)
    ensures
        texts(r@) == tool_dirs(home@),
{
    let mut r: Vec<String> = Vec::new();
    assert(texts(r@) =~= Seq::<Seq<char>>::empty());
    push_dir(&mut r, owned("/opt/homebrew/bin"));
    push_dir(&mut r, owned("/opt/homebrew/sbin"));
    push_dir(&mut r, owned("/usr/local/bin"));
    push_dir(&mut r, owned("/usr/local/sbin"));
    push_dir(&mut r, owned("/usr/local/share/npm/bin"));
    push_dir(&mut r, under(home, "/.local/bin"));
    push_dir(&mut r, under(home, "/.volta/bin"));
    push_dir(&mut r, under(home, "/.fnm/aliases/default/bin"));
    push_dir(&mut r, under(home, "/.cargo/bin"));
    push_dir(&mut r, under(home, "/.bun/bin"));
    assert(texts(r@) =~= tool_dirs(home@));
    r
}

/// The directory of the node version manager: the one that is set, or the
/// one in the home directory.
pub fn nvm_dir(set: Option<&str>, home: &str) -> (r: String)
    ensures
        r@ == match set {
            Some(d) => d@,
            None => home@ + "/.nvm"@,
        },
{
    match set {
        Some(d) => owned(d),
        None => under(home, "/.nvm"),
    }
}

/// The directory that holds the node versions of the version manager in
/// `nvm`.
pub fn nvm_versions_dir(nvm: &str) -> (r: String)
    ensures
        r@ == nvm@ + "/versions/node"@,
{
    under(nvm, "/versions/node")
}

/// The default alias of the version manager in `nvm`.
pub fn nvm_default_alias(nvm: &str) -> (r: String)
    ensures
        r@ == nvm@ + "/alias/default"@,
{
    under(nvm, "/alias/default")
}

/// The search path that puts the directories `extra` before the search path
/// `current`.
pub fn enriched_path(extra: &Vec<String>, current: &str) -> (r: String)
    ensures
        r@ == joined(texts(extra@).push(current@), ":"@),
{
    let mut all: Vec<String> = Vec::new();
    let mut i: usize = 0;
    assert(texts(all@) =~= texts(extra@).take(0));
    while i < extra.len()
        invariant
            i <= extra.len(),
            texts(all@) == texts(extra@).take(i as int),
        decreases extra.len() - i,
    {
        let ghost before = texts(all@);
        let dir = owned(extra[i].as_str());
        all.push(dir);
        assert(texts(all@) =~= before.push(dir@));
        assert(texts(extra@).take(i + 1) =~= before.push(extra@[i as int]@));
        i += 1;
    }
    assert(texts(extra@).take(extra.len() as int) =~= texts(extra@));
    push_dir(&mut all, owned(current));
    join(&all, ":")
}

/// The editors that are tried for a file, in order: the one asked for, or
/// the two that are commonly installed.
pub fn editor_candidates(editor: Option<&str>) -> (r: Vec<String>)
    ensures
        texts(r@) == match editor {
            Some(e) => seq![e@],
            None => seq!["code"@, "cursor"@],
        },
{
    let mut r: Vec<String> = Vec::new();
    assert(texts(r@) =~= Seq::<Seq<char>>::empty());
    match editor {
        Some(e) => {
            push_dir(&mut r, owned(e));
            assert(texts(r@) =~= seq![e@]);
        },
        None => {
            push_dir(&mut r, owned("code"));
            push_dir(&mut r, owned("cursor"));
            assert(texts(r@) =~= seq!["code"@, "cursor"@]);
        },
    }
    r
}

} // verus!
