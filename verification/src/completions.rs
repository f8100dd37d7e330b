//! Shell completions: which shell a path names and where its completion
//! scripts are installed.
use vstd::prelude::*;
use crate::ingestion::{join_path, joined_path};
use crate::text::{ascii_lower, ascii_lower_chars, split_at_char, split_chars, str_chars};

verus! {

/// The `completions` subcommands.
#[derive(Clone, Copy, Debug, PartialEq, Eq, Structural)]
pub enum CompletionCommand {
    /// Generate a bash completion script to stdout.
    Bash,
    /// Generate a zsh completion script to stdout.
    Zsh,
    /// Generate a fish completion script to stdout.
    Fish,
    /// Install completions for the detected shell into the standard user directory.
    Install,
}

/// The shells completions are made for.
#[derive(Clone, Copy, Debug, PartialEq, Eq, Structural)]
pub enum Shell {
    Bash,
    Zsh,
    Fish,
}

/// The last piece that is neither empty nor `.`.
pub open spec fn last_real_piece(pieces: Seq<Seq<char>>) -> Option<Seq<char>>
    decreases pieces.len(),
{
    if pieces.len() == 0 {
        None
    } else if pieces.last().len() == 0 || pieces.last() == seq!['.'] {
        last_real_piece(pieces.drop_last())
    } else {
        Some(pieces.last())
    }
}

/// The final component of a Unix path (std's `Path::file_name`): none for a
/// path that ends in `..` or has no normal component.
pub open spec fn file_name_of(path: Seq<char>) -> Option<Seq<char>> {
    match last_real_piece(split_at_char(path, '/')) {
        Some(n) => if n == seq!['.', '.'] { None } else { Some(n) },
        None => None,
    }
}

/// `s` with every trailing copy of the non-empty `suffix` removed
/// (std's `trim_end_matches`).
pub open spec fn strip_suffixes(s: Seq<char>, suffix: Seq<char>) -> Seq<char>
    decreases s.len(),
{
    if suffix.len() > 0 && suffix.len() <= s.len() && s.subrange(s.len() - suffix.len(), s.len() as int) == suffix {
        strip_suffixes(s.subrange(0, s.len() - suffix.len()), suffix)
    } else {
        s
    }
}

/// The shell a path names: its file name, lower-cased, without trailing `.exe`s.
pub open spec fn shell_named(path: Seq<char>) -> Option<Shell> {
    match file_name_of(path) {
        Some(n) => {
            let b = strip_suffixes(ascii_lower(n), ".exe"@);
            if b == "bash"@ { Some(Shell::Bash) } else if b == "zsh"@ { Some(Shell::Zsh) } else if b == "fish"@ { Some(Shell::Fish) } else { None }
        },
        None => None,
    }
}

fn last_real(pieces: &Vec<Vec<char>>) -> (r: Option<usize>)
    ensures
        match r {
            Some(i) => i < pieces@.len() && last_real_piece(pieces@.map_values(|p: Vec<char>| p@)) == Some(pieces@[i as int]@),
            None => last_real_piece(pieces@.map_values(|p: Vec<char>| p@)) is None,
        },
{
    let ghost all = pieces@.map_values(|p: Vec<char>| p@);
    let mut k: usize = pieces.len();
    assert(all.subrange(0, k as int) =~= all);
    while k > 0
        invariant
            k <= pieces@.len(),
            all == pieces@.map_values(|p: Vec<char>| p@),
            last_real_piece(all) == last_real_piece(all.subrange(0, k as int)),
        decreases k,
    {
        let p = &pieces[k - 1];
        let ghost pre = all.subrange(0, k as int);
        assert(pre.drop_last() =~= all.subrange(0, k - 1));
        assert(pre.last() == p@);
        let dot = p.len() == 1 && p[0] == '.';
        if p.len() > 0 && !dot {
            proof {
                if p@ == seq!['.'] {
                    assert(p@[0] == '.');
                }
            }
            return Some(k - 1);
        }
        proof {
            if p@.len() == 1 {
                assert(p@ =~= seq!['.']);
            }
        }
        k -= 1;
    }
    assert(all.subrange(0, 0) =~= Seq::<Seq<char>>::empty());
    None
}

/// The shell a path (such as `$SHELL`) names, if it is bash, zsh or fish.
pub fn shell_from_path(value: &str) -> (r: Option<Shell>)
    ensures
        r == shell_named(value@),
{
    let v = str_chars(value);
    let pieces = split_chars(v.as_slice(), '/');
    let i = match last_real(&pieces) {
        Some(i) => i,
        None => return None,
    };
    let name = &pieces[i];
    if name.len() == 2 && name[0] == '.' && name[1] == '.' {
        assert(name@ =~= seq!['.', '.']);
        return None;
    }
    proof {
        if name@ == seq!['.', '.'] {
            assert(name@[0] == '.' && name@[1] == '.');
        }
    }
    let mut text = String::new();
    let mut k: usize = 0;
    while k < name.len()
        invariant
            k <= name@.len(),
            text@ == name@.subrange(0, k as int),
        decreases name@.len() - k,
    {
        crate::text::push_char(&mut text, name[k]);
        k += 1;
        assert(text@ =~= name@.subrange(0, k as int));
    }
    assert(name@.subrange(0, k as int) =~= name@);
    let lower = ascii_lower_chars(text.as_str());
    let base = strip_exe(lower.as_slice());
    let b = base.as_slice();
    proof {
        reveal_strlit("bash");
        reveal_strlit("zsh");
        reveal_strlit("fish");
    }
    if b.len() == 4 && b[0] == 'b' && b[1] == 'a' && b[2] == 's' && b[3] == 'h' {
        assert(b@ =~= "bash"@);
        Some(Shell::Bash)
    } else if b.len() == 3 && b[0] == 'z' && b[1] == 's' && b[2] == 'h' {
        assert(b@ =~= "zsh"@);
        Some(Shell::Zsh)
    } else if b.len() == 4 && b[0] == 'f' && b[1] == 'i' && b[2] == 's' && b[3] == 'h' {
        assert(b@ =~= "fish"@);
        Some(Shell::Fish)
    } else {
        proof {
            if b@ == "bash"@ {
                assert(b@[0] == 'b' && b@[1] == 'a' && b@[2] == 's' && b@[3] == 'h');
            }
            if b@ == "zsh"@ {
                assert(b@[0] == 'z' && b@[1] == 's' && b@[2] == 'h');
            }
            if b@ == "fish"@ {
                assert(b@[0] == 'f' && b@[1] == 'i' && b@[2] == 's' && b@[3] == 'h');
            }
        }
        None
    }
}

fn strip_exe(v: &[char]) -> (r: Vec<char>)
    ensures
        r@ == strip_suffixes(v@, ".exe"@),
{
    proof {
        reveal_strlit(".exe");
        assert(".exe"@ =~= seq!['.', 'e', 'x', 'e']);
    }
    let mut end: usize = v.len();
    assert(v@.subrange(0, end as int) =~= v@);
    while end >= 4 && v[end - 4] == '.' && v[end - 3] == 'e' && v[end - 2] == 'x' && v[end - 1] == 'e'
        invariant
            end <= v@.len(),
            ".exe"@ == seq!['.', 'e', 'x', 'e'],
            strip_suffixes(v@, ".exe"@) == strip_suffixes(v@.subrange(0, end as int), ".exe"@),
        decreases end,
    {
        let ghost s = v@.subrange(0, end as int);
        assert(s.subrange(s.len() - 4, s.len() as int) =~= ".exe"@);
        assert(s.subrange(0, s.len() - 4) =~= v@.subrange(0, end - 4));
        end -= 4;
    }
    proof {
        let s = v@.subrange(0, end as int);
        if 4 <= s.len() && s.subrange(s.len() - 4, s.len() as int) == ".exe"@ {
            assert(s.subrange(s.len() - 4, s.len() as int)[0] == '.');
            assert(s.subrange(s.len() - 4, s.len() as int)[1] == 'e');
            assert(s.subrange(s.len() - 4, s.len() as int)[2] == 'x');
            assert(s.subrange(s.len() - 4, s.len() as int)[3] == 'e');
        }
    }
    let mut r: Vec<char> = Vec::new();
    let mut k: usize = 0;
    while k < end
        invariant
            end <= v@.len(),
            k <= end,
            r@ == v@.subrange(0, k as int),
        decreases end - k,
    {
        r.push(v[k]);
        k += 1;
        assert(r@ =~= v@.subrange(0, k as int));
    }
    r
}

/// The directory under `home` where a shell looks for completion scripts.
pub open spec fn install_dir_text(home: Seq<char>, shell: Shell) -> Seq<char> {
    match shell {
        Shell::Bash => joined_path(joined_path(joined_path(joined_path(home, ".local"@), "share"@), "bash-completion"@), "completions"@),
        Shell::Zsh => joined_path(joined_path(joined_path(joined_path(home, ".local"@), "share"@), "zsh"@), "site-functions"@),
        Shell::Fish => joined_path(joined_path(joined_path(home, ".config"@), "fish"@), "completions"@),
    }
}

/// The directory under `home` where `shell` looks for completion scripts.
pub fn completion_install_dir_from_home(home: &str, shell: Shell) -> (r: String)
    ensures
        r@ == install_dir_text(home@, shell),
{
    match shell {
        Shell::Bash => {
            let a = join_path(home, ".local");
            let b = join_path(a.as_str(), "share");
            let c = join_path(b.as_str(), "bash-completion");
            join_path(c.as_str(), "completions")
        },
        Shell::Zsh => {
            let a = join_path(home, ".local");
            let b = join_path(a.as_str(), "share");
            let c = join_path(b.as_str(), "zsh");
            join_path(c.as_str(), "site-functions")
        },
        Shell::Fish => {
            let a = join_path(home, ".config");
            let b = join_path(a.as_str(), "fish");
            join_path(b.as_str(), "completions")
        },
    }
}

/// The name of a shell.
pub fn shell_name(shell: Shell) -> (r: &'static str)
    ensures
        r@ == match shell {
            Shell::Bash => "bash"@,
            Shell::Zsh => "zsh"@,
            Shell::Fish => "fish"@,
        },
{
    match shell {
        Shell::Bash => "bash",
        Shell::Zsh => "zsh",
        Shell::Fish => "fish",
    }
}

} // verus!
