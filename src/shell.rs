//! The shells whose environment can be captured, and the commands that
//! capture it.
use vstd::prelude::*;
use crate::framing::{decode_utf8_lossy, utf8_lossy};
use crate::text::{trim, trim_whitespace};

verus! {

#[derive(Clone, Copy, Debug, PartialEq, Eq, Hash, Structural)]
pub enum ShellKind {
    Powershell,
    Cmd,
    Nushell,
    GitBash,
    Wsl,
}

/// The shells on offer: PowerShell, cmd and Nushell always, then Git Bash
/// and WSL where they were found.
pub fn detect_shells(git_bash_found: bool, wsl_found: bool) -> (r: Vec<ShellKind>)
    ensures
        r@ == seq![ShellKind::Powershell, ShellKind::Cmd, ShellKind::Nushell] + (if git_bash_found {
            seq![ShellKind::GitBash]
        } else {
            Seq::empty()
        }) + (if wsl_found {
            seq![ShellKind::Wsl]
        } else {
            Seq::empty()
        }),
{
    let mut shells = vec![ShellKind::Powershell, ShellKind::Cmd, ShellKind::Nushell];
    if git_bash_found {
        shells.push(ShellKind::GitBash);
    }
    if wsl_found {
        shells.push(ShellKind::Wsl);
    }
    proof {
        assert(shells@ =~= seq![ShellKind::Powershell, ShellKind::Cmd, ShellKind::Nushell] + (
        if git_bash_found {
            seq![ShellKind::GitBash]
        } else {
            Seq::empty()
        }) + (if wsl_found {
            seq![ShellKind::Wsl]
        } else {
            Seq::empty()
        }));
    }
    shells
}

/// Why the environment of a shell cannot be captured.
#[derive(Clone, Copy, Debug, PartialEq, Eq, Structural)]
pub enum ShellError {
    GitBashNotFound,
    WslUnavailable,
}

/// A program and its arguments.
pub struct ShellCommand {
    pub program: String,
    pub args: Vec<String>,
}

fn strings(parts: &[&str]) -> (r: Vec<String>)
    ensures
        r@.len() == parts@.len(),
        forall|i: int| 0 <= i < parts@.len() ==> #[trigger] r@[i]@ == parts@[i]@,
{
    let mut out: Vec<String> = Vec::new();
    let mut i: usize = 0;
    while i < parts.len()
        invariant
            i <= parts@.len(),
            out@.len() == i,
            forall|j: int| 0 <= j < i ==> #[trigger] out@[j]@ == parts@[j]@,
        decreases parts@.len() - i,
    {
        out.push(String::from_str(parts[i]));
        i = i + 1;
    }
    out
}

/// The arguments, as texts, of a command.
pub open spec fn arg_texts(args: Seq<String>) -> Seq<Seq<char>> {
    args.map_values(|a: String| a@)
}

/// The command that prints the environment of `shell`: Git Bash runs from
/// where it was found (`git_bash`), WSL in its default distribution
/// (`wsl_distro`).
pub fn capture_env(shell: ShellKind, git_bash: Option<&str>, wsl_distro: Option<&str>) -> (r: Result<
    ShellCommand,
    ShellError,
>)
    ensures
        shell == ShellKind::GitBash && git_bash is None ==> r == Err::<ShellCommand, ShellError>(
            ShellError::GitBashNotFound,
        ),
        shell == ShellKind::Wsl && wsl_distro is None ==> r == Err::<ShellCommand, ShellError>(
            ShellError::WslUnavailable,
        ),
        r matches Ok(c) ==> match shell {
            ShellKind::Powershell => c.program@ == "powershell"@ && arg_texts(c.args@) == seq![
                "-NoProfile"@,
                "-Command"@,
                "Get-ChildItem Env:"@,
            ],
            ShellKind::Cmd => c.program@ == "cmd"@ && arg_texts(c.args@) == seq!["/C"@, "set"@],
            ShellKind::Nushell => c.program@ == "nu"@ && arg_texts(c.args@) == seq![
                "-c"@,
                "print $env"@,
            ],
            ShellKind::GitBash => git_bash matches Some(p) && c.program@ == p@ && arg_texts(
                c.args@,
            ) == seq!["--login"@, "-i"@, "-c"@, "env"@],
            ShellKind::Wsl => wsl_distro matches Some(d) && c.program@ == "wsl"@ && arg_texts(
                c.args@,
            ) == seq!["-d"@, d@, "env"@],
        },
        (shell != ShellKind::GitBash || git_bash is Some) && (shell != ShellKind::Wsl
            || wsl_distro is Some) ==> r is Ok,
{
    let (program, args): (&str, Vec<String>) = match shell {
        ShellKind::Powershell => ("powershell", strings(&["-NoProfile", "-Command", "Get-ChildItem Env:"])),
        ShellKind::Cmd => ("cmd", strings(&["/C", "set"])),
        ShellKind::Nushell => ("nu", strings(&["-c", "print $env"])),
        ShellKind::GitBash => match git_bash {
            Some(p) => (p, strings(&["--login", "-i", "-c", "env"])),
            None => return Err(ShellError::GitBashNotFound),
        },
        ShellKind::Wsl => match wsl_distro {
            Some(d) => ("wsl", strings(&["-d", d, "env"])),
            None => return Err(ShellError::WslUnavailable),
        },
    };
    let command = ShellCommand { program: String::from_str(program), args };
    proof {
        assert(arg_texts(command.args@) =~= arg_texts(command.args@));
    }
    Ok(command)
}

/// Index of the first `=` in `line`, or its length when it has none.
pub open spec fn first_equals(line: Seq<u8>) -> int
    decreases line.len(),
{
    if line.len() == 0 {
        0
    } else if line[0] == 0x3d {
        0
    } else {
        1 + first_equals(line.drop_first())
    }
}

/// The environment after one output line: a line `key=value` (split at its
/// first `=`) sets the trimmed key to the trimmed value, both decoded as
/// UTF-8 with invalid bytes replaced; lines without `=` or with an empty key
/// change nothing.
pub open spec fn add_line(env: Map<Seq<char>, Seq<char>>, line: Seq<u8>) -> Map<Seq<char>, Seq<char>> {
    let i = first_equals(line);
    let key = trim_whitespace(utf8_lossy(line.subrange(0, i)));
    let value = trim_whitespace(utf8_lossy(line.subrange(i + 1, line.len() as int)));
    if i >= line.len() || key.len() == 0 {
        env
    } else {
        env.insert(key, value)
    }
}

/// The environment that the output `out` describes, read from the line that
/// starts at `start`, whose bytes up to `pos` contain no newline, on top of
/// `env`. Lines end at `\n`.
pub open spec fn env_scan(out: Seq<u8>, start: int, pos: int, env: Map<Seq<char>, Seq<char>>) -> Map<
    Seq<char>,
    Seq<char>,
>
    decreases out.len() - pos,
{
    if pos >= out.len() {
        add_line(env, out.subrange(start, out.len() as int))
    } else if out[pos] == 0x0a {
        env_scan(out, pos + 1, pos + 1, add_line(env, out.subrange(start, pos)))
    } else {
        env_scan(out, start, pos + 1, env)
    }
}

/// The environment that the output of an environment listing describes.
pub open spec fn env_of_output(out: Seq<u8>) -> Map<Seq<char>, Seq<char>> {
    env_scan(out, 0, 0, Map::empty())
}

/// The map that a list of entries makes when they are inserted one after
/// another: a later entry for a key overrides an earlier one.
pub open spec fn entries_map(entries: Seq<(String, String)>) -> Map<Seq<char>, Seq<char>>
    decreases entries.len(),
{
    if entries.len() == 0 {
        Map::empty()
    } else {
        entries_map(entries.drop_last()).insert(entries.last().0@, entries.last().1@)
    }
}

fn first_equals_index(line: &[u8]) -> (r: usize)
    ensures
        r == first_equals(line@),
        r <= line@.len(),
{
    let mut i: usize = 0;
    assert(line@.subrange(0, line@.len() as int) =~= line@);
    while i < line.len() && line[i] != 0x3d
        invariant
            i <= line@.len(),
            first_equals(line@) == i + first_equals(line@.subrange(i as int, line@.len() as int)),
        decreases line@.len() - i,
    {
        assert(line@.subrange(i as int, line@.len() as int).drop_first() =~= line@.subrange(
            i + 1,
            line@.len() as int,
        ));
        i = i + 1;
    }
    proof {
        lemma_first_equals_bound(line@);
    }
    i
}

proof fn lemma_first_equals_bound(line: Seq<u8>)
    ensures
        0 <= first_equals(line) <= line.len(),
    decreases line.len(),
{
    if line.len() > 0 && line[0] != 0x3d {
        lemma_first_equals_bound(line.drop_first());
    }
}

fn add_output_line(env: &mut Vec<(String, String)>, line: &[u8])
    ensures
        entries_map(final(env)@) == add_line(entries_map(old(env)@), line@),
{
    let i = first_equals_index(line);
    if i >= line.len() {
        return;
    }
    let key_text = decode_utf8_lossy(&line[0..i]);
    let value_text = decode_utf8_lossy(&line[i + 1..line.len()]);
    let key = trim(key_text.as_str());
    let value = trim(value_text.as_str());
    if key.is_empty() {
        return;
    }
    let ghost before = env@;
    env.push((String::from_str(key), String::from_str(value)));
    proof {
        assert(env@.drop_last() =~= before);
    }
}

/// Reads the output of an environment listing (`KEY=value` lines): the
/// entries come in the order of their lines, and inserted one after another
/// they give the environment that the output describes.
pub fn parse_env_output(bytes: &[u8]) -> (r: Vec<(String, String)>)
    ensures
        entries_map(r@) == env_of_output(bytes@),
{
    let mut env: Vec<(String, String)> = Vec::new();
    let mut start: usize = 0;
    let mut pos: usize = 0;
    while pos < bytes.len()
        invariant
            start <= pos <= bytes@.len(),
            env_scan(bytes@, start as int, pos as int, entries_map(env@)) == env_of_output(bytes@),
        decreases bytes@.len() - pos,
    {
        if bytes[pos] == 0x0a {
            add_output_line(&mut env, &bytes[start..pos]);
            start = pos + 1;
        }
        pos = pos + 1;
    }
    add_output_line(&mut env, &bytes[start..bytes.len()]);
    env
}

} // verus!
