//! The text of a desktop entry that launches a game client through this
//! program.

use vstd::prelude::*;
use vstd::string::StringExecFns;

use crate::text::{join, join_spec, strings_view};

verus! {

/// The words of the command that a desktop entry runs.
pub open spec fn exec_words(
    session_name: Option<Seq<char>>,
    character_id: Seq<char>,
    exec: Seq<char>,
    args: Seq<Seq<char>>,
) -> Seq<Seq<char>> {
    let head = seq!["auth-rs"@, "exec"@];
    let named = match session_name {
        Some(s) => head + seq!["--session-name"@, s],
        None => head,
    };
    let with_program = named + seq!["--character-id"@, character_id, exec];
    if args.len() == 0 {
        with_program
    } else {
        with_program + seq!["--"@] + args
    }
}

/// The command line that a desktop entry runs: this program's `exec`
/// subcommand with the session name, the character and the program, and the
/// program's arguments after `--` where there are any.
pub fn build_exec_command(
    session_name: &Option<String>,
    character_id: &str,
    exec: &str,
    args: &[String],
) -> (r: String)
    ensures
        r@ == join_spec(
            exec_words(
                match session_name {
                    Some(s) => Some(s@),
                    None => None,
                },
                character_id@,
                exec@,
                strings_view(args@),
            ),
            " "@,
        ),
{
    let mut exec_cmd: Vec<String> = Vec::new();
    exec_cmd.push("auth-rs".to_owned());
    exec_cmd.push("exec".to_owned());
    if let Some(session) = session_name {
        exec_cmd.push("--session-name".to_owned());
        exec_cmd.push(session.clone());
    }
    exec_cmd.push("--character-id".to_owned());
    exec_cmd.push(character_id.to_owned());
    exec_cmd.push(exec.to_owned());
    let ghost fixed = strings_view(exec_cmd@);
    if args.len() > 0 {
        exec_cmd.push("--".to_owned());
        let ghost base = strings_view(exec_cmd@);
        let mut i: usize = 0;
        while i < args.len()
            invariant
                i <= args.len(),
                strings_view(exec_cmd@) == base + strings_view(args@).take(i as int),
            decreases args.len() - i,
        {
            let ghost prev = exec_cmd@;
            let a = args[i].clone();
            exec_cmd.push(a);
            assert(strings_view(exec_cmd@) =~= strings_view(prev).push(args@[i as int]@));
            assert(strings_view(args@).take(i + 1) =~= strings_view(args@).take(i as int).push(
                args@[i as int]@,
            ));
            assert(strings_view(exec_cmd@) =~= base + strings_view(args@).take(i + 1));
            i = i + 1;
        }
        assert(strings_view(args@).take(args.len() as int) =~= strings_view(args@));
    }
    assert(strings_view(exec_cmd@) =~= exec_words(
        match session_name {
            Some(s) => Some(s@),
            None => None,
        },
        character_id@,
        exec@,
        strings_view(args@),
    ));
    join(&exec_cmd, " ")
}

/// The text of a desktop entry named `name` that runs `exec_command`.
pub open spec fn desktop_entry_spec(name: Seq<char>, exec_command: Seq<char>) -> Seq<char> {
    "[Desktop Entry]\nName="@ + name + "\nComment=Launch RuneLite\nExec="@ + exec_command
        + "\nIcon=runelite\nTerminal=false\nType=Application\nCategories=Game;\n"@
}

/// The text of a desktop entry.
pub fn desktop_entry_contents(name: &str, exec_command: &str) -> (r: String)
    ensures
        r@ == desktop_entry_spec(name@, exec_command@),
{
    let mut contents = "[Desktop Entry]\nName=".to_owned();
    contents.append(name);
    contents.append("\nComment=Launch RuneLite\nExec=");
    contents.append(exec_command);
    contents.append("\nIcon=runelite\nTerminal=false\nType=Application\nCategories=Game;\n");
    contents
}

/// Whether Unicode counts a character as alphabetic or numeric.
pub uninterp spec fn is_alphanumeric_of(c: char) -> bool;

/// Relies on `char::is_alphanumeric`.
#[verifier::external_body]
fn is_alphanumeric(c: char) -> (r: bool)
    ensures
        r == is_alphanumeric_of(c),
{
    c.is_alphanumeric()
}

/// The lowercase form of a text.
pub uninterp spec fn lowercase_of(s: Seq<char>) -> Seq<char>;

/// Relies on `str::to_lowercase`: the result depends on the characters alone.
#[verifier::external_body]
fn lowercase(s: &str) -> (r: String)
    ensures
        r@ == lowercase_of(s@),
{
    s.to_lowercase()
}

/// Relies on `String::from_iter` over characters: the same characters, in
/// order.
#[verifier::external_body]
fn string_from_chars(v: &Vec<char>) -> (r: String)
    ensures
        r@ == v@,
{
    String::from_iter(v.iter())
}

/// A character kept in a file name, or its stand-in.
pub open spec fn file_char(c: char) -> char {
    if is_alphanumeric_of(c) || c == '-' || c == '_' {
        c
    } else {
        '_'
    }
}

/// The file name of a desktop entry: the entry's name with every character
/// but letters, digits, `-` and `_` turned into `_`, in lowercase, with the
/// `.desktop` extension.
pub open spec fn desktop_file_name_spec(name: Seq<char>) -> Seq<char> {
    lowercase_of(name.map_values(|c: char| file_char(c))) + ".desktop"@
}

/// The file name of a desktop entry.
pub fn desktop_file_name(name: &str) -> (r: String)
    ensures
        r@ == desktop_file_name_spec(name@),
{
    let n: usize = name.unicode_len();
    let mut kept: Vec<char> = Vec::new();
    let mut i: usize = 0;
    while i < n
        invariant
            i <= n,
            n == name@.len(),
            kept@ == name@.take(i as int).map_values(|c: char| file_char(c)),
        decreases n - i,
    {
        let c = name.get_char(i);
        let k = if is_alphanumeric(c) || c == '-' || c == '_' {
            c
        } else {
            '_'
        };
        kept.push(k);
        assert(name@.take(i + 1).map_values(|c: char| file_char(c)) =~= name@.take(
            i as int,
        ).map_values(|c: char| file_char(c)).push(file_char(c)));
        i = i + 1;
    }
    assert(name@.take(n as int) =~= name@);
    let sanitized = string_from_chars(&kept);
    let mut file_name = lowercase(sanitized.as_str());
    file_name.append(".desktop");
    file_name
}

} // verus!
