//! Shell words and the command lines that the library writes.

use crate::error::ErrorView;
use crate::error::Result;
use crate::error::SandboxError;
use crate::numeral::decimal;
use crate::numeral::digits;
use crate::numeral::to_decimal;
use crate::numeral::to_octal;
use crate::text::chars_of;
use crate::text::join;
use crate::text::joined;
use crate::text::last_index;
use crate::text::replace;
use crate::text::replaced;
use crate::text::same;
use crate::text::string_of_range;
use crate::text::views;
use crate::vm::opt_view;
use vstd::prelude::*;

verus! {

// ---------------------------------------------------------------------------
// How a POSIX shell reads a word
// ---------------------------------------------------------------------------
/// Where a shell is in a word.
pub enum Quoting {
    Bare,
    Single,
    Double,
}

/// What a POSIX shell takes a text for, as one word: text in quotes stands for itself, and
/// outside quotes a backslash makes the next character stand for itself. `None` where the text is
/// not one word of this kind.
pub open spec fn read_word(s: Seq<char>, quoting: Quoting) -> Option<Seq<char>>
    decreases s.len(),
{
    if s.len() == 0 {
        match quoting {
            Quoting::Bare => Some(Seq::empty()),
            _ => None,
        }
    } else {
        let c = s[0];
        let rest = s.drop_first();
        match quoting {
            Quoting::Bare => if c == '\'' {
                read_word(rest, Quoting::Single)
            } else if c == '"' {
                read_word(rest, Quoting::Double)
            } else if c == '\\' && rest.len() > 0 {
                before_word(rest[0], read_word(rest.drop_first(), Quoting::Bare))
            } else {
                None
            },
            Quoting::Single => if c == '\'' {
                read_word(rest, Quoting::Bare)
            } else {
                before_word(c, read_word(rest, Quoting::Single))
            },
            Quoting::Double => if c == '"' {
                read_word(rest, Quoting::Bare)
            } else if c == '\\' || c == '$' || c == '`' {
                None
            } else {
                before_word(c, read_word(rest, Quoting::Double))
            },
        }
    }
}

/// A word with a character before it.
pub open spec fn before_word(c: char, word: Option<Seq<char>>) -> Option<Seq<char>> {
    match word {
        Some(w) => Some(seq![c] + w),
        None => None,
    }
}

// ---------------------------------------------------------------------------
// Quoting
// ---------------------------------------------------------------------------
/// A value in single quotes, each quote in it written in double quotes.
pub open spec fn single_quoted(value: Seq<char>) -> Seq<char> {
    "'"@ + replaced(value, "'"@, "'\"'\"'"@) + "'"@
}

/// A value in single quotes, each quote in it written with a backslash.
pub open spec fn quoted(value: Seq<char>) -> Seq<char> {
    "'"@ + replaced(value, "'"@, "'\\''"@) + "'"@
}

/// A value as one shell word.
pub fn shell_single_quote(value: &str) -> (r: String)
    ensures
        r@ == single_quoted(value@),
{
    proof {
        reveal_strlit("'");
    }
    let inner = replace(value, "'", "'\"'\"'");
    "'".to_owned().concat(&inner).concat("'")
}

/// A value as one shell word.
pub fn shell_quote(value: &str) -> (r: String)
    ensures
        r@ == quoted(value@),
{
    proof {
        reveal_strlit("'");
    }
    let inner = replace(value, "'", "'\\''");
    "'".to_owned().concat(&inner).concat("'")
}

/// Inside single quotes, with each quote of `value` written as `escape`, a shell reads `value`.
proof fn lemma_read_escaped(value: Seq<char>, escape: Seq<char>, rest: Seq<char>)
    requires
        escape == "'\"'\"'"@ || escape == "'\\''"@,
    ensures
        read_word(replaced(value, "'"@, escape) + rest, Quoting::Single) == match read_word(
            rest,
            Quoting::Single,
        ) {
            Some(w) => Some(value + w),
            None => None,
        },
    decreases value.len(),
{
    reveal_strlit("'");
    reveal_strlit("'\"'\"'");
    reveal_strlit("'\\''");
    let quote = "'"@;
    if value.len() == 0 {
        assert(replaced(value, quote, escape) + rest =~= rest);
        match read_word(rest, Quoting::Single) {
            Some(w) => {
                assert(value + w =~= w);
            },
            None => {},
        }
    } else {
        let tail = value.drop_first();
        lemma_read_escaped(tail, escape, rest);
        let inner = replaced(tail, quote, escape) + rest;
        let whole = replaced(value, quote, escape) + rest;
        if value[0] == '\'' {
            assert(quote.is_prefix_of(value)) by {
                assert(value.subrange(0, 1) =~= quote);
            }
            assert(value.skip(1) =~= tail);
            assert(whole =~= escape + inner);
            if escape == "'\"'\"'"@ {
                // ' " ' " ' : close, open double quotes, a quote, close them, open single quotes.
                let a1 = whole.drop_first();
                let a2 = a1.drop_first();
                let a3 = a2.drop_first();
                let a4 = a3.drop_first();
                let a5 = a4.drop_first();
                assert(whole[0] == '\'' && a1[0] == '"' && a2[0] == '\'' && a3[0] == '"' && a4[0]
                    == '\'');
                assert(a5 =~= inner);
                assert(read_word(whole, Quoting::Single) == read_word(a1, Quoting::Bare));
                assert(read_word(a1, Quoting::Bare) == read_word(a2, Quoting::Double));
                assert(read_word(a2, Quoting::Double) == before_word(
                    '\'',
                    read_word(a3, Quoting::Double),
                ));
                assert(read_word(a3, Quoting::Double) == read_word(a4, Quoting::Bare));
                assert(read_word(a4, Quoting::Bare) == read_word(a5, Quoting::Single));
            } else {
                // ' \ ' ' : close, a quote after a backslash, open single quotes.
                let a1 = whole.drop_first();
                let a2 = a1.drop_first();
                let a3 = a2.drop_first();
                let a4 = a3.drop_first();
                assert(whole[0] == '\'' && a1[0] == '\\' && a2[0] == '\'' && a3[0] == '\'');
                assert(a4 =~= inner);
                assert(read_word(whole, Quoting::Single) == read_word(a1, Quoting::Bare));
                assert(read_word(a1, Quoting::Bare) == before_word(
                    '\'',
                    read_word(a3, Quoting::Bare),
                ));
                assert(read_word(a3, Quoting::Bare) == read_word(a4, Quoting::Single));
            }
        } else {
            assert(!quote.is_prefix_of(value)) by {
                if quote.is_prefix_of(value) {
                    assert(quote[0] == value[0]);
                }
            }
            assert(whole =~= seq![value[0]] + inner);
            assert(whole.drop_first() =~= inner);
        }
        match read_word(rest, Quoting::Single) {
            Some(w) => {
                assert(seq![value[0]] + (tail + w) =~= value + w);
            },
            None => {},
        }
    }
}

/// A shell reads a quoted value back as the value, whichever way it was quoted.
pub proof fn law_shell_reads_quoted_value_back(value: Seq<char>)
    ensures
        read_word(single_quoted(value), Quoting::Bare) == Some(value),
        read_word(quoted(value), Quoting::Bare) == Some(value),
{
    reveal_strlit("'");
    let close = "'"@;
    assert(close.drop_first() =~= Seq::<char>::empty());
    assert(read_word(close, Quoting::Single) == read_word(Seq::<char>::empty(), Quoting::Bare));
    assert(read_word(close, Quoting::Single) == Some(Seq::<char>::empty()));
    assert(value + Seq::<char>::empty() =~= value);
    let a = single_quoted(value);
    lemma_read_escaped(value, "'\"'\"'"@, close);
    assert(a.drop_first() =~= replaced(value, "'"@, "'\"'\"'"@) + close);
    assert(a[0] == '\'');
    let b = quoted(value);
    lemma_read_escaped(value, "'\\''"@, close);
    assert(b.drop_first() =~= replaced(value, "'"@, "'\\''"@) + close);
    assert(b[0] == '\'');
}

/// Each word quoted.
pub open spec fn quoted_all(words: Seq<Seq<char>>) -> Seq<Seq<char>> {
    words.map_values(|w: Seq<char>| quoted(w))
}

/// The words of a command line, each quoted.
pub fn shell_words_join(words: &Vec<String>) -> (r: String)
    ensures
        r@ == joined(quoted_all(views(words@)), " "@),
{
    let mut parts: Vec<String> = Vec::new();
    let ghost all = quoted_all(views(words@));
    let mut i: usize = 0;
    while i < words.len()
        invariant
            i <= words@.len(),
            all == quoted_all(views(words@)),
            views(parts@) == all.take(i as int),
        decreases words@.len() - i,
    {
        let ghost before = views(parts@);
        parts.push(shell_quote(&words[i]));
        i += 1;
        assert(views(parts@) =~= before.push(all[i - 1]));
        assert(all.take(i as int) =~= all.take(i - 1).push(all[i - 1]));
    }
    assert(all.take(all.len() as int) =~= all);
    join(&parts, " ")
}

/// A command as a login shell runs it.
pub fn shell_command(shell: &str, command: &str) -> (r: String)
    ensures
        r@ == quoted(shell@) + " -lc "@ + quoted(command@),
{
    let command = shell_quote(command);
    shell_quote(shell).concat(" -lc ").concat(&command)
}

/// A command as a login shell runs it in the background, with the shell's process id as its
/// output.
pub fn detached_command(shell: &str, command: &str) -> (r: String)
    ensures
        r@ == "nohup "@ + quoted(shell@) + " -lc "@ + quoted(command@)
            + " >/dev/null 2>&1 </dev/null & echo $!"@,
{
    let shell = shell_quote(shell);
    let command = shell_quote(command);
    "nohup ".to_owned().concat(&shell).concat(" -lc ").concat(&command).concat(
        " >/dev/null 2>&1 </dev/null & echo $!",
    )
}

// ---------------------------------------------------------------------------
// Paths in a guest
// ---------------------------------------------------------------------------
/// A path without slashes and single dots at its end.
pub open spec fn path_trimmed(path: Seq<char>) -> Seq<char>
    decreases path.len(),
{
    if path.len() > 1 && path.last() == '/' {
        path_trimmed(path.drop_last())
    } else if path.len() > 1 && path.last() == '.' && path[path.len() - 2] == '/' {
        path_trimmed(path.drop_last())
    } else {
        path
    }
}

/// The path above the last component; none above the root and the empty path.
pub open spec fn path_parent(path: Seq<char>) -> Option<Seq<char>> {
    let t = path_trimmed(path);
    if t.len() == 0 || t == "/"@ {
        None
    } else {
        match last_index(t, '/') {
            Some(at) => Some(path_trimmed(t.take(at + 1))),
            None => Some(Seq::empty()),
        }
    }
}

/// The last component of a path; none of the root, the empty path and a step up.
pub open spec fn path_file_name(path: Seq<char>) -> Option<Seq<char>> {
    let t = path_trimmed(path);
    let name = match last_index(t, '/') {
        Some(at) => t.skip(at + 1),
        None => t,
    };
    if name.len() == 0 || name == ".."@ || name == "."@ {
        None
    } else {
        Some(name)
    }
}

fn trim_path(path: &str) -> (r: String)
    ensures
        r@ == path_trimmed(path@),
{
    let chars = chars_of(path);
    let mut to: usize = chars.len();
    assert(path@.take(path@.len() as int) =~= path@);
    while to > 1 && (chars[to - 1] == '/' || (chars[to - 1] == '.' && chars[to - 2] == '/'))
        invariant
            to <= chars@.len(),
            chars@ == path@,
            path_trimmed(path@) == path_trimmed(path@.take(to as int)),
        decreases to,
    {
        assert(path@.take(to as int).drop_last() =~= path@.take(to - 1));
        to -= 1;
    }
    assert(path@.take(to as int) =~= path@.subrange(0, to as int));
    string_of_range(&chars, 0, to)
}

fn last_slash(path: &str) -> (at: Option<usize>)
    ensures
        match at {
            Some(i) => i < path@.len() && last_index(path@, '/') == Some(i as int),
            None => last_index(path@, '/') is None,
        },
{
    let chars = chars_of(path);
    let mut i: usize = chars.len();
    assert(path@.take(path@.len() as int) =~= path@);
    while 0 < i
        invariant
            i <= chars@.len(),
            chars@ == path@,
            last_index(path@, '/') == last_index(path@.take(i as int), '/'),
        decreases i,
    {
        assert(path@.take(i as int).last() == path@[i - 1]);
        assert(path@.take(i as int).drop_last() =~= path@.take(i - 1));
        if chars[i - 1] == '/' {
            return Some(i - 1);
        }
        i -= 1;
    }
    assert(path@.take(0).len() == 0);
    None
}

/// The path above the last component.
pub fn parent_path(path: &str) -> (r: Option<String>)
    ensures
        opt_view(r) == path_parent(path@),
{
    let t = trim_path(path);
    if t.as_str().is_empty() || same(&t, "/") {
        return None;
    }
    match last_slash(&t) {
        Some(at) => {
            let chars = chars_of(&t);
            assert(t@.take(at + 1) =~= t@.subrange(0, at + 1));
            let head = string_of_range(&chars, 0, at + 1);
            Some(trim_path(&head))
        },
        None => Some(String::new()),
    }
}

/// The last component of a path.
pub fn file_name(path: &str) -> (r: Option<String>)
    ensures
        opt_view(r) == path_file_name(path@),
{
    let t = trim_path(path);
    let name = match last_slash(&t) {
        Some(at) => {
            let chars = chars_of(&t);
            assert(at < chars.len());
            assert(t@.skip(at + 1) =~= t@.subrange(at + 1, t@.len() as int));
            string_of_range(&chars, at + 1, chars.len())
        },
        None => t,
    };
    if name.as_str().is_empty() || same(&name, "..") || same(&name, ".") {
        None
    } else {
        Some(name)
    }
}

// ---------------------------------------------------------------------------
// Writing a file in parts
// ---------------------------------------------------------------------------
/// The largest part of a file that is sent at once to a guest that takes no streams.
pub const LEGACY_CHUNK_BYTES: usize = 12_582_912;

/// The path of a part of a file.
pub open spec fn part_path_of(transfer_id: Seq<char>, index: int) -> Seq<char> {
    "/tmp/chevalier-file-"@ + transfer_id + "-"@ + decimal(index as nat)
}

/// The path of a part of a file.
pub fn part_path(transfer_id: &str, index: usize) -> (path: String)
    ensures
        path@ == part_path_of(transfer_id@, index as int),
{
    let number = to_decimal(index as u64);
    "/tmp/chevalier-file-".to_owned().concat(transfer_id).concat("-").concat(&number)
}

/// Where a file is put together before it takes its place.
pub open spec fn staging_path_of(path: Seq<char>, transfer_id: Seq<char>) -> Seq<char> {
    let parent = match path_parent(path) {
        Some(p) => p,
        None => "/"@,
    };
    let name = match path_file_name(path) {
        Some(n) => n,
        None => "file"@,
    };
    (if parent == "/"@ {
        "/"@
    } else {
        parent + "/"@
    }) + ("."@ + name + ".openbracket-write-legacy-"@ + transfer_id)
}

/// The directory of a file.
pub open spec fn directory_of(path: Seq<char>) -> Seq<char> {
    match path_parent(path) {
        Some(p) => p,
        None => "/"@,
    }
}

/// Each word quoted.
pub open spec fn single_quoted_all(words: Seq<Seq<char>>) -> Seq<Seq<char>> {
    words.map_values(|w: Seq<char>| single_quoted(w))
}

/// The permission bits of a mode.
pub open spec fn permission_bits(mode: u32) -> u32 {
    mode & 0o7777
}

/// The command that puts the parts of a file together, checks the length, sets the mode and moves
/// the file to its place.
pub open spec fn assembly_command(
    path: Seq<char>,
    staging: Seq<char>,
    parts: Seq<Seq<char>>,
    expected_bytes: u64,
    mode: Option<u32>,
) -> Seq<char> {
    let q_parts = joined(single_quoted_all(parts), " "@);
    let q_target = single_quoted(path);
    let q_staging = single_quoted(staging);
    let content = if parts.len() == 0 {
        ": > "@ + q_staging
    } else {
        "cat "@ + q_parts + " > "@ + q_staging
    };
    let permission = match mode {
        Some(m) => "chmod "@ + digits(permission_bits(m) as nat, 8) + " "@ + q_staging,
        None => "if [ -e "@ + q_target + " ]; then chmod --reference="@ + q_target + " "@ + q_staging
            + "; fi"@,
    };
    let removal = if parts.len() == 0 {
        ":"@
    } else {
        "rm -f "@ + q_parts
    };
    "set -eu; mkdir -p "@ + single_quoted(directory_of(path)) + "; "@ + content
        + "; test \"$(wc -c < "@ + q_staging + ")\" = "@ + decimal(expected_bytes as nat) + "; "@
        + permission + "; mv -f "@ + q_staging + " "@ + q_target + "; "@ + removal
}

/// Where a file is put together. Only an absolute path can be written in parts.
pub fn staging_path(path: &str, transfer_id: &str) -> (r: Result<String>)
    ensures
        match r {
            Ok(s) => path@.len() > 0 && path@[0] == '/' && s@ == staging_path_of(
                path@,
                transfer_id@,
            ),
            Err(e) => !(path@.len() > 0 && path@[0] == '/') && e@ == ErrorView::InvalidConfig(
                "legacy streamed guest writes require an absolute destination"@,
            ),
        },
{
    let chars = chars_of(path);
    if chars.len() == 0 || chars[0] != '/' {
        return Err(
            SandboxError::InvalidConfig(
                "legacy streamed guest writes require an absolute destination".to_owned(),
            ),
        );
    }
    let parent = match parent_path(path) {
        Some(p) => p,
        None => "/".to_owned(),
    };
    let name = match file_name(path) {
        Some(n) => n,
        None => "file".to_owned(),
    };
    let hidden = ".".to_owned().concat(&name).concat(".openbracket-write-legacy-").concat(
        transfer_id,
    );
    if same(&parent, "/") {
        Ok("/".to_owned().concat(&hidden))
    } else {
        Ok(parent.concat("/").concat(&hidden))
    }
}

/// The command by which a file is put together from its parts.
pub fn assemble_file(
    path: &str,
    staging: &str,
    parts: &Vec<String>,
    expected_bytes: u64,
    mode: Option<u32>,
) -> (command: String)
    ensures
        command@ == assembly_command(path@, staging@, views(parts@), expected_bytes, mode),
{
    let mut quoted_parts: Vec<String> = Vec::new();
    let ghost all = single_quoted_all(views(parts@));
    let mut i: usize = 0;
    while i < parts.len()
        invariant
            i <= parts@.len(),
            all == single_quoted_all(views(parts@)),
            views(quoted_parts@) == all.take(i as int),
        decreases parts@.len() - i,
    {
        let ghost before = views(quoted_parts@);
        quoted_parts.push(shell_single_quote(&parts[i]));
        i += 1;
        assert(views(quoted_parts@) =~= before.push(all[i - 1]));
        assert(all.take(i as int) =~= all.take(i - 1).push(all[i - 1]));
    }
    assert(all.take(all.len() as int) =~= all);
    let q_parts = join(&quoted_parts, " ");
    let parent = match parent_path(path) {
        Some(p) => p,
        None => "/".to_owned(),
    };
    let q_parent = shell_single_quote(&parent);
    let q_target = shell_single_quote(path);
    let q_staging = shell_single_quote(staging);
    let content = if parts.len() == 0 {
        ": > ".to_owned().concat(&q_staging)
    } else {
        "cat ".to_owned().concat(&q_parts).concat(" > ").concat(&q_staging)
    };
    let permission = match mode {
        Some(m) => {
            let bits = to_octal((m & 0o7777) as u64);
            "chmod ".to_owned().concat(&bits).concat(" ").concat(&q_staging)
        },
        None => "if [ -e ".to_owned().concat(&q_target).concat(
            " ]; then chmod --reference=",
        ).concat(&q_target).concat(" ").concat(&q_staging).concat("; fi"),
    };
    let removal = if parts.len() == 0 {
        ":".to_owned()
    } else {
        "rm -f ".to_owned().concat(&q_parts)
    };
    let length = to_decimal(expected_bytes);
    "set -eu; mkdir -p ".to_owned().concat(&q_parent).concat("; ").concat(&content).concat(
        "; test \"$(wc -c < ",
    ).concat(&q_staging).concat(")\" = ").concat(&length).concat("; ").concat(&permission).concat(
        "; mv -f ",
    ).concat(&q_staging).concat(" ").concat(&q_target).concat("; ").concat(&removal)
}

// ---------------------------------------------------------------------------
// Interactive shells over the guest RPC
// ---------------------------------------------------------------------------
/// How an interactive shell is to be run.
#[derive(Debug)]
pub struct ShellOptions {
    pub shell: Option<String>,
    pub args: Vec<String>,
    pub env: crate::table::StringMap,
    pub cwd: Option<String>,
    pub cols: Option<u16>,
    pub rows: Option<u16>,
}

impl ShellOptions {
    /// Nothing set.
    pub fn new() -> (opts: ShellOptions)
        ensures
            opts.shell is None,
            opts.args@ == Seq::<String>::empty(),
            opts.env@ == Map::<Seq<char>, Seq<char>>::empty(),
            opts.cwd is None,
            opts.cols is None,
            opts.rows is None,
    {
        ShellOptions {
            shell: None,
            args: Vec::new(),
            env: crate::table::StringMap::new(),
            cwd: None,
            cols: None,
            rows: None,
        }
    }
}

/// What a caller sends to a shell.
#[derive(Debug)]
pub enum ShellInput {
    Data(Vec<u8>),
    Resize { cols: u16, rows: u16 },
    Eof,
}

/// What a shell gives back.
#[derive(Debug)]
pub enum ShellEvent {
    Output(Vec<u8>),
    Exit(i32),
}

/// The order to a guest to start a shell.
#[derive(Debug)]
pub struct ShellStart {
    pub shell: String,
    pub args: Vec<String>,
    pub env: crate::table::StringMap,
    pub cwd: String,
}

/// The order that starts a shell.
pub fn shell_start(opts: ShellOptions, default_shell: &str) -> (start: ShellStart)
    ensures
        start.shell@ == (match opts.shell {
            Some(s) => s@,
            None => default_shell@,
        }),
        start.args == opts.args,
        start.env == opts.env,
        start.cwd@ == (match opts.cwd {
            Some(c) => c@,
            None => Seq::<char>::empty(),
        }),
{
    ShellStart {
        shell: match opts.shell {
            Some(s) => s,
            None => default_shell.to_owned(),
        },
        args: opts.args,
        env: opts.env,
        cwd: match opts.cwd {
            Some(c) => c,
            None => String::new(),
        },
    }
}

/// What is sent to the guest for an input; after the end of input nothing more is sent.
#[derive(Debug)]
pub enum ShellRequest {
    Stdin(Vec<u8>),
    Resize { cols: u32, rows: u32 },
    Close,
}

/// Decides what is sent to the guest for an input.
pub fn shell_request(input: ShellInput) -> (request: ShellRequest)
    ensures
        match input {
            ShellInput::Data(data) => request == ShellRequest::Stdin(data),
            ShellInput::Resize { cols, rows } => request == (ShellRequest::Resize {
                cols: cols as u32,
                rows: rows as u32,
            }),
            ShellInput::Eof => request is Close,
        },
{
    match input {
        ShellInput::Data(data) => ShellRequest::Stdin(data),
        ShellInput::Resize { cols, rows } => ShellRequest::Resize {
            cols: cols as u32,
            rows: rows as u32,
        },
        ShellInput::Eof => ShellRequest::Close,
    }
}

/// What the guest sends while a shell runs.
#[derive(Debug)]
pub enum ShellFrame {
    Output(Vec<u8>),
    ExitCode(i32),
    Other,
    End,
    Failed(crate::error::GrpcStatus),
}

/// The event that a frame gives, where it gives one, and whether the frame is the last.
#[derive(Debug)]
pub struct ShellFrameOutcome {
    pub event: Option<Result<ShellEvent>>,
    pub done: bool,
}

/// Decides what a frame gives.
pub fn shell_frame(frame: ShellFrame) -> (outcome: ShellFrameOutcome)
    ensures
        match frame {
            ShellFrame::Output(data) => !outcome.done && outcome.event == Some(
                Result::<ShellEvent>::Ok(ShellEvent::Output(data)),
            ),
            ShellFrame::ExitCode(code) => outcome.done && outcome.event == Some(
                Result::<ShellEvent>::Ok(ShellEvent::Exit(code)),
            ),
            ShellFrame::Other => !outcome.done && outcome.event is None,
            ShellFrame::End => outcome.done && outcome.event is None,
            ShellFrame::Failed(status) => outcome.done && outcome.event == Some(
                Result::<ShellEvent>::Err(SandboxError::Grpc(status)),
            ),
        },
{
    match frame {
        ShellFrame::Output(data) => ShellFrameOutcome {
            event: Some(Ok(ShellEvent::Output(data))),
            done: false,
        },
        ShellFrame::ExitCode(code) => ShellFrameOutcome {
            event: Some(Ok(ShellEvent::Exit(code))),
            done: true,
        },
        ShellFrame::Other => ShellFrameOutcome { event: None, done: false },
        ShellFrame::End => ShellFrameOutcome { event: None, done: true },
        ShellFrame::Failed(status) => ShellFrameOutcome {
            event: Some(Err(SandboxError::Grpc(status))),
            done: true,
        },
    }
}

/// The error of a shell that the guest did not open in time.
pub fn shell_timed_out() -> (e: SandboxError)
    ensures
        e@ == ErrorView::DaemonUnavailable(
            "timed out establishing interactive shell stream against guest RPC"@,
        ),
{
    SandboxError::DaemonUnavailable(
        "timed out establishing interactive shell stream against guest RPC".to_owned(),
    )
}

// ---------------------------------------------------------------------------
// Where a file goes, and how it is put there
// ---------------------------------------------------------------------------
/// Whether `name` can be the name of a file: not empty, without a slash, and neither `.` nor `..`.
pub open spec fn is_name(name: Seq<char>) -> bool {
    &&& name.len() > 0
    &&& forall|i: int| 0 <= i < name.len() ==> #[trigger] name[i] != '/'
    &&& !(name.len() == 1 && name[0] == '.')
    &&& !(name.len() == 2 && name[0] == '.' && name[1] == '.')
}

/// Whether `dir` is written without a slash, or a dot by itself, at its end.
pub open spec fn ends_plainly(dir: Seq<char>) -> bool {
    &&& dir.len() > 0
    &&& dir.last() != '/'
    &&& dir.len() > 1 ==> !(dir.last() == '.' && dir[dir.len() - 2] == '/')
}

proof fn lemma_last_slash(dir: Seq<char>, name: Seq<char>)
    requires
        forall|i: int| 0 <= i < name.len() ==> #[trigger] name[i] != '/',
    ensures
        last_index(dir + seq!['/'] + name, '/') == Some(dir.len() as int),
    decreases name.len(),
{
    let path = dir + seq!['/'] + name;
    if name.len() == 0 {
        assert(path.last() == '/');
    } else {
        assert(path.drop_last() =~= dir + seq!['/'] + name.drop_last());
        assert(path.last() == name[name.len() - 1]);
        lemma_last_slash(dir, name.drop_last());
    }
}

/// A file in a directory has the directory as its parent and its own name as its file name.
pub proof fn law_path_is_taken_apart(dir: Seq<char>, name: Seq<char>)
    requires
        is_name(name),
        ends_plainly(dir),
    ensures
        path_parent(dir + seq!['/'] + name) == Some(dir),
        path_file_name(dir + seq!['/'] + name) == Some(name),
        path_parent(seq!['/'] + name) == Some("/"@),
        path_file_name(seq!['/'] + name) == Some(name),
        directory_of(dir + seq!['/'] + name) == dir,
        directory_of(seq!['/'] + name) == "/"@,
{
    reveal_strlit("/");
    reveal_strlit(".");
    reveal_strlit("..");
    let path = dir + seq!['/'] + name;
    assert(path.last() == name[name.len() - 1]);
    if name.len() > 1 {
        assert(path[path.len() - 2] == name[name.len() - 2]);
    }
    assert(path_trimmed(path) == path);
    lemma_last_slash(dir, name);
    assert(path.take((dir.len() + 1) as int) =~= dir + seq!['/']);
    assert((dir + seq!['/']).drop_last() =~= dir);
    assert(path_trimmed(dir) == dir);
    assert(path_trimmed(dir + seq!['/']) == dir);
    assert(path.skip((dir.len() + 1) as int) =~= name);
    assert(path != "/"@) by {
        assert(path.len() > 1);
        assert("/"@.len() == 1);
    }
    assert(name != "."@ && name != ".."@);
    let short = seq!['/'] + name;
    let empty = Seq::<char>::empty();
    assert(empty + seq!['/'] + name =~= short);
    assert(short.last() == name[name.len() - 1]);
    if name.len() > 1 {
        assert(short[short.len() - 2] == name[name.len() - 2]);
    }
    assert(path_trimmed(short) == short);
    lemma_last_slash(empty, name);
    assert(short.take(1) =~= "/"@);
    assert(short.skip(1) =~= name);
    assert(short != "/"@) by {
        assert(short.len() > 1);
    }
}

/// A file is staged in the directory of its target, hidden, and under a name of the transfer's own.
pub proof fn law_file_is_staged_beside_target(dir: Seq<char>, name: Seq<char>, id: Seq<char>)
    requires
        is_name(name),
        ends_plainly(dir),
    ensures
        staging_path_of(dir + seq!['/'] + name, id) == dir + "/"@ + ("."@ + name
            + ".openbracket-write-legacy-"@ + id),
        staging_path_of(seq!['/'] + name, id) == "/"@ + ("."@ + name
            + ".openbracket-write-legacy-"@ + id),
        path_parent(staging_path_of(dir + seq!['/'] + name, id)) == Some(dir) || exists|i: int|
            0 <= i < id.len() && #[trigger] id[i] == '/',
{
    law_path_is_taken_apart(dir, name);
    reveal_strlit("/");
    reveal_strlit(".");
    reveal_strlit(".openbracket-write-legacy-");
    assert(dir != "/"@) by {
        assert("/"@.last() == '/');
    }
    let staged = "."@ + name + ".openbracket-write-legacy-"@ + id;
    if forall|i: int| 0 <= i < id.len() ==> #[trigger] id[i] != '/' {
        let suffix = ".openbracket-write-legacy-"@;
        assert forall|i: int| 0 <= i < staged.len() implies #[trigger] staged[i] != '/' by {
            if 1 <= i < 1 + name.len() {
                assert(staged[i] == name[i - 1]);
            } else if i >= 1 + name.len() + suffix.len() {
                assert(staged[i] == id[i - 1 - name.len() - suffix.len()]);
            } else if i >= 1 + name.len() {
                assert(staged[i] == suffix[i - 1 - name.len()]);
            }
        }
        assert(staged.len() > 2);
        law_path_is_taken_apart(dir, staged);
        assert(dir + "/"@ + staged =~= dir + seq!['/'] + staged);
    }
}

/// The parts of one transfer have different paths, all of them in the guest's directory for passing
/// files.
pub proof fn law_parts_have_own_paths(id: Seq<char>, i: u64, j: u64)
    ensures
        part_path_of(id, i as int) == part_path_of(id, j as int) ==> i == j,
        ("/tmp/chevalier-file-"@ + id + "-"@).is_prefix_of(part_path_of(id, i as int)),
{
    let head = "/tmp/chevalier-file-"@ + id + "-"@;
    let n = head.len() as int;
    assert(part_path_of(id, i as int).skip(n) =~= decimal(i as nat));
    assert(part_path_of(id, j as int).skip(n) =~= decimal(j as nat));
    assert(head =~= part_path_of(id, i as int).take(n));
    crate::numeral::law_written_number_is_read_back(i);
    crate::numeral::law_written_number_is_read_back(j);
}

/// Of a mode only the bits for permissions, and those for the owner's, the group's and the sticky bit,
/// are set.
pub proof fn law_permission_bits(mode: u32)
    ensures
        permission_bits(mode) == mode % 4096,
{
    assert(mode & 0o7777 == mode % 4096) by (bit_vector);
}

/// A staged file takes its target's place only after its directory was made, its content written and
/// its size compared; the parts are removed last, and a failure on the way ends the command.
pub proof fn law_file_is_checked_before_it_is_put_in_place(
    path: Seq<char>,
    staging: Seq<char>,
    parts: Seq<Seq<char>>,
    expected_bytes: u64,
    mode: Option<u32>,
)
    ensures
        exists|content: Seq<char>, permission: Seq<char>, removal: Seq<char>|
            #![trigger content + permission + removal]
            {
                &&& assembly_command(path, staging, parts, expected_bytes, mode)
                    == "set -eu; mkdir -p "@ + single_quoted(directory_of(path)) + "; "@ + content
                    + "; test \"$(wc -c < "@ + single_quoted(staging) + ")\" = "@ + decimal(
                    expected_bytes as nat,
                ) + "; "@ + permission + "; mv -f "@ + single_quoted(staging) + " "@
                    + single_quoted(path) + "; "@ + removal
                &&& parts.len() == 0 ==> content == ": > "@ + single_quoted(staging) && removal
                    == ":"@
                &&& parts.len() > 0 ==> content == "cat "@ + joined(
                    parts.map_values(|w: Seq<char>| single_quoted(w)),
                    " "@,
                ) + " > "@ + single_quoted(staging) && removal == "rm -f "@ + joined(
                    parts.map_values(|w: Seq<char>| single_quoted(w)),
                    " "@,
                )
                &&& mode matches Some(m) ==> permission == "chmod "@ + digits((m % 4096) as nat, 8)
                    + " "@ + single_quoted(staging)
                &&& mode is None ==> permission == "if [ -e "@ + single_quoted(path)
                    + " ]; then chmod --reference="@ + single_quoted(path) + " "@ + single_quoted(
                    staging,
                ) + "; fi"@
            },
{
    let q_parts = joined(single_quoted_all(parts), " "@);
    let q_target = single_quoted(path);
    let q_staging = single_quoted(staging);
    let content = if parts.len() == 0 {
        ": > "@ + q_staging
    } else {
        "cat "@ + q_parts + " > "@ + q_staging
    };
    let permission = match mode {
        Some(m) => "chmod "@ + digits(permission_bits(m) as nat, 8) + " "@ + q_staging,
        None => "if [ -e "@ + q_target + " ]; then chmod --reference="@ + q_target + " "@
            + q_staging + "; fi"@,
    };
    let removal = if parts.len() == 0 {
        ":"@
    } else {
        "rm -f "@ + q_parts
    };
    if let Some(m) = mode {
        law_permission_bits(m);
    }
    assert(single_quoted_all(parts) =~= parts.map_values(|w: Seq<char>| single_quoted(w)));
    assert((content + permission + removal).len() >= 0);
}

} // verus!
