//! The decisions behind opening a source location in an editor: which
//! file and line a log record points at, how a relative path is resolved,
//! and which command opens it. The host performs the file-system and
//! process work and hands the observations in as plain values.
use crate::text::{contains_bytes, contains_seq, copy_range};
use vstd::prelude::*;

verus! {

/// The decimal digits of `n`, most significant first.
pub open spec fn dec_digits(n: nat) -> Seq<u8>
    decreases n,
{
    if n < 10 {
        seq![(48 + n) as u8]
    } else {
        dec_digits(n / 10).push((48 + n % 10) as u8)
    }
}

fn push_digits(n: u32, out: &mut Vec<u8>)
    ensures
        final(out)@ == old(out)@ + dec_digits(n as nat),
    decreases n,
{
    if n < 10 {
        out.push(48 + n as u8);
        assert(final(out)@ =~= old(out)@ + dec_digits(n as nat));
    } else {
        push_digits(n / 10, out);
        out.push(48 + (n % 10) as u8);
        assert(final(out)@ =~= old(out)@ + dec_digits(n as nat));
    }
}

/// The decimal rendering of `n`.
pub fn u32_decimal(n: u32) -> (r: Vec<u8>)
    ensures
        r@ == dec_digits(n as nat),
{
    let mut r: Vec<u8> = Vec::new();
    push_digits(n, &mut r);
    assert(r@ =~= dec_digits(n as nat));
    r
}

/// The bytes of `code`.
pub open spec fn code_seq() -> Seq<u8> {
    seq![99u8, 111u8, 100u8, 101u8]
}

/// The bytes of `code-helper`.
pub open spec fn code_helper_seq() -> Seq<u8> {
    seq![99u8, 111u8, 100u8, 101u8, 45u8, 104u8, 101u8, 108u8, 112u8, 101u8, 114u8]
}

/// The bytes of `.cargo`.
pub open spec fn cargo_dir_seq() -> Seq<u8> {
    seq![46u8, 99u8, 97u8, 114u8, 103u8, 111u8]
}

fn code_bytes() -> (v: Vec<u8>)
    ensures
        v@ == code_seq(),
{
    let mut v: Vec<u8> = Vec::new();
    v.push(99);
    v.push(111);
    v.push(100);
    v.push(101);
    assert(v@ =~= code_seq());
    v
}

fn code_helper_bytes() -> (v: Vec<u8>)
    ensures
        v@ == code_helper_seq(),
{
    let mut v = code_bytes();
    v.push(45);
    v.push(104);
    v.push(101);
    v.push(108);
    v.push(112);
    v.push(101);
    v.push(114);
    assert(v@ =~= code_helper_seq());
    v
}

fn cargo_dir_bytes() -> (v: Vec<u8>)
    ensures
        v@ == cargo_dir_seq(),
{
    let mut v: Vec<u8> = Vec::new();
    v.push(46);
    v.push(99);
    v.push(97);
    v.push(114);
    v.push(103);
    v.push(111);
    assert(v@ =~= cargo_dir_seq());
    v
}

/// Why no file could be opened.
#[derive(Clone, Copy, Debug, PartialEq, Eq, Structural)]
pub enum OpenError {
    /// The log record carries no file name.
    NoFileInfo,
}

/// A file position to open: the file's path bytes and a one-based line.
#[derive(Clone, Debug, PartialEq, Eq)]
pub struct OpenTarget {
    pub file: Vec<u8>,
    pub line: u32,
}

/// The file and line a log record points at: its file name as given, and
/// its line, or line one when it carries none. A record without file
/// information is rejected.
pub fn open_file_at_line(file: Option<Vec<u8>>, line: Option<u32>) -> (r: Result<
    OpenTarget,
    OpenError,
>)
    ensures
        file.is_none() ==> r == Err::<OpenTarget, OpenError>(OpenError::NoFileInfo),
        file.is_some() ==> r.is_ok() && r.unwrap().file == file.unwrap() && r.unwrap().line == (
        match line {
            Some(l) => l,
            None => 1u32,
        }),
{
    let f = match file {
        Some(f) => f,
        None => {
            return Err(OpenError::NoFileInfo);
        },
    };
    let l = match line {
        Some(l) => l,
        None => 1,
    };
    Ok(OpenTarget { file: f, line: l })
}

/// `base` with path component `comp` appended behind a separator.
pub fn push_component(base: &Vec<u8>, comp: &Vec<u8>) -> (r: Vec<u8>)
    ensures
        r@ == base@ + seq![47u8] + comp@,
{
    let mut r = copy_range(base, 0, base.len());
    assert(r@ =~= base@);
    r.push(47);
    let n = comp.len();
    let mut i: usize = 0;
    while i < n
        invariant
            n == comp@.len(),
            0 <= i <= n,
            r@ == base@ + seq![47u8] + comp@.subrange(0, i as int),
        decreases n - i,
    {
        r.push(comp[i]);
        assert(r@ =~= base@ + seq![47u8] + comp@.subrange(0, i + 1));
        i = i + 1;
    }
    assert(comp@.subrange(0, n as int) =~= comp@);
    r
}

/// The cargo home directory: the `CARGO_HOME` environment value when set,
/// else `.cargo` under the home directory, else nothing.
pub fn cargo_home_dir(env_cargo_home: Option<Vec<u8>>, home_dir: Option<Vec<u8>>) -> (r: Option<
    Vec<u8>,
>)
    ensures
        env_cargo_home.is_some() ==> r == env_cargo_home,
        env_cargo_home.is_none() && home_dir.is_some() ==> r.is_some() && r.unwrap()@
            == home_dir.unwrap()@ + seq![47u8] + cargo_dir_seq(),
        env_cargo_home.is_none() && home_dir.is_none() ==> r.is_none(),
{
    match env_cargo_home {
        Some(p) => Some(p),
        None => match home_dir {
            Some(h) => {
                let cargo = cargo_dir_bytes();
                Some(push_component(&h, &cargo))
            },
            None => None,
        },
    }
}

/// The index of the first candidate whose flag says it exists.
pub fn first_existing(candidates: &Vec<(Vec<u8>, bool)>) -> (r: Option<usize>)
    ensures
        match r {
            Some(i) => i < candidates@.len() && candidates@[i as int].1 && forall|j: int|
                0 <= j < i ==> !candidates@[j].1,
            None => forall|j: int| 0 <= j < candidates@.len() ==> !candidates@[j].1,
        },
{
    let n = candidates.len();
    let mut i: usize = 0;
    while i < n
        invariant
            n == candidates@.len(),
            0 <= i <= n,
            forall|j: int| 0 <= j < i ==> !candidates@[j].1,
        decreases n - i,
    {
        if candidates[i].1 {
            return Some(i);
        }
        i = i + 1;
    }
    None
}

/// Resolves a source file path against what the host observed: an
/// absolute path stands as it is; else a successful canonicalization
/// against the working directory wins; else a hit under a cargo registry
/// source directory; else nothing.
pub fn resolve_source_path(
    file: &Vec<u8>,
    is_absolute: bool,
    canonical: Option<Vec<u8>>,
    registry_hit: Option<Vec<u8>>,
) -> (r: Option<Vec<u8>>)
    ensures
        is_absolute ==> r.is_some() && r.unwrap()@ == file@,
        !is_absolute && canonical.is_some() ==> r == canonical,
        !is_absolute && canonical.is_none() ==> r == registry_hit,
{
    if is_absolute {
        let copy = copy_range(file, 0, file.len());
        assert(copy@ =~= file@);
        return Some(copy);
    }
    match canonical {
        Some(p) => Some(p),
        None => registry_hit,
    }
}

/// The command that opens a file: hand `path:line` to a running editor's
/// `code --goto`, or fall back to the system opener.
#[derive(Clone, Debug, PartialEq, Eq)]
pub enum OpenCommand {
    /// Run `code --goto` with the held argument.
    CodeGoto(Vec<u8>),
    /// Hand the path alone to the system opener.
    SystemOpen,
}

/// The `path:line` argument for `code --goto`.
pub fn goto_argument(path: &Vec<u8>, line: u32) -> (r: Vec<u8>)
    ensures
        r@ == path@ + seq![58u8] + dec_digits(line as nat),
{
    let mut r = copy_range(path, 0, path.len());
    assert(r@ =~= path@);
    r.push(58);
    let mut digits = u32_decimal(line);
    r.append(&mut digits);
    assert(r@ =~= path@ + seq![58u8] + dec_digits(line as nat));
    r
}

/// Which command opens `path` at `line`: `code --goto path:line` when a
/// running editor was seen and the binary was found, else the system
/// opener on the bare path.
pub fn open_in_editor(path: &Vec<u8>, line: u32, vscode_available: bool) -> (r: OpenCommand)
    ensures
        vscode_available ==> (r matches OpenCommand::CodeGoto(a) && a@ == path@ + seq![58u8]
            + dec_digits(line as nat)),
        !vscode_available ==> r == OpenCommand::SystemOpen,
{
    if vscode_available {
        OpenCommand::CodeGoto(goto_argument(path, line))
    } else {
        OpenCommand::SystemOpen
    }
}

/// A process-table line speaks of a running editor: it holds `code` but
/// not `code-helper`.
pub open spec fn indicates_vscode(line: Seq<u8>) -> bool {
    contains_seq(line, code_seq()) && !contains_seq(line, code_helper_seq())
}

/// Whether one process-table line speaks of a running editor.
pub fn line_indicates_vscode(line: &Vec<u8>) -> (r: bool)
    ensures
        r == indicates_vscode(line@),
{
    let code = code_bytes();
    if !contains_bytes(line, &code) {
        return false;
    }
    let helper = code_helper_bytes();
    !contains_bytes(line, &helper)
}

/// Whether the process table holds a line that speaks of a running
/// editor.
pub fn is_vscode_running(lines: &Vec<Vec<u8>>) -> (r: bool)
    ensures
        r == exists|i: int| 0 <= i < lines@.len() && indicates_vscode(lines@[i]@),
{
    let n = lines.len();
    let mut i: usize = 0;
    while i < n
        invariant
            n == lines@.len(),
            0 <= i <= n,
            forall|j: int| 0 <= j < i ==> !indicates_vscode(lines@[j]@),
        decreases n - i,
    {
        if line_indicates_vscode(&lines[i]) {
            assert(indicates_vscode(lines@[i as int]@));
            return true;
        }
        i = i + 1;
    }
    false
}

} // verus!
