//! The binary locator: which executable path a start request invokes,
//! what the installed binary's version is, and how its permissions are
//! put right.
//!
//! Whether a local copy exists, and what `--version` printed, are
//! facts of the file system and the process table; the caller observes
//! them and hands them in as plain values. Every decision made from
//! them is proved here.

use crate::Platform;
use vstd::prelude::*;
use vstd::string::StrSliceExecFns;

verus! {

/// The path separator the platform's path joins use.
pub open spec fn sep_char(p: Platform) -> char {
    if p is Windows {
        '\\'
    } else {
        '/'
    }
}

/// The platform-appropriate name of the executable.
pub open spec fn exe_name_chars(p: Platform) -> Seq<char> {
    if p is Windows {
        "rathole.exe"@
    } else {
        "rathole"@
    }
}

/// The platform-appropriate name of the executable.
pub fn exe_name(p: Platform) -> (r: String)
    ensures
        r@ == exe_name_chars(p),
{
    match p {
        Platform::Windows => String::from_str("rathole.exe"),
        _ => String::from_str("rathole"),
    }
}

/// The path of the locally installed executable inside the install
/// directory.
pub open spec fn local_binary_chars(dir: Seq<char>, p: Platform) -> Seq<char> {
    dir + seq![sep_char(p)] + exe_name_chars(p)
}

/// The path of the locally installed executable inside the install
/// directory.
pub fn local_binary_path(install_dir: &str, p: Platform) -> (r: String)
    ensures
        r@ == local_binary_chars(install_dir@, p),
{
    proof {
        reveal_strlit("/");
        reveal_strlit("\\");
    }
    let sep: &str = match p {
        Platform::Windows => "\\",
        _ => "/",
    };
    let r = String::from_str(install_dir).concat(sep).concat(exe_name(p).as_str());
    proof {
        assert("/"@ =~= seq!['/']);
        assert("\\"@ =~= seq!['\\']);
        assert(r@ =~= local_binary_chars(install_dir@, p));
    }
    r
}

/// The command a start request invokes: the locally installed copy
/// when one exists, else the bare name, left to the system's
/// executable search path.
pub fn resolve_path(install_dir: &str, local_exists: bool, p: Platform) -> (r: String)
    ensures
        local_exists ==> r@ == local_binary_chars(install_dir@, p),
        !local_exists ==> r@ == "rathole"@,
{
    if local_exists {
        local_binary_path(install_dir, p)
    } else {
        String::from_str("rathole")
    }
}

/// Whitespace, for splitting `--version` output into tokens.
pub open spec fn is_space(c: char) -> bool {
    c == ' ' || c == '\t' || c == '\n' || c == '\r'
}

/// The first non-whitespace position at or after `i`.
pub open spec fn skip_ws(s: Seq<char>, i: int) -> int
    decreases s.len() - i,
{
    if i < s.len() && 0 <= i && is_space(s[i]) {
        skip_ws(s, i + 1)
    } else {
        i
    }
}

/// The first whitespace position at or after `i`.
pub open spec fn skip_tok(s: Seq<char>, i: int) -> int
    decreases s.len() - i,
{
    if i < s.len() && 0 <= i && !is_space(s[i]) {
        skip_tok(s, i + 1)
    } else {
        i
    }
}

/// The second whitespace-separated token, empty when there is none.
pub open spec fn second_token(s: Seq<char>) -> Seq<char> {
    let a = skip_ws(s, 0);
    let b = skip_tok(s, a);
    let c = skip_ws(s, b);
    let d = skip_tok(s, c);
    s.subrange(c, d)
}

fn is_space_exec(c: char) -> (b: bool)
    ensures
        b == is_space(c),
{
    c == ' ' || c == '\t' || c == '\n' || c == '\r'
}

fn skip_ws_exec(s: &str, n: usize, i: usize) -> (r: usize)
    requires
        n == s@.len(),
        i <= n,
    ensures
        r == skip_ws(s@, i as int),
        i <= r <= n,
    decreases n - i,
{
    if i < n && is_space_exec(s.get_char(i)) {
        skip_ws_exec(s, n, i + 1)
    } else {
        i
    }
}

fn skip_tok_exec(s: &str, n: usize, i: usize) -> (r: usize)
    requires
        n == s@.len(),
        i <= n,
    ensures
        r == skip_tok(s@, i as int),
        i <= r <= n,
    decreases n - i,
{
    if i < n && !is_space_exec(s.get_char(i)) {
        skip_tok_exec(s, n, i + 1)
    } else {
        i
    }
}

/// The version shown by `--version` output such as `"rathole 1.2.3"`:
/// its second whitespace-separated token, or the sentinel `"unknown"`
/// when the output has no second token.
pub fn parse_version(output: &str) -> (r: String)
    ensures
        second_token(output@).len() > 0 ==> r@ == second_token(output@),
        second_token(output@).len() == 0 ==> r@ == "unknown"@,
{
    let n = output.unicode_len();
    let a = skip_ws_exec(output, n, 0);
    let b = skip_tok_exec(output, n, a);
    let c = skip_ws_exec(output, n, b);
    let d = skip_tok_exec(output, n, c);
    if d > c {
        let t = output.substring_char(c, d);
        t.to_owned()
    } else {
        String::from_str("unknown")
    }
}

/// What a `--version` invocation of the local binary reported: whether
/// it exited successfully, and what it printed on standard output.
pub struct VersionProbe {
    pub success: bool,
    pub stdout: String,
}

/// The installed version: an error when no local binary exists or its
/// invocation could not run at all; the parsed second token of its
/// output when the invocation succeeded; the sentinel `"unknown"` when
/// the invocation ran but failed, or printed no second token.
pub fn installed_version(local_exists: bool, invocation: Result<VersionProbe, String>) -> (r:
    Result<String, String>)
    ensures
        !local_exists ==> r is Err && r->Err_0@ == "No installed rathole found"@,
        local_exists && invocation is Err ==> r is Err && r->Err_0@ == invocation->Err_0@,
        local_exists ==> (invocation matches Ok(out) ==> {
            &&& out.success && second_token(out.stdout@).len() > 0 ==> r is Ok && r->Ok_0@
                == second_token(out.stdout@)
            &&& out.success && second_token(out.stdout@).len() == 0 ==> r is Ok && r->Ok_0@
                == "unknown"@
            &&& !out.success ==> r is Ok && r->Ok_0@ == "unknown"@
        }),
{
    if !local_exists {
        return Err(String::from_str("No installed rathole found"));
    }
    match invocation {
        Err(e) => Err(e),
        Ok(out) => {
            if out.success {
                Ok(parse_version(out.stdout.as_str()))
            } else {
                Ok(String::from_str("unknown"))
            }
        },
    }
}

/// The executable bits, added to a file mode.
pub fn add_exec_bits(mode: u32) -> (r: u32)
    ensures
        r == mode | 0o111,
{
    mode | 0o111
}

/// The report of a permission fix: platforms without a POSIX
/// permission model need none and report success; elsewhere a missing
/// local binary is an error, and otherwise the outcome of the mode
/// change (performed by the caller) decides.
pub fn permissions_report(p: Platform, local_exists: bool, chmod_err: Option<String>) -> (r: Result<
    String,
    String,
>)
    ensures
        p is Windows ==> r is Ok && r->Ok_0@ == "Not needed on this platform"@,
        !(p is Windows) && !local_exists ==> r is Err && r->Err_0@ == "Rathole not found"@,
        !(p is Windows) && local_exists && chmod_err is None ==> r is Ok && r->Ok_0@
            == "Permissions fixed"@,
        !(p is Windows) && local_exists ==> (chmod_err matches Some(e) ==> r is Err && r->Err_0@
            == e@),
{
    match p {
        Platform::Windows => Ok(String::from_str("Not needed on this platform")),
        _ => {
            if !local_exists {
                Err(String::from_str("Rathole not found"))
            } else {
                match chmod_err {
                    None => Ok(String::from_str("Permissions fixed")),
                    Some(e) => Err(e),
                }
            }
        },
    }
}

} // verus!
