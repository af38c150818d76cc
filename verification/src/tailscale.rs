//! The `tailscale` command: its arguments and how its outcome is read.

use vstd::prelude::*;
use crate::platform::HostOs;
use crate::text::concat2;

verus! {

/// Why a `tailscale` command failed.
#[derive(Debug)]
pub enum TailscaleError {
    /// The command exited unsuccessfully, having written `stderr`.
    CommandFailed { stderr: String },
}

/// The text of `bytes` decoded as UTF-8, with each invalid sequence replaced by
/// U+FFFD.
pub uninterp spec fn utf8_lossy(bytes: Seq<u8>) -> Seq<char>;

/// `String::from_utf8_lossy`, made an owned `String`: `bytes` decoded as UTF-8
/// with invalid sequences replaced by U+FFFD; the result is named, not spelled out.
#[verifier::external_body]
fn decode_lossy(bytes: &[u8]) -> (res: String)
    ensures
        res@ == utf8_lossy(bytes@),
{
    String::from_utf8_lossy(bytes).into_owned()
}

/// Characters with the Unicode `White_Space` property (what `char::is_whitespace` tests).
pub open spec fn is_white_space(c: char) -> bool {
    let u = c as u32;
    (0x09 <= u && u <= 0x0D) || u == 0x20 || u == 0x85 || u == 0xA0 || u == 0x1680
        || (0x2000 <= u && u <= 0x200A) || u == 0x2028 || u == 0x2029 || u == 0x202F
        || u == 0x205F || u == 0x3000
}

/// `s` without its leading white space.
pub open spec fn trim_start_spec(s: Seq<char>) -> Seq<char>
    decreases s.len(),
{
    if s.len() > 0 && is_white_space(s[0]) {
        trim_start_spec(s.drop_first())
    } else {
        s
    }
}

/// `s` without its trailing white space.
pub open spec fn trim_end_spec(s: Seq<char>) -> Seq<char>
    decreases s.len(),
{
    if s.len() > 0 && is_white_space(s.last()) {
        trim_end_spec(s.drop_last())
    } else {
        s
    }
}

/// `s` without leading and trailing white space (as `str::trim`).
pub open spec fn trim_spec(s: Seq<char>) -> Seq<char> {
    trim_end_spec(trim_start_spec(s))
}

/// Whether `c` is white space.
pub fn white_space(c: char) -> (res: bool)
    ensures
        res == is_white_space(c),
{
    let u = c as u32;
    (0x09 <= u && u <= 0x0D) || u == 0x20 || u == 0x85 || u == 0xA0 || u == 0x1680
        || (0x2000 <= u && u <= 0x200A) || u == 0x2028 || u == 0x2029 || u == 0x202F
        || u == 0x205F || u == 0x3000
}

/// `s` without leading and trailing white space.
pub fn trim_white_space(s: &str) -> (res: String)
    ensures
        res@ == trim_spec(s@),
{
    let n = s.unicode_len();
    let mut i: usize = 0;
    assert(s@.subrange(0, n as int) =~= s@);
    while i < n && white_space(s.get_char(i))
        invariant
            n == s@.len(),
            i <= n,
            trim_start_spec(s@) == trim_start_spec(s@.subrange(i as int, n as int)),
        decreases n - i,
    {
        assert(s@.subrange(i as int, n as int).drop_first() =~= s@.subrange(i + 1, n as int));
        i = i + 1;
    }
    let ghost start = s@.subrange(i as int, n as int);
    assert(trim_start_spec(s@) == start);
    let mut j: usize = n;
    assert(start.subrange(0, (j - i) as int) =~= start);
    while j > i && white_space(s.get_char(j - 1))
        invariant
            n == s@.len(),
            i <= j <= n,
            start == s@.subrange(i as int, n as int),
            trim_end_spec(start) == trim_end_spec(s@.subrange(i as int, j as int)),
        decreases j,
    {
        assert(s@.subrange(i as int, j as int).drop_last() =~= s@.subrange(i as int, j - 1));
        j = j - 1;
    }
    s.substring_char(i, j).to_owned()
}

/// The name of the `tailscale` executable on `os`.
pub fn tailscale_binary(os: HostOs) -> (res: String)
    ensures
        os == HostOs::Windows ==> res@ == "tailscale.exe"@,
        os == HostOs::Unix ==> res@ == "tailscale"@,
{
    match os {
        HostOs::Windows => "tailscale.exe".to_owned(),
        HostOs::Unix => "tailscale".to_owned(),
    }
}

/// The arguments that join the mesh coordinated by `login_server` with `auth_key`.
pub fn up_args(login_server: &str, auth_key: &str) -> (res: Vec<String>)
    ensures
        res.deep_view() == seq![
            "up"@,
            "--login-server="@ + login_server@,
            "--authkey="@ + auth_key@,
            "--accept-routes"@,
        ],
{
    let mut args: Vec<String> = Vec::new();
    args.push("up".to_owned());
    args.push(concat2("--login-server=", login_server));
    args.push(concat2("--authkey=", auth_key));
    args.push("--accept-routes".to_owned());
    assert(args.deep_view() =~= seq![
        "up"@,
        "--login-server="@ + login_server@,
        "--authkey="@ + auth_key@,
        "--accept-routes"@,
    ]);
    args
}

/// The arguments that leave the mesh.
pub fn down_args() -> (res: Vec<String>)
    ensures
        res.deep_view() == seq!["down"@],
{
    let mut args: Vec<String> = Vec::new();
    args.push("down".to_owned());
    assert(args.deep_view() =~= seq!["down"@]);
    args
}

/// The arguments that print the IPv4 address in the mesh.
pub fn ip_args() -> (res: Vec<String>)
    ensures
        res.deep_view() == seq!["ip"@, "--4"@],
{
    let mut args: Vec<String> = Vec::new();
    args.push("ip".to_owned());
    args.push("--4".to_owned());
    assert(args.deep_view() =~= seq!["ip"@, "--4"@]);
    args
}

/// The arguments that report the status of the mesh connection.
pub fn status_args() -> (res: Vec<String>)
    ensures
        res.deep_view() == seq!["status"@],
{
    let mut args: Vec<String> = Vec::new();
    args.push("status".to_owned());
    assert(args.deep_view() =~= seq!["status"@]);
    args
}

/// The outcome of a `tailscale` command that exited (`success` tells how),
/// having written `stdout` and `stderr`: its output without surrounding white
/// space, or its error output.
pub fn command_outcome(success: bool, stdout: &str, stderr: &str) -> (res: Result<String, TailscaleError>)
    ensures
        success ==> (res matches Ok(out) && out@ == trim_spec(stdout@)),
        !success ==> (res matches Err(TailscaleError::CommandFailed { stderr: e }) && e@ == stderr@),
{
    if !success {
        return Err(TailscaleError::CommandFailed { stderr: stderr.to_owned() });
    }
    Ok(trim_white_space(stdout))
}

/// The outcome of a `tailscale` command that exited (`success` tells how),
/// from the raw bytes it wrote: its decoded output without surrounding white
/// space, or its decoded error output.
pub fn command_result(success: bool, stdout: &[u8], stderr: &[u8]) -> (res: Result<String, TailscaleError>)
    ensures
        success ==> (res matches Ok(out) && out@ == trim_spec(utf8_lossy(stdout@))),
        !success ==> (res matches Err(TailscaleError::CommandFailed { stderr: e }) && e@ == utf8_lossy(stderr@)),
{
    let out = decode_lossy(stdout);
    let err = decode_lossy(stderr);
    command_outcome(success, out.as_str(), err.as_str())
}

/// Removing leading white space leaves a suffix of `s` that does not start
/// with white space, and everything removed is white space.
pub proof fn law_trim_start(s: Seq<char>)
    ensures
        trim_start_spec(s).len() <= s.len(),
        s.subrange(s.len() - trim_start_spec(s).len(), s.len() as int) == trim_start_spec(s),
        trim_start_spec(s).len() == 0 || !is_white_space(trim_start_spec(s)[0]),
        forall|i: int| 0 <= i < s.len() - trim_start_spec(s).len() ==> is_white_space(#[trigger] s[i]),
    decreases s.len(),
{
    if s.len() > 0 && is_white_space(s[0]) {
        law_trim_start(s.drop_first());
        let r = trim_start_spec(s);
        assert(s.subrange(s.len() - r.len(), s.len() as int) =~= s.drop_first().subrange(
            s.drop_first().len() - r.len(),
            s.drop_first().len() as int,
        ));
        assert forall|i: int| 0 <= i < s.len() - r.len() implies is_white_space(#[trigger] s[i]) by {
            if i > 0 {
                assert(s[i] == s.drop_first()[i - 1]);
            }
        }
    } else {
        assert(s.subrange(0, s.len() as int) =~= s);
    }
}

/// Removing trailing white space leaves a prefix of `s` that does not end
/// with white space, and everything removed is white space.
pub proof fn law_trim_end(s: Seq<char>)
    ensures
        trim_end_spec(s).len() <= s.len(),
        s.subrange(0, trim_end_spec(s).len() as int) == trim_end_spec(s),
        trim_end_spec(s).len() == 0 || !is_white_space(trim_end_spec(s).last()),
        forall|i: int| trim_end_spec(s).len() <= i < s.len() ==> is_white_space(#[trigger] s[i]),
    decreases s.len(),
{
    if s.len() > 0 && is_white_space(s.last()) {
        law_trim_end(s.drop_last());
        let r = trim_end_spec(s);
        assert(s.subrange(0, r.len() as int) =~= s.drop_last().subrange(0, r.len() as int));
        assert forall|i: int| r.len() <= i < s.len() implies is_white_space(#[trigger] s[i]) by {
            if i < s.len() - 1 {
                assert(s[i] == s.drop_last()[i]);
            }
        }
    } else {
        assert(s.subrange(0, s.len() as int) =~= s);
    }
}

/// The output of a command is read as the piece of it between the leading and
/// the trailing white space: a contiguous piece of the text, neither starting
/// nor ending with white space, with only white space before and after it.
pub proof fn law_trim(s: Seq<char>)
    ensures
        ({
            let r = trim_spec(s);
            let a = s.len() - trim_start_spec(s).len();
            &&& 0 <= a && a + r.len() <= s.len()
            &&& s.subrange(a, a + r.len()) == r
            &&& forall|i: int| 0 <= i < a ==> is_white_space(#[trigger] s[i])
            &&& forall|i: int| a + r.len() <= i < s.len() ==> is_white_space(#[trigger] s[i])
            &&& r.len() > 0 ==> !is_white_space(r[0]) && !is_white_space(r.last())
        }),
{
    law_trim_start(s);
    let t = trim_start_spec(s);
    law_trim_end(t);
    let r = trim_spec(s);
    let a = s.len() - t.len();
    assert(s.subrange(a, a + r.len()) =~= t.subrange(0, r.len() as int));
    assert forall|i: int| a + r.len() <= i < s.len() implies is_white_space(#[trigger] s[i]) by {
        assert(s[i] == t[i - a]);
    }
    if r.len() > 0 {
        assert(r[0] == t[0]);
    }
}

} // verus!
