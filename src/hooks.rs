//! Hook scripts: optional executables run at named lifecycle points. The
//! library decides what a hook's presence, exit status and output come to;
//! launching the process is left to the caller.
use vstd::prelude::*;
use vstd::string::*;
use vstd::utf8::*;
use crate::error::SkipperError;

verus! {

/// Logical name of the hook run when a new session starts.
pub const HOOK_NEW_SESSION: &'static str = "Hook New Session";

/// Logical name of the hook run when the validator is active in the next era.
pub const HOOK_ACTIVE_NEXT_ERA: &'static str = "Hook Active Next Era";

/// Logical name of the hook run when the validator is inactive in the next era.
pub const HOOK_INACTIVE_NEXT_ERA: &'static str = "Hook Inactive Next Era";

#[verifier::external_type_specification]
#[verifier::external_body]
pub struct ExFromUtf8Error(std::string::FromUtf8Error);

/// Relies on std's `Path::exists`: whether a file is at `filename` now. The
/// answer depends on the file system, so nothing is promised of it.
#[verifier::external_body]
fn hook_file_exists(filename: &str) -> (r: bool) {
    std::path::Path::new(filename).exists()
}

/// Relies on std's `String::from_utf8`: it succeeds exactly on valid UTF-8,
/// and then holds the characters those bytes encode.
#[verifier::external_body]
fn utf8_text(bytes: Vec<u8>) -> (r: Result<String, std::string::FromUtf8Error>)
    ensures
        r is Ok <==> valid_utf8(bytes@),
        r is Ok ==> r->Ok_0@ == decode_utf8(bytes@),
{
    String::from_utf8(bytes)
}

/// What a launched hook script left behind.
pub struct HookOutput {
    /// The exit code, or `None` when the process was ended by a signal.
    pub exit_code: Option<i32>,
    /// Everything the script wrote to its standard output.
    pub stdout: Vec<u8>,
}

/// The result of invoking a hook: the output lines to report, in order, and
/// whether the invocation succeeded.
pub struct HookReport {
    pub lines: Vec<String>,
    pub result: Result<(), SkipperError>,
}

/// The warning given for a hook whose script file is missing.
pub open spec fn missing_hook_text(name: Seq<char>) -> Seq<char> {
    "Hook script file * "@ + name + " * not defined"@
}

/// The message of the error raised by a hook script that failed.
pub open spec fn hook_error_text(name: Seq<char>) -> Seq<char> {
    "Hook script "@ + name + " executed with error"@
}

/// A line with one trailing carriage return removed.
pub open spec fn strip_cr(line: Seq<u8>) -> Seq<u8> {
    if line.len() > 0 && line.last() == 13u8 {
        line.drop_last()
    } else {
        line
    }
}

/// The lines of `b`, given that `cur` holds the unfinished line before it:
/// lines end at a line feed, which is dropped with a carriage return just
/// before it, and a final line needs no line feed.
pub open spec fn lines_from(b: Seq<u8>, cur: Seq<u8>) -> Seq<Seq<u8>>
    decreases b.len(),
{
    if b.len() == 0 {
        if cur.len() == 0 {
            seq![]
        } else {
            seq![cur]
        }
    } else if b[0] == 10u8 {
        seq![strip_cr(cur)] + lines_from(b.drop_first(), seq![])
    } else {
        lines_from(b.drop_first(), cur.push(b[0]))
    }
}

/// The lines of the bytes `b`.
pub open spec fn lines_of(b: Seq<u8>) -> Seq<Seq<u8>> {
    lines_from(b, seq![])
}

/// Whether every line is valid UTF-8.
pub open spec fn all_valid(lines: Seq<Seq<u8>>) -> bool {
    forall|k: int| 0 <= k < lines.len() ==> valid_utf8(#[trigger] lines[k])
}

/// The text of each line.
pub open spec fn decode_all(lines: Seq<Seq<u8>>) -> Seq<Seq<char>> {
    lines.map_values(|l: Seq<u8>| decode_utf8(l))
}

proof fn lemma_push_line(done: Seq<Seq<u8>>, line: Seq<u8>)
    ensures
        all_valid(done.push(line)) == (all_valid(done) && valid_utf8(line)),
        decode_all(done.push(line)) == decode_all(done).push(decode_utf8(line)),
{
    assert(done.push(line)[done.len() as int] == line);
    assert forall|k: int| 0 <= k < done.len() implies done.push(line)[k] == done[k] by {}
    assert(decode_all(done.push(line)) =~= decode_all(done).push(decode_utf8(line)));
}

/// The warning for a hook named `name`, given whether its script exists.
pub fn missing_hook_warning(name: &str, exists: bool) -> (r: Option<String>)
    ensures
        exists ==> r is None,
        !exists ==> r is Some && r->Some_0@ == missing_hook_text(name@),
{
    if exists {
        None
    } else {
        let mut s = String::from_str("Hook script file * ");
        s.append(name);
        s.append(" * not defined");
        Some(s)
    }
}

/// Checks that the script of hook `name` is at `filename`. Advisory only:
/// returns the warning to report when it is missing.
pub fn verify_hook(name: &str, filename: &str) -> (r: Option<String>)
    ensures
        r is None || r->Some_0@ == missing_hook_text(name@),
{
    missing_hook_warning(name, hook_file_exists(filename))
}

fn drop_trailing_cr(line: &mut Vec<u8>)
    ensures
        final(line)@ == strip_cr(old(line)@),
{
    let n = line.len();
    if n > 0 && line[n - 1] == 13u8 {
        line.pop();
    }
}

/// Splits captured output into lines and decodes each one. Fails, with the
/// decoder's message, when some line is not valid UTF-8.
pub fn decode_output_lines(bytes: &Vec<u8>) -> (r: Result<Vec<String>, String>)
    ensures
        r is Ok <==> all_valid(lines_of(bytes@)),
        r is Ok ==> r->Ok_0.deep_view() == decode_all(lines_of(bytes@)),
{
    let n = bytes.len();
    let mut texts: Vec<String> = Vec::new();
    let mut first_err: Option<String> = None;
    let mut cur: Vec<u8> = Vec::new();
    let mut i: usize = 0;
    let ghost mut done: Seq<Seq<u8>> = seq![];
    assert(bytes@.subrange(0, n as int) =~= bytes@);
    assert(cur@ =~= Seq::<u8>::empty());
    assert(done + lines_of(bytes@) =~= lines_of(bytes@));
    while i < n
        invariant
            n == bytes@.len(),
            i <= n,
            done + lines_from(bytes@.subrange(i as int, n as int), cur@) == lines_of(bytes@),
            first_err is None <==> all_valid(done),
            first_err is None ==> texts.deep_view() == decode_all(done),
        decreases n - i,
    {
        let ghost rest = bytes@.subrange(i as int, n as int);
        let ghost cur0 = cur@;
        let ghost done0 = done;
        assert(rest.drop_first() =~= bytes@.subrange(i + 1, n as int));
        assert(rest[0] == bytes@[i as int]);
        if bytes[i] == 10u8 {
            drop_trailing_cr(&mut cur);
            let line = cur;
            cur = Vec::new();
            let ghost line_view = line@;
            match utf8_text(line) {
                Ok(t) => {
                    texts.push(t);
                },
                Err(e) => {
                    if first_err.is_none() {
                        first_err = Some(e.to_string());
                    }
                },
            }
            proof {
                done = done.push(line_view);
                lemma_push_line(done0, line_view);
                assert(done + lines_from(bytes@.subrange(i + 1, n as int), cur@)
                    =~= done0 + lines_from(rest, cur0));
                if first_err is None {
                    assert(texts.deep_view() =~= decode_all(done));
                }
            }
        } else {
            cur.push(bytes[i]);
            assert(cur@ == cur0.push(bytes@[i as int]));
        }
        i = i + 1;
    }
    assert(bytes@.subrange(n as int, n as int) =~= Seq::<u8>::empty());
    if cur.len() > 0 {
        let ghost line_view = cur@;
        let ghost done0 = done;
        match utf8_text(cur) {
            Ok(t) => {
                texts.push(t);
            },
            Err(e) => {
                if first_err.is_none() {
                    first_err = Some(e.to_string());
                }
            },
        }
        proof {
            done = done.push(line_view);
            lemma_push_line(done0, line_view);
            assert(done =~= done0 + seq![line_view]);
            if first_err is None {
                assert(texts.deep_view() =~= decode_all(done));
            }
        }
    } else {
        assert(done =~= done + Seq::<Seq<u8>>::empty());
    }
    match first_err {
        None => Ok(texts),
        Some(m) => Err(m),
    }
}

/// What invoking hook `name` comes to. `launched` is `None` when the script
/// file is absent, so that nothing was launched; otherwise it holds what
/// launching the script gave.
///
/// An absent script is no failure. A launch failure is passed on as it came.
/// A script that exits other than with code 0 fails with an `Other` error
/// that names the hook. The output lines are reported whenever the output
/// decodes, whatever the exit code.
pub fn hook_outcome(name: &str, launched: Option<Result<HookOutput, SkipperError>>) -> (r: HookReport)
    ensures
        launched is None ==> r.lines@.len() == 0 && r.result is Ok,
        launched matches Some(Err(e)) ==> r.lines@.len() == 0 && r.result == Err::<(), SkipperError>(e),
        launched matches Some(Ok(out)) ==> {
            &&& all_valid(lines_of(out.stdout@)) ==> r.lines.deep_view() == decode_all(lines_of(out.stdout@))
            &&& !all_valid(lines_of(out.stdout@)) ==> r.lines@.len() == 0
            &&& out.exit_code != Some(0i32) ==> (r.result matches Err(SkipperError::Other(m)) && m@ == hook_error_text(name@))
            &&& out.exit_code == Some(0i32) && all_valid(lines_of(out.stdout@)) ==> r.result is Ok
            &&& out.exit_code == Some(0i32) && !all_valid(lines_of(out.stdout@)) ==> (r.result matches Err(SkipperError::Utf8(_)))
        },
{
    match launched {
        None => HookReport { lines: Vec::new(), result: Ok(()) },
        Some(Err(e)) => HookReport { lines: Vec::new(), result: Err(e) },
        Some(Ok(out)) => {
            let decoded = decode_output_lines(&out.stdout);
            let succeeded = match out.exit_code {
                Some(c) => c == 0,
                None => false,
            };
            if !succeeded {
                let mut m = String::from_str("Hook script ");
                m.append(name);
                m.append(" executed with error");
                let lines = match decoded {
                    Ok(ls) => ls,
                    Err(_) => Vec::new(),
                };
                HookReport { lines, result: Err(SkipperError::Other(m)) }
            } else {
                match decoded {
                    Ok(ls) => HookReport { lines: ls, result: Ok(()) },
                    Err(m) => HookReport { lines: Vec::new(), result: Err(SkipperError::Utf8(m)) },
                }
            }
        },
    }
}

/// The message of the error raised by a failed hook script holds the hook's
/// logical name, right after the leading "Hook script ".
pub proof fn lemma_hook_error_names_hook(name: Seq<char>)
    ensures
        hook_error_text(name).subrange(12, 12 + name.len() as int) == name,
{
    reveal_strlit("Hook script ");
    reveal_strlit(" executed with error");
    assert(hook_error_text(name).subrange(12, 12 + name.len() as int) =~= name);
}

} // verus!
