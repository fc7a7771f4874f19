//! The command gateway: what a tool is called with, and what its answer
//! means.

use vstd::prelude::*;
use vstd::string::*;
use crate::text::{lemma_views_push, views};

verus! {

/// A program with its arguments.
pub struct CommandLine {
    pub program: String,
    pub args: Vec<String>,
}

/// The contents of a [`CommandLine`].
pub struct CommandModel {
    pub program: Seq<char>,
    pub args: Seq<Seq<char>>,
}

impl View for CommandLine {
    type V = CommandModel;

    open spec fn view(&self) -> CommandModel {
        CommandModel { program: self.program@, args: views(self.args@) }
    }
}

/// What came back from a tool: whether it exited with status zero, and
/// its standard error, absent where that is no valid UTF-8.
pub struct ToolOutput {
    pub success: bool,
    pub stderr: Option<String>,
}

/// Whether `c` is white space: one of the characters with the Unicode
/// property `White_Space`.
pub open spec fn is_white_space(c: char) -> bool {
    let u = c as u32;
    (0x09 <= u <= 0x0d) || u == 0x20 || u == 0x85 || u == 0xa0 || u == 0x1680 || (0x2000 <= u
        <= 0x200a) || u == 0x2028 || u == 0x2029 || u == 0x202f || u == 0x205f || u == 0x3000
}

/// `text` without the white space at its start.
pub open spec fn trimmed_start(text: Seq<char>) -> Seq<char>
    decreases text.len(),
{
    if text.len() > 0 && is_white_space(text[0]) {
        trimmed_start(text.skip(1))
    } else {
        text
    }
}

/// `text` without the white space at its end.
pub open spec fn trimmed_end(text: Seq<char>) -> Seq<char>
    decreases text.len(),
{
    if text.len() > 0 && is_white_space(text.last()) {
        trimmed_end(text.drop_last())
    } else {
        text
    }
}

/// `text` without the white space at its start and at its end.
pub open spec fn trimmed(text: Seq<char>) -> Seq<char> {
    trimmed_end(trimmed_start(text))
}

fn white_space(c: char) -> (r: bool)
    ensures
        r == is_white_space(c),
{
    let u: u32 = c as u32;
    (0x09 <= u && u <= 0x0d) || u == 0x20 || u == 0x85 || u == 0xa0 || u == 0x1680 || (0x2000 <= u
        && u <= 0x200a) || u == 0x2028 || u == 0x2029 || u == 0x202f || u == 0x205f || u == 0x3000
}

/// A copy of `text` without the white space at its start and at its end.
pub fn trim(text: &str) -> (r: String)
    ensures
        r@ == trimmed(text@),
{
    let n = text.unicode_len();
    let mut i: usize = 0;
    assert(text@.skip(0) =~= text@);
    while i < n && white_space(text.get_char(i))
        invariant
            i <= n,
            n == text@.len(),
            trimmed_start(text@) == trimmed_start(text@.skip(i as int)),
        decreases n - i,
    {
        assert(text@.skip(i as int).skip(1) =~= text@.skip(i + 1));
        i += 1;
    }
    let mut j: usize = n;
    assert(text@.subrange(i as int, n as int) =~= text@.skip(i as int));
    while j > i && white_space(text.get_char(j - 1))
        invariant
            i <= j <= n,
            n == text@.len(),
            trimmed(text@) == trimmed_end(text@.subrange(i as int, j as int)),
        decreases j,
    {
        assert(text@.subrange(i as int, j as int).drop_last() =~= text@.subrange(
            i as int,
            j - 1,
        ));
        j -= 1;
    }
    String::from_str(text.substring_char(i, j))
}

/// The standard error of a tool as it is reported.
pub open spec fn stderr_text(stderr: Option<String>) -> Seq<char> {
    match stderr {
        Some(text) => trimmed(text@),
        None => trimmed("<conversion errror: stderr was not valid utf8>"@),
    }
}

/// The reason that is reported when `program` has failed.
pub open spec fn failure_reason(program: Seq<char>, stderr: Option<String>) -> Seq<char> {
    program + " invocation failure: "@ + stderr_text(stderr)
}

/// Reads the answer of a tool: success, or the reason of the failure,
/// made of the program's name and what the tool wrote to its standard
/// error.
pub fn run_command(cmd: &CommandLine, output: &ToolOutput) -> (r: Result<(), String>)
    ensures
        r is Ok <==> output.success,
        r is Err ==> r->Err_0@ == failure_reason(cmd.program@, output.stderr),
{
    if output.success {
        return Ok(());
    }
    let stderr = match &output.stderr {
        Some(text) => trim(text.as_str()),
        None => trim("<conversion errror: stderr was not valid utf8>"),
    };
    let mut reason = String::from_str(cmd.program.as_str());
    reason.append(" invocation failure: ");
    reason.append(stderr.as_str());
    Err(reason)
}

/// Appends copies of the strings of `src` to `dst`, in order.
pub fn append_all(dst: &mut Vec<String>, src: &[String])
    ensures
        views(final(dst)@) == views(old(dst)@) + views(src@),
{
    let mut i: usize = 0;
    assert(views(dst@) =~= views(old(dst)@) + views(src@.take(0)));
    while i < src.len()
        invariant
            i <= src.len(),
            views(dst@) == views(old(dst)@) + views(src@.take(i as int)),
        decreases src.len() - i,
    {
        let s = src[i].clone();
        proof {
            lemma_views_push(dst@, s);
            assert(views(src@.take(i + 1)) =~= views(src@.take(i as int)).push(src@[i as int]@));
            assert(views(old(dst)@) + views(src@.take(i as int)).push(s@) =~= (views(old(dst)@)
                + views(src@.take(i as int))).push(s@));
        }
        dst.push(s);
        i += 1;
    }
    proof {
        assert(src@.take(i as int) =~= src@);
    }
}

/// A command line of the given program and arguments.
pub fn command(program: &str, args: Vec<&str>) -> (cmd: CommandLine)
    ensures
        cmd@.program == program@,
        cmd@.args == crate::text::str_views(args@),
{
    let mut w = crate::util::ArgWriter::new();
    w.add_many(args);
    let cmd = CommandLine { program: String::from_str(program), args: w.get_args() };
    assert(cmd@.args =~= crate::text::str_views(args@));
    cmd
}

} // verus!
