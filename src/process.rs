use vstd::prelude::*;
use vstd::utf8::{decode_utf8, valid_utf8};

use crate::error::{Failure, ShotError};

verus! {

/// The outside programs that a capture runs.
#[derive(Clone, Copy, Debug, PartialEq, Eq, Structural)]
pub enum Tool {
    /// Writes the screen, or a region of it, to standard output as an image.
    Capture,
    /// Lets the user pick a rectangle and prints it as text.
    Region,
    /// Hides the pointer for as long as it runs.
    CursorHider,
}

pub open spec fn tool_name(t: Tool) -> Seq<char> {
    match t {
        Tool::Capture => "grim"@,
        Tool::Region => "slurp"@,
        Tool::CursorHider => "hyprpicker"@,
    }
}

impl Tool {
    /// The name of the program to start.
    pub fn program(&self) -> (r: &'static str)
        ensures
            r@ == tool_name(*self),
    {
        match self {
            Tool::Capture => "grim",
            Tool::Region => "slurp",
            Tool::CursorHider => "hyprpicker",
        }
    }
}

/// The argument vector that starts `tool`. The capture tool writes to standard
/// output, limited to `geometry` when there is one, with the pointer drawn
/// when `cursor` holds; the other tools ignore both.
pub open spec fn command_line(tool: Tool, geometry: Option<Seq<char>>, cursor: bool) -> Seq<
    Seq<char>,
> {
    match tool {
        Tool::Capture => seq![tool_name(tool)] + match geometry {
            Some(g) => seq!["-g"@, g],
            None => Seq::empty(),
        } + if cursor {
            seq!["-c"@]
        } else {
            Seq::empty()
        } + seq!["-"@],
        Tool::Region => seq![tool_name(tool)],
        Tool::CursorHider => seq![tool_name(tool), "-r"@, "-z"@],
    }
}

pub open spec fn texts(v: Seq<String>) -> Seq<Seq<char>> {
    v.map_values(|a: String| a@)
}

pub fn command(tool: Tool, geometry: &Option<String>, cursor: bool) -> (r: Vec<String>)
    ensures
        texts(r@) == command_line(tool, crate::error::text_view(*geometry), cursor),
{
    let mut r: Vec<String> = Vec::new();
    r.push(String::from_str(tool.program()));
    match tool {
        Tool::Capture => {
            match geometry {
                Some(g) => {
                    r.push(String::from_str("-g"));
                    r.push(g.clone());
                },
                None => {},
            }
            if cursor {
                r.push(String::from_str("-c"));
            }
            r.push(String::from_str("-"));
        },
        Tool::Region => {},
        Tool::CursorHider => {
            r.push(String::from_str("-r"));
            r.push(String::from_str("-z"));
        },
    }
    assert(texts(r@) =~= command_line(tool, crate::error::text_view(*geometry), cursor));
    r
}

/// How a tool ended: its exit status and everything it wrote.
#[derive(Clone, Debug)]
pub struct ProcessOutput {
    pub status: i32,
    pub stdout: Vec<u8>,
    pub stderr: Vec<u8>,
}

/// What became of one run of a tool.
#[derive(Clone, Debug)]
pub enum RunReport {
    /// The tool could not be started.
    SpawnFailed { cause: String },
    /// The tool started, but waiting for its output failed.
    ReceiveFailed { cause: String },
    /// The tool ran to its end.
    Exited(ProcessOutput),
}

/// The decoding rule for a tool that ran to its end: status 0 gives its
/// standard output; any other status is a failure that carries the status and,
/// when the tool wrote any, its error text.
pub open spec fn exit_outcome(tool: Tool, status: int, stdout: Seq<u8>, stderr: Seq<u8>) -> Result<
    Seq<u8>,
    Failure,
> {
    if status == 0 {
        Ok(stdout)
    } else if stderr.len() == 0 {
        Err(Failure::Exit { tool, status, detail: None })
    } else if valid_utf8(stderr) {
        Err(Failure::Exit { tool, status, detail: Some(decode_utf8(stderr)) })
    } else {
        Err(Failure::InvalidText { tool })
    }
}

pub open spec fn report_outcome(tool: Tool, report: RunReport) -> Result<Seq<u8>, Failure> {
    match report {
        RunReport::SpawnFailed { cause } => Err(Failure::Spawn { tool, cause: cause@ }),
        RunReport::ReceiveFailed { cause } => Err(Failure::Receive { tool, cause: cause@ }),
        RunReport::Exited(out) => exit_outcome(tool, out.status as int, out.stdout@, out.stderr@),
    }
}

pub open spec fn bytes_outcome(r: Result<Vec<u8>, ShotError>) -> Result<Seq<u8>, Failure> {
    match r {
        Ok(v) => Ok(v@),
        Err(e) => Err(e@),
    }
}

/// Relies on `String::from_utf8`: it accepts exactly the valid UTF-8
/// encodings and gives the characters that they encode.
#[verifier::external_body]
fn utf8_text(bytes: Vec<u8>) -> (r: Option<String>)
    ensures
        r is Some <==> valid_utf8(bytes@),
        r matches Some(s) ==> s@ == decode_utf8(bytes@),
{
    String::from_utf8(bytes).ok()
}

/// Applies the decoding rule to one run of `tool`.
pub fn collect_output(tool: Tool, report: RunReport) -> (r: Result<Vec<u8>, ShotError>)
    ensures
        bytes_outcome(r) == report_outcome(tool, report),
{
    match report {
        RunReport::SpawnFailed { cause } => Err(ShotError::Spawn { tool, cause }),
        RunReport::ReceiveFailed { cause } => Err(ShotError::Receive { tool, cause }),
        RunReport::Exited(out) => {
            if out.status == 0 {
                Ok(out.stdout)
            } else if out.stderr.len() == 0 {
                Err(ShotError::Exit { tool, status: out.status, detail: None })
            } else {
                let status = out.status;
                match utf8_text(out.stderr) {
                    Some(text) => Err(ShotError::Exit { tool, status, detail: Some(text) }),
                    None => Err(ShotError::InvalidText { tool }),
                }
            }
        },
    }
}

/// The characters that Unicode gives the White_Space property.
pub open spec fn is_white_space(c: char) -> bool {
    let u = c as u32;
    (0x9 <= u <= 0xd) || u == 0x20 || u == 0x85 || u == 0xa0 || u == 0x1680 || (0x2000 <= u
        <= 0x200a) || u == 0x2028 || u == 0x2029 || u == 0x202f || u == 0x205f || u == 0x3000
}

/// `s` without the white space at its end.
pub open spec fn trimmed_end(s: Seq<char>) -> Seq<char>
    decreases s.len(),
{
    if s.len() > 0 && is_white_space(s.last()) {
        trimmed_end(s.drop_last())
    } else {
        s
    }
}

/// Relies on `str::trim_end`: it removes the trailing characters that have
/// the Unicode White_Space property, and nothing else.
#[verifier::external_body]
fn trim_end(s: &str) -> (r: &str)
    ensures
        r@ == trimmed_end(s@),
{
    s.trim_end()
}

/// What the region tool's standard output means: the rectangle it printed,
/// without trailing white space, or a failure when it is not text.
pub open spec fn region_outcome(stdout: Seq<u8>) -> Result<Seq<char>, Failure> {
    if valid_utf8(stdout) {
        Ok(trimmed_end(decode_utf8(stdout)))
    } else {
        Err(Failure::InvalidText { tool: Tool::Region })
    }
}

pub open spec fn text_outcome(r: Result<String, ShotError>) -> Result<Seq<char>, Failure> {
    match r {
        Ok(s) => Ok(s@),
        Err(e) => Err(e@),
    }
}

/// Reads the rectangle that the region tool printed.
pub fn region_geometry(stdout: Vec<u8>) -> (r: Result<String, ShotError>)
    ensures
        text_outcome(r) == region_outcome(stdout@),
{
    match utf8_text(stdout) {
        Some(text) => Ok(String::from_str(trim_end(text.as_str()))),
        None => Err(ShotError::InvalidText { tool: Tool::Region }),
    }
}

} // verus!
