use vstd::prelude::*;

use crate::process::{tool_name, Tool};

verus! {

/// Everything that can go wrong between a trigger and a stored image, or in
/// the actions that read the stored image afterwards.
#[derive(Clone, Debug)]
pub enum ShotError {
    /// The rendezvous address could not be set up or reached at startup.
    Acquisition { context: String, cause: String },
    /// A tool could not be started.
    Spawn { tool: Tool, cause: String },
    /// A tool started, but its output could not be collected.
    Receive { tool: Tool, cause: String },
    /// A tool exited with a nonzero status, with its error text if it wrote any.
    Exit { tool: Tool, status: i32, detail: Option<String> },
    /// A tool wrote text that is not valid UTF-8.
    InvalidText { tool: Tool },
    /// The captured bytes are not an image.
    InvalidImage { cause: String },
    /// No image has been captured yet.
    NoImage,
    /// The destination could not be chosen.
    Dialog { cause: String },
    /// The destination could not be created or written.
    Io { context: String, cause: String },
    /// The clipboard refused the image.
    Clipboard { cause: String },
}

/// The mathematical value of a `ShotError`: the same variants, with text as
/// sequences of characters.
pub enum Failure {
    Acquisition { context: Seq<char>, cause: Seq<char> },
    Spawn { tool: Tool, cause: Seq<char> },
    Receive { tool: Tool, cause: Seq<char> },
    Exit { tool: Tool, status: int, detail: Option<Seq<char>> },
    InvalidText { tool: Tool },
    InvalidImage { cause: Seq<char> },
    NoImage,
    Dialog { cause: Seq<char> },
    Io { context: Seq<char>, cause: Seq<char> },
    Clipboard { cause: Seq<char> },
}

pub open spec fn text_view(t: Option<String>) -> Option<Seq<char>> {
    match t {
        Some(s) => Some(s@),
        None => None,
    }
}

impl View for ShotError {
    type V = Failure;

    open spec fn view(&self) -> Failure {
        match self {
            ShotError::Acquisition { context, cause } => Failure::Acquisition {
                context: context@,
                cause: cause@,
            },
            ShotError::Spawn { tool, cause } => Failure::Spawn { tool: *tool, cause: cause@ },
            ShotError::Receive { tool, cause } => Failure::Receive { tool: *tool, cause: cause@ },
            ShotError::Exit { tool, status, detail } => Failure::Exit {
                tool: *tool,
                status: *status as int,
                detail: text_view(*detail),
            },
            ShotError::InvalidText { tool } => Failure::InvalidText { tool: *tool },
            ShotError::InvalidImage { cause } => Failure::InvalidImage { cause: cause@ },
            ShotError::NoImage => Failure::NoImage,
            ShotError::Dialog { cause } => Failure::Dialog { cause: cause@ },
            ShotError::Io { context, cause } => Failure::Io { context: context@, cause: cause@ },
            ShotError::Clipboard { cause } => Failure::Clipboard { cause: cause@ },
        }
    }
}

pub open spec fn digit(d: nat) -> char {
    seq!['0', '1', '2', '3', '4', '5', '6', '7', '8', '9'][d as int]
}

/// The decimal digits of `n`, most significant first, without leading zeros.
pub open spec fn digits(n: nat) -> Seq<char>
    decreases n,
{
    if n < 10 {
        seq![digit(n)]
    } else {
        digits(n / 10).push(digit(n % 10))
    }
}

/// `n` written in decimal, with a leading `-` when it is negative.
pub open spec fn decimal(n: int) -> Seq<char> {
    if n < 0 {
        seq!['-'] + digits((-n) as nat)
    } else {
        digits(n as nat)
    }
}

/// Relies on the `Display` impl of `i32` (through `to_string`): it writes the
/// number in decimal, with a `-` before a negative one.
#[verifier::external_body]
fn decimal_text(n: i32) -> (r: String)
    ensures
        r@ == decimal(n as int),
{
    n.to_string()
}

/// An outer context joined to its inner cause.
pub open spec fn chained(context: Seq<char>, cause: Seq<char>) -> Seq<char> {
    context + ": "@ + cause
}

/// The human-readable text shown for a failure.
pub open spec fn message_of(f: Failure) -> Seq<char> {
    match f {
        Failure::Acquisition { context, cause } => chained(context, cause),
        Failure::Spawn { tool, cause } => chained("spawning "@ + tool_name(tool), cause),
        Failure::Receive { tool, cause } => chained(
            "receiving output from "@ + tool_name(tool),
            cause,
        ),
        Failure::Exit { tool, status, detail } => match detail {
            None => tool_name(tool) + " failed with exit status "@ + decimal(status)
                + " but no error output was provided"@,
            Some(d) => tool_name(tool) + " failed with exit status "@ + decimal(status) + ":\n"@
                + d,
        },
        Failure::InvalidText { tool } => chained(
            "decoding "@ + tool_name(tool) + " output"@,
            "the text is not valid UTF-8"@,
        ),
        Failure::InvalidImage { cause } => chained("loading screenshot image"@, cause),
        Failure::NoImage => "No screenshot available"@,
        Failure::Dialog { cause } => chained("choosing output file"@, cause),
        Failure::Io { context, cause } => chained(context, cause),
        Failure::Clipboard { cause } => chained("Saving Image to Clipboard"@, cause),
    }
}

fn join(context: String, cause: &String) -> (r: String)
    ensures
        r@ == chained(context@, cause@),
{
    let mut r = context;
    r.append(": ");
    r.append(cause.as_str());
    r
}

impl ShotError {
    /// The text to show for this error: the outer context, then the cause.
    pub fn message(&self) -> (r: String)
        ensures
            r@ == message_of(self@),
    {
        match self {
            ShotError::Acquisition { context, cause } => join(context.clone(), cause),
            ShotError::Spawn { tool, cause } => {
                let mut c = String::from_str("spawning ");
                c.append(tool.program());
                join(c, cause)
            },
            ShotError::Receive { tool, cause } => {
                let mut c = String::from_str("receiving output from ");
                c.append(tool.program());
                join(c, cause)
            },
            ShotError::Exit { tool, status, detail } => {
                let mut r = String::from_str(tool.program());
                r.append(" failed with exit status ");
                let n = decimal_text(*status);
                r.append(n.as_str());
                match detail {
                    None => {
                        r.append(" but no error output was provided");
                    },
                    Some(d) => {
                        r.append(":\n");
                        r.append(d.as_str());
                    },
                }
                r
            },
            ShotError::InvalidText { tool } => {
                let mut c = String::from_str("decoding ");
                c.append(tool.program());
                c.append(" output");
                join(c, &String::from_str("the text is not valid UTF-8"))
            },
            ShotError::InvalidImage { cause } => join(
                String::from_str("loading screenshot image"),
                cause,
            ),
            ShotError::NoImage => String::from_str("No screenshot available"),
            ShotError::Dialog { cause } => join(String::from_str("choosing output file"), cause),
            ShotError::Io { context, cause } => join(context.clone(), cause),
            ShotError::Clipboard { cause } => join(
                String::from_str("Saving Image to Clipboard"),
                cause,
            ),
        }
    }
}

} // verus!
