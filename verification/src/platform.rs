//! Whether this platform can export at all.
//!
//! The platform is probed once, when the program starts, and the answer is
//! handed to every operation. On a platform that cannot export, the answer
//! keeps the arguments that the program was started with, so that a refusal
//! can say what the user tried to run.

use crate::text::same_text;
use crate::text::texts;
use vstd::prelude::*;

verus! {

/// The outcome of the platform probe.
#[derive(Debug, PartialEq, Eq)]
pub enum Platform {
    /// Exports work here.
    Supported,
    /// Exports do not work here. Holds the arguments of the process, the
    /// program's name first.
    Unsupported(Vec<String>),
}

/// The mathematical value of a [`Platform`].
pub enum PlatformView {
    Supported,
    Unsupported(Seq<Seq<char>>),
}

impl View for Platform {
    type V = PlatformView;

    open spec fn view(&self) -> PlatformView {
        match self {
            Platform::Supported => PlatformView::Supported,
            Platform::Unsupported(args) => PlatformView::Unsupported(texts(args@)),
        }
    }
}

/// Argument `k` of the process, or the placeholder `<unknown>` where the
/// process has no such argument.
pub open spec fn argument(args: Seq<Seq<char>>, k: int) -> Seq<char> {
    if 0 <= k < args.len() {
        args[k]
    } else {
        "<unknown>"@
    }
}

/// The command that the user ran: the two arguments after the program's name,
/// with a blank between them.
pub open spec fn invocation(args: Seq<Seq<char>>) -> Seq<char> {
    argument(args, 1).push(' ') + argument(args, 2)
}

/// Argument `k` of the process, or the placeholder.
fn argument_of(args: &Vec<String>, k: usize) -> (r: String)
    ensures
        r@ == argument(texts(args@), k as int),
{
    if k < args.len() {
        args[k].clone()
    } else {
        "<unknown>".to_owned()
    }
}

/// The command that the user ran, as far as `args` tells.
pub fn invocation_of(args: &Vec<String>) -> (r: String)
    ensures
        r@ == invocation(texts(args@)),
{
    proof {
        reveal_strlit(" ");
    }
    let mut r = argument_of(args, 1);
    let second = argument_of(args, 2);
    r.append(" ");
    r.append(second.as_str());
    r
}

impl Platform {
    /// Probes the platform: exports work on the operating system `linux` and
    /// nowhere else. `os` names the operating system that the program runs
    /// on, `args` are the arguments that it was started with.
    pub fn probe(os: &str, args: Vec<String>) -> (platform: Platform)
        ensures
            platform@ == if os@ == "linux"@ {
                PlatformView::Supported
            } else {
                PlatformView::Unsupported(texts(args@))
            },
    {
        if same_text(os, "linux") {
            Platform::Supported
        } else {
            Platform::Unsupported(args)
        }
    }
}

} // verus!
