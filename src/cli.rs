//! The command line: an optional input path, an optional output path and a
//! flag that allows overwriting an existing output file.
use vstd::prelude::*;
use crate::text::{owned, same_text};

verus! {

/// The arguments of a run.
pub struct CLIArgs {
    /// Overwrite the output file if it exists.
    pub force: bool,
    /// The Traditional Chinese document; standard input when absent.
    pub tw_path: Option<String>,
    /// The Simplified Chinese document; derived from `tw_path` when absent.
    pub s_path: Option<String>,
}

/// What the command line asks for.
pub enum Request {
    /// A conversion with these arguments.
    Run(CLIArgs),
    /// The help text.
    Help,
    /// The version.
    Version,
}

/// A command line that cannot be understood.
pub enum ArgError {
    /// An option that the tool does not have.
    UnknownOption(String),
    /// A value after both paths were given.
    UnexpectedArgument(String),
}

pub struct ArgsView {
    pub force: bool,
    pub tw_path: Option<Seq<char>>,
    pub s_path: Option<Seq<char>>,
}

pub enum RequestView {
    Run(ArgsView),
    Help,
    Version,
}

pub enum ArgErrorView {
    UnknownOption(Seq<char>),
    UnexpectedArgument(Seq<char>),
}

impl View for ArgError {
    type V = ArgErrorView;

    open spec fn view(&self) -> ArgErrorView {
        match self {
            ArgError::UnknownOption(a) => ArgErrorView::UnknownOption(a@),
            ArgError::UnexpectedArgument(a) => ArgErrorView::UnexpectedArgument(a@),
        }
    }
}

pub open spec fn text_of(o: Option<String>) -> Option<Seq<char>> {
    match o {
        Some(s) => Some(s@),
        None => None,
    }
}

impl View for Request {
    type V = RequestView;

    open spec fn view(&self) -> RequestView {
        match self {
            Request::Run(a) => RequestView::Run(
                ArgsView { force: a.force, tw_path: text_of(a.tw_path), s_path: text_of(a.s_path) },
            ),
            Request::Help => RequestView::Help,
            Request::Version => RequestView::Version,
        }
    }
}

pub open spec fn is_end_of_options(a: Seq<char>) -> bool {
    a == seq!['-', '-']
}

pub open spec fn is_help(a: Seq<char>) -> bool {
    a == seq!['-', 'h'] || a == seq!['-', '-', 'h', 'e', 'l', 'p']
}

pub open spec fn is_version(a: Seq<char>) -> bool {
    a == seq!['-', 'V'] || a == seq!['-', '-', 'v', 'e', 'r', 's', 'i', 'o', 'n']
}

pub open spec fn is_force(a: Seq<char>) -> bool {
    a == seq!['-', 'f'] || a == seq!['-', '-', 'f', 'o', 'r', 'c', 'e']
}

/// An argument that reads as an option: a dash followed by something.
pub open spec fn is_option(a: Seq<char>) -> bool {
    a.len() >= 2 && a[0] == '-'
}

/// The request made by `args` from position `i` on, after the earlier ones
/// set `force` and the paths `tw` and `s`; `raw` once `--` was seen, after
/// which every argument is a path. Arguments are taken left to right: help
/// and version answer at once, an unknown option or a third path is an error.
pub open spec fn parse_from(
    args: Seq<Seq<char>>,
    i: int,
    force: bool,
    tw: Option<Seq<char>>,
    s: Option<Seq<char>>,
    raw: bool,
) -> Result<RequestView, ArgErrorView>
    decreases args.len() - i,
{
    if i < 0 || i >= args.len() {
        Ok(RequestView::Run(ArgsView { force, tw_path: tw, s_path: s }))
    } else {
        let a = args[i];
        if !raw && is_end_of_options(a) {
            parse_from(args, i + 1, force, tw, s, true)
        } else if !raw && is_help(a) {
            Ok(RequestView::Help)
        } else if !raw && is_version(a) {
            Ok(RequestView::Version)
        } else if !raw && is_force(a) {
            parse_from(args, i + 1, true, tw, s, raw)
        } else if !raw && is_option(a) {
            Err(ArgErrorView::UnknownOption(a))
        } else if tw is None {
            parse_from(args, i + 1, force, Some(a), s, raw)
        } else if s is None {
            parse_from(args, i + 1, force, tw, Some(a), raw)
        } else {
            Err(ArgErrorView::UnexpectedArgument(a))
        }
    }
}

/// The request made by the command-line arguments `args` (the program name
/// left out).
pub open spec fn parse_args(args: Seq<Seq<char>>) -> Result<RequestView, ArgErrorView> {
    parse_from(args, 0, false, None, None, false)
}

pub open spec fn request_result_view(r: Result<Request, ArgError>) -> Result<RequestView, ArgErrorView> {
    match r {
        Ok(q) => Ok(q@),
        Err(e) => Err(e@),
    }
}

/// Reads the command-line arguments `args` (the program name left out):
/// `-f`/`--force`, then at most two paths, the input and the output; `--`
/// makes every later argument a path; `-h`/`--help` and `-V`/`--version` ask
/// for the help text and the version.
pub fn get_args(args: &Vec<String>) -> (r: Result<Request, ArgError>)
    ensures
        request_result_view(r) == parse_args(args@.map_values(|a: String| a@)),
{
    let ghost all = args@.map_values(|a: String| a@);
    let mut force = false;
    let mut tw: Option<String> = None;
    let mut s: Option<String> = None;
    let mut raw = false;
    let mut i: usize = 0;
    while i < args.len()
        invariant
            all == args@.map_values(|a: String| a@),
            i <= args.len(),
            parse_args(all) == parse_from(all, i as int, force, text_of(tw), text_of(s), raw),
        decreases args.len() - i,
    {
        let a = &args[i];
        assert(all[i as int] == a@);
        let t = a.as_str();
        proof {
            reveal_strlit("--");
            reveal_strlit("-h");
            reveal_strlit("--help");
            reveal_strlit("-V");
            reveal_strlit("--version");
            reveal_strlit("-f");
            reveal_strlit("--force");
            assert("--"@ =~= seq!['-', '-']);
            assert("-h"@ =~= seq!['-', 'h']);
            assert("--help"@ =~= seq!['-', '-', 'h', 'e', 'l', 'p']);
            assert("-V"@ =~= seq!['-', 'V']);
            assert("--version"@ =~= seq!['-', '-', 'v', 'e', 'r', 's', 'i', 'o', 'n']);
            assert("-f"@ =~= seq!['-', 'f']);
            assert("--force"@ =~= seq!['-', '-', 'f', 'o', 'r', 'c', 'e']);
        }
        if !raw && same_text(t, "--") {
            raw = true;
        } else if !raw && (same_text(t, "-h") || same_text(t, "--help")) {
            return Ok(Request::Help);
        } else if !raw && (same_text(t, "-V") || same_text(t, "--version")) {
            return Ok(Request::Version);
        } else if !raw && (same_text(t, "-f") || same_text(t, "--force")) {
            force = true;
        } else if !raw && t.unicode_len() >= 2 && t.get_char(0) == '-' {
            return Err(ArgError::UnknownOption(owned(t)));
        } else if tw.is_none() {
            tw = Some(owned(t));
        } else if s.is_none() {
            s = Some(owned(t));
        } else {
            return Err(ArgError::UnexpectedArgument(owned(t)));
        }
        i += 1;
    }
    Ok(Request::Run(CLIArgs { force, tw_path: tw, s_path: s }))
}

} // verus!
