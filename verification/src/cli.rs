//! The command line: `[-d] [-q|--query <text>] <script_path>`.

use vstd::prelude::*;

use crate::text::str_equal;

verus! {

/// What the command line asks for.
pub struct Options {
    pub script_name: String,
    pub debug_mode: bool,
    pub initial_query: String,
}

/// Why a command line was refused.
#[derive(Clone, Copy, Debug, PartialEq, Eq, Structural)]
pub enum ArgsError {
    /// `-q` or `--query` was the last word, with no value after it.
    MissingQueryValue,
    /// No script path, or more than one.
    Usage,
}

/// The model of [`Options`]: the script path, the debug flag, the query.
pub type OptionsView = (Seq<char>, bool, Seq<char>);

/// Reads the words of `args` from index `i` on, given what was read before
/// (`name`, `debug`, `query`); word 0, the program's name, is never read.
pub open spec fn parse_from(
    args: Seq<Seq<char>>,
    i: int,
    name: Option<Seq<char>>,
    debug: bool,
    query: Seq<char>,
) -> Result<OptionsView, ArgsError>
    decreases args.len() - i,
{
    if i >= args.len() || i < 1 {
        match name {
            Some(n) => Ok((n, debug, query)),
            None => Err(ArgsError::Usage),
        }
    } else if args[i] == "-d"@ {
        parse_from(args, i + 1, name, true, query)
    } else if args[i] == "-q"@ || args[i] == "--query"@ {
        if i + 1 < args.len() {
            parse_from(args, i + 2, name, debug, args[i + 1])
        } else {
            Err(ArgsError::MissingQueryValue)
        }
    } else if name is None {
        parse_from(args, i + 1, Some(args[i]), debug, query)
    } else {
        Err(ArgsError::Usage)
    }
}

/// The reading of a whole command line, program name first.
pub open spec fn parse_spec(args: Seq<Seq<char>>) -> Result<OptionsView, ArgsError> {
    if args.len() == 0 {
        Err(ArgsError::Usage)
    } else {
        parse_from(args, 1, None, false, Seq::empty())
    }
}

/// Reads the command line `args`, program name first: `-d` turns on the debug
/// screen, `-q`/`--query` takes the next word as the starting query (the last
/// one wins), and the single other word is the script path.
pub fn parse_args(args: &Vec<String>) -> (res: Result<Options, ArgsError>)
    ensures
        match res {
            Ok(o) => parse_spec(args.deep_view()) == Ok::<OptionsView, ArgsError>(
                (o.script_name@, o.debug_mode, o.initial_query@),
            ),
            Err(e) => parse_spec(args.deep_view()) == Err::<OptionsView, ArgsError>(e),
        },
{
    let ghost av = args.deep_view();
    if args.len() == 0 {
        return Err(ArgsError::Usage);
    }
    let mut script_name: Option<String> = None;
    let mut debug_mode = false;
    let mut initial_query = String::new();
    let mut i: usize = 1;
    while i < args.len()
        invariant
            1 <= i <= args.len(),
            av == args.deep_view(),
            parse_spec(av) == parse_from(
                av,
                i as int,
                match script_name { Some(n) => Some(n@), None => None },
                debug_mode,
                initial_query@,
            ),
        decreases args.len() - i,
    {
        let word = args[i].as_str();
        if str_equal(word, "-d") {
            debug_mode = true;
            i = i + 1;
        } else if str_equal(word, "-q") || str_equal(word, "--query") {
            if i + 1 < args.len() {
                initial_query = args[i + 1].clone();
                i = i + 2;
            } else {
                return Err(ArgsError::MissingQueryValue);
            }
        } else {
            if script_name.is_none() {
                script_name = Some(args[i].clone());
                i = i + 1;
            } else {
                return Err(ArgsError::Usage);
            }
        }
    }
    match script_name {
        Some(name) => Ok(Options { script_name: name, debug_mode, initial_query }),
        None => Err(ArgsError::Usage),
    }
}

} // verus!
