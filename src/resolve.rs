//! Resolution of the command-line values and the file text into one
//! configuration, falling back to an inert one where parsing fails.
use vstd::prelude::*;
use crate::config::{Args, ArgsView, Level, parse, parse_spec, empty_args, CONFIG_PATH};
use crate::node::{loadable, within_limits};

verus! {

/// What the command line gives: the level and the file to read.
pub struct CliArgs {
    pub log_level: Level,
    pub config_file: String,
}

/// The level that `occurrences` of the debug flag ask for.
pub open spec fn level_of(occurrences: u64) -> Level {
    if occurrences == 0 {
        Level::Warn
    } else if occurrences == 1 {
        Level::Info
    } else if occurrences == 2 {
        Level::Debug
    } else {
        Level::Trace
    }
}

/// The configuration that the text of the file gives. `None` stands for a
/// file that could not be read, which counts as empty text: no sink, at the
/// requested level. Text that is no YAML, or beyond the loader's limits,
/// gives the clean configuration.
pub open spec fn resolve_spec(log_level: Level, file_text: Option<Seq<char>>) -> ArgsView {
    match file_text {
        None => empty_args(Seq::empty(), log_level),
        Some(text) => if !loadable(text) {
            empty_args(Seq::empty(), Level::Warn)
        } else {
            match parse_spec(text, log_level) {
                Ok(a) => a,
                Err(_) => empty_args(Seq::empty(), Level::Warn),
            }
        },
    }
}

/// The characters of the text, if any.
pub open spec fn text_view(t: Option<&str>) -> Option<Seq<char>> {
    match t {
        Some(s) => Some(s@),
        None => None,
    }
}

/// Resolves the count of the debug flag and the optional config flag.
pub fn get_cli_args(occurrences: u64, config: Option<&str>) -> (r: CliArgs)
    ensures
        r.log_level == level_of(occurrences),
        config is Some ==> r.config_file@ == config->0@,
        config is None ==> r.config_file@ == CONFIG_PATH@,
{
    let log_level = if occurrences == 0 {
        Level::Warn
    } else if occurrences == 1 {
        Level::Info
    } else if occurrences == 2 {
        Level::Debug
    } else {
        Level::Trace
    };
    let config_file = match config {
        Some(path) => path.to_owned(),
        None => CONFIG_PATH.to_owned(),
    };
    CliArgs { log_level, config_file }
}

/// The configuration for `log_level` and the text read from the config file
/// (`None` where reading failed); never fails, and falls back to the clean
/// configuration where the text cannot be parsed.
pub fn get_args(log_level: Level, file_text: Option<&str>) -> (r: Args)
    ensures
        r@ == resolve_spec(log_level, text_view(file_text)),
        file_text is None ==> r@ == empty_args(Seq::empty(), log_level),
{
    match file_text {
        None => Args::with_log_level(log_level),
        Some(text) => {
            if !within_limits(text) {
                Args::clean()
            } else {
                match parse(text, log_level) {
                    Ok(args) => args,
                    Err(_) => Args::clean(),
                }
            }
        },
    }
}

} // verus!
