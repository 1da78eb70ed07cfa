//! Merging of configuration values with command-line precedence.

use vstd::prelude::*;

verus! {

/// The value of a list setting: the command-line list when it is not empty,
/// else the file's list, else the empty list.
pub open spec fn vec_merged(cli: Seq<String>, file: Option<Seq<String>>) -> Seq<String> {
    if cli.len() > 0 {
        cli
    } else {
        match file {
            Some(v) => v,
            None => Seq::<String>::empty(),
        }
    }
}

/// The value of a string setting with a default: the command-line value when
/// it differs from the default, else the file's value, else the default.
pub open spec fn string_merged(
    cli: Seq<char>,
    file: Option<Seq<char>>,
    default: Seq<char>,
) -> Seq<char> {
    if cli != default {
        cli
    } else {
        match file {
            Some(f) => f,
            None => default,
        }
    }
}

/// The value of an optional setting: the command-line value when present,
/// else the file's value.
pub open spec fn option_merged<T>(cli: Option<T>, file: Option<T>) -> Option<T> {
    match cli {
        Some(v) => Some(v),
        None => file,
    }
}

/// The value of a boolean setting: the command-line value when given, else
/// the file's value when given, else the default.
pub open spec fn bool_merged(cli: Option<bool>, file: Option<bool>, default: bool) -> bool {
    match cli {
        Some(v) => v,
        None => match file {
            Some(v) => v,
            None => default,
        },
    }
}

/// The views of the strings in an optional list.
pub open spec fn opt_vec_view(v: Option<Vec<String>>) -> Option<Seq<String>> {
    match v {
        Some(v) => Some(v@),
        None => None,
    }
}

/// The view of an optional string.
pub open spec fn opt_view(o: Option<String>) -> Option<Seq<char>> {
    match o {
        Some(s) => Some(s@),
        None => None,
    }
}

/// Merging of a command-line value, a configuration-file value and a default
/// value, with the command line taking the highest precedence.
pub trait ConfigMerger<T>: Sized {
    /// Merges the three values; see each implementation for the rule.
    fn merge(cli_value: T, file_value: Option<T>, default_value: T) -> T;
}

/// Lists: the command-line list when non-empty, else the file's list, else
/// the empty list (the default value is not used).
impl ConfigMerger<Vec<String>> for Vec<String> {
    fn merge(
        cli_value: Vec<String>,
        file_value: Option<Vec<String>>,
        _default_value: Vec<String>,
    ) -> (r: Vec<String>)
        ensures
            r@ == vec_merged(cli_value@, opt_vec_view(file_value)),
    {
        if cli_value.len() > 0 {
            cli_value
        } else {
            match file_value {
                Some(v) => v,
                None => Vec::new(),
            }
        }
    }
}

/// Strings: the command-line value when it differs from the default, else
/// the file's value, else the default.
impl ConfigMerger<String> for String {
    fn merge(cli_value: String, file_value: Option<String>, default_value: String) -> (r: String)
        ensures
            r@ == string_merged(cli_value@, opt_view(file_value), default_value@),
    {
        if !(cli_value == default_value) {
            cli_value
        } else {
            match file_value {
                Some(f) => f,
                None => default_value,
            }
        }
    }
}

/// Optional values: the command-line value when present, else the file's
/// value (which may itself be absent).
impl<T> ConfigMerger<Option<T>> for Option<T> {
    fn merge(
        cli_value: Option<T>,
        file_value: Option<Option<T>>,
        _default_value: Option<T>,
    ) -> (r: Option<T>)
        ensures
            r == option_merged(
                cli_value,
                match file_value {
                    Some(f) => f,
                    None => None,
                },
            ),
    {
        match cli_value {
            Some(v) => Some(v),
            None => match file_value {
                Some(f) => f,
                None => None,
            },
        }
    }
}

/// Merger for boolean settings whose command-line value is optional.
pub struct BoolMerger;

impl BoolMerger {
    /// The command-line value when given, else the file's value when given,
    /// else the default.
    pub fn merge(cli_value: Option<bool>, file_value: Option<bool>, default_value: bool) -> (r:
        bool)
        ensures
            r == bool_merged(cli_value, file_value, default_value),
    {
        match cli_value {
            Some(v) => v,
            None => match file_value {
                Some(v) => v,
                None => default_value,
            },
        }
    }
}

} // verus!
