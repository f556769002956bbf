//! Diagnostics: where the log goes and how a panic is described.
//!
//! Installing the logger and the panic hook is I/O and stands outside the
//! library.

use vstd::prelude::*;

use crate::errors::CoreError;
use crate::numbers::{decimal, decimal_string};
use crate::paths::{data_dir_of, default_data_dir, join_path, path_join, path_result_matches, PathEnv};

verus! {

/// Where the log file lives: `logs/rustle.log` under the data directory.
pub open spec fn log_path_of(env: PathEnv) -> Result<Seq<char>, ()> {
    match data_dir_of(env) {
        Ok(d) => Ok(path_join(path_join(d, "logs"@), "rustle.log"@)),
        Err(()) => Err(()),
    }
}

/// The log file's path.
pub fn default_log_path(env: &PathEnv) -> (r: Result<String, CoreError>)
    ensures
        path_result_matches(r, log_path_of(*env), "data"@),
{
    match default_data_dir(env) {
        Ok(d) => {
            let logs = join_path(d.as_str(), "logs");
            Ok(join_path(logs.as_str(), "rustle.log"))
        },
        Err(e) => Err(e),
    }
}

/// What a panic says: its message when it is text.
pub fn panic_payload_message(payload: Option<&str>) -> (r: String)
    ensures
        r@ == match payload {
            Some(m) => m@,
            None => "panic payload is not a string"@,
        },
{
    match payload {
        Some(m) => m.to_owned(),
        None => "panic payload is not a string".to_owned(),
    }
}

/// Where a panic happened: `file:line:column`, or `unknown location`.
pub fn panic_location(location: Option<(&str, u32, u32)>) -> (r: String)
    ensures
        r@ == match location {
            Some((file, line, column)) => file@ + ":"@ + decimal(line as nat) + ":"@ + decimal(column as nat),
            None => "unknown location"@,
        },
{
    match location {
        Some((file, line, column)) => {
            let mut r = file.to_owned();
            r.append(":");
            r.append(decimal_string(line as u64).as_str());
            r.append(":");
            r.append(decimal_string(column as u64).as_str());
            r
        },
        None => "unknown location".to_owned(),
    }
}

/// The log filter used when `RUST_LOG` gives none.
pub const DEFAULT_LOG_FILTER: &'static str = "info,whisper_rs=warn";

} // verus!
