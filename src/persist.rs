use crate::descriptor::{ConfigError, ErrorKind};
use vstd::prelude::*;

verus! {

/// The suffix of the sibling path that a configuration is first written to.
pub const TEMP_SUFFIX: &'static str = ".tmp";

/// Decides whether a configuration may be written to a destination: not
/// when a file is there already and overwriting was not asked for.
pub fn check_destination(dest_exists: bool, force: bool) -> (r: Result<(), ConfigError>)
    ensures
        r.is_ok() == (!dest_exists || force),
        r matches Err(e) ==> e.kind() == ErrorKind::DestinationExists,
{
    if dest_exists && !force {
        Err(ConfigError::DestinationExists)
    } else {
        Ok(())
    }
}

/// The temporary sibling of `dest`, which is renamed onto `dest` once
/// written in full.
pub fn temp_path_for(dest: &str) -> (r: String)
    ensures
        r@ == dest@ + TEMP_SUFFIX@,
{
    String::from_str(dest).concat(TEMP_SUFFIX)
}

} // verus!
