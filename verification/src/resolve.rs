//! The contract that every resolver of this crate meets.

use vstd::prelude::*;
use crate::error::ConfigParsingError;
use crate::path::ConfigPath;

verus! {

/// A type that can be resolved from the raw record `Raw`. The resolver
/// is given the location of the record, which it uses to label what it
/// reports, and an auxiliary input `Filter` where it needs one.
///
/// A resolver attempts every field of its record before it decides
/// whether it can build its value, so a failure holds every defect of
/// the record, and it never holds none.
pub trait FromRawConf<Raw, Filter>: Sized {
    fn from_config_filtered(raw: Raw, cwp: &ConfigPath, filter: Filter) -> (r: Result<
        Self,
        ConfigParsingError,
    >)
        ensures
            r matches Err(e) ==> e@.len() > 0,
    ;
}

} // verus!
