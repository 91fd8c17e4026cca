//! The window and the strategy with which a chain is indexed.

use vstd::prelude::*;
use crate::coerce::{coerce_u32, coerced_or, coercion_errors, StrOrInt};
use crate::error::{error_at, finalized, outcome, ConfigErrorKind, ConfigErrorView, ConfigParsingError};
use crate::path::ConfigPath;
use crate::resolve::FromRawConf;
use crate::text::is_text;

verus! {

/// The indexing settings of a chain as the document holds them.
#[derive(Debug)]
pub struct DeprecatedRawIndexSettings {
    pub from: Option<StrOrInt>,
    pub chunk: Option<StrOrInt>,
    pub mode: Option<String>,
}

/// How the indexer walks a chain.
#[derive(Debug, Clone, Copy, PartialEq, Eq, Structural)]
pub enum IndexMode {
    /// Block by block. This is the default.
    Block,
    /// Message by message, in the order of their sequence numbers.
    Sequence,
}

/// The resolved indexing settings of a chain.
#[derive(Debug, Clone, Copy, PartialEq, Eq, Structural)]
pub struct IndexSettings {
    /// The height at which indexing starts.
    pub from: u32,
    /// The number of blocks that one query covers.
    pub chunk_size: u32,
    /// The strategy.
    pub mode: IndexMode,
}

impl View for IndexSettings {
    type V = IndexSettings;

    open spec fn view(&self) -> IndexSettings {
        *self
    }
}

/// The settings of a chain whose document says nothing of indexing:
/// from height 0, in chunks of 1999 blocks, block by block.
pub open spec fn default_index_settings() -> IndexSettings {
    IndexSettings { from: 0, chunk_size: 1999, mode: IndexMode::Block }
}

impl Default for IndexSettings {
    fn default() -> (s: Self)
        ensures
            s == default_index_settings(),
    {
        IndexSettings { from: 0, chunk_size: 1999, mode: IndexMode::Block }
    }
}

/// The strategy that a text names, if it names one.
pub open spec fn index_mode_of(s: Seq<char>) -> Option<IndexMode> {
    if s == "block"@ {
        Some(IndexMode::Block)
    } else if s == "sequence"@ {
        Some(IndexMode::Sequence)
    } else {
        None
    }
}

/// The defects of the field `mode`: a text that names no strategy.
pub open spec fn mode_errors(mode: Option<String>, cwp: Seq<Seq<char>>) -> Seq<ConfigErrorView> {
    if mode is Some && index_mode_of(mode->0@) is None {
        seq![error_at(cwp.push("mode"@), ConfigErrorKind::InvalidValue, "Invalid mode"@)]
    } else {
        Seq::empty()
    }
}

/// The strategy that the field `mode` asks for; the default where it
/// is absent.
pub open spec fn mode_value(mode: Option<String>) -> IndexMode {
    match mode {
        Some(m) => match index_mode_of(m@) {
            Some(v) => v,
            None => IndexMode::Block,
        },
        None => IndexMode::Block,
    }
}

/// The defects of raw indexing settings at location `cwp`: those of
/// `from`, then of `chunk`, then of `mode`.
pub open spec fn index_errors(raw: DeprecatedRawIndexSettings, cwp: Seq<Seq<char>>) -> Seq<ConfigErrorView> {
    coercion_errors(raw.from, u32::MAX as int, cwp.push("from"@), "Invalid `from`, expected integer"@)
        + coercion_errors(raw.chunk, u32::MAX as int, cwp.push("chunk"@), "Invalid `chunk`, expected integer"@)
        + mode_errors(raw.mode, cwp)
}

/// The settings that raw indexing settings without defects describe:
/// an absent `from` is 0, an absent `chunk` is 1999, an absent `mode` is
/// the default strategy.
pub open spec fn index_value(raw: DeprecatedRawIndexSettings) -> IndexSettings {
    IndexSettings {
        from: coerced_or(raw.from, u32::MAX as int, 0) as u32,
        chunk_size: coerced_or(raw.chunk, u32::MAX as int, 1999) as u32,
        mode: mode_value(raw.mode),
    }
}

impl IndexMode {
    /// Reads the name of a strategy: `block` or `sequence`.
    pub fn parse(s: &String) -> (r: Option<IndexMode>)
        ensures
            r == index_mode_of(s@),
    {
        if is_text(s, "block") {
            Some(IndexMode::Block)
        } else if is_text(s, "sequence") {
            Some(IndexMode::Sequence)
        } else {
            None
        }
    }
}

impl FromRawConf<DeprecatedRawIndexSettings, ()> for IndexSettings {
    /// Resolves indexing settings. Each of the three fields is attempted
    /// whatever became of the others.
    fn from_config_filtered(raw: DeprecatedRawIndexSettings, cwp: &ConfigPath, _filter: ()) -> (r: Result<
        Self,
        ConfigParsingError,
    >)
        ensures
            outcome(r) == finalized(index_errors(raw, cwp@), index_value(raw)),
    {
        let mut err = ConfigParsingError::new();
        let from = match coerce_u32(&mut err, &raw.from, cwp, "from", "Invalid `from`, expected integer") {
            Some(v) => v,
            None => 0,
        };
        let chunk_size = match coerce_u32(
            &mut err,
            &raw.chunk,
            cwp,
            "chunk",
            "Invalid `chunk`, expected integer",
        ) {
            Some(v) => v,
            None => 1999,
        };
        let mode = match &raw.mode {
            Some(m) => match IndexMode::parse(m) {
                Some(v) => v,
                None => {
                    err.report(cwp, "mode", ConfigErrorKind::InvalidValue, "Invalid mode");
                    IndexMode::Block
                },
            },
            None => IndexMode::Block,
        };
        assert(err@ =~= index_errors(raw, cwp@));
        err.into_result(IndexSettings { from, chunk_size, mode })
    }
}

} // verus!
