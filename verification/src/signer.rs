//! Signers: the credentials with which an agent signs.

use vstd::prelude::*;
use vstd::string::*;
use crate::address::{hex_bytes, parse_key, H256};
use crate::error::{error_at, finalized, missing_unless, outcome, ConfigErrorKind, ConfigErrorView, ConfigParsingError};
use crate::path::ConfigPath;
use crate::resolve::FromRawConf;
use crate::text::is_text;

verus! {

/// A signer as the document describes it. The type tag is optional:
/// without it the kind of signer follows from the fields that are there.
#[derive(Debug, Default)]
pub struct DeprecatedRawSignerConf {
    pub signer_type: Option<String>,
    pub key: Option<String>,
    pub id: Option<String>,
    pub region: Option<String>,
}

/// A resolved signer.
#[derive(Debug)]
pub enum SignerConf {
    /// A private key, held in the configuration itself.
    HexKey { key: H256 },
    /// A key that a cloud key-management service holds.
    Aws { id: String, region: String },
    /// No credentials: the node that is connected to signs.
    Node,
}

/// The mathematical content of a [`SignerConf`].
pub enum SignerConfView {
    HexKey { key: Seq<u8> },
    Aws { id: Seq<char>, region: Seq<char> },
    Node,
}

impl View for SignerConf {
    type V = SignerConfView;

    open spec fn view(&self) -> SignerConfView {
        match *self {
            SignerConf::HexKey { key } => SignerConfView::HexKey { key: key@ },
            SignerConf::Aws { id, region } => SignerConfView::Aws { id: id@, region: region@ },
            SignerConf::Node => SignerConfView::Node,
        }
    }
}

impl Clone for SignerConf {
    fn clone(&self) -> (r: Self)
        ensures
            r@ == self@,
    {
        match self {
            SignerConf::HexKey { key } => SignerConf::HexKey { key: *key },
            SignerConf::Aws { id, region } => SignerConf::Aws { id: id.clone(), region: region.clone() },
            SignerConf::Node => SignerConf::Node,
        }
    }
}

/// The kind of signer that a raw record describes.
#[derive(Debug, Clone, Copy, PartialEq, Eq, Structural)]
pub enum SignerKind {
    HexKey,
    Aws,
    Unknown,
    Node,
}

/// The kind of signer that a record describes. A type tag decides, if
/// there is one. Without a tag, a key makes a hex-key signer; failing
/// that, an id or a region makes a cloud signer; a record with none of
/// them leaves the signing to the node.
pub open spec fn signer_kind(raw: DeprecatedRawSignerConf) -> SignerKind {
    match raw.signer_type {
        Some(t) => if t@ == "hexKey"@ {
            SignerKind::HexKey
        } else if t@ == "aws"@ {
            SignerKind::Aws
        } else {
            SignerKind::Unknown
        },
        None => if raw.key is Some {
            SignerKind::HexKey
        } else if raw.id is Some || raw.region is Some {
            SignerKind::Aws
        } else {
            SignerKind::Node
        },
    }
}

/// The defects of a record that describes a hex-key signer.
pub open spec fn hex_key_errors(raw: DeprecatedRawSignerConf, cwp: Seq<Seq<char>>) -> Seq<ConfigErrorView> {
    match raw.key {
        None => seq![
            error_at(cwp.push("key"@), ConfigErrorKind::MissingField, "Missing `key` for HexKey signer"@),
        ],
        Some(k) => if hex_bytes(k@, 32) is Some {
            Seq::empty()
        } else {
            seq![
                error_at(
                    cwp.push("key"@),
                    ConfigErrorKind::InvalidValue,
                    "Invalid `key` for HexKey signer, expected 32 bytes in hexadecimal"@,
                ),
            ]
        },
    }
}

/// The defects of a record that describes a cloud signer: each of the
/// id and the region that is missing.
pub open spec fn aws_errors(raw: DeprecatedRawSignerConf, cwp: Seq<Seq<char>>) -> Seq<ConfigErrorView> {
    missing_unless(raw.id is Some, cwp.push("id"@), "Missing `id` for Aws signer"@) + missing_unless(
        raw.region is Some,
        cwp.push("region"@),
        "Missing `region` for Aws signer"@,
    )
}

/// What is reported of a type tag that names no kind of signer.
pub open spec fn unknown_signer_message(tag: Seq<char>) -> Seq<char> {
    "Unknown signer type `"@ + tag + "`"@
}

/// The defects of a raw signer at location `cwp`.
pub open spec fn signer_errors(raw: DeprecatedRawSignerConf, cwp: Seq<Seq<char>>) -> Seq<ConfigErrorView> {
    match signer_kind(raw) {
        SignerKind::HexKey => hex_key_errors(raw, cwp),
        SignerKind::Aws => aws_errors(raw, cwp),
        SignerKind::Unknown => seq![
            error_at(
                cwp.push("type"@),
                ConfigErrorKind::UnknownVariant,
                unknown_signer_message(raw.signer_type->0@),
            ),
        ],
        SignerKind::Node => Seq::empty(),
    }
}

/// The signer that a raw record without defects describes.
pub open spec fn signer_value(raw: DeprecatedRawSignerConf) -> SignerConfView {
    match signer_kind(raw) {
        SignerKind::HexKey => SignerConfView::HexKey { key: hex_bytes(raw.key->0@, 32)->0 },
        SignerKind::Aws => SignerConfView::Aws { id: raw.id->0@, region: raw.region->0@ },
        _ => SignerConfView::Node,
    }
}

impl DeprecatedRawSignerConf {
    /// The kind of signer that the record describes.
    pub fn kind(&self) -> (k: SignerKind)
        ensures
            k == signer_kind(*self),
    {
        match &self.signer_type {
            Some(t) => {
                if is_text(t, "hexKey") {
                    SignerKind::HexKey
                } else if is_text(t, "aws") {
                    SignerKind::Aws
                } else {
                    SignerKind::Unknown
                }
            },
            None => {
                if self.key.is_some() {
                    SignerKind::HexKey
                } else if self.id.is_some() || self.region.is_some() {
                    SignerKind::Aws
                } else {
                    SignerKind::Node
                }
            },
        }
    }
}

impl FromRawConf<DeprecatedRawSignerConf, ()> for SignerConf {
    /// Resolves a signer. The kind is inferred as [`signer_kind`] says;
    /// every field that the kind needs and that is missing is reported.
    fn from_config_filtered(raw: DeprecatedRawSignerConf, cwp: &ConfigPath, _filter: ()) -> (r: Result<
        Self,
        ConfigParsingError,
    >)
        ensures
            outcome(r) == finalized(signer_errors(raw, cwp@), signer_value(raw)),
    {
        let mut err = ConfigParsingError::new();
        match raw.kind() {
            SignerKind::HexKey => {
                let key = err.require(raw.key, cwp, "key", "Missing `key` for HexKey signer");
                match key {
                    Some(k) => match parse_key(k.as_str()) {
                        Some(key) => {
                            assert(err@ =~= signer_errors(raw, cwp@));
                            err.into_result(SignerConf::HexKey { key })
                        },
                        None => {
                            err.report(
                                cwp,
                                "key",
                                ConfigErrorKind::InvalidValue,
                                "Invalid `key` for HexKey signer, expected 32 bytes in hexadecimal",
                            );
                            assert(err@ =~= signer_errors(raw, cwp@));
                            Err(err)
                        },
                    },
                    None => {
                        assert(err@ =~= signer_errors(raw, cwp@));
                        Err(err)
                    },
                }
            },
            SignerKind::Aws => {
                let id = err.require(raw.id, cwp, "id", "Missing `id` for Aws signer");
                let region = err.require(raw.region, cwp, "region", "Missing `region` for Aws signer");
                assert(err@ =~= signer_errors(raw, cwp@));
                match (id, region) {
                    (Some(id), Some(region)) => err.into_result(SignerConf::Aws { id, region }),
                    _ => Err(err),
                }
            },
            SignerKind::Unknown => {
                let tag = match raw.signer_type {
                    Some(t) => t,
                    None => String::new(),
                };
                let message = String::from_str("Unknown signer type `").concat(tag.as_str()).concat("`");
                err.push(cwp.join("type"), ConfigErrorKind::UnknownVariant, message);
                assert(err@ =~= signer_errors(raw, cwp@));
                Err(err)
            },
            SignerKind::Node => {
                assert(err@ =~= signer_errors(raw, cwp@));
                err.into_result(SignerConf::Node)
            },
        }
    }
}

} // verus!
