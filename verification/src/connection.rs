//! Connections to chains, one kind for each protocol.

use vstd::prelude::*;
use vstd::string::*;
use crate::error::{error_at, finalized, missing_unless, outcome, ConfigErrorKind, ConfigErrorView, ConfigParsingError};
use crate::path::ConfigPath;
use crate::resolve::FromRawConf;

verus! {

/// The protocol that a chain speaks.
#[derive(Debug, Clone, Copy, PartialEq, Eq, Structural)]
pub enum HyperlaneDomainProtocol {
    Ethereum,
    Fuel,
    Sealevel,
}

/// The payload of a connection as the document holds it: where the
/// chain's node is reached.
#[derive(Debug)]
pub struct RawConnectionConf {
    pub url: Option<String>,
}

/// The resolved payload of a connection.
#[derive(Debug)]
pub struct ConnectionConf {
    pub url: String,
}

impl View for ConnectionConf {
    type V = Seq<char>;

    open spec fn view(&self) -> Seq<char> {
        self.url@
    }
}

/// A connection as the document holds it: the protocol tag and, with it,
/// the payload of that protocol. A tag that names no protocol is kept as
/// `Unknown`.
#[derive(Debug)]
pub enum DeprecatedRawChainConnectionConf {
    Ethereum(RawConnectionConf),
    Fuel(RawConnectionConf),
    Sealevel(RawConnectionConf),
    Unknown,
}

/// A resolved connection.
#[derive(Debug)]
pub enum ChainConnectionConf {
    Ethereum(ConnectionConf),
    Fuel(ConnectionConf),
    Sealevel(ConnectionConf),
}

/// The mathematical content of a [`ChainConnectionConf`].
pub struct ChainConnectionView {
    pub protocol: HyperlaneDomainProtocol,
    pub url: Seq<char>,
}

impl View for ChainConnectionConf {
    type V = ChainConnectionView;

    open spec fn view(&self) -> ChainConnectionView {
        match *self {
            ChainConnectionConf::Ethereum(c) => ChainConnectionView {
                protocol: HyperlaneDomainProtocol::Ethereum,
                url: c@,
            },
            ChainConnectionConf::Fuel(c) => ChainConnectionView { protocol: HyperlaneDomainProtocol::Fuel, url: c@ },
            ChainConnectionConf::Sealevel(c) => ChainConnectionView {
                protocol: HyperlaneDomainProtocol::Sealevel,
                url: c@,
            },
        }
    }
}

/// The defects of a payload at location `cwp`.
pub open spec fn payload_errors(raw: RawConnectionConf, cwp: Seq<Seq<char>>) -> Seq<ConfigErrorView> {
    missing_unless(raw.url is Some, cwp.push("url"@), "Missing `url` for connection"@)
}

/// The protocol of a raw connection, and its payload; `None` for a tag
/// that names no protocol.
pub open spec fn tagged_payload(raw: DeprecatedRawChainConnectionConf) -> Option<
    (HyperlaneDomainProtocol, RawConnectionConf),
> {
    match raw {
        DeprecatedRawChainConnectionConf::Ethereum(p) => Some((HyperlaneDomainProtocol::Ethereum, p)),
        DeprecatedRawChainConnectionConf::Fuel(p) => Some((HyperlaneDomainProtocol::Fuel, p)),
        DeprecatedRawChainConnectionConf::Sealevel(p) => Some((HyperlaneDomainProtocol::Sealevel, p)),
        DeprecatedRawChainConnectionConf::Unknown => None,
    }
}

/// The defects of a raw connection of the chain at location `cwp`. The
/// payload lies under `connection`; a tag that names no protocol is a
/// defect of the field `protocol`.
pub open spec fn connection_errors(raw: DeprecatedRawChainConnectionConf, cwp: Seq<Seq<char>>) -> Seq<
    ConfigErrorView,
> {
    match tagged_payload(raw) {
        Some((_, p)) => payload_errors(p, cwp.push("connection"@)),
        None => seq![error_at(cwp.push("protocol"@), ConfigErrorKind::UnknownVariant, "Unknown chain protocol"@)],
    }
}

/// The connection that a raw connection without defects describes.
pub open spec fn connection_value(raw: DeprecatedRawChainConnectionConf) -> ChainConnectionView {
    match tagged_payload(raw) {
        Some((protocol, p)) => ChainConnectionView { protocol, url: p.url->0@ },
        None => ChainConnectionView { protocol: HyperlaneDomainProtocol::Ethereum, url: Seq::empty() },
    }
}

impl FromRawConf<RawConnectionConf, ()> for ConnectionConf {
    /// Resolves the payload of a connection: the url must be there.
    fn from_config_filtered(raw: RawConnectionConf, cwp: &ConfigPath, _filter: ()) -> (r: Result<
        Self,
        ConfigParsingError,
    >)
        ensures
            outcome(r) == finalized(payload_errors(raw, cwp@), raw.url->0@),
    {
        let mut err = ConfigParsingError::new();
        match err.require(raw.url, cwp, "url", "Missing `url` for connection") {
            Some(url) => err.into_result(ConnectionConf { url }),
            None => Err(err),
        }
    }
}

impl ChainConnectionConf {
    /// The protocol of the connection.
    pub fn protocol(&self) -> (p: HyperlaneDomainProtocol)
        ensures
            p == self@.protocol,
    {
        match self {
            ChainConnectionConf::Ethereum(_) => HyperlaneDomainProtocol::Ethereum,
            ChainConnectionConf::Fuel(_) => HyperlaneDomainProtocol::Fuel,
            ChainConnectionConf::Sealevel(_) => HyperlaneDomainProtocol::Sealevel,
        }
    }
}

impl FromRawConf<DeprecatedRawChainConnectionConf, ()> for ChainConnectionConf {
    /// Resolves the connection of the chain at `cwp`: the payload is
    /// handed to the resolver of its protocol, and a tag that names no
    /// protocol is a failure, never a default.
    fn from_config_filtered(raw: DeprecatedRawChainConnectionConf, cwp: &ConfigPath, _filter: ()) -> (r: Result<
        Self,
        ConfigParsingError,
    >)
        ensures
            outcome(r) == finalized(connection_errors(raw, cwp@), connection_value(raw)),
    {
        match raw {
            DeprecatedRawChainConnectionConf::Ethereum(p) => {
                match ConnectionConf::from_config_filtered(p, &cwp.join("connection"), ()) {
                    Ok(c) => Ok(ChainConnectionConf::Ethereum(c)),
                    Err(e) => Err(e),
                }
            },
            DeprecatedRawChainConnectionConf::Fuel(p) => {
                match ConnectionConf::from_config_filtered(p, &cwp.join("connection"), ()) {
                    Ok(c) => Ok(ChainConnectionConf::Fuel(c)),
                    Err(e) => Err(e),
                }
            },
            DeprecatedRawChainConnectionConf::Sealevel(p) => {
                match ConnectionConf::from_config_filtered(p, &cwp.join("connection"), ()) {
                    Ok(c) => Ok(ChainConnectionConf::Sealevel(c)),
                    Err(e) => Err(e),
                }
            },
            DeprecatedRawChainConnectionConf::Unknown => Err(
                ConfigParsingError::single(
                    cwp.join("protocol"),
                    ConfigErrorKind::UnknownVariant,
                    String::from_str("Unknown chain protocol"),
                ),
            ),
        }
    }
}

} // verus!
