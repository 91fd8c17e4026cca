//! The configuration of one chain.

use vstd::prelude::*;
use vstd::string::*;
use crate::coerce::{coerce_u32, coerced_field, coerced_or, coercion_errors, StrOrInt};
use crate::connection::{
    connection_errors,
    connection_value,
    ChainConnectionConf,
    ChainConnectionView,
    DeprecatedRawChainConnectionConf,
    HyperlaneDomainProtocol,
};
use crate::contracts::{
    addresses_errors,
    addresses_value,
    CoreContractAddresses,
    CoreContractAddressesView,
    DeprecatedRawCoreContractAddresses,
};
use crate::error::{error_at, finalized, missing_unless, outcome, ConfigErrorKind, ConfigErrorView, ConfigParsingError};
use crate::index::{default_index_settings, index_errors, index_value, DeprecatedRawIndexSettings, IndexSettings};
use crate::path::ConfigPath;
use crate::resolve::FromRawConf;
use crate::signer::{signer_errors, signer_value, DeprecatedRawSignerConf, SignerConf, SignerConfView};

verus! {

/// How the traffic with a chain is labelled in the metrics.
#[derive(Debug)]
pub struct PrometheusMiddlewareConf {
    /// The name under which the chain is reported, if it differs from
    /// the chain's own.
    pub chain: Option<String>,
}

impl View for PrometheusMiddlewareConf {
    type V = Option<Seq<char>>;

    open spec fn view(&self) -> Option<Seq<char>> {
        match self.chain {
            Some(c) => Some(c@),
            None => None,
        }
    }
}

impl Default for PrometheusMiddlewareConf {
    fn default() -> (m: Self)
        ensures
            m@ is None,
    {
        PrometheusMiddlewareConf { chain: None }
    }
}

/// The identity of a chain.
#[derive(Debug)]
pub struct HyperlaneDomain {
    pub id: u32,
    pub name: String,
    pub protocol: HyperlaneDomainProtocol,
}

/// The mathematical content of a [`HyperlaneDomain`].
pub struct HyperlaneDomainView {
    pub id: u32,
    pub name: Seq<char>,
    pub protocol: HyperlaneDomainProtocol,
}

impl View for HyperlaneDomain {
    type V = HyperlaneDomainView;

    open spec fn view(&self) -> HyperlaneDomainView {
        HyperlaneDomainView { id: self.id, name: self.name@, protocol: self.protocol }
    }
}

/// A chain as the document holds it: its identity, the contracts on
/// it, and how to connect to it.
#[derive(Debug)]
pub struct DeprecatedRawChainConf {
    pub name: Option<String>,
    pub domain: Option<StrOrInt>,
    pub signer: Option<DeprecatedRawSignerConf>,
    pub finality_blocks: Option<StrOrInt>,
    pub addresses: Option<DeprecatedRawCoreContractAddresses>,
    pub connection: Option<DeprecatedRawChainConnectionConf>,
    pub metrics_conf: Option<PrometheusMiddlewareConf>,
    pub index: Option<DeprecatedRawIndexSettings>,
}

/// The resolved configuration of a chain.
#[derive(Debug)]
pub struct ChainConf {
    pub domain: HyperlaneDomain,
    pub signer: Option<SignerConf>,
    pub finality_blocks: u32,
    pub addresses: CoreContractAddresses,
    pub connection: ChainConnectionConf,
    pub metrics_conf: PrometheusMiddlewareConf,
    pub index: IndexSettings,
}

/// The mathematical content of a [`ChainConf`].
pub struct ChainConfView {
    pub domain: HyperlaneDomainView,
    pub signer: Option<SignerConfView>,
    pub finality_blocks: u32,
    pub addresses: CoreContractAddressesView,
    pub connection: ChainConnectionView,
    pub metrics_conf: Option<Seq<char>>,
    pub index: IndexSettings,
}

/// The content of an optional signer.
pub open spec fn signer_view(signer: Option<SignerConf>) -> Option<SignerConfView> {
    match signer {
        Some(s) => Some(s@),
        None => None,
    }
}

impl View for ChainConf {
    type V = ChainConfView;

    open spec fn view(&self) -> ChainConfView {
        ChainConfView {
            domain: self.domain@,
            signer: signer_view(self.signer),
            finality_blocks: self.finality_blocks,
            addresses: self.addresses@,
            connection: self.connection@,
            metrics_conf: self.metrics_conf@,
            index: self.index,
        }
    }
}

/// The defects of the connection of a chain. A chain without a
/// protocol tag has no connection at all: that is a defect of the field
/// `connection`, of the same kind and in the same words as a tag that
/// names no protocol.
pub open spec fn chain_connection_errors(
    connection: Option<DeprecatedRawChainConnectionConf>,
    cwp: Seq<Seq<char>>,
) -> Seq<ConfigErrorView> {
    match connection {
        Some(c) => connection_errors(c, cwp),
        None => seq![
            error_at(cwp.push("connection"@), ConfigErrorKind::UnknownVariant, "Unknown chain protocol"@),
        ],
    }
}

/// The defects of the identity of a chain: those of the domain id,
/// then that of the name.
pub open spec fn domain_errors(domain: Option<StrOrInt>, name: Option<String>, cwp: Seq<Seq<char>>) -> Seq<
    ConfigErrorView,
> {
    missing_unless(domain is Some, cwp.push("domain"@), "Missing `domain` configuration"@) + coercion_errors(
        domain,
        u32::MAX as int,
        cwp.push("domain"@),
        "Invalid domain id, expected integer"@,
    ) + missing_unless(name is Some, cwp.push("name"@), "Missing domain `name` configuration"@)
}

/// The defects of the contract addresses of a chain.
pub open spec fn chain_addresses_errors(
    addresses: Option<DeprecatedRawCoreContractAddresses>,
    cwp: Seq<Seq<char>>,
) -> Seq<ConfigErrorView> {
    match addresses {
        Some(a) => addresses_errors(a, cwp.push("addresses"@)),
        None => seq![
            error_at(
                cwp.push("addresses"@),
                ConfigErrorKind::MissingField,
                "Missing `addresses` configuration for core contracts"@,
            ),
        ],
    }
}

/// The defects of the signer of a chain; none if it has no signer.
pub open spec fn chain_signer_errors(signer: Option<DeprecatedRawSignerConf>, cwp: Seq<Seq<char>>) -> Seq<
    ConfigErrorView,
> {
    match signer {
        Some(s) => signer_errors(s, cwp.push("signer"@)),
        None => Seq::empty(),
    }
}

/// The signer that the record of a chain describes; none if it has no
/// signer.
pub open spec fn chain_signer_value(signer: Option<DeprecatedRawSignerConf>) -> Option<SignerConfView> {
    match signer {
        Some(s) => Some(signer_value(s)),
        None => None,
    }
}

/// The defects of the finality depth of a chain.
pub open spec fn finality_errors(finality_blocks: Option<StrOrInt>, cwp: Seq<Seq<char>>) -> Seq<ConfigErrorView> {
    coercion_errors(
        finality_blocks,
        u32::MAX as int,
        cwp.push("finality_blocks"@),
        "Invalid `finalityBlocks`, expected integer"@,
    )
}

/// The defects of the indexing settings of a chain; none if it has no
/// such settings.
pub open spec fn chain_index_errors(index: Option<DeprecatedRawIndexSettings>, cwp: Seq<Seq<char>>) -> Seq<
    ConfigErrorView,
> {
    match index {
        Some(i) => index_errors(i, cwp.push("index"@)),
        None => Seq::empty(),
    }
}

/// The indexing settings that the record of a chain describes; the
/// default ones if it has none.
pub open spec fn chain_index_value(index: Option<DeprecatedRawIndexSettings>) -> IndexSettings {
    match index {
        Some(i) => index_value(i),
        None => default_index_settings(),
    }
}

/// Every defect of a raw chain at location `cwp`: those of its
/// connection, of its identity, of its addresses, of its signer, of its
/// finality depth and of its indexing settings, in this order. No
/// defect of one part hides a defect of another.
pub open spec fn chain_errors(raw: DeprecatedRawChainConf, cwp: Seq<Seq<char>>) -> Seq<ConfigErrorView> {
    chain_connection_errors(raw.connection, cwp) + domain_errors(raw.domain, raw.name, cwp)
        + chain_addresses_errors(raw.addresses, cwp) + chain_signer_errors(raw.signer, cwp) + finality_errors(
        raw.finality_blocks,
        cwp,
    ) + chain_index_errors(raw.index, cwp)
}

/// The chain that a raw chain without defects describes. The protocol
/// of its identity is that of its connection; an absent finality depth
/// is 0; absent indexing settings and an absent metrics descriptor are
/// the default ones.
pub open spec fn chain_value(raw: DeprecatedRawChainConf) -> ChainConfView {
    let connection = connection_value(raw.connection->0);
    ChainConfView {
        domain: HyperlaneDomainView {
            id: coerced_field(raw.domain, u32::MAX as int)->0 as u32,
            name: raw.name->0@,
            protocol: connection.protocol,
        },
        signer: chain_signer_value(raw.signer),
        finality_blocks: coerced_or(raw.finality_blocks, u32::MAX as int, 0) as u32,
        addresses: addresses_value(raw.addresses->0),
        connection,
        metrics_conf: match raw.metrics_conf {
            Some(m) => m@,
            None => None,
        },
        index: chain_index_value(raw.index),
    }
}

/// Attempts the connection of a chain.
fn take_connection(
    err: &mut ConfigParsingError,
    connection: Option<DeprecatedRawChainConnectionConf>,
    cwp: &ConfigPath,
) -> (r: Option<ChainConnectionConf>)
    ensures
        final(err)@ == old(err)@ + chain_connection_errors(connection, cwp@),
        match r {
            Some(c) => chain_connection_errors(connection, cwp@).len() == 0 && c@ == connection_value(
                connection->0,
            ),
            None => chain_connection_errors(connection, cwp@).len() > 0,
        },
{
    match connection {
        Some(c) => err.take_config_err(ChainConnectionConf::from_config_filtered(c, cwp, ())),
        None => {
            err.report(cwp, "connection", ConfigErrorKind::UnknownVariant, "Unknown chain protocol");
            assert(err@ =~= old(err)@ + chain_connection_errors(connection, cwp@));
            None
        },
    }
}

/// Attempts the domain id and the name of a chain.
fn take_identity(err: &mut ConfigParsingError, domain: &Option<StrOrInt>, name: Option<String>, cwp: &ConfigPath) -> (r:
    Option<(u32, String)>)
    ensures
        final(err)@ == old(err)@ + domain_errors(*domain, name, cwp@),
        match r {
            Some(found) => domain_errors(*domain, name, cwp@).len() == 0 && coerced_field(*domain, u32::MAX as int)
                == Some(found.0 as int) && name == Some(found.1),
            None => domain_errors(*domain, name, cwp@).len() > 0,
        },
{
    if domain.is_none() {
        err.report(cwp, "domain", ConfigErrorKind::MissingField, "Missing `domain` configuration");
    }
    let id = coerce_u32(err, domain, cwp, "domain", "Invalid domain id, expected integer");
    let name = err.require(name, cwp, "name", "Missing domain `name` configuration");
    assert(err@ =~= old(err)@ + domain_errors(*domain, name, cwp@));
    match id {
        Some(id) => match name {
            Some(name) => Some((id, name)),
            None => None,
        },
        None => None,
    }
}

/// Attempts the contract addresses of a chain.
fn take_addresses(
    err: &mut ConfigParsingError,
    addresses: Option<DeprecatedRawCoreContractAddresses>,
    cwp: &ConfigPath,
) -> (r: Option<CoreContractAddresses>)
    ensures
        final(err)@ == old(err)@ + chain_addresses_errors(addresses, cwp@),
        match r {
            Some(a) => chain_addresses_errors(addresses, cwp@).len() == 0 && a@ == addresses_value(addresses->0),
            None => chain_addresses_errors(addresses, cwp@).len() > 0,
        },
{
    match addresses {
        Some(a) => err.take_config_err(CoreContractAddresses::from_config_filtered(a, &cwp.join("addresses"), ())),
        None => {
            err.report(
                cwp,
                "addresses",
                ConfigErrorKind::MissingField,
                "Missing `addresses` configuration for core contracts",
            );
            assert(err@ =~= old(err)@ + chain_addresses_errors(addresses, cwp@));
            None
        },
    }
}

/// Attempts the signer of a chain, if it has one.
fn take_signer(err: &mut ConfigParsingError, signer: Option<DeprecatedRawSignerConf>, cwp: &ConfigPath) -> (r: Option<
    SignerConf,
>)
    ensures
        final(err)@ == old(err)@ + chain_signer_errors(signer, cwp@),
        chain_signer_errors(signer, cwp@).len() == 0 ==> signer_view(r) == chain_signer_value(signer),
{
    match signer {
        Some(s) => err.take_config_err(SignerConf::from_config_filtered(s, &cwp.join("signer"), ())),
        None => {
            assert(err@ =~= old(err)@ + chain_signer_errors(signer, cwp@));
            None
        },
    }
}

/// Attempts the indexing settings of a chain, if it has any.
fn take_index(err: &mut ConfigParsingError, index: Option<DeprecatedRawIndexSettings>, cwp: &ConfigPath) -> (r:
    IndexSettings)
    ensures
        final(err)@ == old(err)@ + chain_index_errors(index, cwp@),
        chain_index_errors(index, cwp@).len() == 0 ==> r == chain_index_value(index),
{
    match index {
        Some(i) => match err.take_config_err(IndexSettings::from_config_filtered(i, &cwp.join("index"), ())) {
            Some(v) => v,
            None => IndexSettings::default(),
        },
        None => {
            assert(err@ =~= old(err)@ + chain_index_errors(index, cwp@));
            IndexSettings::default()
        },
    }
}

impl FromRawConf<DeprecatedRawChainConf, ()> for ChainConf {
    /// Resolves a chain. The connection is attempted first, because the
    /// identity takes its protocol from it; then every other part is
    /// attempted, whatever became of the ones before. The chain is built
    /// only if all of that left no defect.
    fn from_config_filtered(raw: DeprecatedRawChainConf, cwp: &ConfigPath, _filter: ()) -> (r: Result<
        Self,
        ConfigParsingError,
    >)
        ensures
            outcome(r) == finalized(chain_errors(raw, cwp@), chain_value(raw)),
    {
        let mut err = ConfigParsingError::new();
        let connection = take_connection(&mut err, raw.connection, cwp);
        let identity = take_identity(&mut err, &raw.domain, raw.name, cwp);
        let addresses = take_addresses(&mut err, raw.addresses, cwp);
        let signer = take_signer(&mut err, raw.signer, cwp);
        let finality_blocks = match coerce_u32(
            &mut err,
            &raw.finality_blocks,
            cwp,
            "finality_blocks",
            "Invalid `finalityBlocks`, expected integer",
        ) {
            Some(v) => v,
            None => 0,
        };
        let index = take_index(&mut err, raw.index, cwp);
        assert(err@ =~= chain_errors(raw, cwp@));

        let metrics_conf = match raw.metrics_conf {
            Some(m) => m,
            None => PrometheusMiddlewareConf::default(),
        };

        match connection {
            Some(connection) => match identity {
                Some(identity) => match addresses {
                    Some(addresses) => {
                        let domain = HyperlaneDomain {
                            id: identity.0,
                            name: identity.1,
                            protocol: connection.protocol(),
                        };
                        err.into_result(
                            ChainConf { domain, signer, finality_blocks, addresses, connection, metrics_conf, index },
                        )
                    },
                    None => Err(err),
                },
                None => Err(err),
            },
            None => Err(err),
        }
    }
}

} // verus!
