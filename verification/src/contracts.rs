//! The addresses of the core contracts of a chain.

use vstd::prelude::*;
use vstd::string::*;
use crate::address::{address_of, hex_or_base58_to_h256, AddressError, H256};
use crate::error::{error_at, finalized, outcome, ConfigErrorKind, ConfigErrorView, ConfigParsingError};
use crate::path::ConfigPath;
use crate::resolve::FromRawConf;

verus! {

/// The addresses of the core contracts as the document holds them.
#[derive(Debug)]
pub struct DeprecatedRawCoreContractAddresses {
    pub mailbox: Option<String>,
    pub interchain_gas_paymaster: Option<String>,
    pub validator_announce: Option<String>,
}

/// The resolved addresses of the core contracts of a chain.
#[derive(Debug, Clone, Copy, PartialEq, Eq)]
pub struct CoreContractAddresses {
    /// The contract through which messages are dispatched.
    pub mailbox: H256,
    /// The contract to which gas is paid.
    pub interchain_gas_paymaster: H256,
    /// The contract at which validators announce themselves.
    pub validator_announce: H256,
}

/// The mathematical content of a [`CoreContractAddresses`].
pub struct CoreContractAddressesView {
    pub mailbox: Seq<u8>,
    pub interchain_gas_paymaster: Seq<u8>,
    pub validator_announce: Seq<u8>,
}

impl View for CoreContractAddresses {
    type V = CoreContractAddressesView;

    open spec fn view(&self) -> CoreContractAddressesView {
        CoreContractAddressesView {
            mailbox: self.mailbox@,
            interchain_gas_paymaster: self.interchain_gas_paymaster@,
            validator_announce: self.validator_announce@,
        }
    }
}

/// What is reported of a text that is no address.
pub open spec fn address_error_message(e: AddressError) -> Seq<char> {
    match e {
        AddressError::InvalidHexLength => "Invalid hex string"@,
        AddressError::InvalidHexDigits => "Invalid hex digits"@,
        AddressError::InvalidBase58 => "Invalid base58 string"@,
        AddressError::InvalidBase58Length => "Invalid length of base58 string"@,
    }
}

/// The defects of an address field at `path`: it is missing, or it is
/// no address.
pub open spec fn address_errors(field: Option<String>, path: Seq<Seq<char>>, missing: Seq<char>) -> Seq<
    ConfigErrorView,
> {
    match field {
        None => seq![error_at(path, ConfigErrorKind::MissingField, missing)],
        Some(s) => match address_of(s@) {
            Ok(_) => Seq::empty(),
            Err(e) => seq![error_at(path, ConfigErrorKind::InvalidValue, address_error_message(e))],
        },
    }
}

/// The address that a field holds, if it holds one.
pub open spec fn address_value(field: Option<String>) -> Option<Seq<u8>> {
    match field {
        None => None,
        Some(s) => match address_of(s@) {
            Ok(b) => Some(b),
            Err(_) => None,
        },
    }
}

/// The defects of raw addresses at location `cwp`: those of the
/// mailbox, then of the gas paymaster, then of the validator announce.
pub open spec fn addresses_errors(raw: DeprecatedRawCoreContractAddresses, cwp: Seq<Seq<char>>) -> Seq<
    ConfigErrorView,
> {
    address_errors(raw.mailbox, cwp.push("mailbox"@), "Missing mailbox core contract address"@)
        + address_errors(
        raw.interchain_gas_paymaster,
        cwp.push("interchain_gas_paymaster"@),
        "Missing interchain gas paymaster core contract address"@,
    ) + address_errors(
        raw.validator_announce,
        cwp.push("validator_announce"@),
        "Missing validator announce core contract address"@,
    )
}

/// The addresses that raw addresses without defects describe.
pub open spec fn addresses_value(raw: DeprecatedRawCoreContractAddresses) -> CoreContractAddressesView {
    CoreContractAddressesView {
        mailbox: address_value(raw.mailbox)->0,
        interchain_gas_paymaster: address_value(raw.interchain_gas_paymaster)->0,
        validator_announce: address_value(raw.validator_announce)->0,
    }
}

impl AddressError {
    /// The error in words.
    pub fn message(&self) -> (s: String)
        ensures
            s@ == address_error_message(*self),
    {
        match self {
            AddressError::InvalidHexLength => String::from_str("Invalid hex string"),
            AddressError::InvalidHexDigits => String::from_str("Invalid hex digits"),
            AddressError::InvalidBase58 => String::from_str("Invalid base58 string"),
            AddressError::InvalidBase58Length => String::from_str("Invalid length of base58 string"),
        }
    }
}

/// Resolves the address field `name` of the record at `cwp`, and
/// records in `err` that it is missing or that it is no address.
pub fn resolve_address(
    err: &mut ConfigParsingError,
    field: &Option<String>,
    cwp: &ConfigPath,
    name: &str,
    missing: &str,
) -> (r: Option<H256>)
    ensures
        final(err)@ == old(err)@ + address_errors(*field, cwp@.push(name@), missing@),
        match r {
            Some(h) => address_value(*field) == Some(h@),
            None => address_value(*field) is None,
        },
{
    let r = match field {
        None => {
            err.report(cwp, name, ConfigErrorKind::MissingField, missing);
            None
        },
        Some(s) => match hex_or_base58_to_h256(s.as_str()) {
            Ok(h) => Some(h),
            Err(e) => {
                err.push(cwp.join(name), ConfigErrorKind::InvalidValue, e.message());
                None
            },
        },
    };
    assert(err@ =~= old(err)@ + address_errors(*field, cwp@.push(name@), missing@));
    r
}

impl FromRawConf<DeprecatedRawCoreContractAddresses, ()> for CoreContractAddresses {
    /// Resolves the three addresses. Each is attempted whatever became
    /// of the others; the value needs all three.
    fn from_config_filtered(raw: DeprecatedRawCoreContractAddresses, cwp: &ConfigPath, _filter: ()) -> (r: Result<
        Self,
        ConfigParsingError,
    >)
        ensures
            outcome(r) == finalized(addresses_errors(raw, cwp@), addresses_value(raw)),
    {
        let mut err = ConfigParsingError::new();
        let mailbox = resolve_address(
            &mut err,
            &raw.mailbox,
            cwp,
            "mailbox",
            "Missing mailbox core contract address",
        );
        let interchain_gas_paymaster = resolve_address(
            &mut err,
            &raw.interchain_gas_paymaster,
            cwp,
            "interchain_gas_paymaster",
            "Missing interchain gas paymaster core contract address",
        );
        let validator_announce = resolve_address(
            &mut err,
            &raw.validator_announce,
            cwp,
            "validator_announce",
            "Missing validator announce core contract address",
        );
        assert(err@ =~= addresses_errors(raw, cwp@));
        match (mailbox, interchain_gas_paymaster, validator_announce) {
            (Some(mailbox), Some(interchain_gas_paymaster), Some(validator_announce)) => err.into_result(
                CoreContractAddresses { mailbox, interchain_gas_paymaster, validator_announce },
            ),
            _ => Err(err),
        }
    }
}

} // verus!
