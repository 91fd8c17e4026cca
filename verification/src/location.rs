//! Where defects lie: every defect that a resolver reports lies under
//! the location at which the resolver was started.

use vstd::prelude::*;
use crate::chain::{
    chain_addresses_errors,
    chain_connection_errors,
    chain_errors,
    chain_index_errors,
    chain_signer_errors,
    domain_errors,
    finality_errors,
    DeprecatedRawChainConf,
};
use crate::coerce::{coercion_errors, StrOrInt};
use crate::connection::{connection_errors, payload_errors, DeprecatedRawChainConnectionConf};
use crate::contracts::{address_errors, addresses_errors, DeprecatedRawCoreContractAddresses};
use crate::error::{missing_unless, ConfigErrorView};
use crate::index::{index_errors, mode_errors, DeprecatedRawIndexSettings};
use crate::settings::{
    chains_errors,
    default_signer_errors,
    entry_errors,
    raw_chains,
    retained,
    settings_errors,
    DeprecatedRawSettings,
};
use crate::signer::{signer_errors, DeprecatedRawSignerConf};

verus! {

/// Whether `path` lies under `location`: it is the location itself or
/// leads on from it.
pub open spec fn lies_under(path: Seq<Seq<char>>, location: Seq<Seq<char>>) -> bool {
    location.len() <= path.len() && path.subrange(0, location.len() as int) == location
}

/// Whether every defect of a collection lies under `location`.
pub open spec fn all_under(errors: Seq<ConfigErrorView>, location: Seq<Seq<char>>) -> bool {
    forall|i: int| 0 <= i < errors.len() ==> lies_under((#[trigger] errors[i]).path, location)
}

/// A field lies under its record, and every location lies under
/// itself.
pub proof fn lemma_field_lies_under_record(location: Seq<Seq<char>>, field: Seq<char>)
    ensures
        lies_under(location.push(field), location),
        lies_under(location, location),
{
    assert(location.push(field).subrange(0, location.len() as int) =~= location);
    assert(location.subrange(0, location.len() as int) =~= location);
}

/// What lies under a location lies under every location above it.
pub proof fn lemma_lies_under_is_transitive(path: Seq<Seq<char>>, inner: Seq<Seq<char>>, outer: Seq<Seq<char>>)
    requires
        lies_under(path, inner),
        lies_under(inner, outer),
    ensures
        lies_under(path, outer),
{
    assert(path.subrange(0, outer.len() as int) =~= path.subrange(0, inner.len() as int).subrange(
        0,
        outer.len() as int,
    ));
}

/// A path lies under two fields of one record only if they are the
/// same field.
pub proof fn lemma_fields_are_apart(path: Seq<Seq<char>>, location: Seq<Seq<char>>, a: Seq<char>, b: Seq<char>)
    requires
        lies_under(path, location.push(a)),
        lies_under(path, location.push(b)),
    ensures
        a == b,
{
    let n = location.len() as int;
    assert(path.subrange(0, n + 1)[n] == location.push(a)[n]);
    assert(path.subrange(0, n + 1)[n] == location.push(b)[n]);
}

/// Defects that all lie under a location still do when the location is
/// widened to one above it.
pub proof fn lemma_all_under_wider(errors: Seq<ConfigErrorView>, inner: Seq<Seq<char>>, outer: Seq<Seq<char>>)
    requires
        all_under(errors, inner),
        lies_under(inner, outer),
    ensures
        all_under(errors, outer),
{
    assert forall|i: int| 0 <= i < errors.len() implies lies_under((#[trigger] errors[i]).path, outer) by {
        lemma_lies_under_is_transitive(errors[i].path, inner, outer);
    }
}

/// Two collections whose defects lie under a location make one such
/// collection.
pub proof fn lemma_all_under_joined(a: Seq<ConfigErrorView>, b: Seq<ConfigErrorView>, location: Seq<Seq<char>>)
    requires
        all_under(a, location),
        all_under(b, location),
    ensures
        all_under(a + b, location),
{
    assert forall|i: int| 0 <= i < (a + b).len() implies lies_under((#[trigger] (a + b)[i]).path, location) by {
        if i < a.len() {
            assert((a + b)[i] == a[i]);
        } else {
            assert((a + b)[i] == b[i - a.len()]);
        }
    }
}

/// What a joined collection holds, one of its two parts holds.
pub proof fn lemma_contained_in_a_part(a: Seq<ConfigErrorView>, b: Seq<ConfigErrorView>, e: ConfigErrorView)
    requires
        (a + b).contains(e),
    ensures
        a.contains(e) || b.contains(e),
{
    let i = choose|i: int| 0 <= i < (a + b).len() && (a + b)[i] == e;
    if i < a.len() {
        assert(a[i] == e);
    } else {
        assert(b[i - a.len()] == e);
    }
}

/// The defect of a missing field lies under the record of the field.
pub proof fn lemma_missing_lies_under(present: bool, location: Seq<Seq<char>>, field: Seq<char>, message: Seq<char>)
    ensures
        all_under(missing_unless(present, location.push(field), message), location),
        all_under(missing_unless(present, location.push(field), message), location.push(field)),
{
    lemma_field_lies_under_record(location, field);
    lemma_field_lies_under_record(location.push(field), field);
}

/// The defect of a number that cannot be coerced lies under the record
/// of the field.
pub proof fn lemma_coercion_lies_under(
    value: Option<StrOrInt>,
    max: int,
    location: Seq<Seq<char>>,
    field: Seq<char>,
    message: Seq<char>,
)
    ensures
        all_under(coercion_errors(value, max, location.push(field), message), location),
{
    lemma_field_lies_under_record(location, field);
}

/// Every defect of a signer lies under the signer's location.
pub proof fn lemma_signer_defects_lie_under(raw: DeprecatedRawSignerConf, cwp: Seq<Seq<char>>)
    ensures
        all_under(signer_errors(raw, cwp), cwp),
{
    lemma_field_lies_under_record(cwp, "key"@);
    lemma_field_lies_under_record(cwp, "type"@);
    lemma_missing_lies_under(raw.id is Some, cwp, "id"@, "Missing `id` for Aws signer"@);
    lemma_missing_lies_under(raw.region is Some, cwp, "region"@, "Missing `region` for Aws signer"@);
    lemma_all_under_joined(
        missing_unless(raw.id is Some, cwp.push("id"@), "Missing `id` for Aws signer"@),
        missing_unless(raw.region is Some, cwp.push("region"@), "Missing `region` for Aws signer"@),
        cwp,
    );
}

/// Every defect of indexing settings lies under their location.
pub proof fn lemma_index_defects_lie_under(raw: DeprecatedRawIndexSettings, cwp: Seq<Seq<char>>)
    ensures
        all_under(index_errors(raw, cwp), cwp),
{
    let f = coercion_errors(raw.from, u32::MAX as int, cwp.push("from"@), "Invalid `from`, expected integer"@);
    let c = coercion_errors(raw.chunk, u32::MAX as int, cwp.push("chunk"@), "Invalid `chunk`, expected integer"@);
    lemma_coercion_lies_under(raw.from, u32::MAX as int, cwp, "from"@, "Invalid `from`, expected integer"@);
    lemma_coercion_lies_under(raw.chunk, u32::MAX as int, cwp, "chunk"@, "Invalid `chunk`, expected integer"@);
    lemma_field_lies_under_record(cwp, "mode"@);
    lemma_all_under_joined(f, c, cwp);
    lemma_all_under_joined(f + c, mode_errors(raw.mode, cwp), cwp);
}

/// Every defect of an address field lies under the record of the
/// field.
pub proof fn lemma_address_defects_lie_under(
    value: Option<String>,
    location: Seq<Seq<char>>,
    field: Seq<char>,
    missing: Seq<char>,
)
    ensures
        all_under(address_errors(value, location.push(field), missing), location),
{
    lemma_field_lies_under_record(location, field);
}

/// Every defect of contract addresses lies under their location.
pub proof fn lemma_addresses_defects_lie_under(raw: DeprecatedRawCoreContractAddresses, cwp: Seq<Seq<char>>)
    ensures
        all_under(addresses_errors(raw, cwp), cwp),
{
    let m = address_errors(raw.mailbox, cwp.push("mailbox"@), "Missing mailbox core contract address"@);
    let g = address_errors(
        raw.interchain_gas_paymaster,
        cwp.push("interchain_gas_paymaster"@),
        "Missing interchain gas paymaster core contract address"@,
    );
    let v = address_errors(
        raw.validator_announce,
        cwp.push("validator_announce"@),
        "Missing validator announce core contract address"@,
    );
    lemma_address_defects_lie_under(raw.mailbox, cwp, "mailbox"@, "Missing mailbox core contract address"@);
    lemma_address_defects_lie_under(
        raw.interchain_gas_paymaster,
        cwp,
        "interchain_gas_paymaster"@,
        "Missing interchain gas paymaster core contract address"@,
    );
    lemma_address_defects_lie_under(
        raw.validator_announce,
        cwp,
        "validator_announce"@,
        "Missing validator announce core contract address"@,
    );
    lemma_all_under_joined(m, g, cwp);
    lemma_all_under_joined(m + g, v, cwp);
}

/// Every defect of a connection lies under the location of its chain.
pub proof fn lemma_connection_defects_lie_under(raw: DeprecatedRawChainConnectionConf, cwp: Seq<Seq<char>>)
    ensures
        all_under(connection_errors(raw, cwp), cwp),
{
    lemma_field_lies_under_record(cwp, "protocol"@);
    lemma_field_lies_under_record(cwp, "connection"@);
    match raw {
        DeprecatedRawChainConnectionConf::Ethereum(p) => {
            lemma_missing_lies_under(p.url is Some, cwp.push("connection"@), "url"@, "Missing `url` for connection"@);
            lemma_all_under_wider(payload_errors(p, cwp.push("connection"@)), cwp.push("connection"@), cwp);
        },
        DeprecatedRawChainConnectionConf::Fuel(p) => {
            lemma_missing_lies_under(p.url is Some, cwp.push("connection"@), "url"@, "Missing `url` for connection"@);
            lemma_all_under_wider(payload_errors(p, cwp.push("connection"@)), cwp.push("connection"@), cwp);
        },
        DeprecatedRawChainConnectionConf::Sealevel(p) => {
            lemma_missing_lies_under(p.url is Some, cwp.push("connection"@), "url"@, "Missing `url` for connection"@);
            lemma_all_under_wider(payload_errors(p, cwp.push("connection"@)), cwp.push("connection"@), cwp);
        },
        DeprecatedRawChainConnectionConf::Unknown => {},
    }
}

/// Every defect of a chain lies under the chain's location.
pub proof fn lemma_chain_defects_lie_under(raw: DeprecatedRawChainConf, cwp: Seq<Seq<char>>)
    ensures
        all_under(chain_errors(raw, cwp), cwp),
{
    let c = chain_connection_errors(raw.connection, cwp);
    let d = domain_errors(raw.domain, raw.name, cwp);
    let a = chain_addresses_errors(raw.addresses, cwp);
    let s = chain_signer_errors(raw.signer, cwp);
    let f = finality_errors(raw.finality_blocks, cwp);
    let i = chain_index_errors(raw.index, cwp);
    assert(all_under(c, cwp)) by {
        lemma_field_lies_under_record(cwp, "connection"@);
        if raw.connection is Some {
            lemma_connection_defects_lie_under(raw.connection->0, cwp);
        }
    }
    assert(all_under(d, cwp)) by {
        let d1 = missing_unless(raw.domain is Some, cwp.push("domain"@), "Missing `domain` configuration"@);
        let d2 = coercion_errors(
            raw.domain,
            u32::MAX as int,
            cwp.push("domain"@),
            "Invalid domain id, expected integer"@,
        );
        let d3 = missing_unless(raw.name is Some, cwp.push("name"@), "Missing domain `name` configuration"@);
        lemma_missing_lies_under(raw.domain is Some, cwp, "domain"@, "Missing `domain` configuration"@);
        lemma_coercion_lies_under(
            raw.domain,
            u32::MAX as int,
            cwp,
            "domain"@,
            "Invalid domain id, expected integer"@,
        );
        lemma_missing_lies_under(raw.name is Some, cwp, "name"@, "Missing domain `name` configuration"@);
        lemma_all_under_joined(d1, d2, cwp);
        lemma_all_under_joined(d1 + d2, d3, cwp);
    }
    assert(all_under(a, cwp)) by {
        lemma_field_lies_under_record(cwp, "addresses"@);
        if raw.addresses is Some {
            lemma_addresses_defects_lie_under(raw.addresses->0, cwp.push("addresses"@));
            lemma_all_under_wider(a, cwp.push("addresses"@), cwp);
        }
    }
    assert(all_under(s, cwp)) by {
        lemma_field_lies_under_record(cwp, "signer"@);
        if raw.signer is Some {
            lemma_signer_defects_lie_under(raw.signer->0, cwp.push("signer"@));
            lemma_all_under_wider(s, cwp.push("signer"@), cwp);
        }
    }
    assert(all_under(f, cwp)) by {
        lemma_coercion_lies_under(
            raw.finality_blocks,
            u32::MAX as int,
            cwp,
            "finality_blocks"@,
            "Invalid `finalityBlocks`, expected integer"@,
        );
    }
    assert(all_under(i, cwp)) by {
        lemma_field_lies_under_record(cwp, "index"@);
        if raw.index is Some {
            lemma_index_defects_lie_under(raw.index->0, cwp.push("index"@));
            lemma_all_under_wider(i, cwp.push("index"@), cwp);
        }
    }
    lemma_all_under_joined(c, d, cwp);
    lemma_all_under_joined(c + d, a, cwp);
    lemma_all_under_joined(c + d + a, s, cwp);
    lemma_all_under_joined(c + d + a + s, f, cwp);
    lemma_all_under_joined(c + d + a + s + f, i, cwp);
}

/// Every defect of a chain list lies under the location of an entry
/// that is kept: the location of the list followed by the entry's name.
pub proof fn lemma_chain_list_defects_lie_under_kept_chains(
    entries: Seq<(String, DeprecatedRawChainConf)>,
    chains_path: Seq<Seq<char>>,
    filter: Option<Seq<Seq<char>>>,
    e: ConfigErrorView,
)
    requires
        chains_errors(entries, chains_path, filter).contains(e),
    ensures
        exists|i: int|
            0 <= i < entries.len() && retained((#[trigger] entries[i]).0@, filter) && lies_under(
                e.path,
                chains_path.push(entries[i].0@),
            ),
    decreases entries.len(),
{
    if entries.len() > 0 {
        let before = chains_errors(entries.drop_last(), chains_path, filter);
        let last = entry_errors(entries.last(), chains_path, filter);
        lemma_contained_in_a_part(before, last, e);
        if before.contains(e) {
            lemma_chain_list_defects_lie_under_kept_chains(entries.drop_last(), chains_path, filter, e);
            let i = choose|i: int|
                0 <= i < entries.drop_last().len() && retained((#[trigger] entries.drop_last()[i]).0@, filter)
                    && lies_under(e.path, chains_path.push(entries.drop_last()[i].0@));
            assert(entries[i] == entries.drop_last()[i]);
        } else {
            let entry = entries.last();
            lemma_chain_defects_lie_under(entry.1, chains_path.push(entry.0@));
            let j = choose|j: int| 0 <= j < last.len() && last[j] == e;
            assert(lies_under(last[j].path, chains_path.push(entry.0@)));
            assert(entries[entries.len() - 1] == entry);
        }
    }
}

/// No defect of a chain list lies under the location of a chain that
/// the filter drops.
pub proof fn lemma_no_defect_under_dropped_chain(
    entries: Seq<(String, DeprecatedRawChainConf)>,
    chains_path: Seq<Seq<char>>,
    filter: Option<Seq<Seq<char>>>,
    name: Seq<char>,
    e: ConfigErrorView,
)
    requires
        !retained(name, filter),
        chains_errors(entries, chains_path, filter).contains(e),
    ensures
        !lies_under(e.path, chains_path.push(name)),
{
    lemma_chain_list_defects_lie_under_kept_chains(entries, chains_path, filter, e);
    let i = choose|i: int|
        0 <= i < entries.len() && retained((#[trigger] entries[i]).0@, filter) && lies_under(
            e.path,
            chains_path.push(entries[i].0@),
        );
    if lies_under(e.path, chains_path.push(name)) {
        lemma_fields_are_apart(e.path, chains_path, name, entries[i].0@);
    }
}

/// No defect of a document lies under the location of a chain that the
/// filter drops: whatever is wrong with such a chain, the failure of
/// the document says nothing of it.
pub proof fn lemma_document_has_no_defect_under_dropped_chain(
    raw: DeprecatedRawSettings,
    cwp: Seq<Seq<char>>,
    filter: Option<Seq<Seq<char>>>,
    name: Seq<char>,
    e: ConfigErrorView,
)
    requires
        !retained(name, filter),
        settings_errors(raw, cwp, filter).contains(e),
    ensures
        !lies_under(e.path, cwp.push("chains"@).push(name)),
{
    let d = default_signer_errors(raw, cwp);
    let c = chains_errors(raw_chains(raw), cwp.push("chains"@), filter);
    let m = coercion_errors(
        raw.metrics,
        u16::MAX as int,
        cwp.push("metrics"@),
        "Invalid `metrics` port, expected integer"@,
    );
    let dropped = cwp.push("chains"@).push(name);
    lemma_contained_in_a_part(d + c, m, e);
    if (d + c).contains(e) {
        lemma_contained_in_a_part(d, c, e);
        if c.contains(e) {
            lemma_no_defect_under_dropped_chain(raw_chains(raw), cwp.push("chains"@), filter, name, e);
        } else {
            if lies_under(e.path, dropped) {
                lemma_signer_defects_lie_under(raw.defaultsigner->0, cwp.push("defaultsigner"@));
                let j = choose|j: int| 0 <= j < d.len() && d[j] == e;
                assert(lies_under(d[j].path, cwp.push("defaultsigner"@)));
                lemma_field_lies_under_record(cwp.push("chains"@), name);
                lemma_lies_under_is_transitive(e.path, dropped, cwp.push("chains"@));
                lemma_fields_are_apart(e.path, cwp, "defaultsigner"@, "chains"@);
                reveal_strlit("defaultsigner");
                reveal_strlit("chains");
                assert("defaultsigner"@.len() != "chains"@.len());
            }
        }
    } else {
        let j = choose|j: int| 0 <= j < m.len() && m[j] == e;
        assert(e.path == cwp.push("metrics"@));
    }
}

} // verus!
