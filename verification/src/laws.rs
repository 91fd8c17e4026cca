//! What holds of the resolvers taken together.

use vstd::prelude::*;
use crate::chain::{
    chain_addresses_errors,
    chain_connection_errors,
    chain_errors,
    chain_index_errors,
    chain_signer_errors,
    chain_value,
    domain_errors,
    finality_errors,
    ChainConfView,
    DeprecatedRawChainConf,
};
use crate::coerce::coercion_errors;
use crate::connection::tagged_payload;
use crate::contracts::{address_errors, addresses_errors, DeprecatedRawCoreContractAddresses};
use crate::checkpoint::s3_errors;
use crate::error::{error_at, finalized, missing_unless, ConfigErrorKind, ConfigErrorView};
use crate::index::{index_value, DeprecatedRawIndexSettings};
use crate::settings::{
    chain_at,
    chains_errors,
    chains_value,
    default_signer_errors,
    default_signer_value,
    distinct_keys,
    entry_errors,
    entry_resolves,
    has_key,
    holds,
    is_first_place,
    key_index,
    raw_chains,
    retained,
    settings_errors,
    settings_value,
    upsert,
    with_default_signer,
    DeprecatedRawSettings,
};
use crate::signer::{signer_errors, signer_kind, signer_value, DeprecatedRawSignerConf, SignerConfView, SignerKind};
use crate::text::lowercased;

verus! {

/// What a collection holds, a longer collection that it is a part of
/// holds too.
pub proof fn lemma_part_is_contained(a: Seq<ConfigErrorView>, b: Seq<ConfigErrorView>, e: ConfigErrorView)
    ensures
        a.contains(e) ==> (a + b).contains(e),
        b.contains(e) ==> (a + b).contains(e),
{
    if a.contains(e) {
        let i = choose|i: int| 0 <= i < a.len() && a[i] == e;
        assert((a + b)[i] == e);
    }
    if b.contains(e) {
        let i = choose|i: int| 0 <= i < b.len() && b[i] == e;
        assert((a + b)[a.len() + i] == e);
    }
}

/// A failure of a chain holds every defect of every one of its parts:
/// what was found in the connection, the identity, the addresses, the
/// signer, the finality depth and the indexing settings is all there.
pub proof fn lemma_chain_keeps_every_defect(raw: DeprecatedRawChainConf, cwp: Seq<Seq<char>>, e: ConfigErrorView)
    ensures
        chain_connection_errors(raw.connection, cwp).contains(e) ==> chain_errors(raw, cwp).contains(e),
        domain_errors(raw.domain, raw.name, cwp).contains(e) ==> chain_errors(raw, cwp).contains(e),
        chain_addresses_errors(raw.addresses, cwp).contains(e) ==> chain_errors(raw, cwp).contains(e),
        chain_signer_errors(raw.signer, cwp).contains(e) ==> chain_errors(raw, cwp).contains(e),
        finality_errors(raw.finality_blocks, cwp).contains(e) ==> chain_errors(raw, cwp).contains(e),
        chain_index_errors(raw.index, cwp).contains(e) ==> chain_errors(raw, cwp).contains(e),
{
    let c = chain_connection_errors(raw.connection, cwp);
    let d = domain_errors(raw.domain, raw.name, cwp);
    let a = chain_addresses_errors(raw.addresses, cwp);
    let s = chain_signer_errors(raw.signer, cwp);
    let f = finality_errors(raw.finality_blocks, cwp);
    let i = chain_index_errors(raw.index, cwp);
    lemma_part_is_contained(c, d, e);
    lemma_part_is_contained(c + d, a, e);
    lemma_part_is_contained(c + d + a, s, e);
    lemma_part_is_contained(c + d + a + s, f, e);
    lemma_part_is_contained(c + d + a + s + f, i, e);
}

/// Each required field of a chain that is missing is reported, whatever
/// else is missing or wrong: the protocol tag, the domain id, the name
/// and the addresses each have their own entry in the failure.
pub proof fn lemma_chain_reports_every_missing_field(raw: DeprecatedRawChainConf, cwp: Seq<Seq<char>>)
    ensures
        raw.connection is None ==> chain_errors(raw, cwp).contains(
            error_at(cwp.push("connection"@), ConfigErrorKind::UnknownVariant, "Unknown chain protocol"@),
        ),
        raw.domain is None ==> chain_errors(raw, cwp).contains(
            error_at(cwp.push("domain"@), ConfigErrorKind::MissingField, "Missing `domain` configuration"@),
        ),
        raw.name is None ==> chain_errors(raw, cwp).contains(
            error_at(cwp.push("name"@), ConfigErrorKind::MissingField, "Missing domain `name` configuration"@),
        ),
        raw.addresses is None ==> chain_errors(raw, cwp).contains(
            error_at(
                cwp.push("addresses"@),
                ConfigErrorKind::MissingField,
                "Missing `addresses` configuration for core contracts"@,
            ),
        ),
{
    let connection = error_at(cwp.push("connection"@), ConfigErrorKind::UnknownVariant, "Unknown chain protocol"@);
    let domain = error_at(cwp.push("domain"@), ConfigErrorKind::MissingField, "Missing `domain` configuration"@);
    let name = error_at(cwp.push("name"@), ConfigErrorKind::MissingField, "Missing domain `name` configuration"@);
    let addresses = error_at(
        cwp.push("addresses"@),
        ConfigErrorKind::MissingField,
        "Missing `addresses` configuration for core contracts"@,
    );
    if raw.connection is None {
        assert(chain_connection_errors(raw.connection, cwp)[0] == connection);
        lemma_chain_keeps_every_defect(raw, cwp, connection);
    }
    if raw.domain is None {
        assert(domain_errors(raw.domain, raw.name, cwp)[0] == domain);
        lemma_chain_keeps_every_defect(raw, cwp, domain);
    }
    if raw.name is None {
        let d = domain_errors(raw.domain, raw.name, cwp);
        assert(d[d.len() - 1] == name);
        lemma_chain_keeps_every_defect(raw, cwp, name);
    }
    if raw.addresses is None {
        assert(chain_addresses_errors(raw.addresses, cwp)[0] == addresses);
        lemma_chain_keeps_every_defect(raw, cwp, addresses);
    }
}

/// Each of the three contract addresses that is missing is reported,
/// whatever became of the other two.
pub proof fn lemma_addresses_report_every_missing_field(raw: DeprecatedRawCoreContractAddresses, cwp: Seq<Seq<char>>)
    ensures
        raw.mailbox is None ==> addresses_errors(raw, cwp).contains(
            error_at(cwp.push("mailbox"@), ConfigErrorKind::MissingField, "Missing mailbox core contract address"@),
        ),
        raw.interchain_gas_paymaster is None ==> addresses_errors(raw, cwp).contains(
            error_at(
                cwp.push("interchain_gas_paymaster"@),
                ConfigErrorKind::MissingField,
                "Missing interchain gas paymaster core contract address"@,
            ),
        ),
        raw.validator_announce is None ==> addresses_errors(raw, cwp).contains(
            error_at(
                cwp.push("validator_announce"@),
                ConfigErrorKind::MissingField,
                "Missing validator announce core contract address"@,
            ),
        ),
{
    let m = address_errors(raw.mailbox, cwp.push("mailbox"@), "Missing mailbox core contract address"@);
    let g = address_errors(
        raw.interchain_gas_paymaster,
        cwp.push("interchain_gas_paymaster"@),
        "Missing interchain gas paymaster core contract address"@,
    );
    let v = address_errors(
        raw.validator_announce,
        cwp.push("validator_announce"@),
        "Missing validator announce core contract address"@,
    );
    if raw.mailbox is None {
        assert(m[0] == m[0]);
        lemma_part_is_contained(m, g, m[0]);
        lemma_part_is_contained(m + g, v, m[0]);
    }
    if raw.interchain_gas_paymaster is None {
        assert(g[0] == g[0]);
        lemma_part_is_contained(m, g, g[0]);
        lemma_part_is_contained(m + g, v, g[0]);
    }
    if raw.validator_announce is None {
        assert(v[0] == v[0]);
        lemma_part_is_contained(m + g, v, v[0]);
    }
}

/// Each of the id and the region that a cloud signer lacks is
/// reported, whether or not the other is there.
pub proof fn lemma_cloud_signer_reports_every_missing_field(raw: DeprecatedRawSignerConf, cwp: Seq<Seq<char>>)
    requires
        signer_kind(raw) == SignerKind::Aws,
    ensures
        raw.id is None ==> signer_errors(raw, cwp).contains(
            error_at(cwp.push("id"@), ConfigErrorKind::MissingField, "Missing `id` for Aws signer"@),
        ),
        raw.region is None ==> signer_errors(raw, cwp).contains(
            error_at(cwp.push("region"@), ConfigErrorKind::MissingField, "Missing `region` for Aws signer"@),
        ),
{
    let i = missing_unless(raw.id is Some, cwp.push("id"@), "Missing `id` for Aws signer"@);
    let r = missing_unless(raw.region is Some, cwp.push("region"@), "Missing `region` for Aws signer"@);
    if raw.id is None {
        assert(i[0] == i[0]);
        lemma_part_is_contained(i, r, i[0]);
    }
    if raw.region is None {
        assert(r[0] == r[0]);
        lemma_part_is_contained(i, r, r[0]);
    }
}

/// Each of the bucket and the region that a remote checkpoint store
/// lacks is reported, whether or not the other is there.
pub proof fn lemma_remote_store_reports_every_missing_field(
    bucket: Option<String>,
    region: Option<String>,
    cwp: Seq<Seq<char>>,
)
    ensures
        bucket is None ==> s3_errors(bucket, region, cwp).contains(
            error_at(cwp.push("bucket"@), ConfigErrorKind::MissingField, "Missing `bucket` for S3 checkpoint syncer"@),
        ),
        region is None ==> s3_errors(bucket, region, cwp).contains(
            error_at(cwp.push("region"@), ConfigErrorKind::MissingField, "Missing `region` for S3 checkpoint syncer"@),
        ),
{
    let b = missing_unless(bucket is Some, cwp.push("bucket"@), "Missing `bucket` for S3 checkpoint syncer"@);
    let r = missing_unless(region is Some, cwp.push("region"@), "Missing `region` for S3 checkpoint syncer"@);
    if bucket is None {
        assert(b[0] == b[0]);
        lemma_part_is_contained(b, r, b[0]);
    }
    if region is None {
        assert(r[0] == r[0]);
        lemma_part_is_contained(b, r, r[0]);
    }
}

/// A failure of a chain list holds every defect of every entry that is
/// kept.
pub proof fn lemma_chain_list_keeps_every_defect(
    entries: Seq<(String, DeprecatedRawChainConf)>,
    chains_path: Seq<Seq<char>>,
    filter: Option<Seq<Seq<char>>>,
    i: int,
    e: ConfigErrorView,
)
    requires
        0 <= i < entries.len(),
        entry_errors(entries[i], chains_path, filter).contains(e),
    ensures
        chains_errors(entries, chains_path, filter).contains(e),
    decreases entries.len(),
{
    let before = chains_errors(entries.drop_last(), chains_path, filter);
    let last = entry_errors(entries.last(), chains_path, filter);
    if i < entries.len() - 1 {
        assert(entries.drop_last()[i] == entries[i]);
        lemma_chain_list_keeps_every_defect(entries.drop_last(), chains_path, filter, i, e);
    }
    lemma_part_is_contained(before, last, e);
}

/// A failure of a document holds every defect of its default signer
/// and every defect of every chain that is kept: no chain hides the
/// defects of another, and neither does the default signer.
pub proof fn lemma_document_keeps_every_defect(
    raw: DeprecatedRawSettings,
    cwp: Seq<Seq<char>>,
    filter: Option<Seq<Seq<char>>>,
    e: ConfigErrorView,
)
    ensures
        default_signer_errors(raw, cwp).contains(e) ==> settings_errors(raw, cwp, filter).contains(e),
        forall|i: int|
            0 <= i < raw_chains(raw).len() && (#[trigger] entry_errors(
                raw_chains(raw)[i],
                cwp.push("chains"@),
                filter,
            )).contains(e) ==> settings_errors(raw, cwp, filter).contains(e),
{
    let d = default_signer_errors(raw, cwp);
    let c = chains_errors(raw_chains(raw), cwp.push("chains"@), filter);
    let m = coercion_errors(
        raw.metrics,
        u16::MAX as int,
        cwp.push("metrics"@),
        "Invalid `metrics` port, expected integer"@,
    );
    lemma_part_is_contained(d, c, e);
    lemma_part_is_contained(d + c, m, e);
    assert forall|i: int|
        0 <= i < raw_chains(raw).len() && (#[trigger] entry_errors(
            raw_chains(raw)[i],
            cwp.push("chains"@),
            filter,
        )).contains(e) implies settings_errors(raw, cwp, filter).contains(e) by {
        lemma_chain_list_keeps_every_defect(raw_chains(raw), cwp.push("chains"@), filter, i, e);
    }
}

/// Absent numbers take their defaults: the start height of the
/// indexing window is 0 and its chunk size 1999, the finality depth of
/// a chain is 0, and the metrics port of a document is 9090.
pub proof fn lemma_absent_fields_take_defaults(
    index: DeprecatedRawIndexSettings,
    chain: DeprecatedRawChainConf,
    settings: DeprecatedRawSettings,
    cwp: Seq<Seq<char>>,
    filter: Option<Seq<Seq<char>>>,
)
    ensures
        index.from is None ==> index_value(index).from == 0,
        index.chunk is None ==> index_value(index).chunk_size == 1999,
        chain.finality_blocks is None ==> chain_value(chain).finality_blocks == 0,
        chain.index is None ==> chain_value(chain).index.from == 0 && chain_value(chain).index.chunk_size == 1999,
        settings.metrics is None ==> settings_value(settings, cwp, filter).metrics_port == 9090,
{
}

/// An entry that the filter drops counts for nothing: whatever chain
/// stands in its place, the chains and the defects that the list yields
/// are the same.
pub proof fn lemma_dropped_entry_is_ignored(
    entries: Seq<(String, DeprecatedRawChainConf)>,
    i: int,
    other: DeprecatedRawChainConf,
    chains_path: Seq<Seq<char>>,
    filter: Option<Seq<Seq<char>>>,
    default_signer: Option<SignerConfView>,
)
    requires
        0 <= i < entries.len(),
        !retained(entries[i].0@, filter),
    ensures
        chains_errors(entries.update(i, (entries[i].0, other)), chains_path, filter) == chains_errors(
            entries,
            chains_path,
            filter,
        ),
        chains_value(entries.update(i, (entries[i].0, other)), chains_path, filter, default_signer) == chains_value(
            entries,
            chains_path,
            filter,
            default_signer,
        ),
    decreases entries.len(),
{
    let changed = entries.update(i, (entries[i].0, other));
    if i < entries.len() - 1 {
        assert(changed.drop_last() =~= entries.drop_last().update(i, (entries[i].0, other)));
        assert(entries.drop_last()[i] == entries[i]);
        assert(changed.last() == entries.last());
        lemma_dropped_entry_is_ignored(entries.drop_last(), i, other, chains_path, filter, default_signer);
    } else {
        assert(changed.drop_last() =~= entries.drop_last());
    }
}

/// Putting a chain under a key loses no key, and the key is there
/// afterwards.
pub proof fn lemma_upsert_keeps_keys(m: Seq<(Seq<char>, ChainConfView)>, k: Seq<char>, v: ChainConfView, other: Seq<char>)
    ensures
        has_key(upsert(m, k, v), k),
        has_key(m, other) ==> has_key(upsert(m, k, v), other),
{
    let after = upsert(m, k, v);
    if has_key(m, k) {
        lemma_first_place_exists(m, k);
        let c = key_index(m, k);
        assert(after[c].0 == k);
        if has_key(m, other) {
            let i = choose|i: int| 0 <= i < m.len() && (#[trigger] m[i]).0 == other;
            if i == c {
                assert(after[c].0 == other);
            } else {
                assert(after[i].0 == other);
            }
        }
    } else {
        assert(after[m.len() as int].0 == k);
        if has_key(m, other) {
            let i = choose|i: int| 0 <= i < m.len() && (#[trigger] m[i]).0 == other;
            assert(after[i].0 == other);
        }
    }
}

/// Every entry that is kept and has no defect has its key among the
/// chains that the list yields: its name in lower case.
pub proof fn lemma_kept_entries_have_keys(
    entries: Seq<(String, DeprecatedRawChainConf)>,
    chains_path: Seq<Seq<char>>,
    filter: Option<Seq<Seq<char>>>,
    default_signer: Option<SignerConfView>,
    i: int,
)
    requires
        0 <= i < entries.len(),
        entry_resolves(entries[i], chains_path, filter),
    ensures
        has_key(chains_value(entries, chains_path, filter, default_signer), lowercased(entries[i].0@)),
    decreases entries.len(),
{
    let before = chains_value(entries.drop_last(), chains_path, filter, default_signer);
    let entry = entries.last();
    let k = lowercased(entries[i].0@);
    if i < entries.len() - 1 {
        assert(entries.drop_last()[i] == entries[i]);
        lemma_kept_entries_have_keys(entries.drop_last(), chains_path, filter, default_signer, i);
        if entry_resolves(entry, chains_path, filter) {
            lemma_upsert_keeps_keys(
                before,
                lowercased(entry.0@),
                with_default_signer(chain_value(entry.1), default_signer),
                k,
            );
        }
    } else {
        lemma_upsert_keeps_keys(before, k, with_default_signer(chain_value(entry.1), default_signer), k);
    }
}

/// A chain of a document that the filter drops counts for nothing:
/// whatever chain stands in its place, the document resolves to the
/// same settings or fails with the same defects.
pub proof fn lemma_dropped_chain_is_ignored(
    raw: DeprecatedRawSettings,
    changed: DeprecatedRawSettings,
    i: int,
    cwp: Seq<Seq<char>>,
    filter: Option<Seq<Seq<char>>>,
)
    requires
        0 <= i < raw_chains(raw).len(),
        !retained(raw_chains(raw)[i].0@, filter),
        raw_chains(changed).len() == raw_chains(raw).len(),
        raw_chains(changed)[i].0 == raw_chains(raw)[i].0,
        forall|j: int| 0 <= j < raw_chains(raw).len() && j != i ==> raw_chains(changed)[j] == raw_chains(raw)[j],
        changed.defaultsigner == raw.defaultsigner,
        changed.metrics == raw.metrics,
        changed.tracing == raw.tracing,
    ensures
        finalized(settings_errors(changed, cwp, filter), settings_value(changed, cwp, filter)) == finalized(
            settings_errors(raw, cwp, filter),
            settings_value(raw, cwp, filter),
        ),
{
    let entries = raw_chains(raw);
    let other = raw_chains(changed)[i].1;
    assert(raw_chains(changed) =~= entries.update(i, (entries[i].0, other)));
    lemma_dropped_entry_is_ignored(
        entries,
        i,
        other,
        cwp.push("chains"@),
        filter,
        default_signer_value(raw, cwp),
    );
}

/// Every key of the chains that a list yields is the lower-case name
/// of an entry that is kept and has no defect.
pub proof fn lemma_keys_come_from_kept_entries(
    entries: Seq<(String, DeprecatedRawChainConf)>,
    chains_path: Seq<Seq<char>>,
    filter: Option<Seq<Seq<char>>>,
    default_signer: Option<SignerConfView>,
    k: Seq<char>,
)
    requires
        has_key(chains_value(entries, chains_path, filter, default_signer), k),
    ensures
        exists|i: int|
            0 <= i < entries.len() && entry_resolves(#[trigger] entries[i], chains_path, filter) && lowercased(
                entries[i].0@,
            ) == k,
    decreases entries.len(),
{
    if entries.len() > 0 {
        let before = chains_value(entries.drop_last(), chains_path, filter, default_signer);
        let entry = entries.last();
        let all = chains_value(entries, chains_path, filter, default_signer);
        let j = choose|j: int| 0 <= j < all.len() && (#[trigger] all[j]).0 == k;
        assert(all[j].0 == k);
        if entry_resolves(entry, chains_path, filter) && lowercased(entry.0@) == k {
            assert(entries[entries.len() - 1] == entry);
        } else {
            if entry_resolves(entry, chains_path, filter) {
                let key = lowercased(entry.0@);
                if has_key(before, key) {
                    lemma_first_place_exists(before, key);
                }
                assert(before[j].0 == k);
            }
            assert(has_key(before, k));
            lemma_keys_come_from_kept_entries(entries.drop_last(), chains_path, filter, default_signer, k);
            let i = choose|i: int|
                0 <= i < entries.drop_last().len() && entry_resolves(
                    #[trigger] entries.drop_last()[i],
                    chains_path,
                    filter,
                ) && lowercased(entries.drop_last()[i].0@) == k;
            assert(entries[i] == entries.drop_last()[i]);
        }
    }
}

/// A list that holds a key holds it at a first place.
pub proof fn lemma_first_place_exists(m: Seq<(Seq<char>, ChainConfView)>, k: Seq<char>)
    requires
        has_key(m, k),
    ensures
        is_first_place(m, k, key_index(m, k)),
    decreases m.len(),
{
    let i = choose|i: int| 0 <= i < m.len() && (#[trigger] m[i]).0 == k;
    if has_key(m.drop_last(), k) {
        lemma_first_place_exists(m.drop_last(), k);
        let c = key_index(m.drop_last(), k);
        assert(m.drop_last()[c] == m[c]);
        assert forall|j: int| 0 <= j < c implies (#[trigger] m[j]).0 != k by {
            assert(m.drop_last()[j] == m[j]);
        }
        assert(is_first_place(m, k, c));
    } else {
        assert forall|j: int| 0 <= j < m.len() - 1 implies (#[trigger] m[j]).0 != k by {
            assert(m.drop_last()[j] == m[j]);
        }
        assert(is_first_place(m, k, m.len() - 1));
    }
}

/// After a chain was put under a key, the key holds that chain.
pub proof fn lemma_upsert_holds(m: Seq<(Seq<char>, ChainConfView)>, k: Seq<char>, v: ChainConfView)
    ensures
        holds(upsert(m, k, v), k, v),
{
    if has_key(m, k) {
        lemma_first_place_exists(m, k);
        let i = key_index(m, k);
        assert(upsert(m, k, v)[i] == (k, v));
    } else {
        assert(upsert(m, k, v)[m.len() as int] == (k, v));
    }
}

/// Putting a chain under a key leaves what the other keys hold.
pub proof fn lemma_upsert_keeps_others(
    m: Seq<(Seq<char>, ChainConfView)>,
    k: Seq<char>,
    v: ChainConfView,
    other: Seq<char>,
    held: ChainConfView,
)
    requires
        holds(m, other, held),
        other != k,
    ensures
        holds(upsert(m, k, v), other, held),
{
    let i = choose|i: int| 0 <= i < m.len() && #[trigger] m[i] == (other, held);
    if has_key(m, k) {
        lemma_first_place_exists(m, k);
        assert(m[key_index(m, k)].0 == k);
    }
    assert(upsert(m, k, v)[i] == (other, held));
}

/// In a list in which no key occurs twice, a chain that is held under a
/// key is the chain that is found under it.
pub proof fn lemma_held_chain_is_found(m: Seq<(Seq<char>, ChainConfView)>, k: Seq<char>, v: ChainConfView)
    requires
        distinct_keys(m),
        holds(m, k, v),
    ensures
        has_key(m, k),
        chain_at(m, k) == v,
{
    let i = choose|i: int| 0 <= i < m.len() && #[trigger] m[i] == (k, v);
    assert(m[i].0 == k);
    lemma_first_place_exists(m, k);
    let c = key_index(m, k);
    if c < i {
        assert(m[c].0 != m[i].0);
    }
    if i < c {
        assert(m[i].0 != m[c].0);
    }
}

/// The signer of a chain after the default signer was offered to it:
/// its own if its record has one, the default signer otherwise.
pub open spec fn cascaded_signer(raw: DeprecatedRawChainConf, default_signer: Option<SignerConfView>) -> Option<
    SignerConfView,
> {
    match raw.signer {
        Some(s) => Some(signer_value(s)),
        None => default_signer,
    }
}

/// A chain takes the default signer exactly where its record has no
/// signer, and nothing else of the chain changes.
pub proof fn lemma_cascaded_signer(raw: DeprecatedRawChainConf, default_signer: Option<SignerConfView>)
    ensures
        with_default_signer(chain_value(raw), default_signer).signer == cascaded_signer(raw, default_signer),
        with_default_signer(chain_value(raw), default_signer).domain == chain_value(raw).domain,
        with_default_signer(chain_value(raw), default_signer).addresses == chain_value(raw).addresses,
        with_default_signer(chain_value(raw), default_signer).connection == chain_value(raw).connection,
        with_default_signer(chain_value(raw), default_signer).finality_blocks == chain_value(raw).finality_blocks,
        with_default_signer(chain_value(raw), default_signer).index == chain_value(raw).index,
        with_default_signer(chain_value(raw), default_signer).metrics_conf == chain_value(raw).metrics_conf,
{
}

/// Whether no entry after the `i`-th that yields a chain has the key of
/// the `i`-th: its name in lower case.
pub open spec fn key_is_not_taken_later(
    entries: Seq<(String, DeprecatedRawChainConf)>,
    chains_path: Seq<Seq<char>>,
    filter: Option<Seq<Seq<char>>>,
    i: int,
) -> bool {
    forall|j: int|
        i < j < entries.len() && entry_resolves(#[trigger] entries[j], chains_path, filter) ==> lowercased(
            entries[j].0@,
        ) != lowercased(entries[i].0@)
}

/// An entry that yields a chain, and whose key no later entry takes,
/// has its chain held under its key, with the default signer offered
/// to it, wherever in the list the entry stands.
pub proof fn lemma_entry_is_held(
    entries: Seq<(String, DeprecatedRawChainConf)>,
    chains_path: Seq<Seq<char>>,
    filter: Option<Seq<Seq<char>>>,
    default_signer: Option<SignerConfView>,
    i: int,
)
    requires
        0 <= i < entries.len(),
        entry_resolves(entries[i], chains_path, filter),
        key_is_not_taken_later(entries, chains_path, filter, i),
    ensures
        holds(
            chains_value(entries, chains_path, filter, default_signer),
            lowercased(entries[i].0@),
            with_default_signer(chain_value(entries[i].1), default_signer),
        ),
    decreases entries.len(),
{
    let before = chains_value(entries.drop_last(), chains_path, filter, default_signer);
    let last = entries.last();
    let k = lowercased(entries[i].0@);
    let v = with_default_signer(chain_value(entries[i].1), default_signer);
    if i == entries.len() - 1 {
        lemma_upsert_holds(before, k, v);
    } else {
        assert(entries.drop_last()[i] == entries[i]);
        assert forall|j: int|
            i < j < entries.drop_last().len() && entry_resolves(
                #[trigger] entries.drop_last()[j],
                chains_path,
                filter,
            ) implies lowercased(entries.drop_last()[j].0@) != k by {
            assert(entries.drop_last()[j] == entries[j]);
        }
        lemma_entry_is_held(entries.drop_last(), chains_path, filter, default_signer, i);
        if entry_resolves(last, chains_path, filter) {
            assert(entries[entries.len() - 1] == last);
            lemma_upsert_keeps_others(
                before,
                lowercased(last.0@),
                with_default_signer(chain_value(last.1), default_signer),
                k,
                v,
            );
        }
    }
}

/// The default signer goes to the chains that have no signer and to no
/// others. Wherever in the list an entry stands: if it yields a chain
/// and no later entry takes its key, then the chain found under its key
/// has the entry's own signer where its record has one, and the default
/// signer where it has none.
pub proof fn lemma_default_signer_cascade(
    entries: Seq<(String, DeprecatedRawChainConf)>,
    chains_path: Seq<Seq<char>>,
    filter: Option<Seq<Seq<char>>>,
    default_signer: Option<SignerConfView>,
    i: int,
)
    requires
        0 <= i < entries.len(),
        entry_resolves(entries[i], chains_path, filter),
        key_is_not_taken_later(entries, chains_path, filter, i),
    ensures
        has_key(chains_value(entries, chains_path, filter, default_signer), lowercased(entries[i].0@)),
        chain_at(chains_value(entries, chains_path, filter, default_signer), lowercased(entries[i].0@)).signer
            == cascaded_signer(entries[i].1, default_signer),
        entries[i].1.signer is None ==> chain_at(
            chains_value(entries, chains_path, filter, default_signer),
            lowercased(entries[i].0@),
        ).signer == default_signer,
        entries[i].1.signer is Some ==> chain_at(
            chains_value(entries, chains_path, filter, default_signer),
            lowercased(entries[i].0@),
        ).signer == Some(signer_value(entries[i].1.signer->0)),
{
    let chains = chains_value(entries, chains_path, filter, default_signer);
    let k = lowercased(entries[i].0@);
    let v = with_default_signer(chain_value(entries[i].1), default_signer);
    lemma_entry_is_held(entries, chains_path, filter, default_signer, i);
    lemma_keys_are_distinct(entries, chains_path, filter, default_signer);
    lemma_held_chain_is_found(chains, k, v);
    lemma_cascaded_signer(entries[i].1, default_signer);
}

/// The default signer of a document goes to its chains that have no
/// signer and to no others. A chain of the document that is kept, has
/// no defect and whose key no later chain takes is found under its key
/// in the settings, with its own signer where its record has one and
/// with the document's default signer where it has none.
pub proof fn lemma_document_default_signer_cascade(
    raw: DeprecatedRawSettings,
    cwp: Seq<Seq<char>>,
    filter: Option<Seq<Seq<char>>>,
    i: int,
)
    requires
        0 <= i < raw_chains(raw).len(),
        entry_resolves(raw_chains(raw)[i], cwp.push("chains"@), filter),
        key_is_not_taken_later(raw_chains(raw), cwp.push("chains"@), filter, i),
    ensures
        has_key(settings_value(raw, cwp, filter).chains, lowercased(raw_chains(raw)[i].0@)),
        raw_chains(raw)[i].1.signer is None ==> chain_at(
            settings_value(raw, cwp, filter).chains,
            lowercased(raw_chains(raw)[i].0@),
        ).signer == default_signer_value(raw, cwp),
        raw_chains(raw)[i].1.signer is Some ==> chain_at(
            settings_value(raw, cwp, filter).chains,
            lowercased(raw_chains(raw)[i].0@),
        ).signer == Some(signer_value(raw_chains(raw)[i].1.signer->0)),
{
    lemma_default_signer_cascade(raw_chains(raw), cwp.push("chains"@), filter, default_signer_value(raw, cwp), i);
}

/// A chain without a protocol tag fails, with a defect of its field
/// `connection`; a chain whose tag names no protocol fails, with a
/// defect of its field `protocol`. Either defect is the first of the
/// chain, says that the protocol is unknown, and is of the kind of an
/// unknown variant.
pub proof fn lemma_unknown_protocol_fails_chain(raw: DeprecatedRawChainConf, cwp: Seq<Seq<char>>)
    requires
        raw.connection is None || tagged_payload(raw.connection->0) is None,
    ensures
        raw.connection is None ==> chain_errors(raw, cwp)[0] == error_at(
            cwp.push("connection"@),
            ConfigErrorKind::UnknownVariant,
            "Unknown chain protocol"@,
        ),
        raw.connection is Some ==> chain_errors(raw, cwp)[0] == error_at(
            cwp.push("protocol"@),
            ConfigErrorKind::UnknownVariant,
            "Unknown chain protocol"@,
        ),
        chain_errors(raw, cwp).len() > 0,
        finalized(chain_errors(raw, cwp), chain_value(raw)) is Err,
{
    assert(chain_connection_errors(raw.connection, cwp).len() == 1);
}

/// A chain that fails is left out, and the chains around it resolve as
/// if it were not there: the list yields the same chains with the
/// failing entry as without it.
pub proof fn lemma_failed_entry_is_left_out(
    before: Seq<(String, DeprecatedRawChainConf)>,
    failed: (String, DeprecatedRawChainConf),
    after: Seq<(String, DeprecatedRawChainConf)>,
    chains_path: Seq<Seq<char>>,
    filter: Option<Seq<Seq<char>>>,
    default_signer: Option<SignerConfView>,
)
    requires
        !entry_resolves(failed, chains_path, filter),
    ensures
        chains_value(before.push(failed) + after, chains_path, filter, default_signer) == chains_value(
            before + after,
            chains_path,
            filter,
            default_signer,
        ),
    decreases after.len(),
{
    if after.len() == 0 {
        assert(before.push(failed) + after =~= before.push(failed));
        assert(before + after =~= before);
        assert(before.push(failed).drop_last() =~= before);
    } else {
        assert((before.push(failed) + after).drop_last() =~= before.push(failed) + after.drop_last());
        assert((before + after).drop_last() =~= before + after.drop_last());
        assert((before.push(failed) + after).last() == after.last());
        assert((before + after).last() == after.last());
        lemma_failed_entry_is_left_out(before, failed, after.drop_last(), chains_path, filter, default_signer);
    }
}

/// No key occurs twice in the chains that a list yields.
pub proof fn lemma_keys_are_distinct(
    entries: Seq<(String, DeprecatedRawChainConf)>,
    chains_path: Seq<Seq<char>>,
    filter: Option<Seq<Seq<char>>>,
    default_signer: Option<SignerConfView>,
)
    ensures
        distinct_keys(chains_value(entries, chains_path, filter, default_signer)),
    decreases entries.len(),
{
    if entries.len() > 0 {
        lemma_keys_are_distinct(entries.drop_last(), chains_path, filter, default_signer);
        let before = chains_value(entries.drop_last(), chains_path, filter, default_signer);
        let entry = entries.last();
        let all = chains_value(entries, chains_path, filter, default_signer);
        if entry_resolves(entry, chains_path, filter) {
            let k = lowercased(entry.0@);
            if has_key(before, k) {
                lemma_first_place_exists(before, k);
                let c = key_index(before, k);
                assert forall|a: int, b: int| 0 <= a < b < all.len() implies (#[trigger] all[a]).0 != (
                #[trigger] all[b]).0 by {
                    assert(before[a].0 != before[b].0);
                    assert(before[c].0 == k);
                }
            } else {
                assert forall|a: int, b: int| 0 <= a < b < all.len() implies (#[trigger] all[a]).0 != (
                #[trigger] all[b]).0 by {
                    if b < before.len() {
                        assert(before[a].0 != before[b].0);
                    } else {
                        assert(before[a].0 != k);
                    }
                }
            }
        }
    }
}

} // verus!
