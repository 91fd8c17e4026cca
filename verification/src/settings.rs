//! The settings of an agent: its chains, its metrics port, its tracing.

use vstd::prelude::*;
use vstd::string::*;
use crate::chain::{chain_errors, chain_value, signer_view, ChainConf, ChainConfView, DeprecatedRawChainConf};
use crate::coerce::{coerce_u16, coerced_or, coercion_errors, StrOrInt};
use crate::error::{finalized, outcome, ConfigErrorView, ConfigParsingError};
use crate::path::ConfigPath;
use crate::resolve::FromRawConf;
use crate::signer::{signer_errors, signer_value, DeprecatedRawSignerConf, SignerConf, SignerConfView};
use crate::text::{contains_name, lowercased, to_ascii_lowercase};

verus! {

/// How much is traced.
#[derive(Debug, Clone, Copy, PartialEq, Eq, Structural)]
pub enum Level {
    /// Everything, the dependencies' traces included.
    DependencyTrace,
    Trace,
    Debug,
    /// The default.
    Info,
    Warn,
    Error,
    Off,
}

/// How traces are written.
#[derive(Debug, Clone, Copy, PartialEq, Eq, Structural)]
pub enum Style {
    /// The default.
    Pretty,
    Json,
    Full,
    Compact,
}

/// The tracing configuration of an agent.
#[derive(Debug, Clone, Copy, PartialEq, Eq, Structural)]
pub struct TracingConfig {
    pub fmt: Style,
    pub level: Level,
}

/// The tracing configuration of a document that holds none.
pub open spec fn default_tracing() -> TracingConfig {
    TracingConfig { fmt: Style::Pretty, level: Level::Info }
}

impl Default for TracingConfig {
    fn default() -> (t: Self)
        ensures
            t == default_tracing(),
    {
        TracingConfig { fmt: Style::Pretty, level: Level::Info }
    }
}

/// The settings as the document holds them. The chains are listed under
/// their names, in the order in which they are to be resolved.
#[derive(Debug)]
pub struct DeprecatedRawSettings {
    pub chains: Option<Vec<(String, DeprecatedRawChainConf)>>,
    pub defaultsigner: Option<DeprecatedRawSignerConf>,
    pub metrics: Option<StrOrInt>,
    pub tracing: Option<TracingConfig>,
}

/// The resolved settings. The chains are keyed by their names in lower
/// case, and no key occurs twice.
#[derive(Debug)]
pub struct Settings {
    pub chains: Vec<(String, ChainConf)>,
    pub metrics_port: u16,
    pub tracing: TracingConfig,
}

/// The mathematical content of a [`Settings`].
pub struct SettingsView {
    pub chains: Seq<(Seq<char>, ChainConfView)>,
    pub metrics_port: u16,
    pub tracing: TracingConfig,
}

/// The content of a list of chains.
pub open spec fn chains_view(chains: Seq<(String, ChainConf)>) -> Seq<(Seq<char>, ChainConfView)> {
    chains.map_values(|e: (String, ChainConf)| (e.0@, e.1@))
}

impl View for Settings {
    type V = SettingsView;

    open spec fn view(&self) -> SettingsView {
        SettingsView { chains: chains_view(self.chains@), metrics_port: self.metrics_port, tracing: self.tracing }
    }
}

/// Whether a list of chains holds the key `k`.
pub open spec fn has_key(m: Seq<(Seq<char>, ChainConfView)>, k: Seq<char>) -> bool {
    exists|i: int| 0 <= i < m.len() && (#[trigger] m[i]).0 == k
}

/// Whether `i` is the first place at which a list of chains holds the
/// key `k`.
pub open spec fn is_first_place(m: Seq<(Seq<char>, ChainConfView)>, k: Seq<char>, i: int) -> bool {
    &&& 0 <= i < m.len()
    &&& m[i].0 == k
    &&& forall|j: int| 0 <= j < i ==> (#[trigger] m[j]).0 != k
}

/// The first place at which a list of chains holds the key `k`.
pub open spec fn key_index(m: Seq<(Seq<char>, ChainConfView)>, k: Seq<char>) -> int {
    choose|i: int| is_first_place(m, k, i)
}

/// The chain that a list of chains holds under the key `k`, at the
/// first place at which it holds the key.
pub open spec fn chain_at(m: Seq<(Seq<char>, ChainConfView)>, k: Seq<char>) -> ChainConfView {
    m[key_index(m, k)].1
}

/// Whether a list of chains holds the chain `v` under the key `k`.
pub open spec fn holds(m: Seq<(Seq<char>, ChainConfView)>, k: Seq<char>, v: ChainConfView) -> bool {
    exists|i: int| 0 <= i < m.len() && #[trigger] m[i] == (k, v)
}

/// Whether no key occurs twice in a list of chains.
pub open spec fn distinct_keys(m: Seq<(Seq<char>, ChainConfView)>) -> bool {
    forall|i: int, j: int| 0 <= i < j < m.len() ==> (#[trigger] m[i]).0 != (#[trigger] m[j]).0
}

/// A list of chains after `v` was put under the key `k`: in the first
/// place at which the list held the key, or at the end where the key is
/// new.
pub open spec fn upsert(m: Seq<(Seq<char>, ChainConfView)>, k: Seq<char>, v: ChainConfView) -> Seq<
    (Seq<char>, ChainConfView),
> {
    if has_key(m, k) {
        m.update(key_index(m, k), (k, v))
    } else {
        m.push((k, v))
    }
}

/// The content of a list of names.
pub open spec fn names_view(names: Seq<String>) -> Seq<Seq<char>> {
    names.map_values(|s: String| s@)
}

/// The content of an optional list of names.
pub open spec fn filter_view(filter: Option<&Vec<String>>) -> Option<Seq<Seq<char>>> {
    match filter {
        Some(f) => Some(names_view(f@)),
        None => None,
    }
}

/// Whether the chain `name` is kept: there is no filter, or the filter
/// holds the name exactly as the document writes it, capitals included.
pub open spec fn retained(name: Seq<char>, filter: Option<Seq<Seq<char>>>) -> bool {
    match filter {
        Some(f) => f.contains(name),
        None => true,
    }
}

/// A chain that takes the default signer where it has none of its own.
pub open spec fn with_default_signer(chain: ChainConfView, default: Option<SignerConfView>) -> ChainConfView {
    ChainConfView {
        signer: if chain.signer is Some {
            chain.signer
        } else {
            default
        },
        ..chain
    }
}

/// The defects that one entry of the chain list adds: those of its
/// chain, at the location of the list followed by the entry's name, if
/// the entry is kept; none if it is dropped.
pub open spec fn entry_errors(
    entry: (String, DeprecatedRawChainConf),
    chains_path: Seq<Seq<char>>,
    filter: Option<Seq<Seq<char>>>,
) -> Seq<ConfigErrorView> {
    if retained(entry.0@, filter) {
        chain_errors(entry.1, chains_path.push(entry.0@))
    } else {
        Seq::empty()
    }
}

/// Whether an entry of the chain list yields a chain: it is kept, and
/// its chain has no defect.
pub open spec fn entry_resolves(
    entry: (String, DeprecatedRawChainConf),
    chains_path: Seq<Seq<char>>,
    filter: Option<Seq<Seq<char>>>,
) -> bool {
    retained(entry.0@, filter) && chain_errors(entry.1, chains_path.push(entry.0@)).len() == 0
}

/// The defects of the entries of a chain list, entry after entry.
pub open spec fn chains_errors(
    entries: Seq<(String, DeprecatedRawChainConf)>,
    chains_path: Seq<Seq<char>>,
    filter: Option<Seq<Seq<char>>>,
) -> Seq<ConfigErrorView>
    decreases entries.len(),
{
    if entries.len() == 0 {
        Seq::empty()
    } else {
        chains_errors(entries.drop_last(), chains_path, filter) + entry_errors(entries.last(), chains_path, filter)
    }
}

/// The chains that a chain list yields: each entry that resolves is put
/// under its name in lower case, with the default signer if it has none
/// of its own. An entry that is dropped or has a defect adds nothing.
pub open spec fn chains_value(
    entries: Seq<(String, DeprecatedRawChainConf)>,
    chains_path: Seq<Seq<char>>,
    filter: Option<Seq<Seq<char>>>,
    default_signer: Option<SignerConfView>,
) -> Seq<(Seq<char>, ChainConfView)>
    decreases entries.len(),
{
    if entries.len() == 0 {
        Seq::empty()
    } else {
        let before = chains_value(entries.drop_last(), chains_path, filter, default_signer);
        let entry = entries.last();
        if entry_resolves(entry, chains_path, filter) {
            upsert(before, lowercased(entry.0@), with_default_signer(chain_value(entry.1), default_signer))
        } else {
            before
        }
    }
}

/// The entries of the chain list of a document; none if it has no list.
pub open spec fn raw_chains(raw: DeprecatedRawSettings) -> Seq<(String, DeprecatedRawChainConf)> {
    match raw.chains {
        Some(c) => c@,
        None => Seq::empty(),
    }
}

/// The defects of the default signer of a document.
pub open spec fn default_signer_errors(raw: DeprecatedRawSettings, cwp: Seq<Seq<char>>) -> Seq<ConfigErrorView> {
    match raw.defaultsigner {
        Some(s) => signer_errors(s, cwp.push("defaultsigner"@)),
        None => Seq::empty(),
    }
}

/// The default signer of a document, if it has one without defects.
pub open spec fn default_signer_value(raw: DeprecatedRawSettings, cwp: Seq<Seq<char>>) -> Option<SignerConfView> {
    match raw.defaultsigner {
        Some(s) => if signer_errors(s, cwp.push("defaultsigner"@)).len() == 0 {
            Some(signer_value(s))
        } else {
            None
        },
        None => None,
    }
}

/// Every defect of a document: those of the default signer, then those
/// of the chains that are kept, then that of the metrics port.
pub open spec fn settings_errors(
    raw: DeprecatedRawSettings,
    cwp: Seq<Seq<char>>,
    filter: Option<Seq<Seq<char>>>,
) -> Seq<ConfigErrorView> {
    default_signer_errors(raw, cwp) + chains_errors(raw_chains(raw), cwp.push("chains"@), filter)
        + coercion_errors(
        raw.metrics,
        u16::MAX as int,
        cwp.push("metrics"@),
        "Invalid `metrics` port, expected integer"@,
    )
}

/// The settings that a document without defects describes. An absent
/// metrics port is 9090; absent tracing is the default one.
pub open spec fn settings_value(
    raw: DeprecatedRawSettings,
    cwp: Seq<Seq<char>>,
    filter: Option<Seq<Seq<char>>>,
) -> SettingsView {
    SettingsView {
        chains: chains_value(raw_chains(raw), cwp.push("chains"@), filter, default_signer_value(raw, cwp)),
        metrics_port: coerced_or(raw.metrics, u16::MAX as int, 9090) as u16,
        tracing: match raw.tracing {
            Some(t) => t,
            None => default_tracing(),
        },
    }
}

/// The items of a list, last first.
pub fn reversed<T>(v: Vec<T>) -> (r: Vec<T>)
    ensures
        r@ == v@.reverse(),
{
    let mut v = v;
    let ghost all = v@;
    let mut r: Vec<T> = Vec::new();
    while v.len() > 0
        invariant
            v@.len() + r@.len() == all.len(),
            v@ == all.take(v@.len() as int),
            forall|j: int| 0 <= j < r@.len() ==> r@[j] == all[all.len() - 1 - j],
        decreases v.len(),
    {
        let x = v.pop().unwrap();
        r.push(x);
    }
    assert(r@ =~= all.reverse());
    r
}

/// Puts `chain` under the key `name`: in the place of the chain that the
/// key held, or at the end where the key is new. A list in which no key
/// occurs twice stays such a list.
pub fn insert_chain(chains: &mut Vec<(String, ChainConf)>, name: String, chain: ChainConf)
    ensures
        chains_view(final(chains)@) == upsert(chains_view(old(chains)@), name@, chain@),
        distinct_keys(chains_view(old(chains)@)) ==> distinct_keys(chains_view(final(chains)@)),
{
    let ghost before = chains_view(chains@);
    let mut i: usize = 0;
    while i < chains.len()
        invariant
            i <= chains.len(),
            chains@ == old(chains)@,
            before == chains_view(chains@),
            forall|j: int| 0 <= j < i ==> (#[trigger] before[j]).0 != name@,
        decreases chains.len() - i,
    {
        if chains[i].0 == name {
            proof {
                assert(is_first_place(before, name@, i as int));
                assert(has_key(before, name@));
                let c = key_index(before, name@);
                assert(is_first_place(before, name@, c));
                if c < i {
                    assert(before[c].0 != name@);
                }
                if c > i {
                    assert(before[i as int].0 != name@);
                }
            }
            chains[i] = (name, chain);
            proof {
                let after = chains_view(chains@);
                assert(after =~= before.update(i as int, (name@, chain@)));
                if distinct_keys(before) {
                    assert forall|a: int, b: int| 0 <= a < b < after.len() implies (#[trigger] after[a]).0 != (
                    #[trigger] after[b]).0 by {
                        assert(before[a].0 != before[b].0);
                    }
                }
            }
            return ;
        }
        i += 1;
    }
    chains.push((name, chain));
    proof {
        let after = chains_view(chains@);
        assert(!has_key(before, name@));
        assert(after =~= before.push((name@, chain@)));
        if distinct_keys(before) {
            assert forall|a: int, b: int| 0 <= a < b < after.len() implies (#[trigger] after[a]).0 != (
            #[trigger] after[b]).0 by {
                if b < before.len() {
                    assert(before[a].0 != before[b].0);
                } else {
                    assert(before[a].0 != name@);
                }
            }
        }
    }
}

/// Resolves the entries of a chain list, one after the other. An entry
/// whose name the filter does not hold is dropped before anything is
/// made of it. The chain of every other entry is resolved at the
/// location of the list followed by the entry's name: a chain without
/// defects is put under its name in lower case, with the default signer
/// where it has none of its own; the defects of any other are
/// collected, and the entries after it are resolved all the same.
pub fn resolve_chains(
    entries: Vec<(String, DeprecatedRawChainConf)>,
    chains_path: &ConfigPath,
    filter: Option<&Vec<String>>,
    default_signer: &Option<SignerConf>,
) -> (r: (Vec<(String, ChainConf)>, ConfigParsingError))
    ensures
        chains_view(r.0@) == chains_value(entries@, chains_path@, filter_view(filter), signer_view(*default_signer)),
        r.1@ == chains_errors(entries@, chains_path@, filter_view(filter)),
        distinct_keys(chains_view(r.0@)),
{
    let ghost all = entries@;
    let ghost names = filter_view(filter);
    let ghost default = signer_view(*default_signer);
    let mut rest = reversed(entries);
    let mut chains: Vec<(String, ChainConf)> = Vec::new();
    let mut err = ConfigParsingError::new();
    assert(all.take(0) =~= Seq::<(String, DeprecatedRawChainConf)>::empty());
    assert(chains_view(chains@) =~= Seq::<(Seq<char>, ChainConfView)>::empty());
    while rest.len() > 0
        invariant
            rest@.len() <= all.len(),
            forall|j: int| 0 <= j < rest@.len() ==> rest@[j] == all[all.len() - 1 - j],
            chains_view(chains@) == chains_value(all.take(all.len() - rest@.len()), chains_path@, names, default),
            err@ == chains_errors(all.take(all.len() - rest@.len()), chains_path@, names),
            distinct_keys(chains_view(chains@)),
            names == filter_view(filter),
            default == signer_view(*default_signer),
        decreases rest.len(),
    {
        let ghost done = all.len() - rest@.len();
        let (name, raw) = rest.pop().unwrap();
        proof {
            assert((name, raw) == all[done]);
            assert(all.take(done + 1).drop_last() =~= all.take(done));
            assert(all.take(done + 1).last() == all[done]);
        }
        let keep = match filter {
            Some(f) => contains_name(f, &name),
            None => true,
        };
        if keep {
            let cwp = chains_path.join(name.as_str());
            let key = to_ascii_lowercase(name.as_str());
            match ChainConf::from_config_filtered(raw, &cwp, ()) {
                Ok(parsed) => {
                    let mut parsed = parsed;
                    if parsed.signer.is_none() {
                        match default_signer {
                            Some(d) => {
                                parsed.signer = Some(d.clone());
                            },
                            None => {},
                        }
                    }
                    assert(parsed@ == with_default_signer(chain_value(raw), default));
                    insert_chain(&mut chains, key, parsed);
                    assert(err@ =~= err@ + Seq::<ConfigErrorView>::empty());
                },
                Err(e) => {
                    err.merge(e);
                },
            }
        } else {
            assert(err@ =~= err@ + Seq::<ConfigErrorView>::empty());
        }
    }
    assert(all.take(all.len() as int) =~= all);
    (chains, err)
}

impl Settings {
    /// Whether the settings are well formed: no key occurs twice among
    /// the chains.
    pub open spec fn wf(&self) -> bool {
        distinct_keys(self@.chains)
    }

    /// The chain that is held under `name`, if there is one.
    pub fn chain(&self, name: &str) -> (r: Option<&ChainConf>)
        ensures
            match r {
                Some(c) => exists|i: int| 0 <= i < self@.chains.len() && #[trigger] self@.chains[i] == (name@, c@),
                None => !has_key(self@.chains, name@),
            },
    {
        let wanted = String::from_str(name);
        let mut i: usize = 0;
        while i < self.chains.len()
            invariant
                i <= self.chains.len(),
                wanted@ == name@,
                forall|j: int| 0 <= j < i ==> (#[trigger] self@.chains[j]).0 != name@,
            decreases self.chains.len() - i,
        {
            if self.chains[i].0 == wanted {
                assert(self@.chains[i as int] == (name@, self.chains[i as int].1@));
                return Some(&self.chains[i].1);
            }
            i += 1;
        }
        None
    }
}

impl<'a> FromRawConf<DeprecatedRawSettings, Option<&'a Vec<String>>> for Settings {
    /// Resolves a document. With a filter, only the chains whose names
    /// it holds are looked at. The default signer is resolved first and
    /// on its own; then the chains; then the metrics port. The settings
    /// are built only if all of that left no defect.
    fn from_config_filtered(raw: DeprecatedRawSettings, cwp: &ConfigPath, filter: Option<&'a Vec<String>>) -> (r:
        Result<Self, ConfigParsingError>)
        ensures
            outcome(r) == finalized(
                settings_errors(raw, cwp@, filter_view(filter)),
                settings_value(raw, cwp@, filter_view(filter)),
            ),
            r matches Ok(s) ==> s.wf(),
    {
        let mut err = ConfigParsingError::new();
        let default_signer = match raw.defaultsigner {
            Some(s) => err.take_config_err(SignerConf::from_config_filtered(s, &cwp.join("defaultsigner"), ())),
            None => None,
        };
        assert(err@ =~= default_signer_errors(raw, cwp@));
        assert(signer_view(default_signer) == default_signer_value(raw, cwp@));
        let entries = match raw.chains {
            Some(c) => c,
            None => Vec::new(),
        };
        assert(entries@ =~= raw_chains(raw));
        let (chains, chain_defects) = resolve_chains(entries, &cwp.join("chains"), filter, &default_signer);
        err.merge(chain_defects);
        let metrics_port = match coerce_u16(
            &mut err,
            &raw.metrics,
            cwp,
            "metrics",
            "Invalid `metrics` port, expected integer",
        ) {
            Some(p) => p,
            None => 9090,
        };
        let tracing = match raw.tracing {
            Some(t) => t,
            None => TracingConfig::default(),
        };
        assert(err@ =~= settings_errors(raw, cwp@, filter_view(filter)));
        err.into_result(Settings { chains, metrics_port, tracing })
    }
}

} // verus!
