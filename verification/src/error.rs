//! Accumulation of configuration errors.

use vstd::prelude::*;
use vstd::string::*;
use crate::path::ConfigPath;

verus! {

/// What went wrong with a field.
#[derive(Debug, Clone, Copy, PartialEq, Eq, Structural)]
pub enum ConfigErrorKind {
    /// A required field is absent.
    MissingField,
    /// A field is present but its value cannot be used.
    InvalidValue,
    /// A discriminator names no known variant.
    UnknownVariant,
    /// A directory could not be created or is not a directory.
    FilesystemError,
}

/// One defect of a document: where it is and what it is.
#[derive(Debug)]
pub struct ConfigError {
    pub path: ConfigPath,
    pub kind: ConfigErrorKind,
    pub message: String,
}

/// The mathematical content of a [`ConfigError`].
pub struct ConfigErrorView {
    pub path: Seq<Seq<char>>,
    pub kind: ConfigErrorKind,
    pub message: Seq<char>,
}

impl View for ConfigError {
    type V = ConfigErrorView;

    open spec fn view(&self) -> ConfigErrorView {
        ConfigErrorView { path: self.path@, kind: self.kind, message: self.message@ }
    }
}

/// The record of a defect of kind `kind` at `path`.
pub open spec fn error_at(path: Seq<Seq<char>>, kind: ConfigErrorKind, message: Seq<char>) -> ConfigErrorView {
    ConfigErrorView { path, kind, message }
}

/// The defects that a required field gives rise to: none if it is
/// present, one that says that it is missing otherwise.
pub open spec fn missing_unless(present: bool, path: Seq<Seq<char>>, message: Seq<char>) -> Seq<ConfigErrorView> {
    if present {
        Seq::empty()
    } else {
        seq![error_at(path, ConfigErrorKind::MissingField, message)]
    }
}

/// The outcome of a resolution, over views.
pub open spec fn outcome<T: View>(r: Result<T, ConfigParsingError>) -> Result<T::V, Seq<ConfigErrorView>> {
    match r {
        Ok(v) => Ok(v@),
        Err(e) => Err(e@),
    }
}

/// The defects found so far, in the order in which they were found.
/// A value of this type that is handed out as a failure is never empty.
#[derive(Debug)]
pub struct ConfigParsingError {
    pub errors: Vec<ConfigError>,
}

impl View for ConfigParsingError {
    type V = Seq<ConfigErrorView>;

    open spec fn view(&self) -> Seq<ConfigErrorView> {
        self.errors@.map_values(|e: ConfigError| e@)
    }
}

/// What finalizing a collection yields: the candidate if nothing was
/// recorded, every recorded defect otherwise.
pub open spec fn finalized<V>(errors: Seq<ConfigErrorView>, candidate: V) -> Result<V, Seq<ConfigErrorView>> {
    if errors.len() == 0 {
        Ok(candidate)
    } else {
        Err(errors)
    }
}

impl ConfigParsingError {
    /// A collection with nothing in it.
    pub fn new() -> (e: Self)
        ensures
            e@ == Seq::<ConfigErrorView>::empty(),
    {
        let e = ConfigParsingError { errors: Vec::new() };
        assert(e@ =~= Seq::<ConfigErrorView>::empty());
        e
    }

    /// Records one defect.
    pub fn push(&mut self, path: ConfigPath, kind: ConfigErrorKind, message: String)
        ensures
            final(self)@ == old(self)@.push(error_at(path@, kind, message@)),
    {
        self.errors.push(ConfigError { path, kind, message });
        assert(self@ =~= old(self)@.push(error_at(path@, kind, message@)));
    }

    /// Adds every defect of `other`, after those already recorded.
    pub fn merge(&mut self, other: ConfigParsingError)
        ensures
            final(self)@ == old(self)@ + other@,
    {
        let mut other = other;
        let ghost added = other@;
        self.errors.append(&mut other.errors);
        assert(self@ =~= old(self)@ + added);
    }

    /// Whether nothing was recorded.
    pub fn is_empty(&self) -> (b: bool)
        ensures
            b == (self@.len() == 0),
    {
        self.errors.len() == 0
    }

    /// The number of recorded defects.
    pub fn len(&self) -> (n: usize)
        ensures
            n == self@.len(),
    {
        self.errors.len()
    }

    /// Finalizes the collection: the candidate value is handed out only
    /// if nothing was recorded; otherwise it is dropped and the whole
    /// collection is the failure.
    pub fn into_result<T>(self, value: T) -> (r: Result<T, ConfigParsingError>)
        ensures
            self@.len() == 0 ==> r == Ok::<T, ConfigParsingError>(value),
            self@.len() > 0 ==> r == Err::<T, ConfigParsingError>(self),
    {
        if self.errors.len() == 0 {
            Ok(value)
        } else {
            Err(self)
        }
    }

    /// A failure that consists of one defect.
    pub fn single(path: ConfigPath, kind: ConfigErrorKind, message: String) -> (e: Self)
        ensures
            e@ == seq![error_at(path@, kind, message@)],
    {
        let mut e = ConfigParsingError::new();
        e.push(path, kind, message);
        assert(e@ =~= seq![error_at(path@, kind, message@)]);
        e
    }

    /// Takes the value of a sub-resolution, or records its defects.
    pub fn take_config_err<T>(&mut self, r: Result<T, ConfigParsingError>) -> (o: Option<T>)
        ensures
            match r {
                Ok(v) => o == Some(v) && final(self)@ == old(self)@,
                Err(e) => o is None && final(self)@ == old(self)@ + e@,
            },
    {
        match r {
            Ok(v) => Some(v),
            Err(e) => {
                self.merge(e);
                None
            },
        }
    }

    /// Records a defect of the field `field` of the record at `cwp`.
    pub fn report(&mut self, cwp: &ConfigPath, field: &str, kind: ConfigErrorKind, message: &str)
        ensures
            final(self)@ == old(self)@.push(error_at(cwp@.push(field@), kind, message@)),
    {
        self.push(cwp.join(field), kind, String::from_str(message));
    }

    /// Takes the value of a field that must be present, or records that
    /// the field `name` of the record at `cwp` is missing.
    pub fn require<T>(&mut self, field: Option<T>, cwp: &ConfigPath, name: &str, message: &str) -> (o: Option<T>)
        ensures
            o == field,
            final(self)@ == old(self)@ + missing_unless(field is Some, cwp@.push(name@), message@),
    {
        if field.is_none() {
            self.report(cwp, name, ConfigErrorKind::MissingField, message);
        }
        assert(self@ =~= old(self)@ + missing_unless(field is Some, cwp@.push(name@), message@));
        field
    }
}

} // verus!
