//! Where signed checkpoints are stored.
//!
//! A local store is a directory, and resolving it means looking at the
//! filesystem and, where the directory is missing, creating it. This
//! module does neither. It decides what is to be done next and what
//! follows from what was found: the caller inspects the path, creates
//! the directory when it is told to, and hands back what happened.

use vstd::prelude::*;
use vstd::string::*;
use crate::error::{error_at, finalized, missing_unless, outcome, ConfigErrorKind, ConfigErrorView, ConfigParsingError};
use crate::path::ConfigPath;

verus! {

/// A checkpoint store as the document holds it. A type tag that names
/// no kind of store is kept as `Unknown`.
#[derive(Debug)]
pub enum DeprecatedRawCheckpointSyncerConf {
    /// A directory of the local filesystem.
    LocalStorage { path: Option<String> },
    /// A bucket of a remote object store.
    S3 {
        bucket: Option<String>,
        region: Option<String>,
        /// A folder inside the bucket; the root of the bucket if absent.
        folder: Option<String>,
    },
    /// The type tag names no kind of store.
    Unknown,
}

/// A resolved checkpoint store.
#[derive(Debug)]
pub enum CheckpointSyncerConf {
    LocalStorage { path: String },
    S3 { bucket: String, folder: Option<String>, region: String },
}

/// The mathematical content of a [`CheckpointSyncerConf`].
pub enum CheckpointSyncerConfView {
    LocalStorage { path: Seq<char> },
    S3 { bucket: Seq<char>, folder: Option<Seq<char>>, region: Seq<char> },
}

/// The content of an optional text.
pub open spec fn text_view(t: Option<String>) -> Option<Seq<char>> {
    match t {
        Some(s) => Some(s@),
        None => None,
    }
}

impl View for CheckpointSyncerConf {
    type V = CheckpointSyncerConfView;

    open spec fn view(&self) -> CheckpointSyncerConfView {
        match *self {
            CheckpointSyncerConf::LocalStorage { path } => CheckpointSyncerConfView::LocalStorage { path: path@ },
            CheckpointSyncerConf::S3 { bucket, folder, region } => CheckpointSyncerConfView::S3 {
                bucket: bucket@,
                folder: text_view(folder),
                region: region@,
            },
        }
    }
}

/// What lies at a path of the filesystem.
#[derive(Debug, Clone, Copy, PartialEq, Eq, Structural)]
pub enum PathKind {
    /// Nothing.
    Missing,
    /// A directory.
    Directory,
    /// Something that is no directory.
    Other,
}

/// Where the resolution of a checkpoint store stands.
#[derive(Debug)]
pub enum CheckpointSyncerStep {
    /// The caller is to find out what lies at `path`.
    Inspect { path: String },
    /// The caller is to create the directory `path`, with the
    /// directories above it.
    CreateDir { path: String },
    /// The resolution has ended.
    Done(Result<CheckpointSyncerConf, ConfigParsingError>),
}

/// The mathematical content of a [`CheckpointSyncerStep`].
pub enum CheckpointSyncerStepView {
    Inspect { path: Seq<char> },
    CreateDir { path: Seq<char> },
    Done(Result<CheckpointSyncerConfView, Seq<ConfigErrorView>>),
}

impl View for CheckpointSyncerStep {
    type V = CheckpointSyncerStepView;

    open spec fn view(&self) -> CheckpointSyncerStepView {
        match *self {
            CheckpointSyncerStep::Inspect { path } => CheckpointSyncerStepView::Inspect { path: path@ },
            CheckpointSyncerStep::CreateDir { path } => CheckpointSyncerStepView::CreateDir { path: path@ },
            CheckpointSyncerStep::Done(r) => CheckpointSyncerStepView::Done(outcome(r)),
        }
    }
}

/// The defects of a raw remote store at location `cwp`: each of the
/// bucket and the region that is missing.
pub open spec fn s3_errors(bucket: Option<String>, region: Option<String>, cwp: Seq<Seq<char>>) -> Seq<
    ConfigErrorView,
> {
    missing_unless(bucket is Some, cwp.push("bucket"@), "Missing `bucket` for S3 checkpoint syncer"@)
        + missing_unless(region is Some, cwp.push("region"@), "Missing `region` for S3 checkpoint syncer"@)
}

/// The first step of the resolution of a raw store at location `cwp`.
/// A local store with a path is to be inspected. Everything else ends
/// at once: a local store without a path, a remote store and an unknown
/// type tag need nothing from the filesystem.
pub open spec fn first_step(raw: DeprecatedRawCheckpointSyncerConf, cwp: Seq<Seq<char>>) -> CheckpointSyncerStepView {
    match raw {
        DeprecatedRawCheckpointSyncerConf::LocalStorage { path } => match path {
            Some(p) => CheckpointSyncerStepView::Inspect { path: p@ },
            None => CheckpointSyncerStepView::Done(
                Err(
                    seq![
                        error_at(
                            cwp.push("path"@),
                            ConfigErrorKind::MissingField,
                            "Missing `path` for LocalStorage checkpoint syncer"@,
                        ),
                    ],
                ),
            ),
        },
        DeprecatedRawCheckpointSyncerConf::S3 { bucket, region, folder } => CheckpointSyncerStepView::Done(
            finalized(
                s3_errors(bucket, region, cwp),
                CheckpointSyncerConfView::S3 { bucket: bucket->0@, folder: text_view(folder), region: region->0@ },
            ),
        ),
        DeprecatedRawCheckpointSyncerConf::Unknown => CheckpointSyncerStepView::Done(
            Err(
                seq![
                    error_at(
                        cwp.push("type"@),
                        ConfigErrorKind::UnknownVariant,
                        "Missing `type` for checkpoint syncer"@,
                    ),
                ],
            ),
        ),
    }
}

/// The step that follows the inspection of the path of a local store:
/// a missing directory is to be created, a directory is accepted as it
/// is, and anything else is a defect of the field `path`.
pub open spec fn step_after_inspection(path: Seq<char>, found: PathKind, cwp: Seq<Seq<char>>) -> CheckpointSyncerStepView {
    match found {
        PathKind::Missing => CheckpointSyncerStepView::CreateDir { path },
        PathKind::Directory => CheckpointSyncerStepView::Done(Ok(CheckpointSyncerConfView::LocalStorage { path })),
        PathKind::Other => CheckpointSyncerStepView::Done(
            Err(
                seq![
                    error_at(
                        cwp.push("path"@),
                        ConfigErrorKind::FilesystemError,
                        "LocalStorage checkpoint syncer path is not a directory"@,
                    ),
                ],
            ),
        ),
    }
}

/// What is reported of a directory that could not be created.
pub open spec fn creation_failure_message(path: Seq<char>, cause: Seq<char>) -> Seq<char> {
    "Failed to create local checkpoint syncer storage directory at "@ + path + ": "@ + cause
}

/// What follows the attempt to create the directory of a local store:
/// the store, or a defect of the field `path` that holds the cause.
pub open spec fn outcome_after_creation(path: Seq<char>, failure: Option<Seq<char>>, cwp: Seq<Seq<char>>) -> Result<
    CheckpointSyncerConfView,
    Seq<ConfigErrorView>,
> {
    match failure {
        None => Ok(CheckpointSyncerConfView::LocalStorage { path }),
        Some(cause) => Err(
            seq![
                error_at(
                    cwp.push("path"@),
                    ConfigErrorKind::FilesystemError,
                    creation_failure_message(path, cause),
                ),
            ],
        ),
    }
}

impl CheckpointSyncerConf {
    /// Starts the resolution of a checkpoint store: it ends at once, or
    /// asks the caller to inspect the path of a local store.
    pub fn from_config_filtered(raw: DeprecatedRawCheckpointSyncerConf, cwp: &ConfigPath, _filter: ()) -> (step:
        CheckpointSyncerStep)
        ensures
            step@ == first_step(raw, cwp@),
    {
        match raw {
            DeprecatedRawCheckpointSyncerConf::LocalStorage { path } => match path {
                Some(path) => CheckpointSyncerStep::Inspect { path },
                None => CheckpointSyncerStep::Done(
                    Err(
                        ConfigParsingError::single(
                            cwp.join("path"),
                            ConfigErrorKind::MissingField,
                            String::from_str("Missing `path` for LocalStorage checkpoint syncer"),
                        ),
                    ),
                ),
            },
            DeprecatedRawCheckpointSyncerConf::S3 { bucket, region, folder } => {
                let mut err = ConfigParsingError::new();
                let bucket = err.require(bucket, cwp, "bucket", "Missing `bucket` for S3 checkpoint syncer");
                let region = err.require(region, cwp, "region", "Missing `region` for S3 checkpoint syncer");
                assert(err@ =~= s3_errors(bucket, region, cwp@));
                let r = match bucket {
                    Some(bucket) => match region {
                        Some(region) => err.into_result(CheckpointSyncerConf::S3 { bucket, folder, region }),
                        None => Err(err),
                    },
                    None => Err(err),
                };
                CheckpointSyncerStep::Done(r)
            },
            DeprecatedRawCheckpointSyncerConf::Unknown => CheckpointSyncerStep::Done(
                Err(
                    ConfigParsingError::single(
                        cwp.join("type"),
                        ConfigErrorKind::UnknownVariant,
                        String::from_str("Missing `type` for checkpoint syncer"),
                    ),
                ),
            ),
        }
    }

    /// Goes on after the caller has found out what lies at the path of
    /// a local store.
    pub fn after_inspection(path: String, found: PathKind, cwp: &ConfigPath) -> (step: CheckpointSyncerStep)
        ensures
            step@ == step_after_inspection(path@, found, cwp@),
    {
        match found {
            PathKind::Missing => CheckpointSyncerStep::CreateDir { path },
            PathKind::Directory => CheckpointSyncerStep::Done(Ok(CheckpointSyncerConf::LocalStorage { path })),
            PathKind::Other => CheckpointSyncerStep::Done(
                Err(
                    ConfigParsingError::single(
                        cwp.join("path"),
                        ConfigErrorKind::FilesystemError,
                        String::from_str("LocalStorage checkpoint syncer path is not a directory"),
                    ),
                ),
            ),
        }
    }

    /// Ends the resolution after the caller has tried to create the
    /// directory of a local store. `failure` holds the cause where the
    /// directory could not be created.
    pub fn after_creation(path: String, failure: Option<String>, cwp: &ConfigPath) -> (r: Result<
        CheckpointSyncerConf,
        ConfigParsingError,
    >)
        ensures
            outcome(r) == outcome_after_creation(path@, text_view(failure), cwp@),
    {
        match failure {
            None => Ok(CheckpointSyncerConf::LocalStorage { path }),
            Some(cause) => {
                let message = String::from_str("Failed to create local checkpoint syncer storage directory at ")
                    .concat(path.as_str()).concat(": ").concat(cause.as_str());
                Err(ConfigParsingError::single(cwp.join("path"), ConfigErrorKind::FilesystemError, message))
            },
        }
    }
}

} // verus!
