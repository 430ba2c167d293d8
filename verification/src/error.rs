//! The closed set of failures an export can end in.

use vstd::prelude::*;

verus! {

/// The two tracks of a timeline.
#[derive(Clone, Copy, Debug, PartialEq, Eq, Structural)]
pub enum TrackKind {
    /// The full-frame track.
    Main,
    /// The picture-in-picture track.
    Secondary,
}

/// The fields of a clip descriptor.
#[derive(Clone, Copy, Debug, PartialEq, Eq, Structural)]
pub enum ClipField {
    Path,
    Duration,
    InPoint,
    OutPoint,
    Volume,
    Muted,
    SourceOffset,
    PipSettings,
    PipX,
    PipY,
    PipWidth,
    PipHeight,
    PipOpacity,
}

/// What is wrong with a field of a clip descriptor.
#[derive(Clone, Copy, Debug, PartialEq, Eq, Structural)]
pub enum FieldProblem {
    /// A required field is absent.
    Missing,
    /// The field is present but holds no usable value.
    Malformed,
}

/// A request that is rejected before anything is compiled.
#[derive(Clone, Copy, Debug, PartialEq, Eq, Structural)]
pub enum ValidationError {
    /// Both tracks are empty.
    EmptyTimeline,
    /// A normalized dimension is below the minimum.
    ResolutionTooSmall,
    /// A normalized dimension is above its maximum.
    ResolutionTooLarge,
    /// The trim window of the clip at `index` of `track` is empty.
    NonPositiveDuration { track: TrackKind, index: usize },
}

/// What the engine's diagnostic says went wrong.
#[derive(Clone, Debug, PartialEq, Eq)]
pub enum EngineFailure {
    DiskSpace,
    CodecIncompatible,
    InvalidParameters,
    /// None of the known phrasings: the diagnostic itself, unchanged.
    Generic(String),
}

/// Every way an export can fail.
#[derive(Clone, Debug, PartialEq, Eq)]
pub enum ExportError {
    Validation(ValidationError),
    /// A clip descriptor could not be read.
    Parse { track: TrackKind, index: usize, field: ClipField, problem: FieldProblem },
    /// No engine binary exists at any of the known places.
    EngineNotFound,
    /// The engine could not be started; holds the reason as reported.
    EngineInvocation(String),
    /// The engine ran and failed; `diagnostic` is what it wrote.
    Engine { failure: EngineFailure, diagnostic: String },
    /// A compiled graph refers to a stream that nothing produces, or
    /// produces one twice.
    GraphIntegrity,
}

impl TrackKind {
    /// Whether two track kinds are the same.
    pub fn same(self, other: TrackKind) -> (r: bool)
        ensures
            r == (self == other),
    {
        match (self, other) {
            (TrackKind::Main, TrackKind::Main) => true,
            (TrackKind::Secondary, TrackKind::Secondary) => true,
            _ => false,
        }
    }
}

impl ClipField {
    /// The name of the field as descriptors spell it.
    pub open spec fn name_text(self) -> Seq<char> {
        match self {
            ClipField::Path => "path"@,
            ClipField::Duration => "duration"@,
            ClipField::InPoint => "inPoint"@,
            ClipField::OutPoint => "outPoint"@,
            ClipField::Volume => "volume"@,
            ClipField::Muted => "muted"@,
            ClipField::SourceOffset => "sourceOffset"@,
            ClipField::PipSettings => "pipSettings"@,
            ClipField::PipX => "pipSettings.x"@,
            ClipField::PipY => "pipSettings.y"@,
            ClipField::PipWidth => "pipSettings.width"@,
            ClipField::PipHeight => "pipSettings.height"@,
            ClipField::PipOpacity => "pipSettings.opacity"@,
        }
    }

    /// The name of the field as descriptors spell it.
    pub fn name(self) -> (r: &'static str)
        ensures
            r@ == self.name_text(),
    {
        match self {
            ClipField::Path => "path",
            ClipField::Duration => "duration",
            ClipField::InPoint => "inPoint",
            ClipField::OutPoint => "outPoint",
            ClipField::Volume => "volume",
            ClipField::Muted => "muted",
            ClipField::SourceOffset => "sourceOffset",
            ClipField::PipSettings => "pipSettings",
            ClipField::PipX => "pipSettings.x",
            ClipField::PipY => "pipSettings.y",
            ClipField::PipWidth => "pipSettings.width",
            ClipField::PipHeight => "pipSettings.height",
            ClipField::PipOpacity => "pipSettings.opacity",
        }
    }
}

} // verus!
