//! The timeline model: clips, tracks, picture-in-picture placement and the
//! target resolution, with the rules that admit or reject them.

use vstd::prelude::*;
use crate::error::{ClipField, ExportError, FieldProblem, TrackKind, ValidationError};
use crate::text::UNITS_PER_WHOLE;

verus! {

/// The smallest width and height an export may have.
pub const MIN_DIMENSION: i32 = 64;

/// The largest width an export may have.
pub const MAX_WIDTH: u32 = 7680;

/// The largest height an export may have.
pub const MAX_HEIGHT: u32 = 4320;

/// The width used where none is requested.
pub const DEFAULT_WIDTH: i32 = 1280;

/// The height used where none is requested.
pub const DEFAULT_HEIGHT: i32 = 720;

/// The canvas size of an export, in pixels.
#[derive(Clone, Copy, Debug, PartialEq, Eq, Structural)]
pub struct ExportResolution {
    pub width: u32,
    pub height: u32,
}

impl ExportResolution {
    /// Both dimensions are even and within bounds.
    pub open spec fn wf(self) -> bool {
        &&& self.width % 2 == 0
        &&& self.height % 2 == 0
        &&& 64 <= self.width <= 7680
        &&& 64 <= self.height <= 4320
    }
}

/// The largest even integer that is at most `v`.
pub open spec fn even_floor(v: int) -> int {
    v - v % 2
}

/// The dimension asked for, or `default` where none is.
pub open spec fn requested(v: Option<i32>, default: int) -> int {
    match v {
        Some(x) => x as int,
        None => default,
    }
}

/// The resolution that a request for `width` and `height` leads to: each
/// rounded down to an even number, rejected where one is out of bounds. A
/// dimension that is too small is reported before one that is too large.
pub open spec fn normalized_resolution(width: Option<i32>, height: Option<i32>) -> Result<
    ExportResolution,
    ValidationError,
> {
    let w = even_floor(requested(width, 1280));
    let h = even_floor(requested(height, 720));
    if w < 64 || h < 64 {
        Err(ValidationError::ResolutionTooSmall)
    } else if w > 7680 || h > 4320 {
        Err(ValidationError::ResolutionTooLarge)
    } else {
        Ok(ExportResolution { width: w as u32, height: h as u32 })
    }
}

/// Computes the target canvas size from what was requested.
pub fn normalize_resolution(width: Option<i32>, height: Option<i32>) -> (r: Result<
    ExportResolution,
    ValidationError,
>)
    ensures
        r == normalized_resolution(width, height),
        r matches Ok(res) ==> res.wf(),
{
    let w: i32 = match width {
        Some(x) => x,
        None => DEFAULT_WIDTH,
    };
    let h: i32 = match height {
        Some(x) => x,
        None => DEFAULT_HEIGHT,
    };
    if w < MIN_DIMENSION || h < MIN_DIMENSION {
        return Err(ValidationError::ResolutionTooSmall);
    }
    let w: u32 = w as u32;
    let h: u32 = h as u32;
    let w: u32 = w - w % 2;
    let h: u32 = h - h % 2;
    if w > MAX_WIDTH || h > MAX_HEIGHT {
        return Err(ValidationError::ResolutionTooLarge);
    }
    Ok(ExportResolution { width: w, height: h })
}

/// One clip of a track. Times are in microseconds; `volume` is in millionths.
#[derive(Clone, Debug, PartialEq, Eq)]
pub struct ClipData {
    /// Where the source file is.
    pub path: String,
    /// The length of the clip: what the length of its track adds up, and
    /// beyond which nothing is kept.
    pub duration: u64,
    /// Where the kept part starts, unless a source offset says otherwise.
    pub in_point: u64,
    /// Where the kept part ends.
    pub out_point: u64,
    /// Carried through; the graph is video-only.
    pub volume: u64,
    /// Carried through; the graph is video-only.
    pub muted: bool,
    /// For a clip split from a longer source: where in the source it starts.
    pub source_offset: Option<u64>,
}

impl ClipData {
    /// Where trimming starts: the source offset if there is one, else the
    /// in-point.
    pub open spec fn trim_start(&self) -> nat {
        match self.source_offset {
            Some(offset) => offset as nat,
            None => self.in_point as nat,
        }
    }

    /// Where trimming ends: the out-point, but not beyond the duration.
    pub open spec fn trim_end(&self) -> nat {
        if self.out_point < self.duration {
            self.out_point as nat
        } else {
            self.duration as nat
        }
    }

    /// The clip keeps something: the out-point lies after the in-point, and
    /// the trim window is not empty.
    pub open spec fn has_window(&self) -> bool {
        &&& self.in_point < self.out_point
        &&& self.trim_start() < self.trim_end()
    }

    /// The length of the trim window.
    pub open spec fn trim_duration(&self) -> nat {
        (self.trim_end() - self.trim_start()) as nat
    }

    /// Where trimming starts.
    pub fn effective_start(&self) -> (start: u64)
        ensures
            start == self.trim_start(),
    {
        match self.source_offset {
            Some(offset) => offset,
            None => self.in_point,
        }
    }

    /// The length of the trim window, or `None` where the clip keeps nothing.
    pub fn effective_duration(&self) -> (d: Option<u64>)
        ensures
            d is Some <==> self.has_window(),
            d matches Some(len) ==> len == self.trim_duration() && len > 0,
    {
        let start: u64 = self.effective_start();
        let end: u64 = if self.out_point < self.duration {
            self.out_point
        } else {
            self.duration
        };
        if self.in_point < self.out_point && start < end {
            Some(end - start)
        } else {
            None
        }
    }
}

/// Where and how large a secondary clip is shown, as fractions of the canvas
/// in millionths.
#[derive(Clone, Copy, Debug, PartialEq, Eq, Structural)]
pub struct PipSettings {
    pub x: u64,
    pub y: u64,
    pub width: u64,
    pub height: u64,
    pub opacity: u64,
}

impl PipSettings {
    /// Every fraction lies between zero and one.
    pub open spec fn wf(self) -> bool {
        &&& self.x <= 1_000_000
        &&& self.y <= 1_000_000
        &&& self.width <= 1_000_000
        &&& self.height <= 1_000_000
        &&& self.opacity <= 1_000_000
    }

    /// The placement of a clip that names none: in the lower right corner,
    /// a quarter of the canvas wide and high, opaque.
    pub open spec fn standard() -> PipSettings {
        PipSettings { x: 750_000, y: 750_000, width: 250_000, height: 250_000, opacity: 1_000_000 }
    }

    /// The placement of a clip that names none.
    pub fn default_placement() -> (p: PipSettings)
        ensures
            p == PipSettings::standard(),
            p.wf(),
    {
        PipSettings { x: 750_000, y: 750_000, width: 250_000, height: 250_000, opacity: 1_000_000 }
    }
}

impl Default for PipSettings {
    fn default() -> (p: PipSettings)
        ensures
            p == PipSettings::standard(),
    {
        PipSettings::default_placement()
    }
}

/// One clip of the secondary track.
#[derive(Clone, Debug, PartialEq, Eq)]
pub struct PipClipData {
    pub clip: ClipData,
    pub pip_settings: Option<PipSettings>,
}

impl PipClipData {
    /// The placement in force: the clip's own, or the standard one.
    pub open spec fn placement(&self) -> PipSettings {
        match self.pip_settings {
            Some(p) => p,
            None => PipSettings::standard(),
        }
    }

    /// The placement the clip names, if any, is well-formed.
    pub open spec fn wf(&self) -> bool {
        self.placement().wf()
    }

    /// The placement in force.
    pub fn resolve_placement(&self) -> (p: PipSettings)
        ensures
            p == self.placement(),
    {
        match self.pip_settings {
            Some(p) => p,
            None => PipSettings::default_placement(),
        }
    }
}

/// A field of a descriptor as it arrives.
#[derive(Clone, Debug, PartialEq, Eq)]
pub enum Field<T> {
    /// The descriptor does not have the field.
    Missing,
    /// The descriptor has the field, but not with a value of the right kind.
    Malformed,
    Value(T),
}

/// What a field that must be present lacks, if anything.
pub open spec fn required_problem<T>(f: Field<T>) -> Option<FieldProblem> {
    match f {
        Field::Missing => Some(FieldProblem::Missing),
        Field::Malformed => Some(FieldProblem::Malformed),
        Field::Value(_) => None,
    }
}

/// What a field that may be absent lacks, if anything.
pub open spec fn optional_problem<T>(f: Field<T>) -> Option<FieldProblem> {
    match f {
        Field::Malformed => Some(FieldProblem::Malformed),
        _ => None,
    }
}

/// What a required fraction lacks, if anything: it must be present and at
/// most one.
pub open spec fn fraction_problem(f: Field<u64>) -> Option<FieldProblem> {
    match f {
        Field::Missing => Some(FieldProblem::Missing),
        Field::Malformed => Some(FieldProblem::Malformed),
        Field::Value(v) => if v > 1_000_000 {
            Some(FieldProblem::Malformed)
        } else {
            None
        },
    }
}

/// The placement part of a raw clip descriptor.
#[derive(Clone, Debug, PartialEq, Eq)]
pub struct PipDescriptor {
    pub x: Field<u64>,
    pub y: Field<u64>,
    pub width: Field<u64>,
    pub height: Field<u64>,
    pub opacity: Field<u64>,
}

/// A clip as the caller describes it, before anything is checked.
#[derive(Clone, Debug, PartialEq, Eq)]
pub struct ClipDescriptor {
    pub path: Field<String>,
    pub duration: Field<u64>,
    pub in_point: Field<u64>,
    pub out_point: Field<u64>,
    pub volume: Field<u64>,
    pub muted: Field<bool>,
    pub source_offset: Field<u64>,
    pub pip_settings: Field<PipDescriptor>,
}

/// The first of `(field, problem)` pairs that holds a problem.
pub open spec fn first_of(a: Option<FieldProblem>, field: ClipField, rest: Option<(ClipField, FieldProblem)>)
    -> Option<(ClipField, FieldProblem)> {
    match a {
        Some(p) => Some((field, p)),
        None => rest,
    }
}

impl PipDescriptor {
    /// The first field, in the order x, y, width, height, opacity, that is
    /// missing, malformed or above one.
    pub open spec fn problem(&self) -> Option<(ClipField, FieldProblem)> {
        first_of(
            fraction_problem(self.x),
            ClipField::PipX,
            first_of(
                fraction_problem(self.y),
                ClipField::PipY,
                first_of(
                    fraction_problem(self.width),
                    ClipField::PipWidth,
                    first_of(
                        fraction_problem(self.height),
                        ClipField::PipHeight,
                        first_of(fraction_problem(self.opacity), ClipField::PipOpacity, None),
                    ),
                ),
            ),
        )
    }

    /// The placement that the descriptor spells out.
    pub open spec fn reading(&self) -> PipSettings
        recommends
            self.problem() is None,
    {
        PipSettings {
            x: self.x->Value_0,
            y: self.y->Value_0,
            width: self.width->Value_0,
            height: self.height->Value_0,
            opacity: self.opacity->Value_0,
        }
    }
}

impl ClipDescriptor {
    /// The first field of the clip proper, in the order path, duration,
    /// in-point, out-point, volume, muted, source offset, that cannot be read.
    pub open spec fn clip_problem(&self) -> Option<(ClipField, FieldProblem)> {
        first_of(
            required_problem(self.path),
            ClipField::Path,
            first_of(
                required_problem(self.duration),
                ClipField::Duration,
                first_of(
                    required_problem(self.in_point),
                    ClipField::InPoint,
                    first_of(
                        required_problem(self.out_point),
                        ClipField::OutPoint,
                        first_of(
                            required_problem(self.volume),
                            ClipField::Volume,
                            first_of(
                                required_problem(self.muted),
                                ClipField::Muted,
                                first_of(
                                    optional_problem(self.source_offset),
                                    ClipField::SourceOffset,
                                    None,
                                ),
                            ),
                        ),
                    ),
                ),
            ),
        )
    }

    /// The first field that cannot be read where the placement counts too:
    /// those of the clip proper come first.
    pub open spec fn pip_problem(&self) -> Option<(ClipField, FieldProblem)> {
        match self.clip_problem() {
            Some(p) => Some(p),
            None => match self.pip_settings {
                Field::Missing => None,
                Field::Malformed => Some((ClipField::PipSettings, FieldProblem::Malformed)),
                Field::Value(d) => d.problem(),
            },
        }
    }

    /// The clip that the descriptor spells out.
    pub open spec fn clip_reading(&self) -> ClipData
        recommends
            self.clip_problem() is None,
    {
        ClipData {
            path: self.path->Value_0,
            duration: self.duration->Value_0,
            in_point: self.in_point->Value_0,
            out_point: self.out_point->Value_0,
            volume: self.volume->Value_0,
            muted: self.muted->Value_0,
            source_offset: match self.source_offset {
                Field::Value(offset) => Some(offset),
                _ => None,
            },
        }
    }

    /// The secondary clip that the descriptor spells out.
    pub open spec fn pip_reading(&self) -> PipClipData
        recommends
            self.pip_problem() is None,
    {
        PipClipData {
            clip: self.clip_reading(),
            pip_settings: match self.pip_settings {
                Field::Value(d) => Some(d.reading()),
                _ => None,
            },
        }
    }
}

fn require_number(f: &Field<u64>, track: TrackKind, index: usize, field: ClipField) -> (r: Result<
    u64,
    ExportError,
>)
    ensures
        match r {
            Ok(v) => *f == Field::Value(v),
            Err(e) => required_problem(*f) matches Some(problem) && e == (ExportError::Parse {
                track,
                index,
                field,
                problem,
            }),
        },
{
    match f {
        Field::Value(v) => Ok(*v),
        Field::Missing => Err(
            ExportError::Parse { track, index, field, problem: FieldProblem::Missing },
        ),
        Field::Malformed => Err(
            ExportError::Parse { track, index, field, problem: FieldProblem::Malformed },
        ),
    }
}

fn require_fraction(f: &Field<u64>, track: TrackKind, index: usize, field: ClipField) -> (r:
    Result<u64, ExportError>)
    ensures
        match r {
            Ok(v) => *f == Field::Value(v) && v <= 1_000_000 && fraction_problem(*f) is None,
            Err(e) => fraction_problem(*f) matches Some(problem) && e == (ExportError::Parse {
                track,
                index,
                field,
                problem,
            }),
        },
{
    match f {
        Field::Value(v) => {
            if *v > UNITS_PER_WHOLE {
                Err(ExportError::Parse { track, index, field, problem: FieldProblem::Malformed })
            } else {
                Ok(*v)
            }
        },
        Field::Missing => Err(
            ExportError::Parse { track, index, field, problem: FieldProblem::Missing },
        ),
        Field::Malformed => Err(
            ExportError::Parse { track, index, field, problem: FieldProblem::Malformed },
        ),
    }
}

/// Reads the clip proper out of a descriptor; the placement is not looked at.
/// Fails on the first field that cannot be read, naming it.
pub fn parse_clip(d: &ClipDescriptor, track: TrackKind, index: usize) -> (r: Result<
    ClipData,
    ExportError,
>)
    ensures
        match r {
            Ok(clip) => d.clip_problem() is None && clip == d.clip_reading(),
            Err(e) => d.clip_problem() matches Some(p) && e == (ExportError::Parse {
                track,
                index,
                field: p.0,
                problem: p.1,
            }),
        },
{
    let path: String = match &d.path {
        Field::Value(p) => p.clone(),
        Field::Missing => {
            return Err(
                ExportError::Parse {
                    track,
                    index,
                    field: ClipField::Path,
                    problem: FieldProblem::Missing,
                },
            );
        },
        Field::Malformed => {
            return Err(
                ExportError::Parse {
                    track,
                    index,
                    field: ClipField::Path,
                    problem: FieldProblem::Malformed,
                },
            );
        },
    };
    let duration: u64 = require_number(&d.duration, track, index, ClipField::Duration)?;
    let in_point: u64 = require_number(&d.in_point, track, index, ClipField::InPoint)?;
    let out_point: u64 = require_number(&d.out_point, track, index, ClipField::OutPoint)?;
    let volume: u64 = require_number(&d.volume, track, index, ClipField::Volume)?;
    let muted: bool = match &d.muted {
        Field::Value(m) => *m,
        Field::Missing => {
            return Err(
                ExportError::Parse {
                    track,
                    index,
                    field: ClipField::Muted,
                    problem: FieldProblem::Missing,
                },
            );
        },
        Field::Malformed => {
            return Err(
                ExportError::Parse {
                    track,
                    index,
                    field: ClipField::Muted,
                    problem: FieldProblem::Malformed,
                },
            );
        },
    };
    let source_offset: Option<u64> = match &d.source_offset {
        Field::Value(offset) => Some(*offset),
        Field::Missing => None,
        Field::Malformed => {
            return Err(
                ExportError::Parse {
                    track,
                    index,
                    field: ClipField::SourceOffset,
                    problem: FieldProblem::Malformed,
                },
            );
        },
    };
    Ok(ClipData { path, duration, in_point, out_point, volume, muted, source_offset })
}

/// Reads a placement out of its descriptor. Fails on the first fraction that
/// is missing, malformed or above one, naming it.
pub fn parse_placement(d: &PipDescriptor, track: TrackKind, index: usize) -> (r: Result<
    PipSettings,
    ExportError,
>)
    ensures
        match r {
            Ok(p) => d.problem() is None && p == d.reading() && p.wf(),
            Err(e) => d.problem() matches Some(p) && e == (ExportError::Parse {
                track,
                index,
                field: p.0,
                problem: p.1,
            }),
        },
{
    let x: u64 = require_fraction(&d.x, track, index, ClipField::PipX)?;
    let y: u64 = require_fraction(&d.y, track, index, ClipField::PipY)?;
    let width: u64 = require_fraction(&d.width, track, index, ClipField::PipWidth)?;
    let height: u64 = require_fraction(&d.height, track, index, ClipField::PipHeight)?;
    let opacity: u64 = require_fraction(&d.opacity, track, index, ClipField::PipOpacity)?;
    Ok(PipSettings { x, y, width, height, opacity })
}

/// Reads a clip of the secondary track out of a descriptor: the clip proper
/// first, then the placement if there is one.
pub fn parse_pip_clip(d: &ClipDescriptor, index: usize) -> (r: Result<PipClipData, ExportError>)
    ensures
        match r {
            Ok(clip) => d.pip_problem() is None && clip == d.pip_reading() && clip.wf(),
            Err(e) => d.pip_problem() matches Some(p) && e == (ExportError::Parse {
                track: TrackKind::Secondary,
                index,
                field: p.0,
                problem: p.1,
            }),
        },
{
    let clip: ClipData = parse_clip(d, TrackKind::Secondary, index)?;
    let pip_settings: Option<PipSettings> = match &d.pip_settings {
        Field::Missing => None,
        Field::Malformed => {
            return Err(
                ExportError::Parse {
                    track: TrackKind::Secondary,
                    index,
                    field: ClipField::PipSettings,
                    problem: FieldProblem::Malformed,
                },
            );
        },
        Field::Value(p) => Some(parse_placement(p, TrackKind::Secondary, index)?),
    };
    Ok(PipClipData { clip, pip_settings })
}

/// The first position from `from` on at which `s` holds an item that is
/// `bad`, if there is one.
pub open spec fn first_from<A>(s: Seq<A>, bad: spec_fn(A) -> bool, from: int) -> Option<int>
    decreases s.len() - from,
{
    if from < 0 || from >= s.len() {
        None
    } else if bad(s[from]) {
        Some(from)
    } else {
        first_from(s, bad, from + 1)
    }
}

/// The first position at which `s` holds an item that is `bad`.
pub open spec fn first_where<A>(s: Seq<A>, bad: spec_fn(A) -> bool) -> Option<int> {
    first_from(s, bad, 0)
}

/// `first_where` finds a bad item exactly where one exists, and then the
/// one before which all items are good.
pub proof fn lemma_first_where<A>(s: Seq<A>, bad: spec_fn(A) -> bool)
    ensures
        match first_where(s, bad) {
            Some(i) => 0 <= i < s.len() && bad(s[i]) && forall|j: int| 0 <= j < i ==> !bad(s[j]),
            None => forall|j: int| 0 <= j < s.len() ==> !bad(s[j]),
        },
{
    lemma_first_from(s, bad, 0);
}

proof fn lemma_first_from<A>(s: Seq<A>, bad: spec_fn(A) -> bool, from: int)
    requires
        0 <= from,
    ensures
        match first_from(s, bad, from) {
            Some(i) => from <= i < s.len() && bad(s[i]) && forall|j: int|
                from <= j < i ==> !bad(s[j]),
            None => forall|j: int| from <= j < s.len() ==> !bad(s[j]),
        },
    decreases s.len() - from,
{
    if from < s.len() && !bad(s[from]) {
        lemma_first_from(s, bad, from + 1);
    }
}

/// A descriptor whose clip proper cannot be read.
pub open spec fn clip_unreadable() -> spec_fn(ClipDescriptor) -> bool {
    |d: ClipDescriptor| d.clip_problem() is Some
}

/// A descriptor that cannot be read as a clip of the secondary track.
pub open spec fn pip_unreadable() -> spec_fn(ClipDescriptor) -> bool {
    |d: ClipDescriptor| d.pip_problem() is Some
}

/// A clip that keeps nothing.
pub open spec fn windowless() -> spec_fn(ClipData) -> bool {
    |c: ClipData| !c.has_window()
}

/// A secondary clip that keeps nothing.
pub open spec fn pip_windowless() -> spec_fn(PipClipData) -> bool {
    |c: PipClipData| !c.clip.has_window()
}

/// The clips that a list of descriptors spells out for the main track.
pub open spec fn main_readings(ds: Seq<ClipDescriptor>) -> Seq<ClipData> {
    ds.map_values(|d: ClipDescriptor| d.clip_reading())
}

/// The clips that a list of descriptors spells out for the secondary track.
pub open spec fn pip_readings(ds: Seq<ClipDescriptor>) -> Seq<PipClipData> {
    ds.map_values(|d: ClipDescriptor| d.pip_reading())
}

/// The error for the descriptor at `index` of the main track.
pub open spec fn main_parse_error(ds: Seq<ClipDescriptor>, index: int) -> ExportError {
    ExportError::Parse {
        track: TrackKind::Main,
        index: index as usize,
        field: ds[index].clip_problem()->Some_0.0,
        problem: ds[index].clip_problem()->Some_0.1,
    }
}

/// The error for the descriptor at `index` of the secondary track.
pub open spec fn pip_parse_error(ds: Seq<ClipDescriptor>, index: int) -> ExportError {
    ExportError::Parse {
        track: TrackKind::Secondary,
        index: index as usize,
        field: ds[index].pip_problem()->Some_0.0,
        problem: ds[index].pip_problem()->Some_0.1,
    }
}

/// Reads the main track. Fails on the first descriptor that cannot be read,
/// naming its position and field.
pub fn parse_main_track(ds: &Vec<ClipDescriptor>) -> (r: Result<Vec<ClipData>, ExportError>)
    ensures
        match r {
            Ok(clips) => first_where(ds@, clip_unreadable()) is None && clips@ == main_readings(
                ds@,
            ),
            Err(e) => first_where(ds@, clip_unreadable()) matches Some(i) && e
                == main_parse_error(ds@, i),
        },
{
    let mut clips: Vec<ClipData> = Vec::new();
    let mut i: usize = 0;
    while i < ds.len()
        invariant
            i <= ds.len(),
            clips@.len() == i,
            forall|j: int| 0 <= j < i ==> clips@[j] == (#[trigger] ds@[j]).clip_reading(),
            first_where(ds@, clip_unreadable()) == first_from(ds@, clip_unreadable(), i as int),
        decreases ds.len() - i,
    {
        match parse_clip(&ds[i], TrackKind::Main, i) {
            Ok(clip) => {
                clips.push(clip);
            },
            Err(e) => {
                return Err(e);
            },
        }
        i += 1;
    }
    assert(clips@ =~= main_readings(ds@));
    Ok(clips)
}

/// Reads the secondary track. Fails on the first descriptor that cannot be
/// read, naming its position and field.
pub fn parse_secondary_track(ds: &Vec<ClipDescriptor>) -> (r: Result<
    Vec<PipClipData>,
    ExportError,
>)
    ensures
        match r {
            Ok(clips) => {
                &&& first_where(ds@, pip_unreadable()) is None
                &&& clips@ == pip_readings(ds@)
                &&& forall|j: int| 0 <= j < clips@.len() ==> (#[trigger] clips@[j]).wf()
            },
            Err(e) => first_where(ds@, pip_unreadable()) matches Some(i) && e == pip_parse_error(
                ds@,
                i,
            ),
        },
{
    let mut clips: Vec<PipClipData> = Vec::new();
    let mut i: usize = 0;
    while i < ds.len()
        invariant
            i <= ds.len(),
            clips@.len() == i,
            forall|j: int| 0 <= j < i ==> clips@[j] == (#[trigger] ds@[j]).pip_reading(),
            forall|j: int| 0 <= j < i ==> (#[trigger] clips@[j]).wf(),
            first_where(ds@, pip_unreadable()) == first_from(ds@, pip_unreadable(), i as int),
        decreases ds.len() - i,
    {
        match parse_pip_clip(&ds[i], i) {
            Ok(clip) => {
                clips.push(clip);
            },
            Err(e) => {
                return Err(e);
            },
        }
        i += 1;
    }
    assert(clips@ =~= pip_readings(ds@));
    Ok(clips)
}

/// What a pair of tracks is rejected for, if anything: that both are empty,
/// else the first clip of the main track that keeps nothing, else the first
/// such clip of the secondary track.
pub open spec fn track_fault(main: Seq<ClipData>, secondary: Seq<PipClipData>) -> Option<
    ValidationError,
> {
    if main.len() == 0 && secondary.len() == 0 {
        Some(ValidationError::EmptyTimeline)
    } else {
        match first_where(main, windowless()) {
            Some(i) => Some(
                ValidationError::NonPositiveDuration { track: TrackKind::Main, index: i as usize },
            ),
            None => match first_where(secondary, pip_windowless()) {
                Some(i) => Some(
                    ValidationError::NonPositiveDuration {
                        track: TrackKind::Secondary,
                        index: i as usize,
                    },
                ),
                None => None,
            },
        }
    }
}

/// Finds the first clip of the main track that keeps nothing.
pub fn check_main_windows(clips: &Vec<ClipData>) -> (r: Option<usize>)
    ensures
        match r {
            Some(i) => first_where(clips@, windowless()) == Some(i as int),
            None => first_where(clips@, windowless()) is None,
        },
{
    let mut i: usize = 0;
    while i < clips.len()
        invariant
            i <= clips.len(),
            first_where(clips@, windowless()) == first_from(clips@, windowless(), i as int),
        decreases clips.len() - i,
    {
        if clips[i].effective_duration().is_none() {
            return Some(i);
        }
        i += 1;
    }
    None
}

/// Finds the first clip of the secondary track that keeps nothing.
pub fn check_secondary_windows(clips: &Vec<PipClipData>) -> (r: Option<usize>)
    ensures
        match r {
            Some(i) => first_where(clips@, pip_windowless()) == Some(i as int),
            None => first_where(clips@, pip_windowless()) is None,
        },
{
    let mut i: usize = 0;
    while i < clips.len()
        invariant
            i <= clips.len(),
            first_where(clips@, pip_windowless()) == first_from(
                clips@,
                pip_windowless(),
                i as int,
            ),
        decreases clips.len() - i,
    {
        if clips[i].clip.effective_duration().is_none() {
            return Some(i);
        }
        i += 1;
    }
    None
}

/// A timeline that has been admitted for export.
#[derive(Clone, Debug, PartialEq, Eq)]
pub struct ExportRequest {
    pub main_track: Vec<ClipData>,
    pub secondary_track: Vec<PipClipData>,
    pub output_path: String,
    pub resolution: ExportResolution,
}

impl ExportRequest {
    /// The request is valid: it has a clip, every clip keeps something, every
    /// placement is well-formed, and the resolution is normalized.
    pub open spec fn wf(&self) -> bool {
        &&& track_fault(self.main_track@, self.secondary_track@) is None
        &&& forall|j: int|
            0 <= j < self.secondary_track@.len() ==> (#[trigger] self.secondary_track@[j]).wf()
        &&& self.resolution.wf()
    }

    /// Admits two tracks for export at the given resolution, or says why not.
    pub fn new(
        main_track: Vec<ClipData>,
        secondary_track: Vec<PipClipData>,
        output_path: String,
        resolution: ExportResolution,
    ) -> (r: Result<ExportRequest, ValidationError>)
        requires
            resolution.wf(),
            forall|j: int| 0 <= j < secondary_track@.len() ==> (#[trigger] secondary_track@[j]).wf(),
        ensures
            match r {
                Ok(request) => {
                    &&& track_fault(main_track@, secondary_track@) is None
                    &&& request.main_track == main_track
                    &&& request.secondary_track == secondary_track
                    &&& request.output_path == output_path
                    &&& request.resolution == resolution
                    &&& request.wf()
                },
                Err(e) => track_fault(main_track@, secondary_track@) == Some(e),
            },
    {
        if main_track.len() == 0 && secondary_track.len() == 0 {
            return Err(ValidationError::EmptyTimeline);
        }
        if let Some(index) = check_main_windows(&main_track) {
            return Err(ValidationError::NonPositiveDuration { track: TrackKind::Main, index });
        }
        if let Some(index) = check_secondary_windows(&secondary_track) {
            return Err(ValidationError::NonPositiveDuration { track: TrackKind::Secondary, index });
        }
        Ok(ExportRequest { main_track, secondary_track, output_path, resolution })
    }
}

} // verus!
