//! Which files are taken in, and what is made of a probe's report on one.

use vstd::prelude::*;
use crate::text::{decimal, push_decimal};
use crate::timeline::{first_from, first_where};
use crate::words::{lowercase, lowercase_of, same_text};

verus! {

/// The number of bytes in a megabyte.
pub const BYTES_PER_MB: u64 = 1_048_576;

/// The size in megabytes above which a file is refused.
pub const REFUSED_ABOVE_MB: u64 = 5120;

/// The size in megabytes above which a file is taken with a warning.
pub const WARNED_ABOVE_MB: u64 = 2048;

/// The file name extensions that are taken in, in lower case.
pub open spec fn supported_extensions() -> Seq<Seq<char>> {
    seq!["mp4"@, "mov"@, "webm"@, "avi"@, "mkv"@, "m4v"@, "3gp"@, "flv"@, "wmv"@]
}

/// Whether the lower-case extension `extension` is one that is taken in.
pub open spec fn is_supported(extension: Seq<char>) -> bool {
    supported_extensions().contains(extension)
}

/// Whether the lower-case extension `extension` is one that is taken in.
pub fn extension_supported(extension: &str) -> (r: bool)
    ensures
        r == is_supported(extension@),
{
    let r = same_text(extension, "mp4") || same_text(extension, "mov") || same_text(
        extension,
        "webm",
    ) || same_text(extension, "avi") || same_text(extension, "mkv") || same_text(extension, "m4v")
        || same_text(extension, "3gp") || same_text(extension, "flv") || same_text(
        extension,
        "wmv",
    );
    proof {
        let list = supported_extensions();
        if r {
            let k = choose|k: int| 0 <= k < 9 && list[k] == extension@;
            assert(list[k] == extension@);
        } else {
            assert forall|k: int| 0 <= k < list.len() implies list[k] != extension@ by {}
        }
    }
    r
}

/// What is found of a file before it is taken in.
#[derive(Debug, PartialEq, Eq)]
pub struct FileFacts {
    /// Whether there is a file at the path.
    pub found: bool,
    /// Its size in bytes, or why the size cannot be had.
    pub size: Result<u64, String>,
    /// The extension of its name, as it is written; empty where there is
    /// none.
    pub extension: String,
}

/// The size in whole megabytes.
pub open spec fn megabytes(bytes: u64) -> nat {
    (bytes / 1_048_576) as nat
}

/// What is said of a file: that it is not there; that it cannot be read;
/// that it is too large, above 5120 MB; a warning, which lets it through,
/// above 2048 MB; that its format is not supported; or that it is valid.
pub open spec fn file_verdict(facts: FileFacts) -> Result<Seq<char>, Seq<char>> {
    if !facts.found {
        Err("File not found. It may have been moved or deleted."@)
    } else {
        match facts.size {
            Err(reason) => Err("Cannot read file: "@ + reason@),
            Ok(bytes) => if megabytes(bytes) > 5120 {
                Err(
                    "File is too large ("@ + decimal(megabytes(bytes))
                        + " MB). Maximum file size is 5GB."@,
                )
            } else if megabytes(bytes) > 2048 {
                Ok(
                    "WARNING: File is very large ("@ + decimal(megabytes(bytes))
                        + " MB). This may cause performance issues. Continue anyway?"@,
                )
            } else if !is_supported(lowercase_of(facts.extension@)) {
                Err(
                    "Unsupported format: ."@ + lowercase_of(facts.extension@)
                        + ". Supported formats: MP4, MOV, WebM, AVI, MKV, M4V, 3GP, FLV, WMV"@,
                )
            } else {
                Ok("File is valid"@)
            },
        }
    }
}

/// The texts inside a verdict.
pub open spec fn verdict_text(r: Result<String, String>) -> Result<Seq<char>, Seq<char>> {
    match r {
        Ok(s) => Ok(s@),
        Err(s) => Err(s@),
    }
}

/// Decides whether a file is taken in, from what was found of it.
pub fn validate_video_file_internal(facts: &FileFacts) -> (r: Result<String, String>)
    ensures
        verdict_text(r) == file_verdict(*facts),
{
    if !facts.found {
        return Err("File not found. It may have been moved or deleted.".to_owned());
    }
    let bytes: u64 = match &facts.size {
        Ok(bytes) => *bytes,
        Err(reason) => {
            let mut message: String = "Cannot read file: ".to_owned();
            message.append(reason.as_str());
            return Err(message);
        },
    };
    let size_mb: u64 = bytes / BYTES_PER_MB;
    if size_mb > REFUSED_ABOVE_MB {
        let mut message: String = "File is too large (".to_owned();
        push_decimal(&mut message, size_mb as u128);
        message.append(" MB). Maximum file size is 5GB.");
        return Err(message);
    }
    if size_mb > WARNED_ABOVE_MB {
        let mut message: String = "WARNING: File is very large (".to_owned();
        push_decimal(&mut message, size_mb as u128);
        message.append(" MB). This may cause performance issues. Continue anyway?");
        return Ok(message);
    }
    let extension: String = lowercase(facts.extension.as_str());
    if !extension_supported(extension.as_str()) {
        let mut message: String = "Unsupported format: .".to_owned();
        message.append(extension.as_str());
        message.append(". Supported formats: MP4, MOV, WebM, AVI, MKV, M4V, 3GP, FLV, WMV");
        return Err(message);
    }
    Ok("File is valid".to_owned())
}

/// What is known of a video.
#[derive(Clone, Debug, PartialEq, Eq)]
pub struct VideoMetadata {
    /// In microseconds.
    pub duration: u64,
    pub width: i32,
    pub height: i32,
    pub codec: String,
    /// In bytes.
    pub file_size: u64,
}

/// What a probe reports of one stream of a file.
#[derive(Clone, Debug, PartialEq, Eq)]
pub struct ProbeStream {
    pub codec_type: Option<String>,
    pub codec_name: Option<String>,
    pub width: Option<i64>,
    pub height: Option<i64>,
    /// In microseconds.
    pub duration: Option<u64>,
}

/// What a probe reports of a file.
#[derive(Clone, Debug, PartialEq, Eq)]
pub struct ProbeReport {
    /// The duration of the whole file, in microseconds.
    pub format_duration: Option<u64>,
    pub streams: Option<Vec<ProbeStream>>,
}

/// A stream that holds video.
pub open spec fn is_video() -> spec_fn(ProbeStream) -> bool {
    |s: ProbeStream| s.codec_type matches Some(kind) && kind@ == "video"@
}

/// A stream whose duration is reported.
pub open spec fn has_duration() -> spec_fn(ProbeStream) -> bool {
    |s: ProbeStream| s.duration is Some
}

/// The duration that a report holds: that of the file; else that of the
/// first video stream; else that of the first stream that has one.
pub open spec fn reported_duration(report: ProbeReport) -> Option<u64> {
    match report.format_duration {
        Some(d) => Some(d),
        None => match report.streams {
            None => None,
            Some(streams) => {
                let video = first_where(streams@, is_video());
                if video is Some && streams@[video->Some_0].duration is Some {
                    streams@[video->Some_0].duration
                } else {
                    match first_where(streams@, has_duration()) {
                        Some(i) => streams@[i].duration,
                        None => None,
                    }
                }
            },
        },
    }
}

/// The first stream of `streams` that holds video.
pub fn first_video_stream(streams: &Vec<ProbeStream>) -> (r: Option<usize>)
    ensures
        match r {
            Some(i) => first_where(streams@, is_video()) == Some(i as int) && i < streams@.len(),
            None => first_where(streams@, is_video()) is None,
        },
{
    let mut i: usize = 0;
    while i < streams.len()
        invariant
            i <= streams.len(),
            first_where(streams@, is_video()) == first_from(streams@, is_video(), i as int),
        decreases streams.len() - i,
    {
        let video: bool = match &streams[i].codec_type {
            Some(kind) => same_text(kind.as_str(), "video"),
            None => false,
        };
        if video {
            return Some(i);
        }
        i += 1;
    }
    None
}

/// The duration that a report holds, if it holds one.
pub fn duration_from_report(report: &ProbeReport) -> (r: Option<u64>)
    ensures
        r == reported_duration(*report),
{
    if let Some(d) = report.format_duration {
        return Some(d);
    }
    match &report.streams {
        None => None,
        Some(streams) => {
            if let Some(v) = first_video_stream(streams) {
                if let Some(d) = streams[v].duration {
                    return Some(d);
                }
            }
            let mut i: usize = 0;
            while i < streams.len()
                invariant
                    i <= streams.len(),
                    report.format_duration is None,
                    report.streams == Some(*streams),
                    !(first_where(streams@, is_video()) is Some && streams@[first_where(
                        streams@,
                        is_video(),
                    )->Some_0].duration is Some),
                    first_where(streams@, has_duration()) == first_from(
                        streams@,
                        has_duration(),
                        i as int,
                    ),
                decreases streams.len() - i,
            {
                if let Some(d) = streams[i].duration {
                    return Some(d);
                }
                i += 1;
            }
            None
        },
    }
}

/// What is made of a report, given the duration that was found in it or by
/// other means: in this order, that there are no streams; that there is no
/// duration; that there is no video stream; that the first video stream has
/// no width, no height, no codec; else the metadata, where width and height
/// are cut to 32 bits.
pub open spec fn metadata_verdict(
    report: ProbeReport,
    duration: Option<u64>,
    file_size: u64,
    raw: Seq<char>,
) -> Result<VideoMetadata, Seq<char>> {
    match report.streams {
        None => Err("No streams found"@),
        Some(streams) => if duration is None {
            Err("Could not parse duration from format or streams. JSON structure: "@ + raw)
        } else {
            match first_where(streams@, is_video()) {
                None => Err("No video stream found"@),
                Some(v) => {
                    let stream = streams@[v];
                    if stream.width is None {
                        Err("Could not parse width"@)
                    } else if stream.height is None {
                        Err("Could not parse height"@)
                    } else if stream.codec_name is None {
                        Err("Could not parse codec"@)
                    } else {
                        Ok(
                            VideoMetadata {
                                duration: duration->Some_0,
                                width: stream.width->Some_0 as i32,
                                height: stream.height->Some_0 as i32,
                                codec: stream.codec_name->Some_0,
                                file_size,
                            },
                        )
                    }
                },
            }
        },
    }
}

/// The metadata or the text inside an outcome.
pub open spec fn metadata_text(r: Result<VideoMetadata, String>) -> Result<
    VideoMetadata,
    Seq<char>,
> {
    match r {
        Ok(m) => Ok(m),
        Err(s) => Err(s@),
    }
}

/// Puts the metadata of a video together from a probe's report, the
/// duration that was found, the size of the file and, for the case that
/// no duration was found, the report as it was received.
pub fn get_video_metadata_internal(
    report: &ProbeReport,
    duration: Option<u64>,
    file_size: u64,
    raw: &str,
) -> (r: Result<VideoMetadata, String>)
    ensures
        metadata_text(r) == metadata_verdict(*report, duration, file_size, raw@),
{
    let streams: &Vec<ProbeStream> = match &report.streams {
        Some(streams) => streams,
        None => {
            return Err("No streams found".to_owned());
        },
    };
    let duration: u64 = match duration {
        Some(d) => d,
        None => {
            let mut message: String =
                "Could not parse duration from format or streams. JSON structure: ".to_owned();
            message.append(raw);
            return Err(message);
        },
    };
    let v: usize = match first_video_stream(streams) {
        Some(v) => v,
        None => {
            return Err("No video stream found".to_owned());
        },
    };
    let stream: &ProbeStream = &streams[v];
    let width: i64 = match stream.width {
        Some(w) => w,
        None => {
            return Err("Could not parse width".to_owned());
        },
    };
    let height: i64 = match stream.height {
        Some(h) => h,
        None => {
            return Err("Could not parse height".to_owned());
        },
    };
    let codec: String = match &stream.codec_name {
        Some(c) => c.clone(),
        None => {
            return Err("Could not parse codec".to_owned());
        },
    };
    Ok(
        VideoMetadata {
            duration,
            width: #[verifier::truncate]
            (width as i32),
            height: #[verifier::truncate]
            (height as i32),
            codec,
            file_size,
        },
    )
}

} // verus!
