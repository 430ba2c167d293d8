//! Around the export: which files are accepted, where thumbnails are taken
//! and how they are handed on, and how audio is cut out for transcription.

use vstd::prelude::*;
use vstd::utf8::encode_utf8;
use crate::engine::texts;
use crate::text::{decimal, fixed_text, push_decimal, push_fixed};

verus! {

/// The MD5 digest of `data`, written as lower-case hexadecimal digits.
pub uninterp spec fn md5_hex_of(data: Seq<u8>) -> Seq<char>;

/// The standard Base64 encoding of `data`, with padding.
pub uninterp spec fn base64_of(data: Seq<u8>) -> Seq<char>;

/// The MD5 digest of `data` in lower-case hexadecimal.
///
/// Trusted: calls `md5::compute` and formats the digest with `{:x}`. The
/// result is a function of the bytes alone; the contract gives it a name
/// and says no more.
#[verifier::external_body]
fn md5_hex(data: &[u8]) -> (r: String)
    ensures
        r@ == md5_hex_of(data@),
{
    format!("{:x}", md5::compute(data))
}

/// The standard Base64 encoding of `data`.
///
/// Trusted: calls `base64::Engine::encode` on the `STANDARD` engine. The
/// result is a function of the bytes alone; the contract gives it a name
/// and says no more. The call panics where the length of the encoding does
/// not fit the machine, which the precondition leaves out.
#[verifier::external_body]
fn base64_standard(data: &[u8]) -> (r: String)
    requires
        data@.len() / 3 * 4 + 4 <= usize::MAX,
    ensures
        r@ == base64_of(data@),
{
    base64::Engine::encode(&base64::engine::general_purpose::STANDARD, data)
}

/// The name of the file that holds thumbnail `index` of the video at
/// `path`.
pub open spec fn thumbnail_name_text(path: Seq<char>, index: nat) -> Seq<char> {
    "thumb_"@ + md5_hex_of(encode_utf8(path)) + "_"@ + decimal(index) + ".jpg"@
}

/// The name of the file that holds thumbnail `index` of the video at
/// `path`: the same for the same video, different for different ones as far
/// as the digest tells them apart.
pub fn thumbnail_name(path: &str, index: usize) -> (name: String)
    ensures
        name@ == thumbnail_name_text(path@, index as nat),
{
    let mut name: String = "thumb_".to_owned();
    let digest = md5_hex(path.as_bytes());
    name.append(digest.as_str());
    name.append("_");
    push_decimal(&mut name, index as u128);
    name.append(".jpg");
    name
}

/// The name of the file that holds the audio of the video at `path`.
pub open spec fn audio_name_text(path: Seq<char>) -> Seq<char> {
    "audio_"@ + md5_hex_of(encode_utf8(path)) + ".wav"@
}

/// The name of the file that holds the audio of the video at `path`.
pub fn audio_file_name(path: &str) -> (name: String)
    ensures
        name@ == audio_name_text(path@),
{
    let mut name: String = "audio_".to_owned();
    let digest = md5_hex(path.as_bytes());
    name.append(digest.as_str());
    name.append(".wav");
    name
}

/// Whether `data` is short enough to be encoded on this machine.
pub open spec fn encodable(data: Seq<u8>) -> bool {
    data.len() / 3 * 4 + 4 <= usize::MAX
}

/// A thumbnail as the front end takes it: a data URL of a JPEG.
pub open spec fn data_url_text(data: Seq<u8>) -> Seq<char> {
    "data:image/jpeg;base64,"@ + base64_of(data)
}

/// Turns the bytes of a thumbnail into a data URL. Gives nothing for a
/// thumbnail without bytes, which is skipped, nor for one too long to be
/// encoded on this machine.
pub fn thumbnail_data_url(data: &Vec<u8>) -> (url: Option<String>)
    ensures
        match url {
            Some(text) => data@.len() > 0 && encodable(data@) && text@ == data_url_text(data@),
            None => data@.len() == 0 || !encodable(data@),
        },
{
    if data.len() == 0 || data.len() / 3 > (usize::MAX - 4) / 4 {
        return None;
    }
    let mut url: String = "data:image/jpeg;base64,".to_owned();
    let encoded = base64_standard(data.as_slice());
    url.append(encoded.as_str());
    Some(url)
}

/// How many thumbnails are taken of a video of `duration` microseconds
/// where `count` are asked for: one of a video shorter than a second.
pub open spec fn thumbnail_count(duration: nat, count: nat) -> nat {
    if duration < 1_000_000 {
        1
    } else {
        count
    }
}

/// The time at which thumbnail `i` of `count` is taken: the video is cut
/// into `count + 1` equal parts, and the thumbnails are taken where they
/// meet.
pub open spec fn thumbnail_time(duration: nat, count: nat, i: nat) -> nat {
    duration * (i + 1) / (count + 1)
}

proof fn lemma_thumbnail_time_bound(duration: nat, count: nat, i: nat)
    requires
        i <= count,
    ensures
        thumbnail_time(duration, count, i) <= duration,
{
    assert(duration * (i + 1) / (count + 1) <= duration) by (nonlinear_arith)
        requires
            i <= count,
    {
        assert(duration * (i + 1) <= duration * (count + 1));
        assert(duration * (count + 1) / (count + 1) == duration);
    }
}

/// The times at which the thumbnails of a video of known duration are
/// taken, evenly spread.
pub fn thumbnail_times(duration: u64, count: usize) -> (times: Vec<u64>)
    ensures
        times@.len() == thumbnail_count(duration as nat, count as nat),
        forall|i: int|
            0 <= i < times@.len() ==> (#[trigger] times@[i]) == thumbnail_time(
                duration as nat,
                count as nat,
                i as nat,
            ),
{
    let wanted: usize = if duration < 1_000_000 {
        1
    } else {
        count
    };
    let mut times: Vec<u64> = Vec::new();
    let mut i: usize = 0;
    while i < wanted
        invariant
            i <= wanted,
            wanted == thumbnail_count(duration as nat, count as nat),
            times@.len() == i,
            forall|k: int|
                0 <= k < i ==> (#[trigger] times@[k]) == thumbnail_time(
                    duration as nat,
                    count as nat,
                    k as nat,
                ),
        decreases wanted - i,
    {
        proof {
            lemma_thumbnail_time_bound(duration as nat, count as nat, i as nat);
            assert(duration * (i + 1) <= u64::MAX * (usize::MAX + 1)) by (nonlinear_arith)
                requires
                    duration <= u64::MAX,
                    i + 1 <= usize::MAX + 1,
            ;
        }
        let numerator: u128 = (duration as u128) * (i as u128 + 1);
        let time: u128 = numerator / (count as u128 + 1);
        times.push(time as u64);
        i += 1;
    }
    times
}

/// The times that are tried where the duration of a video is not known:
/// after one, five, ten, twenty and thirty seconds.
pub open spec fn fixed_points() -> Seq<u64> {
    seq![1_000_000u64, 5_000_000u64, 10_000_000u64, 20_000_000u64, 30_000_000u64]
}

/// The times at which thumbnails are taken of a video of unknown duration:
/// the first `count` of the fixed points, all of them where more are asked
/// for.
pub fn fixed_thumbnail_times(count: usize) -> (times: Vec<u64>)
    ensures
        times@ == fixed_points().take(if count < 5 { count as int } else { 5 }),
{
    let mut points: Vec<u64> = Vec::new();
    points.push(1_000_000);
    points.push(5_000_000);
    points.push(10_000_000);
    points.push(20_000_000);
    points.push(30_000_000);
    assert(points@ =~= fixed_points());
    let wanted: usize = if count < 5 {
        count
    } else {
        5
    };
    let mut times: Vec<u64> = Vec::new();
    let mut i: usize = 0;
    while i < wanted
        invariant
            i <= wanted <= 5,
            points@ == fixed_points(),
            times@ == fixed_points().take(i as int),
        decreases wanted - i,
    {
        times.push(points[i]);
        assert(times@ =~= fixed_points().take(i + 1));
        i += 1;
    }
    times
}

/// The times at which thumbnails are taken: evenly spread where a positive
/// duration is known, at the fixed points where none is.
pub fn plan_thumbnails(duration: Option<u64>, count: usize) -> (times: Vec<u64>)
    ensures
        match duration {
            Some(d) if d > 0 => {
                &&& times@.len() == thumbnail_count(d as nat, count as nat)
                &&& forall|i: int|
                    0 <= i < times@.len() ==> (#[trigger] times@[i]) == thumbnail_time(
                        d as nat,
                        count as nat,
                        i as nat,
                    )
            },
            _ => times@ == fixed_points().take(if count < 5 { count as int } else { 5 }),
        },
{
    match duration {
        Some(d) => {
            if d > 0 {
                thumbnail_times(d, count)
            } else {
                fixed_thumbnail_times(count)
            }
        },
        None => fixed_thumbnail_times(count),
    }
}

/// What the engine is started with to take one thumbnail of `file_path` at
/// `time` into `thumbnail_path`.
pub open spec fn thumbnail_args_text(file_path: Seq<char>, time: nat, thumbnail_path: Seq<char>)
    -> Seq<Seq<char>> {
    seq![
        "-i"@,
        file_path,
        "-ss"@,
        fixed_text(time),
        "-vframes"@,
        "1"@,
        "-q:v"@,
        "2"@,
        "-y"@,
        thumbnail_path,
    ]
}

fn push_arg(args: &mut Vec<String>, s: &str)
    ensures
        texts(final(args)@) == texts(old(args)@).push(s@),
{
    let owned: String = s.to_owned();
    assert(texts(args@.push(owned)) =~= texts(args@).push(s@));
    args.push(owned);
}

fn push_time(args: &mut Vec<String>, negative: bool, time: u64)
    ensures
        texts(final(args)@) == texts(old(args)@).push(
            if negative {
                "-"@ + fixed_text(time as nat)
            } else {
                fixed_text(time as nat)
            },
        ),
{
    let mut text: String = String::new();
    if negative {
        text.append("-");
    }
    push_fixed(&mut text, time as u128);
    proof {
        if !negative {
            assert(text@ =~= fixed_text(time as nat));
        }
        assert(texts(args@.push(text)) =~= texts(args@).push(text@));
    }
    args.push(text);
}

/// What the engine is started with to take one thumbnail.
pub fn thumbnail_args(file_path: &str, time: u64, thumbnail_path: &str) -> (args: Vec<String>)
    ensures
        texts(args@) == thumbnail_args_text(file_path@, time as nat, thumbnail_path@),
{
    let mut args: Vec<String> = Vec::new();
    push_arg(&mut args, "-i");
    push_arg(&mut args, file_path);
    push_arg(&mut args, "-ss");
    push_time(&mut args, false, time);
    push_arg(&mut args, "-vframes");
    push_arg(&mut args, "1");
    push_arg(&mut args, "-q:v");
    push_arg(&mut args, "2");
    push_arg(&mut args, "-y");
    push_arg(&mut args, thumbnail_path);
    assert(texts(args@) =~= thumbnail_args_text(file_path@, time as nat, thumbnail_path@));
    args
}

/// The span from `from` to `to` as it is written: with a minus sign where
/// `to` lies before `from`.
pub open spec fn span_text(from: nat, to: nat) -> Seq<char> {
    if to >= from {
        fixed_text((to - from) as nat)
    } else {
        "-"@ + fixed_text((from - to) as nat)
    }
}

/// The arguments that cut the audio: where to start, if an in-point is
/// given, before the input; how long to go on, if an out-point is given
/// too, after it.
pub open spec fn audio_cut_before(in_point: Option<u64>) -> Seq<Seq<char>> {
    match in_point {
        Some(start) => seq!["-ss"@, fixed_text(start as nat)],
        None => Seq::<Seq<char>>::empty(),
    }
}

/// The argument that bounds the length of the audio.
pub open spec fn audio_cut_after(in_point: Option<u64>, out_point: Option<u64>) -> Seq<Seq<char>> {
    match (in_point, out_point) {
        (Some(start), Some(end)) => seq!["-t"@, span_text(start as nat, end as nat)],
        _ => Seq::<Seq<char>>::empty(),
    }
}

/// What the engine is started with to write the audio of `video_path`, or
/// of the part between the two points, to `audio_path`: no video, 16-bit
/// samples at 16 kHz, one channel.
pub open spec fn audio_args_text(
    video_path: Seq<char>,
    in_point: Option<u64>,
    out_point: Option<u64>,
    audio_path: Seq<char>,
) -> Seq<Seq<char>> {
    audio_cut_before(in_point) + seq!["-i"@, video_path] + audio_cut_after(in_point, out_point)
        + seq![
        "-vn"@,
        "-acodec"@,
        "pcm_s16le"@,
        "-ar"@,
        "16000"@,
        "-ac"@,
        "1"@,
        "-y"@,
        audio_path,
    ]
}

/// What the engine is started with to write the audio of a video.
pub fn audio_args(
    video_path: &str,
    in_point: Option<u64>,
    out_point: Option<u64>,
    audio_path: &str,
) -> (args: Vec<String>)
    ensures
        texts(args@) == audio_args_text(video_path@, in_point, out_point, audio_path@),
{
    let mut args: Vec<String> = Vec::new();
    if let Some(start) = in_point {
        push_arg(&mut args, "-ss");
        push_time(&mut args, false, start);
    }
    assert(texts(args@) =~= audio_cut_before(in_point));
    push_arg(&mut args, "-i");
    push_arg(&mut args, video_path);
    let ghost head = texts(args@);
    assert(head =~= audio_cut_before(in_point) + seq!["-i"@, video_path@]);
    if let Some(start) = in_point {
        if let Some(end) = out_point {
            push_arg(&mut args, "-t");
            if end >= start {
                push_time(&mut args, false, end - start);
            } else {
                push_time(&mut args, true, start - end);
            }
        }
    }
    assert(texts(args@) =~= head + audio_cut_after(in_point, out_point));
    push_arg(&mut args, "-vn");
    push_arg(&mut args, "-acodec");
    push_arg(&mut args, "pcm_s16le");
    push_arg(&mut args, "-ar");
    push_arg(&mut args, "16000");
    push_arg(&mut args, "-ac");
    push_arg(&mut args, "1");
    push_arg(&mut args, "-y");
    push_arg(&mut args, audio_path);
    assert(texts(args@) =~= audio_args_text(video_path@, in_point, out_point, audio_path@));
    args
}

} // verus!
