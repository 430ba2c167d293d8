use clipforge::files::{
    duration_from_report, extension_supported, first_video_stream, get_video_metadata_internal,
    validate_video_file_internal, FileFacts, ProbeReport, ProbeStream, VideoMetadata,
};
use clipforge::media::{
    audio_args, audio_file_name, fixed_thumbnail_times, plan_thumbnails, thumbnail_args,
    thumbnail_data_url, thumbnail_name, thumbnail_times,
};
use clipforge::text::{chars_of, contains, push_decimal, push_fixed, starts_with};
use clipforge::words::{
    check_api_key, detect_filler_words, has_word_timestamps, is_blank, is_filler_word,
    keep_alphanumeric, matches_any_filler, normalize_word, parse_filler_words_from_transcript,
    refusal_message, same_text, FillerWord, WhisperResponse, WhisperSegment, WhisperWord,
};

fn facts(found: bool, size: Result<u64, String>, extension: &str) -> FileFacts {
    FileFacts { found, size, extension: extension.to_string() }
}

fn word(text: &str, start: u64, end: u64) -> WhisperWord {
    WhisperWord { word: text.to_string(), start, end }
}

fn filler(text: &str, start: u64, end: u64) -> FillerWord {
    FillerWord { word: text.to_string(), start_time: start, end_time: end, confidence: None }
}

fn decimal(n: u128) -> String {
    let mut s = String::new();
    push_decimal(&mut s, n);
    s
}

fn fixed(v: u128) -> String {
    let mut s = String::new();
    push_fixed(&mut s, v);
    s
}

#[test]
fn test_validate_nonexistent_file() {
    let result = validate_video_file_internal(&facts(false, Ok(0), "mp4"));
    assert!(result.is_err());
    assert!(result.unwrap_err().contains("File not found"));
}

#[test]
fn test_validate_invalid_extension() {
    let result = validate_video_file_internal(&facts(true, Ok(12), "txt"));
    assert!(result.is_err());
    assert!(result.unwrap_err().contains("Unsupported format"));
}

#[test]
fn test_validate_valid_mp4_extension() {
    let result = validate_video_file_internal(&facts(true, Ok(12), "mp4"));
    assert!(result.is_ok() || result.unwrap_err().contains("Cannot read file"));
}

#[test]
fn file_verdicts() {
    assert_eq!(
        validate_video_file_internal(&facts(false, Err("x".to_string()), "mp4")),
        Err("File not found. It may have been moved or deleted.".to_string())
    );
    assert_eq!(
        validate_video_file_internal(&facts(true, Err("denied".to_string()), "mp4")),
        Err("Cannot read file: denied".to_string())
    );
    let mb: u64 = 1024 * 1024;
    assert_eq!(
        validate_video_file_internal(&facts(true, Ok(5121 * mb), "mp4")),
        Err("File is too large (5121 MB). Maximum file size is 5GB.".to_string())
    );
    assert_eq!(
        validate_video_file_internal(&facts(true, Ok(5121 * mb - 1), "txt")),
        Ok("WARNING: File is very large (5120 MB). This may cause performance issues. Continue anyway?".to_string())
    );
    assert_eq!(
        validate_video_file_internal(&facts(true, Ok(2049 * mb), "mp4")),
        Ok("WARNING: File is very large (2049 MB). This may cause performance issues. Continue anyway?".to_string())
    );
    assert_eq!(
        validate_video_file_internal(&facts(true, Ok(2049 * mb - 1), "MP4")),
        Ok("File is valid".to_string())
    );
    assert_eq!(
        validate_video_file_internal(&facts(true, Ok(0), "WebM")),
        Ok("File is valid".to_string())
    );
    assert_eq!(
        validate_video_file_internal(&facts(true, Ok(0), "TXT")),
        Err("Unsupported format: .txt. Supported formats: MP4, MOV, WebM, AVI, MKV, M4V, 3GP, FLV, WMV".to_string())
    );
    assert_eq!(
        validate_video_file_internal(&facts(true, Ok(0), "")),
        Err("Unsupported format: .. Supported formats: MP4, MOV, WebM, AVI, MKV, M4V, 3GP, FLV, WMV".to_string())
    );
}

#[test]
fn supported_extensions() {
    for e in ["mp4", "mov", "webm", "avi", "mkv", "m4v", "3gp", "flv", "wmv"] {
        assert!(extension_supported(e));
    }
    for e in ["", "mp3", "MP4", "mp4 ", "wav"] {
        assert!(!extension_supported(e));
    }
}

#[test]
fn decimal_numerals() {
    assert_eq!(decimal(0), "0");
    assert_eq!(decimal(7), "7");
    assert_eq!(decimal(10), "10");
    assert_eq!(decimal(1280), "1280");
    assert_eq!(decimal(u128::MAX), "340282366920938463463374607431768211455");
}

#[test]
fn fixed_point_numerals() {
    assert_eq!(fixed(0), "0");
    assert_eq!(fixed(3_000_000), "3");
    assert_eq!(fixed(1_500_000), "1.5");
    assert_eq!(fixed(250_000), "0.25");
    assert_eq!(fixed(1), "0.000001");
    assert_eq!(fixed(12_050_000), "12.05");
    assert_eq!(fixed(999_999), "0.999999");
    assert_eq!(fixed(10_000_010), "10.00001");
    assert_eq!(fixed(100_100_000), "100.1");
}

#[test]
fn text_search() {
    assert!(contains("abcabd", "abd"));
    assert!(contains("abc", ""));
    assert!(contains("", ""));
    assert!(!contains("", "a"));
    assert!(!contains("abc", "abcd"));
    assert!(contains("héllo wörld", "wör"));
    assert!(!contains("aaab", "ba"));
    assert!(contains("aaab", "ab"));
    assert!(starts_with("sk-123", "sk-"));
    assert!(!starts_with("xsk-", "sk-"));
    assert!(!starts_with("sk", "sk-"));
    assert!(starts_with("abc", ""));
    assert!(same_text("abc", "abc"));
    assert!(!same_text("abc", "abd"));
    assert!(!same_text("abc", "ab"));
    assert_eq!(chars_of("aé😀"), vec!['a', 'é', '😀']);
}

#[test]
fn words_are_normalized() {
    assert_eq!(normalize_word("Um,"), "um");
    assert_eq!(normalize_word(" You Know! "), "youknow");
    assert_eq!(normalize_word("ÉCOLE-42"), "école42");
    assert_eq!(normalize_word("..."), "");
    assert_eq!(keep_alphanumeric(&vec!['a', ' ', '1', '_', 'b']), "a1b");
}

#[test]
fn filler_matching() {
    assert!(is_filler_word("um", "um"));
    assert!(is_filler_word("ummm", "um"));
    assert!(!is_filler_word("hum", "um"));
    assert!(!is_filler_word("u", "um"));
    assert!(is_filler_word("unlikely", "like"));
    assert!(!is_filler_word("lik", "like"));
    assert!(is_filler_word("youknow", "youknow"));
    assert!(!is_filler_word("youknow", "you know"));
    assert!(is_filler_word("sofa", "so"));
    assert!(matches_any_filler("uhh"));
    assert!(matches_any_filler("basically"));
    assert!(matches_any_filler("alright"));
    assert!(!matches_any_filler("video"));
    assert!(!matches_any_filler(""));
}

#[test]
fn fillers_of_a_transcript() {
    let direct = WhisperResponse {
        words: Some(vec![
            word("Um,", 0, 400_000),
            word("this", 400_000, 600_000),
            word("is", 600_000, 700_000),
            word("LIKE", 700_000, 900_000),
            word("good", 900_000, 1_000_000),
        ]),
        segments: Some(vec![WhisperSegment { words: Some(vec![word("uh", 5, 6)]) }]),
    };
    assert_eq!(
        parse_filler_words_from_transcript(&direct),
        vec![filler("Um,", 0, 400_000), filler("LIKE", 700_000, 900_000)]
    );
    let nested = WhisperResponse {
        words: None,
        segments: Some(vec![
            WhisperSegment { words: Some(vec![word("well", 1, 2), word("done", 2, 3)]) },
            WhisperSegment { words: None },
            WhisperSegment { words: Some(vec![word("right?", 7, 8)]) },
        ]),
    };
    assert_eq!(
        parse_filler_words_from_transcript(&nested),
        vec![filler("well", 1, 2), filler("right?", 7, 8)]
    );
    assert_eq!(detect_filler_words(&nested), Ok(vec![filler("well", 1, 2), filler("right?", 7, 8)]));
    let empty = WhisperResponse { words: None, segments: None };
    assert_eq!(parse_filler_words_from_transcript(&empty), Vec::new());
}

#[test]
fn transcript_without_times_is_refused() {
    let untimed = WhisperResponse {
        words: None,
        segments: Some(vec![WhisperSegment { words: None }, WhisperSegment { words: None }]),
    };
    assert!(!has_word_timestamps(&untimed));
    assert_eq!(
        detect_filler_words(&untimed),
        Err("Whisper API did not return word-level timestamps. Response structure: has_words=false, has_segments=true, segments_count=2. Please check terminal output for detailed response structure.".to_string())
    );
    let bare = WhisperResponse { words: None, segments: None };
    assert_eq!(
        detect_filler_words(&bare),
        Err("Whisper API did not return word-level timestamps. Response structure: has_words=false, has_segments=false, segments_count=0. Please check terminal output for detailed response structure.".to_string())
    );
    let timed = WhisperResponse { words: Some(Vec::new()), segments: None };
    assert!(has_word_timestamps(&timed));
    assert_eq!(detect_filler_words(&timed), Ok(Vec::new()));
}

#[test]
fn api_keys() {
    assert_eq!(check_api_key("sk-abc"), Ok(()));
    assert_eq!(check_api_key("   \t"), Err("API key is required".to_string()));
    assert_eq!(check_api_key(""), Err("API key is required".to_string()));
    assert_eq!(
        check_api_key("key-abc"),
        Err("Invalid API key format. OpenAI API keys start with 'sk-'".to_string())
    );
    assert_eq!(
        check_api_key(" sk-abc"),
        Err("Invalid API key format. OpenAI API keys start with 'sk-'".to_string())
    );
}

#[test]
fn names_follow_the_digest_of_the_path() {
    assert_eq!(thumbnail_name("", 0), "thumb_d41d8cd98f00b204e9800998ecf8427e_0.jpg");
    assert_eq!(thumbnail_name("abc", 12), "thumb_900150983cd24fb0d6963f7d28e17f72_12.jpg");
    assert_eq!(audio_file_name("abc"), "audio_900150983cd24fb0d6963f7d28e17f72.wav");
    assert_ne!(audio_file_name("/v/a.mp4"), audio_file_name("/v/b.mp4"));
}

#[test]
fn thumbnails_become_data_urls() {
    assert_eq!(thumbnail_data_url(&Vec::new()), None);
    assert_eq!(
        thumbnail_data_url(&b"hello".to_vec()),
        Some("data:image/jpeg;base64,aGVsbG8=".to_string())
    );
    assert_eq!(
        thumbnail_data_url(&vec![0xff, 0xd8, 0xff]),
        Some("data:image/jpeg;base64,/9j/".to_string())
    );
}

#[test]
fn thumbnails_are_spread_evenly() {
    assert_eq!(thumbnail_times(10_000_000, 4), vec![2_000_000, 4_000_000, 6_000_000, 8_000_000]);
    assert_eq!(thumbnail_times(9_000_000, 2), vec![3_000_000, 6_000_000]);
    assert_eq!(thumbnail_times(500_000, 4), vec![100_000]);
    assert_eq!(thumbnail_times(500_000, 0), vec![500_000]);
    assert_eq!(thumbnail_times(10_000_000, 0), Vec::<u64>::new());
    assert_eq!(thumbnail_times(1_000_000, 1), vec![500_000]);
    assert_eq!(thumbnail_times(u64::MAX, 1), vec![u64::MAX / 2]);
}

#[test]
fn thumbnails_without_duration_use_fixed_points() {
    assert_eq!(fixed_thumbnail_times(0), Vec::<u64>::new());
    assert_eq!(fixed_thumbnail_times(2), vec![1_000_000, 5_000_000]);
    assert_eq!(
        fixed_thumbnail_times(9),
        vec![1_000_000, 5_000_000, 10_000_000, 20_000_000, 30_000_000]
    );
    assert_eq!(plan_thumbnails(None, 1), vec![1_000_000]);
    assert_eq!(plan_thumbnails(Some(0), 1), vec![1_000_000]);
    assert_eq!(plan_thumbnails(Some(4_000_000), 1), vec![2_000_000]);
}

#[test]
fn thumbnail_command() {
    assert_eq!(
        thumbnail_args("in.mp4", 2_500_000, "/tmp/t_0.jpg"),
        vec!["-i", "in.mp4", "-ss", "2.5", "-vframes", "1", "-q:v", "2", "-y", "/tmp/t_0.jpg"]
    );
}

#[test]
fn audio_command() {
    assert_eq!(
        audio_args("in.mp4", None, None, "a.wav"),
        vec!["-i", "in.mp4", "-vn", "-acodec", "pcm_s16le", "-ar", "16000", "-ac", "1", "-y", "a.wav"]
    );
    assert_eq!(
        audio_args("in.mp4", Some(1_500_000), Some(4_000_000), "a.wav"),
        vec![
            "-ss", "1.5", "-i", "in.mp4", "-t", "2.5", "-vn", "-acodec", "pcm_s16le", "-ar",
            "16000", "-ac", "1", "-y", "a.wav",
        ]
    );
    assert_eq!(
        audio_args("in.mp4", Some(4_000_000), Some(1_500_000), "a.wav")[4..6],
        ["-t".to_string(), "-2.5".to_string()]
    );
    assert_eq!(
        audio_args("in.mp4", None, Some(4_000_000), "a.wav"),
        vec!["-i", "in.mp4", "-vn", "-acodec", "pcm_s16le", "-ar", "16000", "-ac", "1", "-y", "a.wav"]
    );
    assert_eq!(audio_args("in.mp4", Some(0), None, "a.wav")[0..2], ["-ss".to_string(), "0".to_string()]);
}

fn stream(kind: Option<&str>, duration: Option<u64>) -> ProbeStream {
    ProbeStream {
        codec_type: kind.map(|k| k.to_string()),
        codec_name: Some("h264".to_string()),
        width: Some(1920),
        height: Some(1080),
        duration,
    }
}

#[test]
fn duration_is_taken_from_the_best_place() {
    let streams = vec![stream(Some("audio"), Some(5)), stream(Some("video"), Some(7))];
    let r = ProbeReport { format_duration: Some(9), streams: Some(streams.clone()) };
    assert_eq!(duration_from_report(&r), Some(9));
    let r = ProbeReport { format_duration: None, streams: Some(streams.clone()) };
    assert_eq!(duration_from_report(&r), Some(7));
    let r = ProbeReport {
        format_duration: None,
        streams: Some(vec![
            stream(Some("video"), None),
            stream(Some("video"), Some(3)),
            stream(None, Some(4)),
        ]),
    };
    assert_eq!(duration_from_report(&r), Some(3));
    let r = ProbeReport { format_duration: None, streams: Some(vec![stream(Some("video"), None)]) };
    assert_eq!(duration_from_report(&r), None);
    let r = ProbeReport { format_duration: None, streams: None };
    assert_eq!(duration_from_report(&r), None);
    assert_eq!(first_video_stream(&streams), Some(1));
    assert_eq!(first_video_stream(&vec![stream(Some("Video"), None)]), None);
}

#[test]
fn metadata_is_put_together() {
    let streams = vec![stream(Some("audio"), None), stream(Some("video"), None)];
    let report = ProbeReport { format_duration: None, streams: Some(streams.clone()) };
    assert_eq!(
        get_video_metadata_internal(&report, Some(12_000_000), 2048, "{}"),
        Ok(VideoMetadata {
            duration: 12_000_000,
            width: 1920,
            height: 1080,
            codec: "h264".to_string(),
            file_size: 2048,
        })
    );
    assert_eq!(
        get_video_metadata_internal(&report, None, 2048, "{\"a\":1}"),
        Err("Could not parse duration from format or streams. JSON structure: {\"a\":1}".to_string())
    );
    let none = ProbeReport { format_duration: Some(1), streams: None };
    assert_eq!(
        get_video_metadata_internal(&none, None, 0, ""),
        Err("No streams found".to_string())
    );
    let audio_only =
        ProbeReport { format_duration: Some(1), streams: Some(vec![stream(Some("audio"), None)]) };
    assert_eq!(
        get_video_metadata_internal(&audio_only, Some(1), 0, ""),
        Err("No video stream found".to_string())
    );
    let mut broken = stream(Some("video"), None);
    broken.height = None;
    broken.codec_name = None;
    let r = ProbeReport { format_duration: None, streams: Some(vec![broken.clone()]) };
    assert_eq!(
        get_video_metadata_internal(&r, Some(1), 0, ""),
        Err("Could not parse height".to_string())
    );
    broken.width = None;
    let r = ProbeReport { format_duration: None, streams: Some(vec![broken.clone()]) };
    assert_eq!(
        get_video_metadata_internal(&r, Some(1), 0, ""),
        Err("Could not parse width".to_string())
    );
    broken.width = Some(1);
    broken.height = Some((1i64 << 32) + 5);
    let r = ProbeReport { format_duration: None, streams: Some(vec![broken]) };
    assert_eq!(
        get_video_metadata_internal(&r, Some(1), 0, ""),
        Err("Could not parse codec".to_string())
    );
}

#[test]
fn refusals_of_the_transcription_service() {
    assert_eq!(
        refusal_message(401, "401 Unauthorized", "{}"),
        "Invalid OpenAI API key. Please check your API key."
    );
    assert_eq!(
        refusal_message(429, "429 Too Many Requests", "{}"),
        "OpenAI API rate limit exceeded. Please try again later."
    );
    assert_eq!(
        refusal_message(500, "500 Internal Server Error", "down"),
        "OpenAI API error (500 Internal Server Error): down"
    );
}

#[test]
fn blank_texts() {
    assert!(is_blank(""));
    assert!(is_blank(" \t\n\u{a0}"));
    assert!(!is_blank(" x "));
}
