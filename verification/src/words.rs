//! Filler words in a transcript: how a word is normalized, when it counts
//! as a filler, and which words of a transcript do.

use vstd::prelude::*;
use vstd::utf8::encode_utf8;
use crate::text::{
    chars_of, contains, contains_text, push_char, push_decimal, starts_with, starts_with_text,
    decimal,
};

verus! {

/// What `str::to_lowercase` makes of a text.
pub uninterp spec fn lowercase_of(s: Seq<char>) -> Seq<char>;

/// Whether `char::is_alphanumeric` holds of a character.
pub uninterp spec fn alphanumeric(c: char) -> bool;

/// Whether `char::is_whitespace` holds of a character.
pub uninterp spec fn whitespace(c: char) -> bool;

/// The lower-case form of `s`.
///
/// Trusted: calls `str::to_lowercase`, whose result is a function of the
/// text alone; the contract gives that result a name and says no more.
#[verifier::external_body]
pub(crate) fn lowercase(s: &str) -> (r: String)
    ensures
        r@ == lowercase_of(s@),
{
    s.to_lowercase()
}

/// Whether `c` is a letter or a number.
///
/// Trusted: calls `char::is_alphanumeric`, whose result is a function of the
/// character alone; the contract gives that result a name and says no more.
#[verifier::external_body]
fn is_alphanumeric(c: char) -> (r: bool)
    ensures
        r == alphanumeric(c),
{
    c.is_alphanumeric()
}

/// Whether `c` is white space.
///
/// Trusted: calls `char::is_whitespace`, whose result is a function of the
/// character alone; the contract gives that result a name and says no more.
#[verifier::external_body]
pub(crate) fn is_whitespace(c: char) -> (r: bool)
    ensures
        r == whitespace(c),
{
    c.is_whitespace()
}

/// A character is kept by normalization.
pub open spec fn kept() -> spec_fn(char) -> bool {
    |c: char| alphanumeric(c)
}

/// A word as it is compared: in lower case, letters and numbers only.
pub open spec fn normalized(word: Seq<char>) -> Seq<char> {
    lowercase_of(word).filter(kept())
}

/// Keeps of `chars` the letters and numbers, in order.
pub fn keep_alphanumeric(chars: &Vec<char>) -> (out: String)
    ensures
        out@ == chars@.filter(kept()),
{
    let mut out: String = String::new();
    let mut i: usize = 0;
    proof {
        reveal(Seq::filter);
        assert(chars@.take(0) =~= Seq::<char>::empty());
    }
    while i < chars.len()
        invariant
            i <= chars.len(),
            out@ == chars@.take(i as int).filter(kept()),
        decreases chars.len() - i,
    {
        proof {
            reveal(Seq::filter);
            assert(chars@.take(i + 1).drop_last() =~= chars@.take(i as int));
        }
        if is_alphanumeric(chars[i]) {
            push_char(&mut out, chars[i]);
        }
        i += 1;
    }
    assert(chars@.take(i as int) =~= chars@);
    out
}

/// Normalizes a word for comparison: lower case, punctuation removed.
pub fn normalize_word(word: &str) -> (out: String)
    ensures
        out@ == normalized(word@),
{
    let lower = lowercase(word);
    let chars = chars_of(lower.as_str());
    keep_alphanumeric(&chars)
}

/// How many bytes a text takes, as `str::len` counts them.
pub open spec fn byte_length(s: Seq<char>) -> usize {
    encode_utf8(s).len() as usize
}

/// Whether a normalized word counts as the filler `filler`: it is the
/// filler; or the filler is short, of at most three bytes, and the word
/// begins with it; or the filler is longer and stands somewhere in the word.
pub open spec fn filler_match(word: Seq<char>, filler: Seq<char>) -> bool {
    ||| word == filler
    ||| byte_length(filler) <= 3 && starts_with_text(word, filler)
    ||| byte_length(filler) > 3 && contains_text(word, filler)
}

/// Whether two texts are the same.
pub fn same_text(a: &str, b: &str) -> (r: bool)
    ensures
        r == (a@ == b@),
{
    let x = chars_of(a);
    let y = chars_of(b);
    if x.len() != y.len() {
        return false;
    }
    let mut k: usize = 0;
    while k < x.len()
        invariant
            k <= x.len(),
            x.len() == y.len(),
            x@ == a@,
            y@ == b@,
            forall|j: int| 0 <= j < k ==> x@[j] == y@[j],
        decreases x.len() - k,
    {
        if x[k] != y[k] {
            assert(x@[k as int] != y@[k as int]);
            return false;
        }
        k += 1;
    }
    assert(x@ =~= y@);
    true
}

/// Checks whether a normalized word matches a filler word.
pub fn is_filler_word(normalized_word: &str, filler: &str) -> (r: bool)
    ensures
        r == filler_match(normalized_word@, filler@),
{
    if same_text(normalized_word, filler) {
        return true;
    }
    if filler.len() <= 3 {
        starts_with(normalized_word, filler)
    } else {
        contains(normalized_word, filler)
    }
}

/// The words that count as fillers.
pub open spec fn filler_list() -> Seq<Seq<char>> {
    seq![
        "um"@,
        "umm"@,
        "uh"@,
        "uhh"@,
        "uhm"@,
        "eh"@,
        "ah"@,
        "like"@,
        "you know"@,
        "so"@,
        "well"@,
        "actually"@,
        "basically"@,
        "literally"@,
        "right"@,
    ]
}

/// Whether a normalized word counts as one of the fillers.
pub open spec fn is_filler(word: Seq<char>) -> bool {
    exists|k: int| 0 <= k < filler_list().len() && filler_match(word, #[trigger] filler_list()[k])
}

/// The words that count as fillers.
pub fn filler_words() -> (list: Vec<&'static str>)
    ensures
        list@.len() == filler_list().len(),
        forall|k: int| 0 <= k < list@.len() ==> (#[trigger] list@[k])@ == filler_list()[k],
{
    let mut list: Vec<&'static str> = Vec::new();
    list.push("um");
    list.push("umm");
    list.push("uh");
    list.push("uhh");
    list.push("uhm");
    list.push("eh");
    list.push("ah");
    list.push("like");
    list.push("you know");
    list.push("so");
    list.push("well");
    list.push("actually");
    list.push("basically");
    list.push("literally");
    list.push("right");
    list
}

/// Whether a normalized word counts as one of the fillers.
pub fn matches_any_filler(normalized_word: &str) -> (r: bool)
    ensures
        r == is_filler(normalized_word@),
{
    let list = filler_words();
    let mut k: usize = 0;
    while k < list.len()
        invariant
            k <= list.len(),
            list@.len() == filler_list().len(),
            forall|j: int| 0 <= j < list@.len() ==> (#[trigger] list@[j])@ == filler_list()[j],
            forall|j: int|
                0 <= j < k ==> !filler_match(normalized_word@, #[trigger] filler_list()[j]),
        decreases list.len() - k,
    {
        if is_filler_word(normalized_word, list[k]) {
            assert(filler_match(normalized_word@, filler_list()[k as int]));
            return true;
        }
        k += 1;
    }
    false
}

/// A word of a transcript with the time at which it is spoken, in
/// microseconds.
#[derive(Clone, Debug, PartialEq, Eq)]
pub struct WhisperWord {
    pub word: String,
    pub start: u64,
    pub end: u64,
}

/// A segment of a transcript; it may come with its words.
#[derive(Clone, Debug, PartialEq, Eq)]
pub struct WhisperSegment {
    pub words: Option<Vec<WhisperWord>>,
}

/// A transcript: it may list its words directly, or segment by segment.
#[derive(Clone, Debug, PartialEq, Eq)]
pub struct WhisperResponse {
    pub words: Option<Vec<WhisperWord>>,
    pub segments: Option<Vec<WhisperSegment>>,
}

/// A filler word that was found, with the time at which it is spoken.
#[derive(Clone, Debug, PartialEq, Eq)]
pub struct FillerWord {
    pub word: String,
    pub start_time: u64,
    pub end_time: u64,
    pub confidence: Option<u64>,
}

/// A word of a transcript that counts as a filler.
pub open spec fn filler_entry() -> spec_fn(WhisperWord) -> bool {
    |w: WhisperWord| is_filler(normalized(w.word@))
}

/// What is reported of a word that was found to be a filler.
pub open spec fn as_filler(w: WhisperWord) -> FillerWord {
    FillerWord { word: w.word, start_time: w.start, end_time: w.end, confidence: None }
}

/// The fillers among `words`, in order.
pub open spec fn fillers_among(words: Seq<WhisperWord>) -> Seq<FillerWord> {
    words.filter(filler_entry()).map_values(|w: WhisperWord| as_filler(w))
}

/// The words of all segments that come with words, in order.
pub open spec fn segment_words(segments: Seq<WhisperSegment>) -> Seq<WhisperWord>
    decreases segments.len(),
{
    if segments.len() == 0 {
        Seq::<WhisperWord>::empty()
    } else {
        segment_words(segments.drop_last()) + match segments.last().words {
            Some(words) => words@,
            None => Seq::<WhisperWord>::empty(),
        }
    }
}

/// The fillers of a transcript: those among its directly listed words where
/// it lists any, else those among the words of its segments.
pub open spec fn transcript_fillers(transcript: WhisperResponse) -> Seq<FillerWord> {
    match transcript.words {
        Some(words) => fillers_among(words@),
        None => match transcript.segments {
            Some(segments) => fillers_among(segment_words(segments@)),
            None => Seq::<FillerWord>::empty(),
        },
    }
}

proof fn lemma_fillers_among_push(words: Seq<WhisperWord>, w: WhisperWord)
    ensures
        fillers_among(words.push(w)) == if filler_entry()(w) {
            fillers_among(words).push(as_filler(w))
        } else {
            fillers_among(words)
        },
{
    reveal(Seq::filter);
    assert(words.push(w).drop_last() =~= words);
    if filler_entry()(w) {
        assert(fillers_among(words.push(w)) =~= fillers_among(words).push(as_filler(w)));
    }
}

proof fn lemma_fillers_among_add(a: Seq<WhisperWord>, b: Seq<WhisperWord>)
    ensures
        fillers_among(a + b) == fillers_among(a) + fillers_among(b),
    decreases b.len(),
{
    if b.len() == 0 {
        reveal(Seq::filter);
        assert(a + b =~= a);
        assert(fillers_among(b) =~= Seq::<FillerWord>::empty());
        assert(fillers_among(a) + fillers_among(b) =~= fillers_among(a));
    } else {
        lemma_fillers_among_add(a, b.drop_last());
        assert(a + b =~= (a + b.drop_last()).push(b.last()));
        assert(b =~= b.drop_last().push(b.last()));
        lemma_fillers_among_push(a + b.drop_last(), b.last());
        lemma_fillers_among_push(b.drop_last(), b.last());
        if filler_entry()(b.last()) {
            assert(fillers_among(a + b) =~= fillers_among(a) + fillers_among(b));
        }
    }
}

/// Appends to `found` the fillers among `words`.
pub fn collect_fillers(found: &mut Vec<FillerWord>, words: &Vec<WhisperWord>)
    ensures
        final(found)@ == old(found)@ + fillers_among(words@),
{
    let mut i: usize = 0;
    proof {
        reveal(Seq::filter);
        assert(words@.take(0) =~= Seq::<WhisperWord>::empty());
        assert(found@ =~= old(found)@ + fillers_among(words@.take(0)));
    }
    while i < words.len()
        invariant
            i <= words.len(),
            found@ == old(found)@ + fillers_among(words@.take(i as int)),
        decreases words.len() - i,
    {
        let normalized = normalize_word(words[i].word.as_str());
        proof {
            assert(words@.take(i + 1) =~= words@.take(i as int).push(words@[i as int]));
            lemma_fillers_among_push(words@.take(i as int), words@[i as int]);
        }
        if matches_any_filler(normalized.as_str()) {
            found.push(
                FillerWord {
                    word: words[i].word.clone(),
                    start_time: words[i].start,
                    end_time: words[i].end,
                    confidence: None,
                },
            );
            assert(found@ =~= old(found)@ + fillers_among(words@.take(i + 1)));
        }
        i += 1;
    }
    assert(words@.take(i as int) =~= words@);
}

/// Finds the filler words of a transcript.
pub fn parse_filler_words_from_transcript(transcript: &WhisperResponse) -> (found: Vec<FillerWord>)
    ensures
        found@ == transcript_fillers(*transcript),
{
    let mut found: Vec<FillerWord> = Vec::new();
    match &transcript.words {
        Some(words) => {
            collect_fillers(&mut found, words);
            assert(found@ =~= transcript_fillers(*transcript));
        },
        None => match &transcript.segments {
            Some(segments) => {
                let mut i: usize = 0;
                proof {
                    reveal(Seq::filter);
                    assert(segments@.take(0) =~= Seq::<WhisperSegment>::empty());
                    assert(found@ =~= fillers_among(segment_words(segments@.take(0))));
                }
                while i < segments.len()
                    invariant
                        i <= segments.len(),
                        found@ == fillers_among(segment_words(segments@.take(i as int))),
                    decreases segments.len() - i,
                {
                    proof {
                        assert(segments@.take(i + 1).drop_last() =~= segments@.take(i as int));
                        let before = segment_words(segments@.take(i as int));
                        match segments@[i as int].words {
                            Some(words) => {
                                lemma_fillers_among_add(before, words@);
                            },
                            None => {
                                assert(before + Seq::<WhisperWord>::empty() =~= before);
                            },
                        }
                    }
                    match &segments[i].words {
                        Some(words) => {
                            collect_fillers(&mut found, words);
                        },
                        None => {},
                    }
                    i += 1;
                }
                assert(segments@.take(i as int) =~= segments@);
            },
            None => {
                proof {
                    reveal(Seq::filter);
                }
            },
        },
    }
    found
}

/// A text is blank: it holds nothing but white space.
pub open spec fn blank(s: Seq<char>) -> bool {
    forall|i: int| 0 <= i < s.len() ==> whitespace(#[trigger] s[i])
}

/// Whether a text holds nothing but white space.
pub fn is_blank(s: &str) -> (r: bool)
    ensures
        r == blank(s@),
{
    let chars = chars_of(s);
    let mut i: usize = 0;
    while i < chars.len()
        invariant
            i <= chars.len(),
            chars@ == s@,
            forall|k: int| 0 <= k < i ==> whitespace(#[trigger] chars@[k]),
        decreases chars.len() - i,
    {
        if !is_whitespace(chars[i]) {
            return false;
        }
        i += 1;
    }
    true
}

/// Why an API key is turned down, if it is: it is blank, or it does not
/// begin with `sk-`.
pub open spec fn key_problem(api_key: Seq<char>) -> Option<Seq<char>> {
    if blank(api_key) {
        Some("API key is required"@)
    } else if !starts_with_text(api_key, "sk-"@) {
        Some("Invalid API key format. OpenAI API keys start with 'sk-'"@)
    } else {
        None
    }
}

/// Checks the form of an API key before anything is sent.
pub fn check_api_key(api_key: &str) -> (r: Result<(), String>)
    ensures
        match r {
            Ok(_) => key_problem(api_key@) is None,
            Err(message) => key_problem(api_key@) == Some(message@),
        },
{
    if is_blank(api_key) {
        return Err("API key is required".to_owned());
    }
    if !starts_with(api_key, "sk-") {
        return Err("Invalid API key format. OpenAI API keys start with 'sk-'".to_owned());
    }
    Ok(())
}

/// A segment that comes with its words.
pub open spec fn with_words() -> spec_fn(WhisperSegment) -> bool {
    |s: WhisperSegment| s.words is Some
}

/// Whether the transcript says when its words are spoken: it lists its
/// words, or one of its segments does.
pub open spec fn timed(transcript: WhisperResponse) -> bool {
    transcript.words is Some || (transcript.segments matches Some(segments)
        && crate::timeline::first_where(segments@, with_words()) is Some)
}

/// Whether the transcript says when its words are spoken.
pub fn has_word_timestamps(transcript: &WhisperResponse) -> (r: bool)
    ensures
        r == timed(*transcript),
{
    if transcript.words.is_some() {
        return true;
    }
    match &transcript.segments {
        Some(segments) => {
            let mut i: usize = 0;
            while i < segments.len()
                invariant
                    i <= segments.len(),
                    transcript.words is None,
                    transcript.segments == Some(*segments),
                    crate::timeline::first_where(segments@, with_words())
                        == crate::timeline::first_from(segments@, with_words(), i as int),
                decreases segments.len() - i,
            {
                if segments[i].words.is_some() {
                    return true;
                }
                i += 1;
            }
            false
        },
        None => false,
    }
}

/// How `true` and `false` are written.
pub open spec fn bool_text(b: bool) -> Seq<char> {
    if b {
        "true"@
    } else {
        "false"@
    }
}

/// What is told of a transcript that does not say when its words are
/// spoken.
pub open spec fn untimed_text(transcript: WhisperResponse) -> Seq<char> {
    "Whisper API did not return word-level timestamps. Response structure: has_words="@
        + bool_text(transcript.words is Some) + ", has_segments="@ + bool_text(
        transcript.segments is Some,
    ) + ", segments_count="@ + decimal(
        match transcript.segments {
            Some(segments) => segments@.len(),
            None => 0,
        },
    ) + ". Please check terminal output for detailed response structure."@
}

fn push_bool(out: &mut String, b: bool)
    ensures
        final(out)@ == old(out)@ + bool_text(b),
{
    if b {
        out.append("true");
    } else {
        out.append("false");
    }
}

/// Finds the filler words of a transcript, or says that the transcript does
/// not tell when its words are spoken.
pub fn detect_filler_words(transcript: &WhisperResponse) -> (r: Result<Vec<FillerWord>, String>)
    ensures
        match r {
            Ok(found) => timed(*transcript) && found@ == transcript_fillers(*transcript),
            Err(message) => !timed(*transcript) && message@ == untimed_text(*transcript),
        },
{
    if has_word_timestamps(transcript) {
        return Ok(parse_filler_words_from_transcript(transcript));
    }
    let mut message: String =
        "Whisper API did not return word-level timestamps. Response structure: has_words=".to_owned();
    push_bool(&mut message, transcript.words.is_some());
    message.append(", has_segments=");
    push_bool(&mut message, transcript.segments.is_some());
    message.append(", segments_count=");
    let count: usize = match &transcript.segments {
        Some(segments) => segments.len(),
        None => 0,
    };
    push_decimal(&mut message, count as u128);
    message.append(". Please check terminal output for detailed response structure.");
    Err(message)
}

/// What is told where the transcription service answers with a status
/// that is no success: that the key is not valid, for 401; that too much
/// was asked, for 429; else the status as it is written and what the
/// service said.
pub open spec fn refusal_text(status: u16, status_text: Seq<char>, body: Seq<char>) -> Seq<char> {
    if status == 401 {
        "Invalid OpenAI API key. Please check your API key."@
    } else if status == 429 {
        "OpenAI API rate limit exceeded. Please try again later."@
    } else {
        "OpenAI API error ("@ + status_text + "): "@ + body
    }
}

/// What is told where the transcription service refuses a request.
pub fn refusal_message(status: u16, status_text: &str, body: &str) -> (message: String)
    ensures
        message@ == refusal_text(status, status_text@, body@),
{
    if status == 401 {
        "Invalid OpenAI API key. Please check your API key.".to_owned()
    } else if status == 429 {
        "OpenAI API rate limit exceeded. Please try again later.".to_owned()
    } else {
        let mut message: String = "OpenAI API error (".to_owned();
        message.append(status_text);
        message.append("): ");
        message.append(body);
        message
    }
}

} // verus!
