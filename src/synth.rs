//! Tone synthesis: sample counts, harmonic mixing, 16-bit quantisation and
//! the stereo buffer, plus the note table and asset naming.
//!
//! The sine and decay values themselves are evaluated by the caller; each
//! harmonic arrives as `sin(2 pi k f t) * exp(-3 t)` in millionths.
use vstd::prelude::*;

verus! {

/// Samples per second of every generated asset.
pub const SAMPLE_RATE: u32 = 44100;

/// Channels of every generated asset.
pub const CHANNELS: u16 = 2;

/// Length of every generated tone, in milliseconds.
pub const TONE_DURATION_MS: u32 = 1500;

/// Harmonic values are given in millionths of full scale.
pub const UNIT: i64 = 1_000_000;

/// Denominator of the mixed level: the harmonic weights are 6, 3 and 1
/// tenths, and the headroom amplitude is one fifth, so the level is
/// `(6 h1 + 3 h2 + h3) / MIX_SCALE`.
pub const MIX_SCALE: i64 = 50_000_000;

/// Largest magnitude of a quantised sample.
pub const PCM_MAX: i64 = 32767;

/// Why a tone cannot be synthesised.
#[derive(Debug, Clone, Copy, PartialEq, Eq, Structural)]
pub enum ToneError {
    /// The frequency is not positive.
    NonPositiveFrequency,
    /// The duration is not positive.
    NonPositiveDuration,
}

/// `sample_rate * duration_ms / 1000` rounded to the nearest integer, halves
/// upwards.
pub open spec fn rounded_count(sample_rate: int, duration_ms: int) -> int {
    (sample_rate * duration_ms + 500) / 1000
}

/// Number of sample frames in a tone of `duration_ms` milliseconds.
pub fn sample_count(sample_rate: u32, duration_ms: u32) -> (r: u64)
    ensures
        r == rounded_count(sample_rate as int, duration_ms as int),
{
    assert(sample_rate as u64 * duration_ms as u64 <= 0xffff_fffe_0000_0001) by (nonlinear_arith)
        requires
            sample_rate <= 0xffff_ffff,
            duration_ms <= 0xffff_ffff,
    ;
    (sample_rate as u64 * duration_ms as u64 + 500) / 1000
}

/// Checks a tone's parameters before anything is synthesised. Returns the
/// number of sample frames the tone has.
pub fn plan_tone(frequency_centihz: u32, duration_ms: u32, sample_rate: u32) -> (r: Result<u64, ToneError>)
    ensures
        frequency_centihz == 0 ==> r == Err::<u64, ToneError>(ToneError::NonPositiveFrequency),
        frequency_centihz > 0 && duration_ms == 0 ==> r == Err::<u64, ToneError>(ToneError::NonPositiveDuration),
        frequency_centihz > 0 && duration_ms > 0 ==> r == Ok::<u64, ToneError>(
            rounded_count(sample_rate as int, duration_ms as int) as u64,
        ),
{
    if frequency_centihz == 0 {
        Err(ToneError::NonPositiveFrequency)
    } else if duration_ms == 0 {
        Err(ToneError::NonPositiveDuration)
    } else {
        Ok(sample_count(sample_rate, duration_ms))
    }
}

/// `n / d` rounded to the nearest integer, halves away from zero.
pub open spec fn round_div(n: int, d: int) -> int {
    if n >= 0 {
        (n + d / 2) / d
    } else {
        -((-n + d / 2) / d)
    }
}

/// The weighted sum of the three harmonics.
pub open spec fn mix(h1: int, h2: int, h3: int) -> int {
    6 * h1 + 3 * h2 + h3
}

/// The 16-bit sample for a mixed sum `m`: the level `m / MIX_SCALE` clamped
/// to `[-1, 1]`, scaled by `32767` and rounded.
pub open spec fn quantize(m: int) -> int {
    if m >= MIX_SCALE {
        PCM_MAX as int
    } else if m <= -MIX_SCALE {
        -PCM_MAX
    } else {
        round_div(m * PCM_MAX, MIX_SCALE as int)
    }
}

/// One 16-bit sample from the fundamental, second and third harmonic.
pub fn tone_sample(h1: i32, h2: i32, h3: i32) -> (r: i16)
    ensures
        r == quantize(mix(h1 as int, h2 as int, h3 as int)),
        -PCM_MAX <= r <= PCM_MAX,
{
    let m: i64 = 6 * (h1 as i64) + 3 * (h2 as i64) + (h3 as i64);
    if m >= MIX_SCALE {
        32767
    } else if m <= -MIX_SCALE {
        -32767
    } else if m >= 0 {
        let q: i64 = (m * PCM_MAX + MIX_SCALE / 2) / MIX_SCALE;
        assert(0 <= q <= PCM_MAX) by (nonlinear_arith)
            requires
                0 <= m < 50_000_000,
                q == (m * 32767 + 25_000_000) / 50_000_000,
        ;
        q as i16
    } else {
        let q: i64 = (-m * PCM_MAX + MIX_SCALE / 2) / MIX_SCALE;
        assert(0 <= q <= PCM_MAX) by (nonlinear_arith)
            requires
                0 < -m < 50_000_000,
                q == (-m * 32767 + 25_000_000) / 50_000_000,
        ;
        -(q as i16)
    }
}

/// The stereo buffer: each frame's sample twice, left then right.
pub fn render_tone(harmonics: &Vec<(i32, i32, i32)>) -> (r: Vec<i16>)
    requires
        2 * harmonics@.len() <= usize::MAX,
    ensures
        r@.len() == 2 * harmonics@.len(),
        forall|i: int|
            0 <= i < harmonics@.len() ==> {
                &&& #[trigger] r@[2 * i] == quantize(mix(harmonics@[i].0 as int, harmonics@[i].1 as int, harmonics@[i].2 as int))
                &&& r@[2 * i + 1] == r@[2 * i]
            },
        forall|k: int| 0 <= k < r@.len() ==> -PCM_MAX <= #[trigger] r@[k] <= PCM_MAX,
{
    let mut out: Vec<i16> = Vec::new();
    let mut i: usize = 0;
    while i < harmonics.len()
        invariant
            i <= harmonics.len(),
            2 * harmonics@.len() <= usize::MAX,
            out@.len() == 2 * i,
            forall|j: int|
                0 <= j < i ==> {
                    &&& #[trigger] out@[2 * j] == quantize(mix(harmonics@[j].0 as int, harmonics@[j].1 as int, harmonics@[j].2 as int))
                    &&& out@[2 * j + 1] == out@[2 * j]
                },
            forall|k: int| 0 <= k < out@.len() ==> -PCM_MAX <= #[trigger] out@[k] <= PCM_MAX,
        decreases harmonics.len() - i,
    {
        let (h1, h2, h3) = harmonics[i];
        let s = tone_sample(h1, h2, h3);
        out.push(s);
        out.push(s);
        assert forall|j: int| 0 <= j < i + 1 implies {
            &&& #[trigger] out@[2 * j] == quantize(mix(harmonics@[j].0 as int, harmonics@[j].1 as int, harmonics@[j].2 as int))
            &&& out@[2 * j + 1] == out@[2 * j]
        } by {
            if j == i {
                assert(out@[2 * j] == s);
            }
        }
        i = i + 1;
    }
    out
}

/// The notes of the keyboard, with their frequencies in hundredths of a
/// hertz.
#[derive(Debug)]
pub struct PianoNotes {
    pub notes: Vec<(String, u32)>,
}

/// The notes given a tone asset: two octaves' worth from middle C, with
/// their frequencies in hundredths of a hertz.
pub open spec fn note_table() -> Seq<(Seq<char>, u32)> {
    seq![
        ("C4"@, 26163u32),
        ("C#4"@, 27718u32),
        ("D4"@, 29366u32),
        ("D#4"@, 31113u32),
        ("E4"@, 32963u32),
        ("F4"@, 34923u32),
        ("F#4"@, 36999u32),
        ("G4"@, 39200u32),
        ("G#4"@, 41530u32),
        ("A4"@, 44000u32),
        ("A#4"@, 46616u32),
        ("B4"@, 49388u32),
        ("C5"@, 52325u32),
        ("C#5"@, 55437u32),
    ]
}

/// The note table.
pub fn piano_notes() -> (r: PianoNotes)
    ensures
        r.notes@.len() == note_table().len(),
        forall|i: int| 0 <= i < r.notes@.len() ==> (#[trigger] r.notes@[i]).0@ == note_table()[i].0 && r.notes@[i].1 == note_table()[i].1,
{
    let notes = vec![
        (String::from_str("C4"), 26163u32),
        (String::from_str("C#4"), 27718u32),
        (String::from_str("D4"), 29366u32),
        (String::from_str("D#4"), 31113u32),
        (String::from_str("E4"), 32963u32),
        (String::from_str("F4"), 34923u32),
        (String::from_str("F#4"), 36999u32),
        (String::from_str("G4"), 39200u32),
        (String::from_str("G#4"), 41530u32),
        (String::from_str("A4"), 44000u32),
        (String::from_str("A#4"), 46616u32),
        (String::from_str("B4"), 49388u32),
        (String::from_str("C5"), 52325u32),
        (String::from_str("C#5"), 55437u32),
    ];
    PianoNotes { notes }
}

/// A note name with each sharp sign replaced by the letter `s`, so that it
/// can stand in a file name.
pub open spec fn safe_name(s: Seq<char>) -> Seq<char> {
    Seq::new(s.len(), |i: int| if s[i] == '#' {
        's'
    } else {
        s[i]
    })
}

/// Relies on `str::replace` with a `char` pattern: every `#` becomes `s`,
/// every other character stays.
#[verifier::external_body]
fn replace_sharps(s: &str) -> (r: String)
    ensures
        r@ == safe_name(s@),
{
    s.replace('#', "s")
}

/// Relies on `format!`: the stem followed by `.wav`.
#[verifier::external_body]
fn with_wav_extension(stem: &str) -> (r: String)
    ensures
        r@ == stem@ + ".wav"@,
{
    format!("{}.wav", stem)
}

/// The file name of a note's tone asset.
pub fn asset_file_name(note_name: &str) -> (r: String)
    ensures
        r@ == safe_name(note_name@) + ".wav"@,
{
    let stem = replace_sharps(note_name);
    with_wav_extension(stem.as_str())
}

/// What to do for an asset at startup.
#[derive(Debug, Clone, Copy, PartialEq, Eq, Structural)]
pub enum AssetAction {
    /// The file is there: neither synthesise nor write.
    Skip,
    /// Synthesise, encode and write the file.
    Write,
}

/// The action for an asset whose file does or does not exist.
pub open spec fn planned_action(exists: bool) -> AssetAction {
    if exists {
        AssetAction::Skip
    } else {
        AssetAction::Write
    }
}

/// Chooses what to do for an asset, given whether its file exists.
pub fn plan_asset(exists: bool) -> (r: AssetAction)
    ensures
        r == planned_action(exists),
{
    if exists {
        AssetAction::Skip
    } else {
        AssetAction::Write
    }
}

/// The files after an action on `path` with the encoded `bytes`.
pub open spec fn apply_action(
    files: Map<Seq<char>, Seq<u8>>,
    path: Seq<char>,
    bytes: Seq<u8>,
    action: AssetAction,
) -> Map<Seq<char>, Seq<u8>> {
    match action {
        AssetAction::Skip => files,
        AssetAction::Write => files.insert(path, bytes),
    }
}

/// The files after generating one asset: written only where absent.
pub open spec fn generate_asset(files: Map<Seq<char>, Seq<u8>>, path: Seq<char>, bytes: Seq<u8>) -> Map<
    Seq<char>,
    Seq<u8>,
> {
    apply_action(files, path, bytes, planned_action(files.contains_key(path)))
}

/// Generating an asset a second time changes nothing: the file holds what
/// the first run left, which is the existing file or else the new encoding,
/// and no other file is touched.
pub proof fn lemma_generate_asset_idempotent(files: Map<Seq<char>, Seq<u8>>, path: Seq<char>, bytes: Seq<u8>)
    ensures
        generate_asset(generate_asset(files, path, bytes), path, bytes) == generate_asset(files, path, bytes),
        generate_asset(files, path, bytes).contains_key(path),
        generate_asset(files, path, bytes)[path] == if files.contains_key(path) {
            files[path]
        } else {
            bytes
        },
        forall|p: Seq<char>| p != path ==> generate_asset(files, path, bytes).contains_key(p) == files.contains_key(p),
{
}

} // verus!
