//! The decisions of rendering MML to a WAV file with a SoundFont: the
//! compile and SoundFont stages before synthesis, the WAV header, and the
//! result reported after synthesis and encoding.

use vstd::prelude::*;
use rustysynth::SoundFont;

use crate::compile::{
    compile_source, compiler_known_to_return, compiler_returns, error_marker, lemma_compile_outcome,
    oversized, result_of_verdict, sakura_midi, simple_mml, source_verdict, verdict_result, DEBUG_NONE,
};
use crate::result::{PicoResult, PicoView};
use crate::text::{contains_seq, decimal, decimal_string, lemma_absent_first_char, lemma_decimal_digits, occurs_at};

verus! {

/// The sample rate at which MIDI is synthesized.
pub const SAMPLE_RATE: usize = 44100;

#[verifier::external_type_specification]
#[verifier::external_body]
pub struct ExSoundFont(SoundFont);

/// What `rustysynth` makes of `bytes` as a SoundFont: `Some(Ok(()))` when it
/// loads, `Some(Err(message))` when it is refused with that message, `None`
/// when the parser panics (malformed zone or generator indices are used
/// without bounds checks).
pub uninterp spec fn sound_font_parse(bytes: Seq<u8>) -> Option<Result<(), Seq<char>>>;

/// `bytes` begin with the four bytes `RIFF`.
pub open spec fn riff_header(bytes: Seq<u8>) -> bool {
    &&& bytes.len() >= 4
    &&& bytes[0] == 0x52u8
    &&& bytes[1] == 0x49u8
    &&& bytes[2] == 0x46u8
    &&& bytes[3] == 0x46u8
}

/// The SoundFont parser returns on `bytes`: it does on bytes without a RIFF
/// header, and elsewhere exactly when its named outcome exists.
pub open spec fn sound_font_returns(bytes: Seq<u8>) -> bool {
    !riff_header(bytes) || sound_font_parse(bytes) is Some
}

/// The SoundFont in `bytes` loads.
pub open spec fn sound_font_loads(bytes: Seq<u8>) -> bool {
    sound_font_parse(bytes) == Some(Ok::<(), Seq<char>>(()))
}

/// Parses a SoundFont from bytes (`rustysynth::SoundFont::new` reading an
/// in-memory cursor), turning a refusal into its `Display` message.
/// Trusted, from the crate's source: the outcome and the message are a
/// function of the bytes alone; bytes that do not begin with `RIFF` are
/// refused (a read error on fewer than four bytes, `RiffChunkNotFound`
/// otherwise) without further reading; other bytes are admitted only where
/// the parser returns.
#[verifier::external_body]
pub fn load_sound_font(bytes: Vec<u8>) -> (r: Result<SoundFont, String>)
    requires
        sound_font_returns(bytes@),
    ensures
        match r {
            Ok(_) => sound_font_loads(bytes@),
            Err(message) => sound_font_parse(bytes@) == Some(Err::<(), Seq<char>>(message@)),
        },
        !riff_header(bytes@) ==> r is Err,
{
    let mut reader = std::io::Cursor::new(bytes);
    match SoundFont::new(&mut reader) {
        Ok(sound_font) => Ok(sound_font),
        Err(e) => Err(format!("{}", e)),
    }
}

/// Whether `bytes` begin with a RIFF header.
pub fn has_riff_header(bytes: &Vec<u8>) -> (b: bool)
    ensures
        b == riff_header(bytes@),
{
    bytes.len() >= 4 && bytes[0] == 0x52u8 && bytes[1] == 0x49u8 && bytes[2] == 0x46u8
        && bytes[3] == 0x46u8
}

/// The WAV header fields that a render chooses: sample rate, bits per sample
/// and whether the samples are integers (otherwise floats). Always stereo.
#[derive(Clone, Copy, Debug, PartialEq, Eq)]
pub struct WavSpec {
    pub sample_rate: u32,
    pub bits_per_sample: u16,
    pub int_format: bool,
}

/// The header for a requested sample rate and sample width: 8, 16 and 24
/// bits are integer formats; any other width gives 32-bit floats.
pub open spec fn wav_spec_of(sample_rate: usize, sample_bit: usize) -> WavSpec {
    let bits: u16 = if sample_bit == 8 {
        8
    } else if sample_bit == 16 {
        16
    } else if sample_bit == 24 {
        24
    } else {
        32
    };
    WavSpec { sample_rate: sample_rate as u32, bits_per_sample: bits, int_format: bits != 32 }
}

/// The WAV header for a requested sample rate and sample width.
pub fn wav_spec_for(sample_rate: usize, sample_bit: usize) -> (spec: WavSpec)
    ensures
        spec == wav_spec_of(sample_rate, sample_bit),
        spec.sample_rate == sample_rate as u32,
        sample_bit == 8 || sample_bit == 16 || sample_bit == 24 ==> spec.bits_per_sample
            == sample_bit && spec.int_format,
        !(sample_bit == 8 || sample_bit == 16 || sample_bit == 24) ==> spec.bits_per_sample == 32
            && !spec.int_format,
{
    let bits: u16 = if sample_bit == 8 {
        8
    } else if sample_bit == 16 {
        16
    } else if sample_bit == 24 {
        24
    } else {
        32
    };
    WavSpec { sample_rate: sample_rate as u32, bits_per_sample: bits, int_format: bits != 32 }
}

/// The container that a render is written in.
#[derive(Clone, Copy, Debug, PartialEq, Eq)]
pub enum OutFormat {
    /// A WAV file
    Wav,
    /// Ogg/Opus, which is not supported: the render always fails
    Ogg,
}

/// The container named by a format string: `"ogg"`, otherwise WAV.
pub open spec fn format_of(name: Seq<char>) -> OutFormat {
    if name == "ogg"@ {
        OutFormat::Ogg
    } else {
        OutFormat::Wav
    }
}

/// The container named by a format string.
pub fn format_for(name: &str) -> (f: OutFormat)
    ensures
        f == format_of(name@),
        (f == OutFormat::Ogg) <==> name@ == "ogg"@,
{
    if String::from_str(name) == String::from_str("ogg") {
        OutFormat::Ogg
    } else {
        OutFormat::Wav
    }
}

/// What synthesis needs once the MML compiled and the SoundFont loaded.
pub struct WavJob {
    /// The compiled MIDI data
    pub midi: Vec<u8>,
    /// The loaded SoundFont
    pub sound_font: SoundFont,
    /// The log so far
    pub log: String,
    /// The header to write
    pub spec: WavSpec,
    /// The container to write
    pub format: OutFormat,
}

/// Where a render stands before synthesis.
pub enum WavPlan {
    /// The render ended before synthesis with this result
    Finished(PicoResult),
    /// Synthesis is to run on this job
    Render(WavJob),
}

/// The log of a render that reached synthesis.
pub open spec fn job_log() -> Seq<char> {
    "compiled to midi\n"@ + "loaded soundfont\n"@
}

/// The log of a render whose SoundFont failed to load starts so.
pub open spec fn sound_font_failure_prefix() -> Seq<char> {
    "[ERROR] Failded to load SoundFont, "@
}

/// What [`prepare_wav`] plans for these arguments. A failed compile ends the
/// render with the compile's own result; a SoundFont that does not load
/// ends it with its refusal message; otherwise synthesis runs on the MIDI.
pub open spec fn planned(
    plan: WavPlan,
    mml_source: Seq<char>,
    soundfont: Seq<u8>,
    sample_rate: usize,
    sample_bit: usize,
    out_format: Seq<char>,
) -> bool {
    let c = verdict_result(source_verdict(mml_source, DEBUG_NONE));
    match plan {
        WavPlan::Finished(r) => if !c.result {
            r@ == c
        } else {
            &&& sound_font_parse(soundfont) matches Some(Err(message))
            &&& r@ == (PicoView {
                result: false,
                bin: Seq::empty(),
                log: sound_font_failure_prefix() + message,
            })
        },
        WavPlan::Render(job) => {
            &&& c.result
            &&& sound_font_loads(soundfont)
            &&& job.midi@ == c.bin
            &&& job.log@ == job_log()
            &&& job.spec == wav_spec_of(sample_rate, sample_bit)
            &&& job.format == format_of(out_format)
        },
    }
}

/// Compiles the MML and loads the SoundFont, the stages of a render before
/// synthesis. The compiler must return on the source and, when it compiles,
/// the SoundFont parser on the bytes. A render that ends here has failed and
/// says `ERROR` in its log.
pub fn prepare_wav(
    mml_source: &str,
    soundfont: Vec<u8>,
    sample_rate: usize,
    sample_bit: usize,
    out_format: &str,
) -> (plan: WavPlan)
    requires
        compiler_returns(mml_source@, DEBUG_NONE),
        verdict_result(source_verdict(mml_source@, DEBUG_NONE)).result ==> sound_font_returns(
            soundfont@,
        ),
    ensures
        planned(plan, mml_source@, soundfont@, sample_rate, sample_bit, out_format@),
        plan matches WavPlan::Finished(r) ==> !r@.result && contains_seq(r@.log, error_marker()),
        plan matches WavPlan::Render(job) ==> {
            &&& mml_source@.len() > 0
            &&& job.midi@ == sakura_midi(mml_source@, DEBUG_NONE).unwrap()
            &&& sound_font_parse(soundfont@) == Some(Ok::<(), Seq<char>>(()))
            &&& job.spec.sample_rate == sample_rate as u32
            &&& sample_bit == 8 || sample_bit == 16 || sample_bit == 24 ==> job.spec.bits_per_sample
                == sample_bit && job.spec.int_format
            &&& !(sample_bit == 8 || sample_bit == 16 || sample_bit == 24)
                ==> job.spec.bits_per_sample == 32 && !job.spec.int_format
            &&& (job.format == OutFormat::Ogg) <==> out_format@ == "ogg"@
        },
{
    proof {
        lemma_compile_outcome(mml_source@, DEBUG_NONE);
    }
    let compiled = result_of_verdict(compile_source(mml_source, DEBUG_NONE));
    if !compiled.succeeded() {
        return WavPlan::Finished(compiled);
    }
    let mut log = String::from_str("compiled to midi\n");
    match load_sound_font(soundfont) {
        Err(text) => {
            let mut message = String::from_str("[ERROR] Failded to load SoundFont, ");
            message.append(text.as_str());
            proof {
                lemma_prefix_marks_error(text@);
            }
            WavPlan::Finished(PicoResult::from_parts(false, Vec::new(), message))
        },
        Ok(sound_font) => {
            log.append("loaded soundfont\n");
            let midi = compiled.get_bin();
            WavPlan::Render(
                WavJob {
                    midi,
                    sound_font,
                    log,
                    spec: wav_spec_for(sample_rate, sample_bit),
                    format: format_for(out_format),
                },
            )
        },
    }
}

/// [`prepare_wav`] where both parsers are known to return: the MML is simple
/// or over the size limit, and the SoundFont bytes have no RIFF header;
/// `None` elsewhere.
pub fn try_prepare_wav(
    mml_source: &str,
    soundfont: Vec<u8>,
    sample_rate: usize,
    sample_bit: usize,
    out_format: &str,
) -> (r: Option<WavPlan>)
    ensures
        r is Some <==> ((simple_mml(mml_source@) || oversized(mml_source@)) && !riff_header(
            soundfont@,
        )),
        r matches Some(plan) ==> planned(
            plan,
            mml_source@,
            soundfont@,
            sample_rate,
            sample_bit,
            out_format@,
        ),
{
    if compiler_known_to_return(mml_source) && !has_riff_header(&soundfont) {
        Some(prepare_wav(mml_source, soundfont, sample_rate, sample_bit, out_format))
    } else {
        None
    }
}

/// A failure log that starts with the SoundFont prefix says `ERROR`.
proof fn lemma_prefix_marks_error(text: Seq<char>)
    ensures
        contains_seq(sound_font_failure_prefix() + text, error_marker()),
{
    reveal_strlit("[ERROR] Failded to load SoundFont, ");
    let s = sound_font_failure_prefix() + text;
    assert(s.subrange(1, 6) =~= error_marker());
    assert(occurs_at(s, error_marker(), 1));
}

/// What synthesis and encoding came to.
pub enum RenderOutcome {
    /// WAV encoding produced these bytes
    Encoded(Vec<u8>),
    /// WAV encoding failed with this message
    EncodeFailed(String),
    /// The Ogg path resampled the samples and converted them to 16 bits,
    /// giving buffers of these lengths
    Resampled { resampled_len: usize, converted_len: usize },
}

/// A [`RenderOutcome`] as mathematical values.
pub enum OutcomeView {
    Encoded(Seq<u8>),
    EncodeFailed(Seq<char>),
    Resampled(nat, nat),
}

impl View for RenderOutcome {
    type V = OutcomeView;

    open spec fn view(&self) -> OutcomeView {
        match self {
            RenderOutcome::Encoded(b) => OutcomeView::Encoded(b@),
            RenderOutcome::EncodeFailed(m) => OutcomeView::EncodeFailed(m@),
            RenderOutcome::Resampled { resampled_len, converted_len } => OutcomeView::Resampled(
                *resampled_len as nat,
                *converted_len as nat,
            ),
        }
    }
}

/// The log of a render after synthesis of `sample_count` frames.
pub open spec fn rendered_log(log: Seq<char>, sample_count: nat) -> Seq<char> {
    log + "loaded midi file\n"@ + "samples.length="@ + decimal(sample_count) + "\n"@
}

/// The result that a render reports after synthesis.
pub open spec fn finished_result(log: Seq<char>, sample_count: nat, outcome: OutcomeView) -> PicoView {
    match outcome {
        OutcomeView::Encoded(bytes) => PicoView {
            result: true,
            bin: bytes,
            log: rendered_log(log, sample_count),
        },
        OutcomeView::EncodeFailed(message) => PicoView {
            result: false,
            bin: Seq::empty(),
            log: "[ERROR] write wav: "@ + message,
        },
        OutcomeView::Resampled(resampled, converted) => PicoView {
            result: false,
            bin: Seq::empty(),
            log: if resampled == 0 {
                "[ERROR] Failed to resample"@
            } else if converted == 0 {
                "[ERROR] Failed to convert samples f32 to i16"@
            } else {
                "[ERROR] ogg-orpus: Not supported"@
            },
        },
    }
}

/// The outcome answers the container asked for: WAV encoding for WAV, the
/// resampling path for Ogg.
pub open spec fn outcome_fits(format: OutFormat, outcome: OutcomeView) -> bool {
    (format == OutFormat::Ogg) == (outcome is Resampled)
}

/// The result of a render, given the log it reached synthesis with, the
/// number of frames synthesized, the container asked for and what encoding
/// came to. An Ogg render never succeeds.
pub fn finish_wav(log: String, sample_count: usize, format: OutFormat, outcome: RenderOutcome) -> (r: PicoResult)
    requires
        outcome_fits(format, outcome@),
    ensures
        r@ == finished_result(log@, sample_count as nat, outcome@),
        format == OutFormat::Ogg ==> !r@.result,
        outcome@ matches OutcomeView::Encoded(bytes) ==> r@.result && r@.bin == bytes
            && r@.log.subrange(0, log@.len() as int) == log@,
        !(outcome@ is Encoded) ==> !r@.result && r@.bin.len() == 0,
        outcome@ matches OutcomeView::EncodeFailed(message) ==> r@.log == "[ERROR] write wav: "@
            + message,
{
    match outcome {
        RenderOutcome::Encoded(bytes) => {
            let mut full = log;
            full.append("loaded midi file\n");
            full.append("samples.length=");
            let count = decimal_string(sample_count);
            full.append(count.as_str());
            full.append("\n");
            PicoResult::from_parts(true, bytes, full)
        },
        RenderOutcome::EncodeFailed(message) => {
            let mut full = String::from_str("[ERROR] write wav: ");
            full.append(message.as_str());
            PicoResult::from_parts(false, Vec::new(), full)
        },
        RenderOutcome::Resampled { resampled_len, converted_len } => {
            let message = if resampled_len == 0 {
                String::from_str("[ERROR] Failed to resample")
            } else if converted_len == 0 {
                String::from_str("[ERROR] Failed to convert samples f32 to i16")
            } else {
                String::from_str("[ERROR] ogg-orpus: Not supported")
            };
            PicoResult::from_parts(false, Vec::new(), message)
        },
    }
}

/// Ogg output never succeeds, and WAV output succeeds exactly when encoding
/// does; only a successful render carries bytes.
pub proof fn lemma_render_outcome(log: Seq<char>, sample_count: nat, outcome: OutcomeView)
    ensures
        ({
            let r = finished_result(log, sample_count, outcome);
            &&& outcome is Resampled ==> !r.result
            &&& r.result <==> outcome is Encoded
            &&& !r.result ==> r.bin.len() == 0
        }),
{
}

/// `text` says `ERROR` at its second character.
proof fn lemma_error_at_one(text: Seq<char>)
    requires
        text.len() >= 6,
        text.subrange(1, 6) == error_marker(),
    ensures
        contains_seq(text, error_marker()),
{
    assert(occurs_at(text, error_marker(), 1));
}

/// After synthesis, a render succeeds exactly when its log does not say
/// `ERROR`, and a failed one carries no bytes. (With the failures of
/// [`prepare_wav`], which all say `ERROR`, this holds of every render.)
pub proof fn lemma_render_log_marks_outcome(sample_count: nat, outcome: OutcomeView)
    ensures
        ({
            let r = finished_result(job_log(), sample_count, outcome);
            &&& r.result <==> !contains_seq(r.log, error_marker())
            &&& !r.result ==> r.bin.len() == 0
        }),
{
    let r = finished_result(job_log(), sample_count, outcome);
    match outcome {
        OutcomeView::Encoded(_) => {
            reveal_strlit("compiled to midi\n");
            reveal_strlit("loaded soundfont\n");
            reveal_strlit("loaded midi file\n");
            reveal_strlit("samples.length=");
            reveal_strlit("\n");
            lemma_decimal_digits(sample_count);
            let d = decimal(sample_count);
            let head = "compiled to midi\n"@ + "loaded soundfont\n"@ + "loaded midi file\n"@
                + "samples.length="@;
            assert forall|i: int| 0 <= i < head.len() implies #[trigger] head[i] != 'E' by {}
            let log = rendered_log(job_log(), sample_count);
            assert(log =~= head + d + "\n"@);
            assert forall|i: int| 0 <= i < log.len() implies #[trigger] log[i] != error_marker()[0] by {
                if i < head.len() {
                    assert(log[i] == head[i]);
                } else if i < head.len() + d.len() {
                    assert(log[i] == d[i - head.len()]);
                } else {
                    assert(log[i] == "\n"@[i - head.len() - d.len()]);
                }
            }
            lemma_absent_first_char(log, error_marker());
        },
        OutcomeView::EncodeFailed(message) => {
            reveal_strlit("[ERROR] write wav: ");
            let t = "[ERROR] write wav: "@ + message;
            assert(t.subrange(1, 6) =~= error_marker());
            lemma_error_at_one(t);
        },
        OutcomeView::Resampled(resampled, converted) => {
            reveal_strlit("[ERROR] Failed to resample");
            reveal_strlit("[ERROR] Failed to convert samples f32 to i16");
            reveal_strlit("[ERROR] ogg-orpus: Not supported");
            if resampled == 0 {
                assert("[ERROR] Failed to resample"@.subrange(1, 6) =~= error_marker());
                lemma_error_at_one("[ERROR] Failed to resample"@);
            } else if converted == 0 {
                assert("[ERROR] Failed to convert samples f32 to i16"@.subrange(1, 6) =~= error_marker());
                lemma_error_at_one("[ERROR] Failed to convert samples f32 to i16"@);
            } else {
                assert("[ERROR] ogg-orpus: Not supported"@.subrange(1, 6) =~= error_marker());
                lemma_error_at_one("[ERROR] ogg-orpus: Not supported"@);
            }
        },
    }
}

/// A render asked for Ogg never succeeds: it stops before synthesis with a
/// failure, or it reaches synthesis with the Ogg container, and every
/// outcome that answers that container reports a failure without bytes.
pub proof fn lemma_ogg_request_fails(
    plan: WavPlan,
    mml_source: Seq<char>,
    soundfont: Seq<u8>,
    sample_rate: usize,
    sample_bit: usize,
    sample_count: nat,
    outcome: OutcomeView,
)
    requires
        planned(plan, mml_source, soundfont, sample_rate, sample_bit, "ogg"@),
    ensures
        match plan {
            WavPlan::Finished(r) => !r@.result,
            WavPlan::Render(job) => job.format == OutFormat::Ogg && (outcome_fits(job.format, outcome)
                ==> !finished_result(job.log@, sample_count, outcome).result && finished_result(
                job.log@,
                sample_count,
                outcome,
            ).bin.len() == 0),
        },
{
    lemma_compile_outcome(mml_source, DEBUG_NONE);
}

/// The requested sample rate changes nothing before synthesis but the
/// header's rate: two renders of the same MML, SoundFont, sample width and
/// container at different rates stop with the same result, or both reach
/// synthesis with the same MIDI, log, container and sample format. (After
/// synthesis the result depends on the frame count and the encoding
/// outcome alone, see [`finished_result`].)
pub proof fn lemma_plan_ignores_sample_rate(
    p1: WavPlan,
    p2: WavPlan,
    mml_source: Seq<char>,
    soundfont: Seq<u8>,
    rate1: usize,
    rate2: usize,
    sample_bit: usize,
    out_format: Seq<char>,
)
    requires
        planned(p1, mml_source, soundfont, rate1, sample_bit, out_format),
        planned(p2, mml_source, soundfont, rate2, sample_bit, out_format),
    ensures
        match (p1, p2) {
            (WavPlan::Finished(r1), WavPlan::Finished(r2)) => r1@ == r2@,
            (WavPlan::Render(j1), WavPlan::Render(j2)) => {
                &&& j1.midi@ == j2.midi@
                &&& j1.log@ == j2.log@
                &&& j1.format == j2.format
                &&& j1.spec.bits_per_sample == j2.spec.bits_per_sample
                &&& j1.spec.int_format == j2.spec.int_format
                &&& j1.spec.sample_rate == rate1 as u32
                &&& j2.spec.sample_rate == rate2 as u32
            },
            _ => false,
        },
{
}

/// The header keeps the requested rate (as a `u32`); 8, 16 and 24 bits are
/// kept as integer formats, every other width becomes 32-bit float.
pub proof fn lemma_wav_spec_widths(sample_rate: usize, sample_bit: usize)
    ensures
        wav_spec_of(sample_rate, sample_bit).sample_rate == sample_rate as u32,
        sample_bit == 8 || sample_bit == 16 || sample_bit == 24 ==> wav_spec_of(
            sample_rate,
            sample_bit,
        ).bits_per_sample == sample_bit && wav_spec_of(sample_rate, sample_bit).int_format,
        !(sample_bit == 8 || sample_bit == 16 || sample_bit == 24) ==> wav_spec_of(
            sample_rate,
            sample_bit,
        ).bits_per_sample == 32 && !wav_spec_of(sample_rate, sample_bit).int_format,
{
}

/// A successful encoding is reported as it came: the result succeeds and
/// carries exactly the encoded bytes, whatever their length, after the log
/// it reached synthesis with.
pub proof fn lemma_encoded_bytes_kept(log: Seq<char>, sample_count: nat, bytes: Seq<u8>)
    ensures
        finished_result(log, sample_count, OutcomeView::Encoded(bytes)).result,
        finished_result(log, sample_count, OutcomeView::Encoded(bytes)).bin == bytes,
        finished_result(log, sample_count, OutcomeView::Encoded(bytes)).log.subrange(
            0,
            log.len() as int,
        ) == log,
{
    let r = finished_result(log, sample_count, OutcomeView::Encoded(bytes));
    assert(r.log.subrange(0, log.len() as int) =~= log);
}

/// The default render (`make_wav`): 44100 Hz, 32-bit float samples, WAV.
pub proof fn lemma_default_render_format()
    ensures
        wav_spec_of(SAMPLE_RATE, 32) == (WavSpec {
            sample_rate: 44100,
            bits_per_sample: 32,
            int_format: false,
        }),
        format_of("wav"@) == OutFormat::Wav,
{
    reveal_strlit("wav");
    reveal_strlit("ogg");
    assert("wav"@[0] != "ogg"@[0]);
}

} // verus!
