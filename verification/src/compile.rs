//! MML to MIDI through the Sakura compiler, and the verdict on its output.

use vstd::prelude::*;
use vstd::utf8::encode_utf8;

use crate::result::{PicoResult, PicoView};
use crate::text::{chars_of, contains_seq, occurs_at, str_contains};

verus! {

/// The largest MML source, in bytes, that the Sakura compiler accepts.
pub const MAX_INPUT_BYTES: usize = 3145728;

/// The debug level at which the compiler logs nothing beyond errors.
pub const DEBUG_NONE: u32 = 0;

/// The debug level at which the compiler logs information.
pub const DEBUG_INFO: u32 = 1;

/// The word whose presence in a compile log marks the compile as failed.
pub open spec fn error_marker() -> Seq<char> {
    seq!['E', 'R', 'R', 'O', 'R']
}

/// The MIDI bytes that a fresh Sakura compiler, set to `debug_level`,
/// produces for `source`; `None` when the compile does not return (a user
/// function or string macro that calls itself recurses without bound).
pub uninterp spec fn sakura_midi(source: Seq<char>, debug_level: u32) -> Option<Seq<u8>>;

/// The log that a fresh Sakura compiler, set to `debug_level`, leaves after
/// compiling `source`.
pub uninterp spec fn sakura_log(source: Seq<char>, debug_level: u32) -> Seq<char>;

/// A note letter.
pub open spec fn is_note_letter(c: char) -> bool {
    c == 'a' || c == 'b' || c == 'c' || c == 'd' || c == 'e' || c == 'f' || c == 'g'
}

/// A decimal digit.
pub open spec fn is_digit(c: char) -> bool {
    '0' <= c && c <= '9'
}

/// White space of MML.
pub open spec fn is_mml_space(c: char) -> bool {
    c == ' ' || c == '\t' || c == '\r' || c == '\n'
}

/// The characters of simple MML: notes, rests, lengths (`l`, digits, dots),
/// octaves (`o`, `<`, `>`), velocities (`v`) and white space.
pub open spec fn is_simple_mml_char(c: char) -> bool {
    is_note_letter(c) || c == 'r' || c == 'l' || c == 'o' || c == 'v' || is_digit(c) || c == '.'
        || c == '<' || c == '>' || is_mml_space(c)
}

/// What simple MML asks of position `i`: an allowed character; a digit
/// directly after no white space (so a length reads one run of digits); an
/// `l` not directly followed by `.` (which would start a length option); an
/// `o` or `v` directly followed by a digit (its octave or velocity number);
/// no run of more than four digits.
pub open spec fn simple_mml_at(s: Seq<char>, i: int) -> bool {
    &&& is_simple_mml_char(s[i])
    &&& is_digit(s[i]) ==> i > 0 && !is_mml_space(s[i - 1])
    &&& s[i] == 'l' && i + 1 < s.len() ==> s[i + 1] != '.'
    &&& (s[i] == 'o' || s[i] == 'v') ==> i + 1 < s.len() && is_digit(s[i + 1])
    &&& is_digit(s[i]) && i >= 4 ==> !(is_digit(s[i - 1]) && is_digit(s[i - 2]) && is_digit(
        s[i - 3],
    ) && is_digit(s[i - 4]))
}

/// Simple MML: notes and rests with lengths of at most four digits, default
/// lengths, octaves set by number or shifted, velocities set by number, and
/// white space. It defines no function, macro,
/// loop or variable, and no number in it can overflow.
pub open spec fn simple_mml(source: Seq<char>) -> bool {
    forall|i: int| 0 <= i < source.len() ==> #[trigger] simple_mml_at(source, i)
}

/// `source` is longer, in UTF-8 bytes, than the compiler accepts.
pub open spec fn oversized(source: Seq<char>) -> bool {
    encode_utf8(source).len() > MAX_INPUT_BYTES
}

/// The compiler returns on `source`: it does on simple MML and on sources
/// over its size limit, and elsewhere exactly when its named output exists.
pub open spec fn compiler_returns(source: Seq<char>, debug_level: u32) -> bool {
    simple_mml(source) || oversized(source) || sakura_midi(source, debug_level) is Some
}

/// Compiles `source` with a fresh `sakuramml::SakuraCompiler` at
/// `debug_level` (`SakuraCompiler::new`, `set_debug_level`, `compile`,
/// `get_log`). Trusted, from the crate's source:
/// - the compile returns on every source it is called with here. A source
///   over the 3 MiB limit is refused before anything is read. Simple MML
///   passes the sutoton converter unchanged (its words are not ASCII) and
///   reaches only the note, rest, length, octave and velocity readers and,
///   for a stray digit or dot, the error logger; none of them loops or
///   recurses. Lengths read one run of at most four digits, so `get_int` and
///   `calc_length` cannot overflow; `l` is never followed by `.`, so no
///   length option is read. An `o` or `v` is directly followed by a digit, so
///   its reader takes neither an option, a relative step nor a sub-velocity,
///   and reads its number with `get_int` (a `0o` prefix reads at most four
///   octal digits). Running the tokens saturates times, clamps octaves to
///   0..=10 and velocities to 0..=127, and stops at the event budget; MIDI
///   generation unwraps only on sysex and meta events, which simple MML
///   cannot make. Other sources are admitted only where the compile returns,
///   which is what `sakura_midi` being `Some` means;
/// - the MIDI bytes and the log are the named results of these arguments:
///   a fresh compiler keeps no state and its random numbers come from a fixed
///   seed;
/// - a source over the limit yields no bytes and an `[ERROR]` log line.
#[verifier::external_body]
fn run_sakura(source: &str, debug_level: u32) -> (out: (Vec<u8>, String))
    requires
        compiler_returns(source@, debug_level),
    ensures
        sakura_midi(source@, debug_level) == Some(out.0@),
        out.1@ == sakura_log(source@, debug_level),
        oversized(source@) ==> out.0@.len() == 0 && contains_seq(out.1@, error_marker()),
{
    let mut compiler = sakuramml::SakuraCompiler::new();
    compiler.set_debug_level(debug_level);
    let midi = compiler.compile(source);
    (midi, compiler.get_log())
}

/// How a compile went.
pub enum CompileVerdict {
    /// The source was empty; nothing was compiled
    EmptySource,
    /// The compiler reported an error in its log
    Failed { log: String },
    /// The compiler produced MIDI data
    Compiled { midi: Vec<u8>, log: String },
}

/// A [`CompileVerdict`] as mathematical values.
pub enum VerdictView {
    EmptySource,
    Failed(Seq<char>),
    Compiled(Seq<u8>, Seq<char>),
}

impl View for CompileVerdict {
    type V = VerdictView;

    open spec fn view(&self) -> VerdictView {
        match self {
            CompileVerdict::EmptySource => VerdictView::EmptySource,
            CompileVerdict::Failed { log } => VerdictView::Failed(log@),
            CompileVerdict::Compiled { midi, log } => VerdictView::Compiled(midi@, log@),
        }
    }
}

/// The verdict on compiler output: failed when the log mentions `ERROR`.
pub open spec fn judged(midi: Seq<u8>, log: Seq<char>) -> VerdictView {
    if contains_seq(log, error_marker()) {
        VerdictView::Failed(log)
    } else {
        VerdictView::Compiled(midi, log)
    }
}

/// The verdict on compiling `source` at `debug_level`.
pub open spec fn source_verdict(source: Seq<char>, debug_level: u32) -> VerdictView {
    if source.len() == 0 {
        VerdictView::EmptySource
    } else {
        judged(sakura_midi(source, debug_level).unwrap(), sakura_log(source, debug_level))
    }
}

/// The result that a verdict is reported as.
pub open spec fn verdict_result(v: VerdictView) -> PicoView {
    match v {
        VerdictView::EmptySource => PicoView {
            result: false,
            bin: Seq::empty(),
            log: "[ERROR] MML source is empty"@,
        },
        VerdictView::Failed(log) => PicoView { result: false, bin: Seq::empty(), log },
        VerdictView::Compiled(midi, log) => PicoView { result: true, bin: midi, log },
    }
}

/// The verdict on compiler output `midi` and `log`.
pub fn judge_compile(midi: Vec<u8>, log: String) -> (v: CompileVerdict)
    ensures
        v@ == judged(midi@, log@),
        contains_seq(log@, error_marker()) ==> v@ == VerdictView::Failed(log@),
        !contains_seq(log@, error_marker()) ==> v@ == VerdictView::Compiled(midi@, log@),
{
    let failed = str_contains(log.as_str(), "ERROR");
    proof {
        reveal_strlit("ERROR");
        assert("ERROR"@ =~= error_marker());
    }
    if failed {
        CompileVerdict::Failed { log }
    } else {
        CompileVerdict::Compiled { midi, log }
    }
}

/// Compiles `source` at `debug_level`, unless it is empty. The compiler
/// must return on the source.
pub fn compile_source(source: &str, debug_level: u32) -> (v: CompileVerdict)
    requires
        compiler_returns(source@, debug_level),
    ensures
        v@ == source_verdict(source@, debug_level),
        oversized(source@) ==> v@ is Failed,
{
    if source.is_empty() {
        return CompileVerdict::EmptySource;
    }
    let (midi, log) = run_sakura(source, debug_level);
    judge_compile(midi, log)
}

/// The result that reports a verdict.
pub fn result_of_verdict(v: CompileVerdict) -> (r: PicoResult)
    ensures
        r@ == verdict_result(v@),
        v@ matches VerdictView::Compiled(midi, log) ==> r@.result && r@.bin == midi && r@.log
            == log,
        v@ matches VerdictView::Failed(log) ==> !r@.result && r@.bin.len() == 0 && r@.log == log,
        v@ is EmptySource ==> !r@.result && r@.bin.len() == 0 && r@.log
            == "[ERROR] MML source is empty"@,
{
    match v {
        CompileVerdict::EmptySource => PicoResult::from_parts(
            false,
            Vec::new(),
            String::from_str("[ERROR] MML source is empty"),
        ),
        CompileVerdict::Failed { log } => PicoResult::from_parts(false, Vec::new(), log),
        CompileVerdict::Compiled { midi, log } => PicoResult::from_parts(true, midi, log),
    }
}

/// Compiles MML to MIDI with a fresh compiler, which starts at debug level
/// 0. Fails on an empty source and whenever the compiler's log mentions
/// `ERROR`; the log of the compile is kept either way.
/// The compiler must return on the source.
pub fn compile_to_midi(mml_source: &str) -> (r: PicoResult)
    requires
        compiler_returns(mml_source@, DEBUG_NONE),
    ensures
        r@ == verdict_result(source_verdict(mml_source@, DEBUG_NONE)),
        oversized(mml_source@) ==> !r@.result,
        mml_source@.len() == 0 ==> !r@.result && r@.bin.len() == 0 && r@.log
            == "[ERROR] MML source is empty"@,
        mml_source@.len() > 0 ==> r@.log == sakura_log(mml_source@, DEBUG_NONE) && (r@.result
            <==> !contains_seq(r@.log, error_marker())),
        r@.result ==> r@.bin == sakura_midi(mml_source@, DEBUG_NONE).unwrap(),
        !r@.result ==> r@.bin.len() == 0,
{
    proof {
        lemma_compile_outcome(mml_source@, DEBUG_NONE);
    }
    result_of_verdict(compile_source(mml_source, DEBUG_NONE))
}

fn is_note_letter_exec(c: char) -> (b: bool)
    ensures
        b == is_note_letter(c),
{
    c == 'a' || c == 'b' || c == 'c' || c == 'd' || c == 'e' || c == 'f' || c == 'g'
}

fn is_digit_exec(c: char) -> (b: bool)
    ensures
        b == is_digit(c),
{
    '0' <= c && c <= '9'
}

fn is_mml_space_exec(c: char) -> (b: bool)
    ensures
        b == is_mml_space(c),
{
    c == ' ' || c == '\t' || c == '\r' || c == '\n'
}

fn simple_mml_at_exec(s: &Vec<char>, i: usize) -> (b: bool)
    requires
        i < s@.len(),
    ensures
        b == simple_mml_at(s@, i as int),
{
    let c = s[i];
    let allowed = is_note_letter_exec(c) || c == 'r' || c == 'l' || c == 'o' || c == 'v'
        || is_digit_exec(c) || c == '.' || c == '<' || c == '>' || is_mml_space_exec(c);
    if !allowed {
        return false;
    }
    if is_digit_exec(c) && (i == 0 || is_mml_space_exec(s[i - 1])) {
        return false;
    }
    if c == 'l' && i < s.len() - 1 && s[i + 1] == '.' {
        return false;
    }
    if (c == 'o' || c == 'v') && !(i < s.len() - 1 && is_digit_exec(s[i + 1])) {
        return false;
    }
    if is_digit_exec(c) && i >= 4 && is_digit_exec(s[i - 1]) && is_digit_exec(s[i - 2])
        && is_digit_exec(s[i - 3]) && is_digit_exec(s[i - 4]) {
        return false;
    }
    true
}

/// Whether `source` is simple MML.
pub fn is_simple_mml(source: &str) -> (b: bool)
    ensures
        b == simple_mml(source@),
{
    let chars = chars_of(source);
    let n = chars.len();
    for i in 0..n
        invariant
            n == source@.len(),
            chars@ == source@,
            forall|j: int| 0 <= j < i ==> #[trigger] simple_mml_at(source@, j),
    {
        if !simple_mml_at_exec(&chars, i) {
            return false;
        }
    }
    true
}

/// Whether the compiler is known to return on `source`: it is simple MML or
/// over the size limit.
pub fn compiler_known_to_return(source: &str) -> (b: bool)
    ensures
        b == (simple_mml(source@) || oversized(source@)),
        b ==> compiler_returns(source@, DEBUG_NONE) && compiler_returns(source@, DEBUG_INFO),
{
    source.as_bytes().len() > MAX_INPUT_BYTES || is_simple_mml(source)
}

/// [`compile_to_midi`] where the compiler is known to return (simple MML, or
/// a source over the size limit); `None` elsewhere.
pub fn try_compile_to_midi(mml_source: &str) -> (r: Option<PicoResult>)
    ensures
        r is Some <==> (simple_mml(mml_source@) || oversized(mml_source@)),
        r matches Some(p) ==> p@ == verdict_result(source_verdict(mml_source@, DEBUG_NONE)),
{
    if compiler_known_to_return(mml_source) {
        Some(compile_to_midi(mml_source))
    } else {
        None
    }
}

/// A compile succeeds exactly when the source is not empty and the log holds
/// no `ERROR`; a failed compile carries no bytes and a log that holds `ERROR`.
pub proof fn lemma_compile_outcome(source: Seq<char>, debug_level: u32)
    ensures
        ({
            let r = verdict_result(source_verdict(source, debug_level));
            &&& r.result <==> (source.len() > 0 && !contains_seq(r.log, error_marker()))
            &&& !r.result ==> r.bin.len() == 0 && contains_seq(r.log, error_marker())
            &&& r.result ==> r.bin == sakura_midi(source, debug_level).unwrap()
            &&& source.len() > 0 ==> r.log == sakura_log(source, debug_level)
        }),
{
    reveal_strlit("[ERROR] MML source is empty");
    let empty_log = "[ERROR] MML source is empty"@;
    assert(empty_log.subrange(1, 6) =~= error_marker());
    assert(occurs_at(empty_log, error_marker(), 1));
}

} // verus!
