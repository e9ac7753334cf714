//! The command line of the player and of the MML-to-WAV tool: scanning the
//! arguments, and the default file names and SoundFont.

use vstd::prelude::*;

use crate::text::{contains_seq, is_first_occurrence, lemma_first_occurrence_unique, occurs_at, replace_first, replace_first_str};

verus! {

/// The SoundFont used when none is given.
pub const DEFAULT_SOUNDFONT: &'static str = "fonts/TimGM6mb.sf2";

/// Which program reads the command line.
#[derive(Clone, Copy, Debug, PartialEq, Eq, Structural)]
pub enum Program {
    /// The player, which plays MML or, with `-w`, writes WAV
    Picosakura,
    /// The tool that always writes WAV, and has no `-w` option
    Mml2wav,
}

/// The files and settings of a run.
pub struct CliOptions {
    pub input: String,
    pub soundfont: String,
    pub midi: String,
    pub wav: String,
    pub debug_level: u32,
}

/// What the command line asks for.
pub enum CliAction {
    /// Print the help text
    Help,
    /// Print the version
    Version,
    /// No input file was given: print the usage line
    Usage,
    /// Compile the input and play it
    Play(CliOptions),
    /// Compile the input and write it as WAV
    SaveWav(CliOptions),
}

/// [`CliOptions`] as mathematical values.
pub struct OptionsView {
    pub input: Seq<char>,
    pub soundfont: Seq<char>,
    pub midi: Seq<char>,
    pub wav: Seq<char>,
    pub debug_level: u32,
}

/// [`CliAction`] as mathematical values.
pub enum ActionView {
    Help,
    Version,
    Usage,
    Play(OptionsView),
    SaveWav(OptionsView),
}

impl View for CliOptions {
    type V = OptionsView;

    open spec fn view(&self) -> OptionsView {
        OptionsView {
            input: self.input@,
            soundfont: self.soundfont@,
            midi: self.midi@,
            wav: self.wav@,
            debug_level: self.debug_level,
        }
    }
}

impl View for CliAction {
    type V = ActionView;

    open spec fn view(&self) -> ActionView {
        match self {
            CliAction::Help => ActionView::Help,
            CliAction::Version => ActionView::Version,
            CliAction::Usage => ActionView::Usage,
            CliAction::Play(o) => ActionView::Play(o@),
            CliAction::SaveWav(o) => ActionView::SaveWav(o@),
        }
    }
}

/// The settings gathered while scanning the arguments.
pub struct ScanState {
    pub input: Seq<char>,
    pub soundfont: Seq<char>,
    pub midi: Seq<char>,
    pub wav: Seq<char>,
    pub debug: bool,
    pub wav_mode: bool,
}

/// How a scan of the arguments ends.
pub enum ScanEnd {
    /// At a help option
    Help,
    /// At a version option
    Version,
    /// At the end of the arguments, with these settings
    Done(ScanState),
}

/// `arg` is the short or the long form of an option.
pub open spec fn is_option(arg: Seq<char>, short: Seq<char>, long: Seq<char>) -> bool {
    arg == short || arg == long
}

/// The scan of `args` from index `i` on, with settings `st` so far. Options
/// that take a value take the next argument; one at the end takes nothing.
/// The first argument that is no option is the input; later ones are
/// ignored.
///
/// `-d`/`--debug` takes the debug level as its value, as the documented
/// option list has it (`-d, --debug <DEBUG>`, level 0 none, 1 info): the
/// value `0` leaves debugging off and any other value turns it on (the
/// compiler treats every level above 0 as info). At the end of the
/// arguments, where no value follows, `-d` turns debugging on.
pub open spec fn scan(program: Program, args: Seq<Seq<char>>, i: int, st: ScanState) -> ScanEnd
    decreases args.len() - i,
{
    if i < 0 || i >= args.len() {
        ScanEnd::Done(st)
    } else {
        let a = args[i];
        let has_value = i + 1 < args.len();
        if is_option(a, "-h"@, "--help"@) {
            ScanEnd::Help
        } else if is_option(a, "-v"@, "--version"@) {
            ScanEnd::Version
        } else if is_option(a, "-d"@, "--debug"@) {
            if has_value {
                scan(program, args, i + 2, ScanState { debug: args[i + 1] != "0"@, ..st })
            } else {
                ScanEnd::Done(ScanState { debug: true, ..st })
            }
        } else if is_option(a, "-m"@, "--midi"@) {
            if has_value {
                scan(program, args, i + 2, ScanState { midi: args[i + 1], ..st })
            } else {
                ScanEnd::Done(st)
            }
        } else if program == Program::Picosakura && is_option(a, "-w"@, "--wav"@) {
            if has_value {
                scan(program, args, i + 2, ScanState { wav_mode: true, wav: args[i + 1], ..st })
            } else {
                ScanEnd::Done(ScanState { wav_mode: true, ..st })
            }
        } else if is_option(a, "-s"@, "--soundfont"@) {
            if has_value {
                scan(program, args, i + 2, ScanState { soundfont: args[i + 1], ..st })
            } else {
                ScanEnd::Done(st)
            }
        } else if st.input.len() == 0 {
            scan(program, args, i + 1, ScanState { input: a, ..st })
        } else {
            scan(program, args, i + 1, st)
        }
    }
}

/// The settings before any argument is read.
pub open spec fn initial_scan_state() -> ScanState {
    ScanState {
        input: Seq::empty(),
        soundfont: Seq::empty(),
        midi: Seq::empty(),
        wav: Seq::empty(),
        debug: false,
        wav_mode: false,
    }
}

/// The name of an output file derived from the input name: `ext` appended,
/// then the first `.mml` + `ext` turned into `ext` (`song.mml` gives
/// `song.mid`).
pub open spec fn default_name(input: Seq<char>, ext: Seq<char>) -> Seq<char> {
    replace_first(input + ext, ".mml"@ + ext, ext)
}

/// The name given, or the default when it is empty.
pub open spec fn or_default(given: Seq<char>, default: Seq<char>) -> Seq<char> {
    if given.len() == 0 {
        default
    } else {
        given
    }
}

/// What a command line (`args[0]` is the program name) asks for.
pub open spec fn action_of(program: Program, args: Seq<Seq<char>>) -> ActionView {
    match scan(program, args, 1, initial_scan_state()) {
        ScanEnd::Help => ActionView::Help,
        ScanEnd::Version => ActionView::Version,
        ScanEnd::Done(st) => if st.input.len() == 0 {
            ActionView::Usage
        } else {
            let options = OptionsView {
                input: st.input,
                soundfont: or_default(st.soundfont, DEFAULT_SOUNDFONT@),
                midi: or_default(st.midi, default_name(st.input, ".mid"@)),
                wav: or_default(st.wav, default_name(st.input, ".wav"@)),
                debug_level: if st.debug {
                    1
                } else {
                    0
                },
            };
            if program == Program::Mml2wav || st.wav_mode {
                ActionView::SaveWav(options)
            } else {
                ActionView::Play(options)
            }
        },
    }
}

/// The arguments as character sequences.
pub open spec fn args_view(args: Seq<String>) -> Seq<Seq<char>> {
    args.map_values(|s: String| s@)
}

/// `arg` is `short` or `long`.
fn is_option_exec(arg: &String, short: &str, long: &str) -> (r: bool)
    ensures
        r == is_option(arg@, short@, long@),
{
    *arg == String::from_str(short) || *arg == String::from_str(long)
}

/// The name of an output file derived from the input name.
pub fn default_output_name(input: &str, ext: &str) -> (name: String)
    ensures
        name@ == default_name(input@, ext@),
{
    let full = String::from_str(input).concat(ext);
    let pattern = String::from_str(".mml").concat(ext);
    replace_first_str(full.as_str(), pattern.as_str(), ext)
}

fn or_default_exec(given: String, default: String) -> (r: String)
    ensures
        r@ == or_default(given@, default@),
{
    if given.as_str().is_empty() {
        default
    } else {
        given
    }
}

/// Reads a command line; `args[0]` is the program name.
pub fn parse_args(program: Program, args: &Vec<String>) -> (action: CliAction)
    ensures
        action@ == action_of(program, args_view(args@)),
{
    let ghost av = args_view(args@);
    let n = args.len();
    let mut input = String::new();
    let mut soundfont = String::new();
    let mut midi = String::new();
    let mut wav = String::new();
    let mut debug = false;
    let mut wav_mode = false;
    let mut i: usize = 1;
    while i < n
        invariant
            n == args@.len(),
            av == args_view(args@),
            1 <= i,
            scan(
                program,
                av,
                i as int,
                ScanState {
                    input: input@,
                    soundfont: soundfont@,
                    midi: midi@,
                    wav: wav@,
                    debug,
                    wav_mode,
                },
            ) == scan(program, av, 1, initial_scan_state()),
        decreases n - i,
    {
        let arg = args[i].clone();
        assert(av[i as int] == arg@);
        if is_option_exec(&arg, "-h", "--help") {
            return CliAction::Help;
        }
        if is_option_exec(&arg, "-v", "--version") {
            return CliAction::Version;
        }
        if is_option_exec(&arg, "-d", "--debug") {
            i = i + 1;
            if i < n {
                let level = args[i].clone();
                assert(av[i as int] == level@);
                debug = !(level == String::from_str("0"));
                i = i + 1;
            } else {
                debug = true;
            }
            continue;
        }
        if is_option_exec(&arg, "-m", "--midi") {
            i = i + 1;
            if i < n {
                midi = args[i].clone();
                assert(av[i as int] == midi@);
                i = i + 1;
            }
            continue;
        }
        if program == Program::Picosakura && is_option_exec(&arg, "-w", "--wav") {
            wav_mode = true;
            i = i + 1;
            if i < n {
                wav = args[i].clone();
                assert(av[i as int] == wav@);
                i = i + 1;
            }
            continue;
        }
        if is_option_exec(&arg, "-s", "--soundfont") {
            i = i + 1;
            if i < n {
                soundfont = args[i].clone();
                assert(av[i as int] == soundfont@);
                i = i + 1;
            }
            continue;
        }
        if input.as_str().is_empty() {
            input = arg;
        }
        i = i + 1;
    }
    if input.as_str().is_empty() {
        return CliAction::Usage;
    }
    let soundfont = or_default_exec(soundfont, String::from_str(DEFAULT_SOUNDFONT));
    let midi = or_default_exec(midi, default_output_name(input.as_str(), ".mid"));
    let wav = or_default_exec(wav, default_output_name(input.as_str(), ".wav"));
    let debug_level: u32 = if debug {
        1
    } else {
        0
    };
    let options = CliOptions { input, soundfont, midi, wav, debug_level };
    if program == Program::Mml2wav || wav_mode {
        CliAction::SaveWav(options)
    } else {
        CliAction::Play(options)
    }
}

/// The default name of `stem.mml`, where `stem` holds no `.mml`, is `stem`
/// followed by the extension (`song.mml` gives `song.mid`).
pub proof fn lemma_default_name_of_mml_file(stem: Seq<char>, ext: Seq<char>)
    requires
        !contains_seq(stem, ".mml"@),
    ensures
        default_name(stem + ".mml"@, ext) == stem + ext,
{
    reveal_strlit(".mml");
    let s = stem + ".mml"@ + ext;
    let p = ".mml"@ + ext;
    let k = stem.len() as int;
    assert((stem + ".mml"@) + ext =~= s);
    assert(s.subrange(k, k + p.len()) =~= p);
    assert(occurs_at(s, p, k));
    assert forall|j: int| 0 <= j < k implies !#[trigger] occurs_at(s, p, j) by {
        if occurs_at(s, p, j) {
            if j + 4 <= k {
                assert(p.subrange(0, 4) =~= ".mml"@);
                assert(stem.subrange(j, j + 4) =~= p.subrange(0, 4)) by {
                    assert forall|t: int| 0 <= t < 4 implies stem.subrange(j, j + 4)[t] == p[t] by {
                        assert(s.subrange(j, j + p.len())[t] == p[t]);
                    }
                }
                assert(occurs_at(stem, ".mml"@, j));
            } else {
                // the occurrence would start inside `stem` and overlap the
                // appended `.mml`: its leading '.' would meet 'm' or 'l'
                let d = k - j;
                assert(s[j] == p[0]);
                assert(s[k] == '.');
                assert(s[j + d] == p[d]);
                assert(p[d] == ".mml"@[d]);
            }
        }
    }
    assert(is_first_occurrence(s, p, k));
    let c = choose|i: int| is_first_occurrence(s, p, i);
    lemma_first_occurrence_unique(s, p, k, c);
    assert(s.take(k) + ext + s.skip(k + p.len()) =~= stem + ext);
}

/// A name in which `.mml` + extension never appears only gets the extension
/// appended.
pub proof fn lemma_default_name_plain(input: Seq<char>, ext: Seq<char>)
    requires
        !contains_seq(input + ext, ".mml"@ + ext),
    ensures
        default_name(input, ext) == input + ext,
{
}

/// An argument that one of the programs reads as an option.
pub open spec fn option_word(a: Seq<char>) -> bool {
    ||| a == "-h"@
    ||| a == "--help"@
    ||| a == "-v"@
    ||| a == "--version"@
    ||| a == "-d"@
    ||| a == "--debug"@
    ||| a == "-m"@
    ||| a == "--midi"@
    ||| a == "-w"@
    ||| a == "--wav"@
    ||| a == "-s"@
    ||| a == "--soundfont"@
}

/// The run that a program makes with these options: the player plays, the
/// tool writes WAV.
pub open spec fn run_action(program: Program, options: OptionsView) -> ActionView {
    if program == Program::Mml2wav {
        ActionView::SaveWav(options)
    } else {
        ActionView::Play(options)
    }
}

/// The options of a run on `input` with every default: the default
/// SoundFont, `input` with its `.mml` turned into `.mid` and `.wav`, no
/// debugging.
pub open spec fn default_options(input: Seq<char>) -> OptionsView {
    OptionsView {
        input,
        soundfont: DEFAULT_SOUNDFONT@,
        midi: default_name(input, ".mid"@),
        wav: default_name(input, ".wav"@),
        debug_level: 0,
    }
}

/// The characters of the option words.
proof fn reveal_option_words()
    ensures
        "-h"@ == seq!['-', 'h'],
        "--help"@ == seq!['-', '-', 'h', 'e', 'l', 'p'],
        "-v"@ == seq!['-', 'v'],
        "--version"@ == seq!['-', '-', 'v', 'e', 'r', 's', 'i', 'o', 'n'],
        "-d"@ == seq!['-', 'd'],
        "--debug"@ == seq!['-', '-', 'd', 'e', 'b', 'u', 'g'],
        "-m"@ == seq!['-', 'm'],
        "--midi"@ == seq!['-', '-', 'm', 'i', 'd', 'i'],
        "-w"@ == seq!['-', 'w'],
        "--wav"@ == seq!['-', '-', 'w', 'a', 'v'],
        "-s"@ == seq!['-', 's'],
        "--soundfont"@ == seq!['-', '-', 's', 'o', 'u', 'n', 'd', 'f', 'o', 'n', 't'],
        "0"@ == seq!['0'],
{
    reveal_strlit("-h");
    reveal_strlit("--help");
    reveal_strlit("-v");
    reveal_strlit("--version");
    reveal_strlit("-d");
    reveal_strlit("--debug");
    reveal_strlit("-m");
    reveal_strlit("--midi");
    reveal_strlit("-w");
    reveal_strlit("--wav");
    reveal_strlit("-s");
    reveal_strlit("--soundfont");
    reveal_strlit("0");
}

/// A command line with only an input file runs on it with every default.
pub proof fn lemma_input_alone(program: Program, name: Seq<char>, input: Seq<char>)
    requires
        input.len() > 0,
        !option_word(input),
    ensures
        action_of(program, seq![name, input]) == run_action(program, default_options(input)),
{
    reveal_option_words();
    reveal_with_fuel(scan, 3);
}

/// `-s` and `--soundfont` alike, before or after the input, make the next
/// argument the SoundFont, in both programs; nothing else changes.
pub proof fn lemma_soundfont_option(
    program: Program,
    name: Seq<char>,
    opt: Seq<char>,
    font: Seq<char>,
    input: Seq<char>,
)
    requires
        opt == "-s"@ || opt == "--soundfont"@,
        font.len() > 0,
        input.len() > 0,
        !option_word(input),
    ensures
        action_of(program, seq![name, opt, font, input]) == run_action(
            program,
            OptionsView { soundfont: font, ..default_options(input) },
        ),
        action_of(program, seq![name, input, opt, font]) == run_action(
            program,
            OptionsView { soundfont: font, ..default_options(input) },
        ),
{
    reveal_option_words();
    reveal_with_fuel(scan, 4);
}

/// `-m` and `--midi` alike, before or after the input, make the next
/// argument the MIDI file, in both programs; nothing else changes.
pub proof fn lemma_midi_option(
    program: Program,
    name: Seq<char>,
    opt: Seq<char>,
    midi: Seq<char>,
    input: Seq<char>,
)
    requires
        opt == "-m"@ || opt == "--midi"@,
        midi.len() > 0,
        input.len() > 0,
        !option_word(input),
    ensures
        action_of(program, seq![name, opt, midi, input]) == run_action(
            program,
            OptionsView { midi, ..default_options(input) },
        ),
        action_of(program, seq![name, input, opt, midi]) == run_action(
            program,
            OptionsView { midi, ..default_options(input) },
        ),
{
    reveal_option_words();
    reveal_with_fuel(scan, 4);
}

/// In the player, `-w` and `--wav` alike, before or after the input, turn
/// the run into writing WAV to the next argument; nothing else changes.
pub proof fn lemma_wav_option(name: Seq<char>, opt: Seq<char>, wav: Seq<char>, input: Seq<char>)
    requires
        opt == "-w"@ || opt == "--wav"@,
        wav.len() > 0,
        input.len() > 0,
        !option_word(input),
    ensures
        action_of(Program::Picosakura, seq![name, opt, wav, input]) == ActionView::SaveWav(
            OptionsView { wav, ..default_options(input) },
        ),
        action_of(Program::Picosakura, seq![name, input, opt, wav]) == ActionView::SaveWav(
            OptionsView { wav, ..default_options(input) },
        ),
{
    reveal_option_words();
    reveal_with_fuel(scan, 4);
}

/// `-d` and `--debug` alike, before or after the input, read the next
/// argument as the debug level: `0` is no debugging, anything else level 1;
/// nothing else changes.
pub proof fn lemma_debug_option(
    program: Program,
    name: Seq<char>,
    opt: Seq<char>,
    level: Seq<char>,
    input: Seq<char>,
)
    requires
        opt == "-d"@ || opt == "--debug"@,
        input.len() > 0,
        !option_word(input),
    ensures
        action_of(program, seq![name, opt, level, input]) == run_action(
            program,
            OptionsView {
                debug_level: if level == "0"@ {
                    0
                } else {
                    1
                },
                ..default_options(input)
            },
        ),
        action_of(program, seq![name, input, opt, level]) == run_action(
            program,
            OptionsView {
                debug_level: if level == "0"@ {
                    0
                } else {
                    1
                },
                ..default_options(input)
            },
        ),
{
    reveal_option_words();
    reveal_with_fuel(scan, 4);
}

/// A help or version option asks for help or the version, whatever follows
/// it, in both programs.
pub proof fn lemma_help_and_version(program: Program, name: Seq<char>, opt: Seq<char>, rest: Seq<Seq<char>>)
    ensures
        (opt == "-h"@ || opt == "--help"@) ==> action_of(program, seq![name, opt] + rest)
            == ActionView::Help,
        (opt == "-v"@ || opt == "--version"@) ==> action_of(program, seq![name, opt] + rest)
            == ActionView::Version,
{
    reveal_option_words();
    let args = seq![name, opt] + rest;
    assert(args[1] == opt);
}

} // verus!
