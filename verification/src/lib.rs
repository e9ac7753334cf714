//! MML (Music Macro Language) compiler front end: MML to MIDI through the
//! Sakura compiler, the decisions around rendering MIDI to WAV with a
//! SoundFont, and the command line of the player.

pub mod cli;
pub mod compile;
pub mod midi;
pub mod result;
pub mod samples;
pub mod text;
pub mod wav;

pub use compile::{
    compile_source, compile_to_midi, compiler_known_to_return, is_simple_mml, judge_compile, result_of_verdict,
    try_compile_to_midi, CompileVerdict,
};
pub use midi::{has_mthd_header, load_midi_file, try_load_midi_file};
pub use result::PicoResult;
pub use samples::{interleave_stereo, looped_device_frames};
pub use text::{chars_of, decimal_string, find_first, replace_first_str, str_contains, string_from_chars};
pub use wav::{
    finish_wav, format_for, has_riff_header, load_sound_font, prepare_wav, try_prepare_wav, wav_spec_for, OutFormat, RenderOutcome, WavJob, WavPlan, WavSpec, SAMPLE_RATE,
};
pub use cli::{default_output_name, parse_args, CliAction, CliOptions, Program, DEFAULT_SOUNDFONT};
