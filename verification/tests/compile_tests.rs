use picosakura::{compile_source, compile_to_midi, judge_compile, result_of_verdict, CompileVerdict};

#[test]
fn compile_simple_melody() {
    let r = compile_to_midi("o4c");
    assert!(r.result);
    let bin = r.get_bin();
    assert!(bin.starts_with(b"MThd"));
    assert!(bin.ends_with(&[0x00, 0xFF, 0x2F, 0x00]));
    assert_eq!(r.get_log(), "");
}

#[test]
fn compile_empty_source_is_refused() {
    let r = compile_to_midi("");
    assert!(!r.result);
    assert!(r.get_bin().is_empty());
    assert_eq!(r.get_log(), "[ERROR] MML source is empty");
}

#[test]
fn compile_oversized_source_is_refused() {
    let source = "c".repeat(3 * 1024 * 1024 + 1);
    let r = compile_to_midi(&source);
    assert!(!r.result);
    assert!(r.get_bin().is_empty());
    assert!(r.get_log().contains("ERROR"));
    assert!(r.get_log().contains("Input size exceeds max_input_size"));
}

#[test]
fn compile_is_repeatable() {
    let a = compile_to_midi("cdefgab>c");
    let b = compile_to_midi("cdefgab>c");
    assert_eq!(a.get_bin(), b.get_bin());
    assert_eq!(a.get_log(), b.get_log());
}

#[test]
fn compile_source_reports_empty_source() {
    assert!(matches!(compile_source("", 1), CompileVerdict::EmptySource));
}

#[test]
fn pico_result_fields_match_getters() {
    let r = compile_to_midi("cde");
    assert!(r.result);
    assert_eq!(r.bin, r.get_bin());
    assert_eq!(r.log, r.get_log());
}

#[test]
fn compile_source_compiles_at_info_level() {
    match compile_source("o4c", 1) {
        CompileVerdict::Compiled { midi, .. } => assert!(midi.starts_with(b"MThd")),
        _ => panic!("expected a compiled verdict"),
    }
}

#[test]
fn judge_compile_fails_on_error_in_log() {
    match judge_compile(vec![1, 2, 3], "line 1: [ERROR] unknown command".to_string()) {
        CompileVerdict::Failed { log } => assert_eq!(log, "line 1: [ERROR] unknown command"),
        _ => panic!("expected a failed verdict"),
    }
}

#[test]
fn judge_compile_is_case_sensitive() {
    match judge_compile(vec![1, 2, 3], "error: lower case is no error".to_string()) {
        CompileVerdict::Compiled { midi, log } => {
            assert_eq!(midi, vec![1, 2, 3]);
            assert_eq!(log, "error: lower case is no error");
        }
        _ => panic!("expected a compiled verdict"),
    }
}

#[test]
fn judge_compile_accepts_clean_log() {
    match judge_compile(vec![9], String::new()) {
        CompileVerdict::Compiled { midi, log } => {
            assert_eq!(midi, vec![9]);
            assert_eq!(log, "");
        }
        _ => panic!("expected a compiled verdict"),
    }
}

#[test]
fn result_of_each_verdict() {
    let r = result_of_verdict(CompileVerdict::EmptySource);
    assert!(!r.result);
    assert_eq!(r.get_log(), "[ERROR] MML source is empty");
    let r = result_of_verdict(CompileVerdict::Failed { log: "[ERROR] x".to_string() });
    assert!(!r.result);
    assert!(r.get_bin().is_empty());
    assert_eq!(r.get_log(), "[ERROR] x");
    let r = result_of_verdict(CompileVerdict::Compiled { midi: vec![7, 8], log: "info".to_string() });
    assert!(r.result);
    assert_eq!(r.get_bin(), vec![7, 8]);
    assert_eq!(r.get_log(), "info");
}

#[test]
fn simple_mml_detection() {
    assert!(picosakura::is_simple_mml("cde fgab\nr<c>c\t\r"));
    assert!(picosakura::is_simple_mml(""));
    assert!(picosakura::is_simple_mml("c4"));
    assert!(picosakura::is_simple_mml("o4 l8 cdefg4 r4 c2."));
    assert!(picosakura::is_simple_mml("c1234"));
    assert!(!picosakura::is_simple_mml("c12345"));
    assert!(!picosakura::is_simple_mml("4c"));
    assert!(!picosakura::is_simple_mml("c 4"));
    assert!(!picosakura::is_simple_mml("o c"));
    assert!(!picosakura::is_simple_mml("co"));
    assert!(!picosakura::is_simple_mml("v+10 c"));
    assert!(picosakura::is_simple_mml("o5 v100 l16 cdef"));
    assert!(!picosakura::is_simple_mml("l.5 c"));
    assert!(!picosakura::is_simple_mml("Tempo=120 c"));
    assert!(!picosakura::is_simple_mml("Function F(){F()} F()"));
}

#[test]
fn compiler_known_to_return_on_simple_or_oversized() {
    assert!(picosakura::compiler_known_to_return("cdef"));
    assert!(picosakura::compiler_known_to_return("l8 cdef"));
    assert!(picosakura::compiler_known_to_return("v100 cdef"));
    assert!(!picosakura::compiler_known_to_return("q90 cdef"));
    let huge = "T".repeat(3 * 1024 * 1024 + 1);
    assert!(picosakura::compiler_known_to_return(&huge));
}

#[test]
fn try_compile_plain_melody() {
    let r = picosakura::try_compile_to_midi("cdefgab>c").expect("simple MML compiles");
    assert!(r.succeeded());
    assert!(r.result);
    assert_eq!(r.get_bin(), compile_to_midi("cdefgab>c").get_bin());
}

#[test]
fn try_compile_melody_with_octave_and_lengths() {
    let source = "o4 l8 cdefg4 r4 c2.";
    let r = picosakura::try_compile_to_midi(source).expect("simple MML compiles");
    assert!(r.succeeded());
    assert!(!r.get_log().contains("ERROR"));
    let bin = r.get_bin();
    assert!(bin.starts_with(b"MThd"));
    assert_eq!(bin, compile_to_midi(source).get_bin());
    assert_ne!(bin, compile_to_midi("o5 l8 cdefg4 r4 c2.").get_bin());
}

#[test]
fn try_compile_empty_and_other_sources() {
    let r = picosakura::try_compile_to_midi("").expect("the empty source is simple");
    assert!(!r.succeeded());
    assert_eq!(r.get_log(), "[ERROR] MML source is empty");
    assert!(picosakura::try_compile_to_midi("Tempo=120 c").is_none());
}

#[test]
fn try_compile_oversized_source() {
    let huge = "Tempo".repeat(700_000);
    let r = picosakura::try_compile_to_midi(&huge).expect("oversized sources are refused");
    assert!(!r.result);
    assert!(r.get_log().contains("ERROR"));
}
