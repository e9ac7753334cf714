use picosakura::{finish_wav, format_for, has_mthd_header, has_riff_header, load_midi_file, load_sound_font, prepare_wav, try_load_midi_file, try_prepare_wav, wav_spec_for, OutFormat, RenderOutcome, WavPlan, WavSpec, SAMPLE_RATE};

#[test]
fn wav_spec_integer_widths() {
    for bits in [8usize, 16, 24] {
        let s = wav_spec_for(22050, bits);
        assert_eq!(s, WavSpec { sample_rate: 22050, bits_per_sample: bits as u16, int_format: true });
    }
}

#[test]
fn wav_spec_other_widths_are_float() {
    for bits in [0usize, 7, 32, 64] {
        let s = wav_spec_for(SAMPLE_RATE, bits);
        assert_eq!(s, WavSpec { sample_rate: 44100, bits_per_sample: 32, int_format: false });
    }
}

#[test]
fn wav_spec_sample_rate_wraps_to_u32() {
    let rate = ((1u64 << 32) + 5) as usize;
    assert_eq!(wav_spec_for(rate, 16).sample_rate, 5);
}

#[test]
fn out_format_names() {
    assert_eq!(format_for("ogg"), OutFormat::Ogg);
    assert_eq!(format_for("wav"), OutFormat::Wav);
    assert_eq!(format_for("OGG"), OutFormat::Wav);
    assert_eq!(format_for(""), OutFormat::Wav);
}

#[test]
fn finish_encoded_wav() {
    let r = finish_wav("compiled to midi\nloaded soundfont\n".to_string(), 88200, OutFormat::Wav, RenderOutcome::Encoded(vec![0x52, 0x49, 0x46, 0x46]));
    assert!(r.result);
    assert_eq!(r.get_bin(), vec![0x52, 0x49, 0x46, 0x46]);
    assert_eq!(
        r.get_log(),
        "compiled to midi\nloaded soundfont\nloaded midi file\nsamples.length=88200\n"
    );
}

#[test]
fn finish_encode_failure() {
    let r = finish_wav("x".to_string(), 3, OutFormat::Wav, RenderOutcome::EncodeFailed("Unsupported wav encoding".to_string()));
    assert!(!r.result);
    assert!(r.get_bin().is_empty());
    assert_eq!(r.get_log(), "[ERROR] write wav: Unsupported wav encoding");
}

#[test]
fn finish_ogg_always_fails() {
    let r = finish_wav("x".to_string(), 3, OutFormat::Ogg, RenderOutcome::Resampled { resampled_len: 0, converted_len: 0 });
    assert!(!r.result);
    assert_eq!(r.get_log(), "[ERROR] Failed to resample");
    let r = finish_wav("x".to_string(), 3, OutFormat::Ogg, RenderOutcome::Resampled { resampled_len: 4, converted_len: 0 });
    assert_eq!(r.get_log(), "[ERROR] Failed to convert samples f32 to i16");
    let r = finish_wav("x".to_string(), 3, OutFormat::Ogg, RenderOutcome::Resampled { resampled_len: 4, converted_len: 4 });
    assert!(!r.result);
    assert!(r.get_bin().is_empty());
    assert_eq!(r.get_log(), "[ERROR] ogg-orpus: Not supported");
}

#[test]
fn prepare_stops_on_empty_source() {
    match prepare_wav("", vec![], 44100, 32, "wav") {
        WavPlan::Finished(r) => {
            assert!(!r.result);
            assert_eq!(r.get_log(), "[ERROR] MML source is empty");
        }
        WavPlan::Render(_) => panic!("expected the render to stop"),
    }
}

#[test]
fn prepare_stops_on_bad_sound_font() {
    match prepare_wav("o4c", b"NOPE-not-a-soundfont".to_vec(), 44100, 32, "wav") {
        WavPlan::Finished(r) => {
            assert!(!r.result);
            assert!(r.get_bin().is_empty());
            assert_eq!(r.get_log(), "[ERROR] Failded to load SoundFont, the RIFF chunk was not found");
        }
        WavPlan::Render(_) => panic!("expected the render to stop"),
    }
}

#[test]
fn prepare_stops_on_truncated_sound_font() {
    match prepare_wav("o4c", vec![], 44100, 32, "wav") {
        WavPlan::Finished(r) => {
            assert!(!r.result);
            assert!(r.get_log().starts_with("[ERROR] Failded to load SoundFont, "));
        }
        WavPlan::Render(_) => panic!("expected the render to stop"),
    }
}

fn chunk(id: &[u8; 4], body: &[u8]) -> Vec<u8> {
    let mut out = id.to_vec();
    out.extend_from_slice(&(body.len() as u32).to_le_bytes());
    out.extend_from_slice(body);
    out
}

fn list(kind: &[u8; 4], chunks: &[Vec<u8>]) -> Vec<u8> {
    let mut body = kind.to_vec();
    for c in chunks {
        body.extend_from_slice(c);
    }
    chunk(b"LIST", &body)
}

fn name20(name: &str) -> Vec<u8> {
    let mut v = name.as_bytes().to_vec();
    v.resize(20, 0);
    v
}

/// A minimal SoundFont: one preset playing one instrument on one sample.
fn tiny_sound_font() -> Vec<u8> {
    let info = list(b"INFO", &[]);
    let samples = vec![0u8; 200];
    let sdta = list(b"sdta", &[chunk(b"smpl", &samples)]);

    let mut phdr = Vec::new();
    for zone_start in [0u16, 1] {
        phdr.extend(name20("p"));
        phdr.extend_from_slice(&0u16.to_le_bytes());
        phdr.extend_from_slice(&0u16.to_le_bytes());
        phdr.extend_from_slice(&zone_start.to_le_bytes());
        phdr.extend_from_slice(&[0u8; 12]);
    }
    let bag: Vec<u8> = [0u16, 0, 1, 0].iter().flat_map(|v| v.to_le_bytes()).collect();
    let pgen: Vec<u8> = [41u16, 0, 0, 0].iter().flat_map(|v| v.to_le_bytes()).collect();
    let mut inst = Vec::new();
    for zone_start in [0u16, 1] {
        inst.extend(name20("i"));
        inst.extend_from_slice(&zone_start.to_le_bytes());
    }
    let igen: Vec<u8> = [53u16, 0, 0, 0].iter().flat_map(|v| v.to_le_bytes()).collect();
    let mut shdr = name20("s");
    for v in [0i32, 50, 10, 40, 44100] {
        shdr.extend_from_slice(&v.to_le_bytes());
    }
    shdr.extend_from_slice(&[60u8, 0]);
    shdr.extend_from_slice(&0u16.to_le_bytes());
    shdr.extend_from_slice(&1u16.to_le_bytes());
    shdr.extend_from_slice(&[0u8; 46]);
    let pdta = list(
        b"pdta",
        &[
            chunk(b"phdr", &phdr),
            chunk(b"pbag", &bag),
            chunk(b"pgen", &pgen),
            chunk(b"inst", &inst),
            chunk(b"ibag", &bag),
            chunk(b"igen", &igen),
            chunk(b"shdr", &shdr),
        ],
    );
    let mut body = b"sfbk".to_vec();
    body.extend(info);
    body.extend(sdta);
    body.extend(pdta);
    chunk(b"RIFF", &body)
}

#[test]
fn prepare_reaches_synthesis() {
    let midi = picosakura::compile_to_midi("o4c").get_bin();
    match prepare_wav("o4c", tiny_sound_font(), 48000, 16, "ogg") {
        WavPlan::Render(job) => {
            assert_eq!(job.midi, midi);
            assert_eq!(job.log, "compiled to midi\nloaded soundfont\n");
            assert_eq!(job.spec, WavSpec { sample_rate: 48000, bits_per_sample: 16, int_format: true });
            assert_eq!(job.format, OutFormat::Ogg);
        }
        WavPlan::Finished(r) => panic!("expected synthesis, got {}", r.get_log()),
    }
}

#[test]
fn prepare_reports_compile_failure_first() {
    let expected = picosakura::compile_to_midi("");
    match prepare_wav("", tiny_sound_font(), 44100, 32, "wav") {
        WavPlan::Finished(r) => {
            assert_eq!(r.result, expected.result);
            assert_eq!(r.get_log(), expected.get_log());
        }
        WavPlan::Render(_) => panic!("expected the render to stop"),
    }
}

#[test]
fn riff_header_detection() {
    assert!(has_riff_header(&b"RIFF\0\0\0\0sfbk".to_vec()));
    assert!(!has_riff_header(&b"RIF".to_vec()));
    assert!(!has_riff_header(&b"riff....".to_vec()));
    assert!(has_riff_header(&tiny_sound_font()));
}

#[test]
fn try_prepare_refuses_unknown_parsers() {
    assert!(try_prepare_wav("Tempo=120 c", b"junk".to_vec(), 44100, 32, "wav").is_none());
    assert!(try_prepare_wav("cde", tiny_sound_font(), 44100, 32, "wav").is_none());
}

#[test]
fn try_prepare_reports_sound_font_refusal() {
    match try_prepare_wav("cde", b"junk-bytes".to_vec(), 44100, 32, "wav") {
        Some(WavPlan::Finished(r)) => {
            assert!(!r.result);
            assert!(r.get_bin().is_empty());
            assert_eq!(r.get_log(), "[ERROR] Failded to load SoundFont, the RIFF chunk was not found");
        }
        _ => panic!("expected a refused SoundFont"),
    }
}

#[test]
fn failed_renders_say_error() {
    for (mml, font) in [("", tiny_sound_font()), ("cde", b"xx".to_vec())] {
        match prepare_wav(mml, font, 44100, 16, "wav") {
            WavPlan::Finished(r) => {
                assert!(!r.result);
                assert!(r.get_log().contains("ERROR"));
            }
            WavPlan::Render(_) => panic!("expected the render to stop"),
        }
    }
    let ok = finish_wav("compiled to midi\nloaded soundfont\n".to_string(), 10, OutFormat::Wav, RenderOutcome::Encoded(vec![1]));
    assert!(ok.result && !ok.get_log().contains("ERROR"));
}

#[test]
fn load_sound_font_accepts_a_sound_font() {
    assert!(load_sound_font(tiny_sound_font()).is_ok());
}

#[test]
fn load_sound_font_refuses_junk() {
    match load_sound_font(b"junk-bytes".to_vec()) {
        Err(message) => assert_eq!(message, "the RIFF chunk was not found"),
        Ok(_) => panic!("junk is no SoundFont"),
    }
    assert!(load_sound_font(vec![0x52, 0x49]).is_err());
}

#[test]
fn load_midi_file_reads_compiled_midi() {
    let midi = picosakura::compile_to_midi("o4 l8 cdefg4").get_bin();
    assert!(has_mthd_header(&midi));
    assert!(load_midi_file(midi).is_ok());
}

#[test]
fn load_midi_file_refuses_junk() {
    assert!(load_midi_file(b"RIFF-not-midi".to_vec()).is_err());
    assert!(load_midi_file(vec![]).is_err());
    assert!(!has_mthd_header(&b"MTh".to_vec()));
}

#[test]
fn try_load_midi_file_only_for_headerless_bytes() {
    let midi = picosakura::compile_to_midi("cde").get_bin();
    assert!(try_load_midi_file(midi).is_none());
    match try_load_midi_file(b"junk".to_vec()) {
        Some(Err(message)) => assert!(!message.is_empty()),
        _ => panic!("expected a refusal"),
    }
}

#[test]
fn ogg_render_of_tiny_font_reaches_synthesis_but_cannot_succeed() {
    match prepare_wav("o4 l8 cde", tiny_sound_font(), 16000, 16, "ogg") {
        WavPlan::Render(job) => {
            assert_eq!(job.format, OutFormat::Ogg);
            let r = finish_wav(job.log, 100, job.format, RenderOutcome::Resampled { resampled_len: 10, converted_len: 10 });
            assert!(!r.result);
            assert_eq!(r.get_log(), "[ERROR] ogg-orpus: Not supported");
        }
        WavPlan::Finished(r) => panic!("expected synthesis, got {}", r.get_log()),
    }
}

#[test]
fn sample_rate_changes_only_the_header_rate() {
    let a = prepare_wav("o4 l8 cde", tiny_sound_font(), 44100, 16, "wav");
    let b = prepare_wav("o4 l8 cde", tiny_sound_font(), 8000, 16, "wav");
    match (a, b) {
        (WavPlan::Render(j1), WavPlan::Render(j2)) => {
            assert_eq!(j1.midi, j2.midi);
            assert_eq!(j1.log, j2.log);
            assert_eq!(j1.format, j2.format);
            assert_eq!(j1.spec.bits_per_sample, j2.spec.bits_per_sample);
            assert_eq!(j1.spec.int_format, j2.spec.int_format);
            assert_eq!((j1.spec.sample_rate, j2.spec.sample_rate), (44100, 8000));
            let r1 = finish_wav(j1.log, 500, j1.format, RenderOutcome::Encoded(vec![1, 2]));
            let r2 = finish_wav(j2.log, 500, j2.format, RenderOutcome::Encoded(vec![3]));
            assert_eq!(r1.get_log(), r2.get_log());
        }
        _ => panic!("expected both renders to reach synthesis"),
    }
    let a = prepare_wav("", tiny_sound_font(), 44100, 16, "wav");
    let b = prepare_wav("", tiny_sound_font(), 22050, 16, "wav");
    match (a, b) {
        (WavPlan::Finished(r1), WavPlan::Finished(r2)) => {
            assert_eq!(r1.get_log(), r2.get_log());
            assert_eq!(r1.result, r2.result);
        }
        _ => panic!("expected both renders to stop"),
    }
}

#[test]
fn ogg_request_stops_or_fails() {
    match prepare_wav("", tiny_sound_font(), 44100, 16, "ogg") {
        WavPlan::Finished(r) => assert!(!r.result),
        WavPlan::Render(_) => panic!("an empty source does not compile"),
    }
}
