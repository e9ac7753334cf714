//! Loading a MIDI file for synthesis.

use vstd::prelude::*;
use rustysynth::MidiFile;

verus! {

#[verifier::external_type_specification]
#[verifier::external_body]
pub struct ExMidiFile(MidiFile);

/// What `rustysynth` makes of `bytes` as a MIDI file: `Some(Ok(()))` when it
/// loads, `Some(Err(message))` when it is refused with that message, `None`
/// when the parser panics (its tick arithmetic is unchecked).
pub uninterp spec fn midi_file_parse(bytes: Seq<u8>) -> Option<Result<(), Seq<char>>>;

/// `bytes` begin with the four bytes `MThd`.
pub open spec fn mthd_header(bytes: Seq<u8>) -> bool {
    &&& bytes.len() >= 4
    &&& bytes[0] == 0x4Du8
    &&& bytes[1] == 0x54u8
    &&& bytes[2] == 0x68u8
    &&& bytes[3] == 0x64u8
}

/// The MIDI parser returns on `bytes`: it does on bytes without an `MThd`
/// header, and elsewhere exactly when its named outcome exists.
pub open spec fn midi_file_returns(bytes: Seq<u8>) -> bool {
    !mthd_header(bytes) || midi_file_parse(bytes) is Some
}

/// The MIDI file in `bytes` loads.
pub open spec fn midi_file_loads(bytes: Seq<u8>) -> bool {
    midi_file_parse(bytes) == Some(Ok::<(), Seq<char>>(()))
}

/// Parses a MIDI file from bytes (`rustysynth::MidiFile::new` reading an
/// in-memory cursor), turning a refusal into its `Display` message.
/// Trusted, from the crate's source: the outcome and the message are a
/// function of the bytes alone; bytes that do not begin with `MThd` are
/// refused (a read error on fewer than four bytes, `InvalidChunkType`
/// otherwise) without further reading; other bytes are admitted only where
/// the parser returns.
#[verifier::external_body]
pub fn load_midi_file(bytes: Vec<u8>) -> (r: Result<MidiFile, String>)
    requires
        midi_file_returns(bytes@),
    ensures
        match r {
            Ok(_) => midi_file_loads(bytes@),
            Err(message) => midi_file_parse(bytes@) == Some(Err::<(), Seq<char>>(message@)),
        },
        !mthd_header(bytes@) ==> r is Err,
{
    let mut reader = std::io::Cursor::new(bytes);
    match MidiFile::new(&mut reader) {
        Ok(midi_file) => Ok(midi_file),
        Err(e) => Err(format!("{}", e)),
    }
}

/// Whether `bytes` begin with an `MThd` header.
pub fn has_mthd_header(bytes: &Vec<u8>) -> (b: bool)
    ensures
        b == mthd_header(bytes@),
{
    bytes.len() >= 4 && bytes[0] == 0x4Du8 && bytes[1] == 0x54u8 && bytes[2] == 0x68u8
        && bytes[3] == 0x64u8
}

/// [`load_midi_file`] where the parser is known to return (bytes without an
/// `MThd` header, which it refuses); `None` elsewhere.
pub fn try_load_midi_file(bytes: Vec<u8>) -> (r: Option<Result<MidiFile, String>>)
    ensures
        r is Some <==> !mthd_header(bytes@),
        r matches Some(loaded) ==> loaded matches Err(message) && midi_file_parse(bytes@) == Some(
            Err::<(), Seq<char>>(message@),
        ),
{
    if has_mthd_header(&bytes) {
        None
    } else {
        Some(load_midi_file(bytes))
    }
}

} // verus!
