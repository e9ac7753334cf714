//! The outcome of a compile or render: a success flag, the produced bytes
//! and the log.

use vstd::prelude::*;

verus! {

/// Outcome of compiling MML to MIDI, or of rendering it to WAV.
pub struct PicoResult {
    /// Whether the work succeeded
    pub result: bool,
    /// The produced bytes (MIDI or WAV)
    pub bin: Vec<u8>,
    /// The log of the work
    pub log: String,
}

/// What a [`PicoResult`] holds, as mathematical values.
pub struct PicoView {
    pub result: bool,
    pub bin: Seq<u8>,
    pub log: Seq<char>,
}

impl View for PicoResult {
    type V = PicoView;

    open spec fn view(&self) -> PicoView {
        PicoView { result: self.result, bin: self.bin@, log: self.log@ }
    }
}

impl PicoResult {
    /// A result made of its three parts.
    pub(crate) fn from_parts(result: bool, bin: Vec<u8>, log: String) -> (r: PicoResult)
        ensures
            r@ == (PicoView { result, bin: bin@, log: log@ }),
    {
        PicoResult { result, bin, log }
    }

    /// Whether the work succeeded.
    pub fn succeeded(&self) -> (b: bool)
        ensures
            b == self@.result,
    {
        self.result
    }

    /// The produced bytes.
    pub fn get_bin(&self) -> (b: Vec<u8>)
        ensures
            b@ == self@.bin,
    {
        let b = self.bin.clone();
        assert(b@ =~= self.bin@);
        b
    }

    /// The log.
    pub fn get_log(&self) -> (l: String)
        ensures
            l@ == self@.log,
    {
        self.log.clone()
    }
}

} // verus!
