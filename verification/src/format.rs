//! Audio format detection from file header bytes.

use vstd::prelude::*;

verus! {

/// The container formats the core tells apart by their magic bytes.
#[derive(Debug, Clone, Copy, PartialEq, Eq, Structural)]
pub enum AudioFormat {
    Wav,
    Mp3,
    Unknown,
}

/// What `detect_format` answers on a given header: fewer than 12 bytes are
/// unknown; a `RIFF` chunk carrying `WAVE` is a WAV file; an `ID3` tag or an
/// MPEG frame sync (0xFF followed by three set bits) is an MP3 stream;
/// anything else is unknown.
pub open spec fn spec_detect_format(d: Seq<u8>) -> AudioFormat {
    if d.len() < 12 {
        AudioFormat::Unknown
    } else if d[0] == 0x52u8 && d[1] == 0x49u8 && d[2] == 0x46u8 && d[3] == 0x46u8 && d[8]
        == 0x57u8 && d[9] == 0x41u8 && d[10] == 0x56u8 && d[11] == 0x45u8 {
        AudioFormat::Wav
    } else if d[0] == 0x49u8 && d[1] == 0x44u8 && d[2] == 0x33u8 {
        AudioFormat::Mp3
    } else if d[0] == 0xffu8 && d[1] & 0xe0u8 == 0xe0u8 {
        AudioFormat::Mp3
    } else {
        AudioFormat::Unknown
    }
}

/// Detect the audio format of `data` from its header bytes alone.
pub fn detect_format(data: &[u8]) -> (r: AudioFormat)
    ensures
        r == spec_detect_format(data@),
{
    if data.len() < 12 {
        return AudioFormat::Unknown;
    }
    // WAV: a RIFF chunk whose form type is WAVE.
    if data[0] == 0x52 && data[1] == 0x49 && data[2] == 0x46 && data[3] == 0x46 && data[8] == 0x57
        && data[9] == 0x41 && data[10] == 0x56 && data[11] == 0x45 {
        return AudioFormat::Wav;
    }
    // MP3: an ID3 tag at the start of the stream.
    if data[0] == 0x49 && data[1] == 0x44 && data[2] == 0x33 {
        return AudioFormat::Mp3;
    }
    // MP3: a bare MPEG frame sync.
    if data[0] == 0xff && data[1] & 0xe0 == 0xe0 {
        return AudioFormat::Mp3;
    }
    AudioFormat::Unknown
}

} // verus!
