use vstd::prelude::*;

verus! {

/// MIDI API specifier: which native backend a handle is bound to.
///
/// The numeric codes are those of the native capability selector.
#[derive(Debug, Clone, Copy, PartialEq, Eq, Structural)]
pub enum RtMidiApi {
    /// Search for a working compiled backend.
    Unspecified,
    /// Macintosh OS-X CoreMIDI.
    MacOSXCore,
    /// The Advanced Linux Sound Architecture.
    LinuxALSA,
    /// The Jack low-latency MIDI server.
    UnixJack,
    /// The Microsoft Multimedia MIDI API.
    WindowsMM,
    /// A compilable but non-functional backend.
    RtMidiDummy,
}

impl RtMidiApi {
    /// The native selector code of this backend.
    pub open spec fn spec_code(self) -> i32 {
        match self {
            RtMidiApi::Unspecified => 0,
            RtMidiApi::MacOSXCore => 1,
            RtMidiApi::LinuxALSA => 2,
            RtMidiApi::UnixJack => 3,
            RtMidiApi::WindowsMM => 4,
            RtMidiApi::RtMidiDummy => 5,
        }
    }

    /// True when `code` is the selector of some backend.
    pub open spec fn is_valid_code(code: i32) -> bool {
        0 <= code <= 5
    }

    /// The native selector code of this backend.
    pub fn code(self) -> (c: i32)
        ensures
            c == self.spec_code(),
    {
        match self {
            RtMidiApi::Unspecified => 0,
            RtMidiApi::MacOSXCore => 1,
            RtMidiApi::LinuxALSA => 2,
            RtMidiApi::UnixJack => 3,
            RtMidiApi::WindowsMM => 4,
            RtMidiApi::RtMidiDummy => 5,
        }
    }

    /// The backend selected by a valid native code.
    pub fn from(code: i32) -> (api: RtMidiApi)
        requires
            RtMidiApi::is_valid_code(code),
        ensures
            api.spec_code() == code,
    {
        if code == 0 {
            RtMidiApi::Unspecified
        } else if code == 1 {
            RtMidiApi::MacOSXCore
        } else if code == 2 {
            RtMidiApi::LinuxALSA
        } else if code == 3 {
            RtMidiApi::UnixJack
        } else if code == 4 {
            RtMidiApi::WindowsMM
        } else {
            RtMidiApi::RtMidiDummy
        }
    }

    /// Total form of [`RtMidiApi::from`]: `None` exactly on codes that select
    /// no backend.
    pub fn try_from_code(code: i32) -> (r: Option<RtMidiApi>)
        ensures
            r is Some <==> RtMidiApi::is_valid_code(code),
            r matches Some(api) ==> api.spec_code() == code,
    {
        if 0 <= code && code <= 5 {
            Some(RtMidiApi::from(code))
        } else {
            None
        }
    }
}

} // verus!
