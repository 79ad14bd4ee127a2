//! Which encoders a client has.

use vstd::prelude::*;

verus! {

/// The encoder that a client uses.
#[derive(Clone, Copy, Debug, PartialEq, Eq, Structural)]
pub enum HwEncoder {
    /// No hardware: the software encoder.
    Software,
    /// macOS.
    Videotoolbox,
    /// NVIDIA.
    Nvenc,
    /// Intel or AMD on Linux.
    Vaapi,
    /// Intel.
    QuickSync,
    /// AMD.
    Amf,
}

impl Default for HwEncoder {
    fn default() -> (r: Self)
        ensures
            r == HwEncoder::Software,
    {
        HwEncoder::Software
    }
}

/// Which hardware encoders a client found, and the one it uses.
#[derive(Clone, Copy, Debug, PartialEq, Eq, Structural)]
pub struct EncoderCapabilities {
    pub has_nvenc: bool,
    pub has_qsv: bool,
    pub has_vaapi: bool,
    pub has_videotoolbox: bool,
    pub has_amf: bool,
    pub selected_encoder: HwEncoder,
}

impl Default for EncoderCapabilities {
    fn default() -> (r: Self)
        ensures
            r == (EncoderCapabilities {
                has_nvenc: false,
                has_qsv: false,
                has_vaapi: false,
                has_videotoolbox: false,
                has_amf: false,
                selected_encoder: HwEncoder::Software,
            }),
    {
        EncoderCapabilities {
            has_nvenc: false,
            has_qsv: false,
            has_vaapi: false,
            has_videotoolbox: false,
            has_amf: false,
            selected_encoder: HwEncoder::Software,
        }
    }
}

} // verus!
