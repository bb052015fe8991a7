//! The mix format of the render endpoint, and which sample formats are captured.

use crate::device::Host;
use crate::text::{decimal, hex, push_decimal, push_hex};
use vstd::prelude::*;

verus! {

pub const WAVE_FORMAT_PCM: u16 = 1;

pub const WAVE_FORMAT_IEEE_FLOAT: u16 = 3;

pub const WAVE_FORMAT_EXTENSIBLE: u16 = 65534;

/// The sub format of integer PCM, as the number that its GUID spells.
pub const KSDATAFORMAT_SUBTYPE_PCM: u128 = 0x00000001_0000_0010_8000_00aa00389b71;

/// The sub format of floating point, as the number that its GUID spells.
pub const KSDATAFORMAT_SUBTYPE_IEEE_FLOAT: u128 = 0x00000003_0000_0010_8000_00aa00389b71;

/// A mix format. `sub_format` is present in an extensible format only.
#[derive(Clone, Copy, PartialEq, Eq, Structural)]
pub struct WaveFormat {
    pub format_tag: u16,
    pub channels: u16,
    pub sample_rate: u32,
    pub block_align: u16,
    pub bits_per_sample: u16,
    pub sub_format: Option<u128>,
}

/// A sample format that can be captured.
#[derive(Clone, Copy, PartialEq, Eq, Structural)]
pub enum WasapiSampleFormat {
    F32,
    I16,
    I24,
    I32,
}

/// Why a mix format cannot be captured.
#[derive(Clone, Copy, PartialEq, Eq, Structural)]
pub enum FormatError {
    PcmDepth { bits: u16 },
    MixFormat { tag: u16, bits: u16, sub_format: Option<u128> },
}

/// Whether a format with this tag has a sub format to be read.
pub fn is_extensible(format_tag: u16) -> (r: bool)
    ensures
        r == (format_tag == WAVE_FORMAT_EXTENSIBLE),
{
    format_tag == WAVE_FORMAT_EXTENSIBLE
}

impl WaveFormat {
    pub open spec fn float(self, host: Host) -> bool {
        host is Windows && {
            ||| self.format_tag == WAVE_FORMAT_IEEE_FLOAT
            ||| self.format_tag == WAVE_FORMAT_EXTENSIBLE && self.sub_format == Some(
                KSDATAFORMAT_SUBTYPE_IEEE_FLOAT,
            )
        }
    }

    pub open spec fn pcm(self, host: Host) -> bool {
        host is Windows && {
            ||| self.format_tag == WAVE_FORMAT_PCM
            ||| self.format_tag == WAVE_FORMAT_EXTENSIBLE && self.sub_format == Some(
                KSDATAFORMAT_SUBTYPE_PCM,
            )
        }
    }

    pub fn is_float(&self, host: Host) -> (r: bool)
        ensures
            r == self.float(host),
    {
        wave_format_is_float(host, self)
    }

    pub fn is_pcm(&self, host: Host) -> (r: bool)
        ensures
            r == self.pcm(host),
    {
        wave_format_is_pcm(host, self)
    }
}

/// Floating point, by its tag or by its sub format. Only Windows knows formats.
pub fn wave_format_is_float(host: Host, format: &WaveFormat) -> (r: bool)
    ensures
        r == format.float(host),
{
    host == Host::Windows && (format.format_tag == WAVE_FORMAT_IEEE_FLOAT || (format.format_tag == WAVE_FORMAT_EXTENSIBLE
        && match format.sub_format {
        Some(sub_format) => sub_format == KSDATAFORMAT_SUBTYPE_IEEE_FLOAT,
        None => false,
    }))
}

/// Integer PCM, by its tag or by its sub format. Only Windows knows formats.
pub fn wave_format_is_pcm(host: Host, format: &WaveFormat) -> (r: bool)
    ensures
        r == format.pcm(host),
{
    host == Host::Windows && (format.format_tag == WAVE_FORMAT_PCM || (format.format_tag == WAVE_FORMAT_EXTENSIBLE
        && match format.sub_format {
        Some(sub_format) => sub_format == KSDATAFORMAT_SUBTYPE_PCM,
        None => false,
    }))
}

/// The sample format of a mix format.
pub open spec fn sample_format(host: Host, format: WaveFormat) -> Result<
    WasapiSampleFormat,
    FormatError,
> {
    if format.float(host) && format.bits_per_sample == 32 {
        Ok(WasapiSampleFormat::F32)
    } else if format.pcm(host) {
        if format.bits_per_sample == 16 {
            Ok(WasapiSampleFormat::I16)
        } else if format.bits_per_sample == 24 {
            Ok(WasapiSampleFormat::I24)
        } else if format.bits_per_sample == 32 {
            Ok(WasapiSampleFormat::I32)
        } else {
            Err(FormatError::PcmDepth { bits: format.bits_per_sample })
        }
    } else {
        Err(
            FormatError::MixFormat {
                tag: format.format_tag,
                bits: format.bits_per_sample,
                sub_format: format.sub_format,
            },
        )
    }
}

impl WasapiSampleFormat {
    /// Bytes of one sample.
    pub open spec fn size(self) -> nat {
        match self {
            WasapiSampleFormat::F32 => 4,
            WasapiSampleFormat::I16 => 2,
            WasapiSampleFormat::I24 => 3,
            WasapiSampleFormat::I32 => 4,
        }
    }

    /// Single precision, or integer PCM of 16, 24 or 32 bits.
    pub fn from_wave_format(host: Host, format: &WaveFormat) -> (r: Result<
        WasapiSampleFormat,
        FormatError,
    >)
        ensures
            r == sample_format(host, *format),
    {
        if format.is_float(host) && format.bits_per_sample == 32 {
            return Ok(WasapiSampleFormat::F32);
        }
        if format.is_pcm(host) {
            return match format.bits_per_sample {
                16 => Ok(WasapiSampleFormat::I16),
                24 => Ok(WasapiSampleFormat::I24),
                32 => Ok(WasapiSampleFormat::I32),
                bits => Err(FormatError::PcmDepth { bits }),
            };
        }
        Err(
            FormatError::MixFormat {
                tag: format.format_tag,
                bits: format.bits_per_sample,
                sub_format: format.sub_format,
            },
        )
    }

    pub fn sample_size(&self) -> (r: usize)
        ensures
            r == self.size(),
    {
        match self {
            WasapiSampleFormat::F32 => 4,
            WasapiSampleFormat::I16 => 2,
            WasapiSampleFormat::I24 => 3,
            WasapiSampleFormat::I32 => 4,
        }
    }
}

/// A GUID in its usual groups of hexadecimal digits.
pub open spec fn guid_text(bits: u128) -> Seq<char> {
    let n = bits as nat;
    hex(n / 0x1000000000000000000000000, 8) + "-"@ + hex(n / 0x100000000000000000000, 4) + "-"@
        + hex(n / 0x10000000000000000, 4) + "-"@ + hex(n / 0x1000000000000, 4) + "-"@ + hex(n, 12)
}

/// A sub format that may be missing.
pub open spec fn sub_format_text(sub_format: Option<u128>) -> Seq<char> {
    match sub_format {
        Some(bits) => "Some("@ + guid_text(bits) + ")"@,
        None => "None"@,
    }
}

impl FormatError {
    pub open spec fn text(self) -> Seq<char> {
        match self {
            FormatError::PcmDepth { bits } => "Unsupported WASAPI PCM bit depth: "@ + decimal(
                bits as nat,
            ),
            FormatError::MixFormat { tag, bits, sub_format } => "Unsupported WASAPI mix format: tag="@
                + decimal(tag as nat) + " bits="@ + decimal(bits as nat) + " subtype="@
                + sub_format_text(sub_format),
        }
    }

    pub fn message(&self) -> (r: String)
        ensures
            r@ == self.text(),
    {
        let mut out: String = String::new();
        match self {
            FormatError::PcmDepth { bits } => {
                out.append("Unsupported WASAPI PCM bit depth: ");
                push_decimal(&mut out, *bits as u64);
            },
            FormatError::MixFormat { tag, bits, sub_format } => {
                out.append("Unsupported WASAPI mix format: tag=");
                push_decimal(&mut out, *tag as u64);
                out.append(" bits=");
                push_decimal(&mut out, *bits as u64);
                out.append(" subtype=");
                let ghost before = out@;
                match sub_format {
                    Some(guid) => {
                        out.append("Some(");
                        push_hex(&mut out, *guid / 0x1000000000000000000000000, 8);
                        out.append("-");
                        push_hex(&mut out, *guid / 0x100000000000000000000, 4);
                        out.append("-");
                        push_hex(&mut out, *guid / 0x10000000000000000, 4);
                        out.append("-");
                        push_hex(&mut out, *guid / 0x1000000000000, 4);
                        out.append("-");
                        push_hex(&mut out, *guid, 12);
                        out.append(")");
                    },
                    None => {
                        out.append("None");
                    },
                }
                assert(out@ =~= before + sub_format_text(*sub_format));
            },
        }
        assert(out@ =~= self.text());
        out
    }
}

/// A format is floating point or integer PCM, never both.
pub proof fn float_and_pcm_exclude_each_other(host: Host, format: WaveFormat)
    ensures
        !(format.float(host) && format.pcm(host)),
{
}

} // verus!
