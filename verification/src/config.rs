//! The resolved configuration of one run, and the validators of its encoding settings.

use crate::decimal::{is_numeral, numeral_value, parse_bounded};
use crate::licenses::SelectedLicenses;
use vstd::prelude::*;

verus! {

/// The JPEG quality that is used when none is asked for.
pub const JPEG_ENCODING_QUALITY_DEFAULT: u8 = 80;

/// The lowest JPEG quality.
pub const JPEG_ENCODING_QUALITY_MIN: u8 = 1;

/// The highest JPEG quality.
pub const JPEG_ENCODING_QUALITY_MAX: u8 = 100;

/// Start of the message for a quality that is not accepted; the value follows it.
pub const QUALITY_REJECTED: &'static str =
    "JPEG Encoding Settings error: --jpeg-encoding-quality requires a number between 1 and 100, but received: ";

/// The message for a quality flag that came without a value.
pub const QUALITY_MISSING: &'static str =
    "JPEG Encoding Settings error: --jpeg-encoding-quality requires a number between 1 and 100, but received no value.";

/// A configuration item of the front-end, carried through unchanged.
#[derive(Debug, PartialEq, Eq)]
pub enum ConfigItem {
    /// An optional text.
    OptionStringItem(Option<String>),
}

impl DeepView for ConfigItem {
    type V = Option<Seq<char>>;

    open spec fn deep_view(&self) -> Option<Seq<char>> {
        match self {
            ConfigItem::OptionStringItem(item) => item.deep_view(),
        }
    }
}

/// How a JPEG image is encoded. The quality is always within 1 and 100, both included.
#[derive(Debug, Clone, Copy, PartialEq, Eq)]
pub struct JPEGEncodingSettings {
    quality: u8,
}

/// How a PNM image is encoded.
#[derive(Debug, Clone, Copy, PartialEq, Eq)]
pub struct PNMEncodingSettings {
    /// Use ascii for PBM, PGM or PPM. PAM is always binary.
    pub ascii: bool,
}

/// The encoding settings of all formats that have any.
#[derive(Debug, Clone, Copy, PartialEq, Eq)]
pub struct FormatEncodingSettings {
    /// Used when the output format is JPEG.
    pub jpeg_settings: JPEGEncodingSettings,
    /// Used when the output format is one of the PNM formats.
    pub pnm_settings: PNMEncodingSettings,
}

/// The resolved options of one run. It is built once and only read afterwards.
#[derive(Debug, PartialEq, Eq)]
pub struct Config {
    /// Name of the tool, as the front-end gives it.
    pub tool_name: &'static str,
    /// The license texts to display, in display order.
    pub licenses: Vec<SelectedLicenses>,
    /// The output format to use whatever the output path's extension says.
    pub forced_output_format: Option<String>,
    /// Leave the color type of the image alone where the output format does not support it.
    pub disable_automatic_color_type_adjustment: bool,
    /// The encoding settings of the formats that have any.
    pub encoding_settings: FormatEncodingSettings,
    /// The output path; without one the image goes to the standard output.
    pub output: Option<String>,
    /// The front-end's own settings.
    pub application_specific: Vec<ConfigItem>,
}

/// A configuration as plain values.
pub ghost struct ConfigView {
    pub tool_name: Seq<char>,
    pub licenses: Seq<SelectedLicenses>,
    pub forced_output_format: Option<Seq<char>>,
    pub disable_automatic_color_type_adjustment: bool,
    pub jpeg_quality: int,
    pub pnm_ascii: bool,
    pub output: Option<Seq<char>>,
    pub application_specific: Seq<Option<Seq<char>>>,
}

impl View for Config {
    type V = ConfigView;

    open spec fn view(&self) -> ConfigView {
        ConfigView {
            tool_name: self.tool_name@,
            licenses: self.licenses@,
            forced_output_format: self.forced_output_format.deep_view(),
            disable_automatic_color_type_adjustment: self.disable_automatic_color_type_adjustment,
            jpeg_quality: self.encoding_settings.jpeg_settings@,
            pnm_ascii: self.encoding_settings.pnm_settings.ascii,
            output: self.output.deep_view(),
            application_specific: self.application_specific.deep_view(),
        }
    }
}

/// Whether `value` is a decimal numeral for a quality that JPEG encoding accepts.
pub open spec fn valid_quality(value: Seq<char>) -> bool {
    is_numeral(value) && JPEG_ENCODING_QUALITY_MIN <= numeral_value(value)
        <= JPEG_ENCODING_QUALITY_MAX
}

/// Whether the message names the value: the value occurs somewhere in it.
pub open spec fn names(message: Seq<char>, value: Seq<char>) -> bool {
    exists|i: int|
        0 <= i && i + value.len() <= message.len() && #[trigger] message.subrange(
            i,
            i + value.len(),
        ) == value
}

/// The outcome of validating the quality flag: the quality, or the message that says
/// why the value was not accepted.
///
/// Without the flag the default quality is used, whatever value is handed in. With the
/// flag, the value has to be a numeral for a number from 1 to 100.
pub open spec fn jpeg_quality(present: bool, value: Option<Seq<char>>) -> Result<int, Seq<char>> {
    if !present {
        Ok(JPEG_ENCODING_QUALITY_DEFAULT as int)
    } else {
        match value {
            Some(v) => if valid_quality(v) {
                Ok(numeral_value(v))
            } else {
                Err(QUALITY_REJECTED@ + v)
            },
            None => Err(QUALITY_MISSING@),
        }
    }
}

impl View for JPEGEncodingSettings {
    type V = int;

    closed spec fn view(&self) -> int {
        self.quality as int
    }
}

impl JPEGEncodingSettings {
    #[verifier::type_invariant]
    spec fn in_range(self) -> bool {
        JPEG_ENCODING_QUALITY_MIN <= self.quality <= JPEG_ENCODING_QUALITY_MAX
    }

    /// The settings with the default quality.
    pub fn new_default() -> (settings: JPEGEncodingSettings)
        ensures
            settings@ == JPEG_ENCODING_QUALITY_DEFAULT,
    {
        JPEGEncodingSettings { quality: JPEG_ENCODING_QUALITY_DEFAULT }
    }

    /// Validates the quality flag, given as its presence and its value.
    pub fn new_result(quality: (bool, Option<&str>)) -> (res: Result<JPEGEncodingSettings, String>)
        ensures
            match res {
                Ok(settings) => jpeg_quality(quality.0, quality.1.deep_view()) == Ok::<
                    int,
                    Seq<char>,
                >(settings@),
                Err(message) => jpeg_quality(quality.0, quality.1.deep_view()) == Err::<
                    int,
                    Seq<char>,
                >(message@),
            },
    {
        if !quality.0 {
            return Ok(JPEGEncodingSettings::new_default());
        }
        match quality.1 {
            Some(value) => {
                match parse_bounded(value, JPEG_ENCODING_QUALITY_MAX) {
                    Some(q) if q >= JPEG_ENCODING_QUALITY_MIN => Ok(
                        JPEGEncodingSettings { quality: q },
                    ),
                    _ => {
                        let mut message = String::from_str(QUALITY_REJECTED);
                        message.append(value);
                        Err(message)
                    },
                }
            },
            None => Err(String::from_str(QUALITY_MISSING)),
        }
    }

    /// The quality, from 1 to 100.
    pub fn quality(&self) -> (q: u8)
        ensures
            q == self@,
            JPEG_ENCODING_QUALITY_MIN <= q <= JPEG_ENCODING_QUALITY_MAX,
    {
        proof {
            use_type_invariant(self);
        }
        self.quality
    }
}

impl PNMEncodingSettings {
    /// The settings with ascii encoding switched on or off.
    pub fn new(ascii: bool) -> (settings: PNMEncodingSettings)
        ensures
            settings.ascii == ascii,
    {
        PNMEncodingSettings { ascii }
    }
}

/// With the flag given, a value is accepted exactly if it is a numeral for a number from
/// 1 to 100, and then that number is the quality. Every other value is rejected with a
/// message that names the value.
pub proof fn lemma_quality_accepted_iff_valid(value: Seq<char>)
    ensures
        jpeg_quality(true, Some(value)) is Ok <==> valid_quality(value),
        valid_quality(value) ==> jpeg_quality(true, Some(value)) == Ok::<int, Seq<char>>(
            numeral_value(value),
        ),
        !valid_quality(value) ==> jpeg_quality(true, Some(value)) is Err && names(
            jpeg_quality(true, Some(value))->Err_0,
            value,
        ),
{
    if !valid_quality(value) {
        let message = QUALITY_REJECTED@ + value;
        let at = QUALITY_REJECTED@.len() as int;
        assert(message.subrange(at, at + value.len()) =~= value);
    }
}

/// Without the flag the quality is the default, whatever value is handed in.
pub proof fn lemma_absent_quality_is_default(value: Option<Seq<char>>)
    ensures
        jpeg_quality(false, value) == Ok::<int, Seq<char>>(JPEG_ENCODING_QUALITY_DEFAULT as int),
{
}

/// An accepted quality lies within 1 and 100.
pub proof fn lemma_quality_in_range(present: bool, value: Option<Seq<char>>)
    requires
        jpeg_quality(present, value) is Ok,
    ensures
        JPEG_ENCODING_QUALITY_MIN <= jpeg_quality(present, value)->Ok_0
            <= JPEG_ENCODING_QUALITY_MAX,
{
}

} // verus!
