//! The raw options of one invocation: which flags were given, and with which values.

use crate::cli::{
    ARG_DEP_LICENSES, ARG_DISABLE_AUTOMATIC_COLOR_TYPE_ADJUSTMENT, ARG_FORCED_OUTPUT_FORMAT,
    ARG_INPUT, ARG_INPUT_FILE, ARG_JPEG_ENCODING_QUALITY, ARG_LICENSE, ARG_OUTPUT,
    ARG_OUTPUT_FILE, ARG_PNM_ENCODING_ASCII,
};
use clap::ArgMatches;
use vstd::prelude::*;

verus! {

/// The options as the command line gave them, before any of them is validated.
#[derive(Debug, PartialEq, Eq)]
pub struct RawOptions {
    /// `--license` was given.
    pub license: bool,
    /// `--dep-licenses` was given.
    pub dep_licenses: bool,
    /// The value of `--output-format`.
    pub forced_output_format: Option<String>,
    /// `--disable-automatic-color-type-adjustment` was given.
    pub disable_automatic_color_type_adjustment: bool,
    /// `--jpeg-encoding-quality` was given.
    pub jpeg_encoding_quality_present: bool,
    /// The value of `--jpeg-encoding-quality`.
    pub jpeg_encoding_quality: Option<String>,
    /// `--pnm-encoding-ascii` was given.
    pub pnm_encoding_ascii: bool,
    /// The value of `--input`.
    pub input: Option<String>,
    /// The value of the front-end's own input path option.
    pub input_file: Option<String>,
    /// The value of `--output`.
    pub output: Option<String>,
    /// The value of the front-end's own output path option.
    pub output_file: Option<String>,
}

/// The raw options as plain values.
pub ghost struct RawOptionsView {
    pub license: bool,
    pub dep_licenses: bool,
    pub forced_output_format: Option<Seq<char>>,
    pub disable_automatic_color_type_adjustment: bool,
    pub jpeg_encoding_quality_present: bool,
    pub jpeg_encoding_quality: Option<Seq<char>>,
    pub pnm_encoding_ascii: bool,
    pub input: Option<Seq<char>>,
    pub input_file: Option<Seq<char>>,
    pub output: Option<Seq<char>>,
    pub output_file: Option<Seq<char>>,
}

impl View for RawOptions {
    type V = RawOptionsView;

    open spec fn view(&self) -> RawOptionsView {
        RawOptionsView {
            license: self.license,
            dep_licenses: self.dep_licenses,
            forced_output_format: self.forced_output_format.deep_view(),
            disable_automatic_color_type_adjustment: self.disable_automatic_color_type_adjustment,
            jpeg_encoding_quality_present: self.jpeg_encoding_quality_present,
            jpeg_encoding_quality: self.jpeg_encoding_quality.deep_view(),
            pnm_encoding_ascii: self.pnm_encoding_ascii,
            input: self.input.deep_view(),
            input_file: self.input_file.deep_view(),
            output: self.output.deep_view(),
            output_file: self.output_file.deep_view(),
        }
    }
}

impl Default for RawOptions {
    /// The options of a command line without arguments.
    fn default() -> (options: RawOptions)
        ensures
            options@ == (RawOptionsView {
                license: false,
                dep_licenses: false,
                forced_output_format: None,
                disable_automatic_color_type_adjustment: false,
                jpeg_encoding_quality_present: false,
                jpeg_encoding_quality: None,
                pnm_encoding_ascii: false,
                input: None,
                input_file: None,
                output: None,
                output_file: None,
            }),
    {
        RawOptions {
            license: false,
            dep_licenses: false,
            forced_output_format: None,
            disable_automatic_color_type_adjustment: false,
            jpeg_encoding_quality_present: false,
            jpeg_encoding_quality: None,
            pnm_encoding_ascii: false,
            input: None,
            input_file: None,
            output: None,
            output_file: None,
        }
    }
}

#[verifier::external_type_specification]
#[verifier::external_body]
pub struct ExArgMatches<'a>(ArgMatches<'a>);

/// Whether an argument, or the subcommand, of that name is among the matches.
pub uninterp spec fn arg_present(matches: ArgMatches, name: Seq<char>) -> bool;

/// The first value matched for the argument of that name, if it has one. A value that
/// is not valid Unicode is read with the replacement character in place of what is not.
pub uninterp spec fn arg_value(matches: ArgMatches, name: Seq<char>) -> Option<Seq<char>>;

/// `ArgMatches::is_present`: whether the name is among the matches.
#[verifier::external_body]
fn is_present(matches: &ArgMatches, name: &str) -> (present: bool)
    ensures
        present == arg_present(*matches, name@),
{
    matches.is_present(name)
}

/// `ArgMatches::value_of_lossy`: the first value matched for the name, as owned text.
#[verifier::external_body]
fn value_of_lossy(matches: &ArgMatches, name: &str) -> (value: Option<String>)
    ensures
        value.deep_view() == arg_value(*matches, name@),
{
    matches.value_of_lossy(name).map(String::from)
}

/// The raw options that a set of matches holds.
pub open spec fn raw_options_of(matches: ArgMatches) -> RawOptionsView {
    RawOptionsView {
        license: arg_present(matches, ARG_LICENSE@),
        dep_licenses: arg_present(matches, ARG_DEP_LICENSES@),
        forced_output_format: arg_value(matches, ARG_FORCED_OUTPUT_FORMAT@),
        disable_automatic_color_type_adjustment: arg_present(
            matches,
            ARG_DISABLE_AUTOMATIC_COLOR_TYPE_ADJUSTMENT@,
        ),
        jpeg_encoding_quality_present: arg_present(matches, ARG_JPEG_ENCODING_QUALITY@),
        jpeg_encoding_quality: arg_value(matches, ARG_JPEG_ENCODING_QUALITY@),
        pnm_encoding_ascii: arg_present(matches, ARG_PNM_ENCODING_ASCII@),
        input: arg_value(matches, ARG_INPUT@),
        input_file: arg_value(matches, ARG_INPUT_FILE@),
        output: arg_value(matches, ARG_OUTPUT@),
        output_file: arg_value(matches, ARG_OUTPUT_FILE@),
    }
}

/// Reads the raw options out of the matches that `clap` found on the command line.
pub fn read_options(matches: &ArgMatches) -> (options: RawOptions)
    ensures
        options@ == raw_options_of(*matches),
{
    RawOptions {
        license: is_present(matches, ARG_LICENSE),
        dep_licenses: is_present(matches, ARG_DEP_LICENSES),
        forced_output_format: value_of_lossy(matches, ARG_FORCED_OUTPUT_FORMAT),
        disable_automatic_color_type_adjustment: is_present(
            matches,
            ARG_DISABLE_AUTOMATIC_COLOR_TYPE_ADJUSTMENT,
        ),
        jpeg_encoding_quality_present: is_present(matches, ARG_JPEG_ENCODING_QUALITY),
        jpeg_encoding_quality: value_of_lossy(matches, ARG_JPEG_ENCODING_QUALITY),
        pnm_encoding_ascii: is_present(matches, ARG_PNM_ENCODING_ASCII),
        input: value_of_lossy(matches, ARG_INPUT),
        input_file: value_of_lossy(matches, ARG_INPUT_FILE),
        output: value_of_lossy(matches, ARG_OUTPUT),
        output_file: value_of_lossy(matches, ARG_OUTPUT_FILE),
    }
}

} // verus!
