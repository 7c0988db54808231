//! From raw options to the configuration of a run.

use crate::config::{
    jpeg_quality, Config, ConfigItem, ConfigView, FormatEncodingSettings, JPEGEncodingSettings,
    PNMEncodingSettings,
};
use crate::licenses::{resolve_licenses, selected_licenses};
use crate::options::{raw_options_of, read_options, RawOptions, RawOptionsView};
use clap::ArgMatches;
use vstd::prelude::*;

verus! {

/// The first value that is there, going through the candidates in order.
pub open spec fn first_some(candidates: Seq<Option<Seq<char>>>) -> Option<Seq<char>>
    decreases candidates.len(),
{
    if candidates.len() == 0 {
        None
    } else if candidates[0] is Some {
        candidates[0]
    } else {
        first_some(candidates.skip(1))
    }
}

/// Picks the first value that is there from a list of candidates in order of precedence.
pub fn first_present(candidates: &Vec<&Option<String>>) -> (chosen: Option<String>)
    ensures
        chosen.deep_view() == first_some(candidates.deep_view()),
{
    let ghost all = candidates.deep_view();
    let mut i: usize = 0;
    assert(all.skip(0) =~= all);
    while i < candidates.len()
        invariant
            i <= candidates.len(),
            all == candidates.deep_view(),
            first_some(all) == first_some(all.skip(i as int)),
        decreases candidates.len() - i,
    {
        assert(all.skip(i as int)[0] == candidates[i as int].deep_view());
        if let Some(value) = candidates[i] {
            return Some(value.clone());
        }
        assert(all.skip(i as int).skip(1) =~= all.skip(i + 1));
        i += 1;
    }
    None
}

/// Resolves the encoding settings of all formats from the flags that set them. Only
/// the JPEG quality can be rejected; its message is handed on as it is.
pub fn resolve_encoding_settings(quality: (bool, Option<&str>), pnm_ascii: bool) -> (res: Result<
    FormatEncodingSettings,
    String,
>)
    ensures
        match res {
            Ok(settings) => {
                &&& jpeg_quality(quality.0, quality.1.deep_view()) == Ok::<int, Seq<char>>(
                    settings.jpeg_settings@,
                )
                &&& settings.pnm_settings.ascii == pnm_ascii
            },
            Err(message) => jpeg_quality(quality.0, quality.1.deep_view()) == Err::<
                int,
                Seq<char>,
            >(message@),
        },
{
    match JPEGEncodingSettings::new_result(quality) {
        Ok(jpeg_settings) => Ok(
            FormatEncodingSettings { jpeg_settings, pnm_settings: PNMEncodingSettings::new(pnm_ascii) },
        ),
        Err(message) => Err(message),
    }
}

/// The candidates for the output path, in order of precedence: the output path option
/// itself, then the front-end's own output path option.
pub open spec fn output_candidates(options: RawOptionsView) -> Seq<Option<Seq<char>>> {
    seq![options.output, options.output_file]
}

/// The configuration that raw options resolve to, or the message that says which
/// option was not accepted.
pub open spec fn resolved_config(
    options: RawOptionsView,
    tool_name: Seq<char>,
    app_config: Seq<Option<Seq<char>>>,
) -> Result<ConfigView, Seq<char>> {
    match jpeg_quality(options.jpeg_encoding_quality_present, options.jpeg_encoding_quality) {
        Ok(quality) => Ok(
            ConfigView {
                tool_name,
                licenses: selected_licenses(options.license, options.dep_licenses),
                forced_output_format: options.forced_output_format,
                disable_automatic_color_type_adjustment:
                    options.disable_automatic_color_type_adjustment,
                jpeg_quality: quality,
                pnm_ascii: options.pnm_encoding_ascii,
                output: first_some(output_candidates(options)),
                application_specific: app_config,
            },
        ),
        Err(message) => Err(message),
    }
}

/// The outcome of a resolution as plain values.
pub open spec fn outcome_view(outcome: Result<Config, String>) -> Result<ConfigView, Seq<char>> {
    match outcome {
        Ok(config) => Ok(config@),
        Err(message) => Err(message@),
    }
}

/// A copy of an optional text.
fn copy_text(text: &Option<String>) -> (copy: Option<String>)
    ensures
        copy.deep_view() == text.deep_view(),
{
    match text {
        Some(value) => Some(value.clone()),
        None => None,
    }
}

/// The value of an optional text, borrowed.
fn borrow_text(text: &Option<String>) -> (value: Option<&str>)
    ensures
        value.deep_view() == text.deep_view(),
{
    match text {
        Some(value) => Some(value.as_str()),
        None => None,
    }
}

/// Builds the configuration of a run from raw options, the name of the tool and the
/// front-end's own settings, which are attached unchanged.
pub fn resolve_config(
    options: &RawOptions,
    tool_name: &'static str,
    app_config: Vec<ConfigItem>,
) -> (res: Result<Config, String>)
    ensures
        outcome_view(res) == resolved_config(options@, tool_name@, app_config.deep_view()),
        res is Ok ==> res->Ok_0.tool_name == tool_name && res->Ok_0.application_specific
            == app_config,
{
    let licenses = resolve_licenses(options.license, options.dep_licenses);
    let forced_output_format = copy_text(&options.forced_output_format);
    let encoding_settings = resolve_encoding_settings(
        (options.jpeg_encoding_quality_present, borrow_text(&options.jpeg_encoding_quality)),
        options.pnm_encoding_ascii,
    )?;
    let candidates = vec![&options.output, &options.output_file];
    assert(candidates.deep_view() =~= output_candidates(options@));
    let output = first_present(&candidates);
    Ok(
        Config {
            tool_name,
            licenses,
            forced_output_format,
            disable_automatic_color_type_adjustment:
                options.disable_automatic_color_type_adjustment,
            encoding_settings,
            output,
            application_specific: app_config,
        },
    )
}

/// Builds the configuration of a run from the matches that `clap` found on the command
/// line, the name of the tool and the front-end's own settings.
pub fn get_default_config(
    matches: &ArgMatches,
    tool_name: &'static str,
    app_config: Vec<ConfigItem>,
) -> (res: Result<Config, String>)
    ensures
        outcome_view(res) == resolved_config(
            raw_options_of(*matches),
            tool_name@,
            app_config.deep_view(),
        ),
        res is Ok ==> res->Ok_0.tool_name == tool_name && res->Ok_0.application_specific
            == app_config,
{
    let options = read_options(matches);
    resolve_config(&options, tool_name, app_config)
}

/// The output path option takes precedence over the front-end's own: with both given the
/// resolved output is the first, with only the second given it is the second, and with
/// neither there is none.
pub proof fn lemma_output_precedence(
    options: RawOptionsView,
    tool_name: Seq<char>,
    app_config: Seq<Option<Seq<char>>>,
)
    requires
        resolved_config(options, tool_name, app_config) is Ok,
    ensures
        resolved_config(options, tool_name, app_config)->Ok_0.output == match (
            options.output,
            options.output_file,
        ) {
            (Some(primary), _) => Some(primary),
            (None, Some(alias)) => Some(alias),
            (None, None) => None,
        },
{
    let candidates = output_candidates(options);
    if options.output is None {
        assert(candidates.skip(1) =~= seq![options.output_file]);
        assert(candidates.skip(1).skip(1) =~= Seq::empty());
        reveal_with_fuel(first_some, 3);
    }
}

/// Resolution fails exactly if the quality flag is rejected, and then with the message
/// of the quality validation, unchanged.
pub proof fn lemma_resolution_fails_with_quality(
    options: RawOptionsView,
    tool_name: Seq<char>,
    app_config: Seq<Option<Seq<char>>>,
)
    ensures
        resolved_config(options, tool_name, app_config) is Err <==> jpeg_quality(
            options.jpeg_encoding_quality_present,
            options.jpeg_encoding_quality,
        ) is Err,
        resolved_config(options, tool_name, app_config) is Err ==> resolved_config(
            options,
            tool_name,
            app_config,
        )->Err_0 == jpeg_quality(
            options.jpeg_encoding_quality_present,
            options.jpeg_encoding_quality,
        )->Err_0,
{
}

/// Resolution is deterministic: two resolutions of raw options, tool names and front-end
/// settings that are the same as plain values end the same way, field by field.
pub proof fn lemma_resolution_deterministic(
    options_a: RawOptions,
    tool_name_a: &str,
    app_config_a: Vec<ConfigItem>,
    outcome_a: Result<Config, String>,
    options_b: RawOptions,
    tool_name_b: &str,
    app_config_b: Vec<ConfigItem>,
    outcome_b: Result<Config, String>,
)
    requires
        options_a@ == options_b@,
        tool_name_a@ == tool_name_b@,
        app_config_a.deep_view() == app_config_b.deep_view(),
        outcome_view(outcome_a) == resolved_config(
            options_a@,
            tool_name_a@,
            app_config_a.deep_view(),
        ),
        outcome_view(outcome_b) == resolved_config(
            options_b@,
            tool_name_b@,
            app_config_b.deep_view(),
        ),
    ensures
        outcome_a is Ok <==> outcome_b is Ok,
        outcome_a is Ok ==> {
            let a = outcome_a->Ok_0;
            let b = outcome_b->Ok_0;
            &&& a.tool_name@ == b.tool_name@
            &&& a.licenses@ == b.licenses@
            &&& a.forced_output_format.deep_view() == b.forced_output_format.deep_view()
            &&& a.disable_automatic_color_type_adjustment
                == b.disable_automatic_color_type_adjustment
            &&& a.encoding_settings.jpeg_settings@ == b.encoding_settings.jpeg_settings@
            &&& a.encoding_settings.pnm_settings.ascii == b.encoding_settings.pnm_settings.ascii
            &&& a.output.deep_view() == b.output.deep_view()
            &&& a.application_specific.deep_view() == b.application_specific.deep_view()
        },
        outcome_a is Err ==> outcome_a->Err_0@ == outcome_b->Err_0@,
{
    assert(outcome_view(outcome_a) == outcome_view(outcome_b));
    if outcome_a is Ok {
        assert(outcome_a->Ok_0@ == outcome_b->Ok_0@);
    }
}

} // verus!
