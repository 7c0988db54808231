use stew_lib::{first_present, resolve_config};
use stew_lib::{Config, ConfigItem, RawOptions, SelectedLicenses};

const REJECTED: &str =
    "JPEG Encoding Settings error: --jpeg-encoding-quality requires a number between 1 and 100, but received: ";

fn text(value: &str) -> Option<String> {
    Some(value.to_string())
}

fn resolve(options: &RawOptions) -> Result<Config, String> {
    resolve_config(options, "stew", vec![])
}

#[test]
fn options_of_an_empty_command_line() {
    let options = RawOptions::default();
    assert_eq!(
        options,
        RawOptions {
            license: false,
            dep_licenses: false,
            forced_output_format: None,
            disable_automatic_color_type_adjustment: false,
            jpeg_encoding_quality_present: false,
            jpeg_encoding_quality: None,
            pnm_encoding_ascii: false,
            input: None,
            input_file: None,
            output: None,
            output_file: None,
        }
    );
}

#[test]
fn empty_options_resolve_to_the_defaults() {
    let config = resolve(&RawOptions::default()).unwrap();
    assert_eq!(config.tool_name, "stew");
    assert_eq!(config.licenses, vec![]);
    assert_eq!(config.forced_output_format, None);
    assert!(!config.disable_automatic_color_type_adjustment);
    assert_eq!(config.encoding_settings.jpeg_settings.quality(), 80);
    assert!(!config.encoding_settings.pnm_settings.ascii);
    assert_eq!(config.output, None);
    assert_eq!(config.application_specific, vec![]);
}

#[test]
fn every_option_reaches_its_field() {
    let options = RawOptions {
        license: true,
        dep_licenses: true,
        forced_output_format: text("PNG"),
        disable_automatic_color_type_adjustment: true,
        jpeg_encoding_quality_present: true,
        jpeg_encoding_quality: text("42"),
        pnm_encoding_ascii: true,
        input: text("in.jpg"),
        input_file: text("other_in.jpg"),
        output: text("out.png"),
        output_file: text("other_out.png"),
    };
    let items = vec![
        ConfigItem::OptionStringItem(text("script")),
        ConfigItem::OptionStringItem(None),
    ];
    let config = resolve_config(&options, "sic", items).unwrap();
    assert_eq!(config.tool_name, "sic");
    assert_eq!(
        config.licenses,
        vec![SelectedLicenses::ThisSoftware, SelectedLicenses::Dependencies]
    );
    assert_eq!(config.forced_output_format, text("PNG"));
    assert!(config.disable_automatic_color_type_adjustment);
    assert_eq!(config.encoding_settings.jpeg_settings.quality(), 42);
    assert!(config.encoding_settings.pnm_settings.ascii);
    assert_eq!(config.output, text("out.png"));
    assert_eq!(
        config.application_specific,
        vec![
            ConfigItem::OptionStringItem(text("script")),
            ConfigItem::OptionStringItem(None),
        ]
    );
}

#[test]
fn forced_output_format_is_copied_verbatim() {
    let options = RawOptions { forced_output_format: text(" JpEg "), ..RawOptions::default() };
    assert_eq!(resolve(&options).unwrap().forced_output_format, text(" JpEg "));
}

#[test]
fn output_prefers_the_output_option_over_the_alias() {
    let options = RawOptions {
        output: text("primary.png"),
        output_file: text("alias.png"),
        ..RawOptions::default()
    };
    assert_eq!(resolve(&options).unwrap().output, text("primary.png"));
}

#[test]
fn output_falls_back_to_the_alias() {
    let options = RawOptions { output_file: text("alias.png"), ..RawOptions::default() };
    assert_eq!(resolve(&options).unwrap().output, text("alias.png"));
}

#[test]
fn output_without_alias_is_the_output_option() {
    let options = RawOptions { output: text("primary.png"), ..RawOptions::default() };
    assert_eq!(resolve(&options).unwrap().output, text("primary.png"));
}

#[test]
fn output_is_unset_without_either_option() {
    let options = RawOptions { input: text("in.png"), ..RawOptions::default() };
    assert_eq!(resolve(&options).unwrap().output, None);
}

#[test]
fn input_options_do_not_reach_the_output() {
    let options = RawOptions {
        input: text("in.png"),
        input_file: text("in2.png"),
        ..RawOptions::default()
    };
    assert_eq!(resolve(&options).unwrap().output, None);
}

#[test]
fn rejected_quality_fails_the_resolution_with_its_message() {
    let options = RawOptions {
        license: true,
        jpeg_encoding_quality_present: true,
        jpeg_encoding_quality: text("101"),
        output: text("out.jpg"),
        ..RawOptions::default()
    };
    assert_eq!(resolve(&options), Err(format!("{}101", REJECTED)));
}

#[test]
fn quality_flag_without_value_fails_the_resolution() {
    let options = RawOptions { jpeg_encoding_quality_present: true, ..RawOptions::default() };
    assert_eq!(
        resolve(&options),
        Err("JPEG Encoding Settings error: --jpeg-encoding-quality requires a number between 1 and 100, but received no value.".to_string())
    );
}

#[test]
fn quality_value_without_the_flag_is_not_looked_at() {
    let options = RawOptions { jpeg_encoding_quality: text("101"), ..RawOptions::default() };
    assert_eq!(resolve(&options).unwrap().encoding_settings.jpeg_settings.quality(), 80);
}

#[test]
fn resolution_is_deterministic() {
    let make = || RawOptions {
        dep_licenses: true,
        forced_output_format: text("bmp"),
        jpeg_encoding_quality_present: true,
        jpeg_encoding_quality: text("77"),
        output_file: text("alias.bmp"),
        ..RawOptions::default()
    };
    let items = || vec![ConfigItem::OptionStringItem(text("x"))];
    let first = resolve_config(&make(), "stew", items());
    let second = resolve_config(&make(), "stew", items());
    assert_eq!(first, second);
    let config = first.unwrap();
    assert_eq!(config.licenses, vec![SelectedLicenses::Dependencies]);
    assert_eq!(config.encoding_settings.jpeg_settings.quality(), 77);
    assert_eq!(config.output, text("alias.bmp"));

    let failing = || RawOptions {
        jpeg_encoding_quality_present: true,
        jpeg_encoding_quality: text("none"),
        ..RawOptions::default()
    };
    assert_eq!(
        resolve_config(&failing(), "stew", items()),
        resolve_config(&failing(), "stew", items())
    );
}

#[test]
fn first_present_goes_by_the_order_of_the_list() {
    let a = text("a");
    let b = text("b");
    let none: Option<String> = None;
    assert_eq!(first_present(&vec![]), None);
    assert_eq!(first_present(&vec![&none]), None);
    assert_eq!(first_present(&vec![&none, &none]), None);
    assert_eq!(first_present(&vec![&a]), text("a"));
    assert_eq!(first_present(&vec![&a, &b]), text("a"));
    assert_eq!(first_present(&vec![&b, &a]), text("b"));
    assert_eq!(first_present(&vec![&none, &b]), text("b"));
    assert_eq!(first_present(&vec![&none, &none, &a, &b]), text("a"));
    assert_eq!(first_present(&vec![&a, &none]), text("a"));
}
