use clap::{Arg, ArgMatches, ErrorKind};
use stew_lib::{cli_arguments, get_app_skeleton, get_default_config, plan_import, read_options};
use stew_lib::{ConfigItem, RawOptions, SelectedLicenses};

fn text(value: &str) -> Option<String> {
    Some(value.to_string())
}

fn matches_of(arguments: &[&str]) -> ArgMatches<'static> {
    let mut line = vec!["stew"];
    line.extend_from_slice(arguments);
    get_app_skeleton("stew").get_matches_from_safe(line).unwrap()
}

fn help_of(name: &str) -> String {
    let mut out: Vec<u8> = Vec::new();
    get_app_skeleton(name).write_long_help(&mut out).unwrap();
    String::from_utf8(out).unwrap()
}

#[test]
fn quality_input_and_output_are_resolved() {
    let matches = matches_of(&["--jpeg-encoding-quality", "85", "-i", "in.jpg", "-o", "out.png"]);
    let config = get_default_config(&matches, "stew", vec![]).unwrap();
    assert_eq!(config.encoding_settings.jpeg_settings.quality(), 85);
    assert_eq!(config.output, text("out.png"));
    assert_eq!(config.tool_name, "stew");
    assert_eq!(config.licenses, vec![]);
    assert_eq!(config.forced_output_format, None);
    assert!(!config.disable_automatic_color_type_adjustment);
    assert!(!config.encoding_settings.pnm_settings.ascii);

    let options = read_options(&matches);
    let plan = plan_import(&options, &config);
    assert_eq!(plan.advisory, None);
    assert_eq!(plan.input, text("in.jpg"));
}

#[test]
fn quality_out_of_range_fails_the_configuration() {
    let matches = matches_of(&["--jpeg-encoding-quality", "101"]);
    let message = get_default_config(&matches, "stew", vec![]).unwrap_err();
    assert!(message.contains("101"));
    assert!(message.contains("1 and 100"));
    assert_eq!(
        message,
        "JPEG Encoding Settings error: --jpeg-encoding-quality requires a number between 1 and 100, but received: 101"
    );
}

#[test]
fn both_license_flags_select_both_texts_in_order() {
    let matches = matches_of(&["--license", "--dep-licenses"]);
    let config = get_default_config(&matches, "stew", vec![]).unwrap();
    assert_eq!(
        config.licenses,
        vec![SelectedLicenses::ThisSoftware, SelectedLicenses::Dependencies]
    );

    let matches = matches_of(&["--dep-licenses", "--license"]);
    let config = get_default_config(&matches, "stew", vec![]).unwrap();
    assert_eq!(
        config.licenses,
        vec![SelectedLicenses::ThisSoftware, SelectedLicenses::Dependencies]
    );
}

#[test]
fn single_license_flags_select_their_text() {
    let config = get_default_config(&matches_of(&["--license"]), "stew", vec![]).unwrap();
    assert_eq!(config.licenses, vec![SelectedLicenses::ThisSoftware]);
    let config = get_default_config(&matches_of(&["--dep-licenses"]), "stew", vec![]).unwrap();
    assert_eq!(config.licenses, vec![SelectedLicenses::Dependencies]);
}

#[test]
fn no_output_flag_leaves_the_output_unset_and_import_says_so() {
    let matches = matches_of(&["-i", "in.jpg"]);
    let config = get_default_config(&matches, "stew", vec![]).unwrap();
    assert_eq!(config.output, None);
    let plan = plan_import(&read_options(&matches), &config);
    assert_eq!(
        plan.advisory,
        Some("The default output format is BMP. Use --output-format <FORMAT> to specify a different output format.")
    );
    assert_eq!(plan.input, text("in.jpg"));
}

#[test]
fn empty_command_line_gives_empty_options() {
    assert_eq!(read_options(&matches_of(&[])), RawOptions::default());
}

#[test]
fn every_flag_is_read_under_its_own_name() {
    let matches = matches_of(&[
        "--output-format",
        "jpg",
        "--license",
        "--dep-licenses",
        "--jpeg-encoding-quality",
        "33",
        "--pnm-encoding-ascii",
        "--disable-automatic-color-type-adjustment",
        "--input",
        "a.png",
        "--output",
        "b.png",
    ]);
    assert_eq!(
        read_options(&matches),
        RawOptions {
            license: true,
            dep_licenses: true,
            forced_output_format: text("jpg"),
            disable_automatic_color_type_adjustment: true,
            jpeg_encoding_quality_present: true,
            jpeg_encoding_quality: text("33"),
            pnm_encoding_ascii: true,
            input: text("a.png"),
            input_file: None,
            output: text("b.png"),
            output_file: None,
        }
    );
}

#[test]
fn each_flag_alone_sets_only_its_own_option() {
    assert_eq!(
        read_options(&matches_of(&["--license"])),
        RawOptions { license: true, ..RawOptions::default() }
    );
    assert_eq!(
        read_options(&matches_of(&["--dep-licenses"])),
        RawOptions { dep_licenses: true, ..RawOptions::default() }
    );
    assert_eq!(
        read_options(&matches_of(&["--pnm-encoding-ascii"])),
        RawOptions { pnm_encoding_ascii: true, ..RawOptions::default() }
    );
    assert_eq!(
        read_options(&matches_of(&["--disable-automatic-color-type-adjustment"])),
        RawOptions { disable_automatic_color_type_adjustment: true, ..RawOptions::default() }
    );
    assert_eq!(
        read_options(&matches_of(&["--jpeg-encoding-quality", "x"])),
        RawOptions {
            jpeg_encoding_quality_present: true,
            jpeg_encoding_quality: text("x"),
            ..RawOptions::default()
        }
    );
}

#[test]
fn short_forms_are_understood() {
    let matches = matches_of(&["-f", "png", "-i", "in.bmp", "-o", "out"]);
    assert_eq!(
        read_options(&matches),
        RawOptions {
            forced_output_format: text("png"),
            input: text("in.bmp"),
            output: text("out"),
            ..RawOptions::default()
        }
    );
}

#[test]
fn all_flags_reach_the_configuration() {
    let matches = matches_of(&[
        "-f",
        "pbm",
        "--pnm-encoding-ascii",
        "--disable-automatic-color-type-adjustment",
        "--jpeg-encoding-quality",
        "1",
        "-o",
        "out.jpg",
    ]);
    let items = vec![ConfigItem::OptionStringItem(text("script"))];
    let config = get_default_config(&matches, "stew", items).unwrap();
    assert_eq!(config.forced_output_format, text("pbm"));
    assert!(config.encoding_settings.pnm_settings.ascii);
    assert!(config.disable_automatic_color_type_adjustment);
    assert_eq!(config.encoding_settings.jpeg_settings.quality(), 1);
    assert_eq!(config.output, text("out.jpg"));
    assert_eq!(config.application_specific, vec![ConfigItem::OptionStringItem(text("script"))]);
}

#[test]
fn quality_that_is_no_number_fails_the_configuration() {
    let matches = matches_of(&["--jpeg-encoding-quality", "high"]);
    assert_eq!(
        get_default_config(&matches, "stew", vec![]),
        Err("JPEG Encoding Settings error: --jpeg-encoding-quality requires a number between 1 and 100, but received: high".to_string())
    );
}

#[test]
fn empty_quality_value_fails_the_configuration() {
    let matches = matches_of(&["--jpeg-encoding-quality="]);
    let options = read_options(&matches);
    assert!(options.jpeg_encoding_quality_present);
    assert_eq!(options.jpeg_encoding_quality, text(""));
    assert_eq!(
        get_default_config(&matches, "stew", vec![]),
        Err("JPEG Encoding Settings error: --jpeg-encoding-quality requires a number between 1 and 100, but received: ".to_string())
    );
}

#[test]
fn quality_is_taken_from_the_first_value() {
    let matches = matches_of(&["--jpeg-encoding-quality=+015", "--pnm-encoding-ascii"]);
    let config = get_default_config(&matches, "stew", vec![]).unwrap();
    assert_eq!(config.encoding_settings.jpeg_settings.quality(), 15);
    assert!(config.encoding_settings.pnm_settings.ascii);
}

#[test]
fn configuration_from_the_same_command_line_is_the_same() {
    let line = ["--license", "--jpeg-encoding-quality", "12", "-o", "x.gif", "-f", "gif"];
    let first = get_default_config(&matches_of(&line), "stew", vec![]);
    let second = get_default_config(&matches_of(&line), "stew", vec![]);
    assert!(first.is_ok());
    assert_eq!(first, second);
}

#[test]
fn front_end_aliases_are_read_where_the_front_end_defines_them() {
    let app = get_app_skeleton("sic")
        .arg(Arg::with_name("input_file").index(1))
        .arg(Arg::with_name("output_file").index(2));

    let matches = app.clone().get_matches_from_safe(vec!["sic", "a.png", "b.jpg"]).unwrap();
    let options = read_options(&matches);
    assert_eq!(options.input_file, text("a.png"));
    assert_eq!(options.output_file, text("b.jpg"));
    assert_eq!(options.input, None);
    assert_eq!(options.output, None);
    let config = get_default_config(&matches, "sic", vec![]).unwrap();
    assert_eq!(config.output, text("b.jpg"));
    assert_eq!(plan_import(&options, &config).input, text("a.png"));

    let matches = app
        .get_matches_from_safe(vec!["sic", "-o", "c.bmp", "-i", "d.bmp", "a.png", "b.jpg"])
        .unwrap();
    let options = read_options(&matches);
    let config = get_default_config(&matches, "sic", vec![]).unwrap();
    assert_eq!(config.output, text("c.bmp"));
    assert_eq!(plan_import(&options, &config).input, text("d.bmp"));
}

#[test]
fn skeleton_carries_its_name_and_author() {
    assert_eq!(get_app_skeleton("stew").get_name(), "stew");
    assert_eq!(get_app_skeleton("another tool").get_name(), "another tool");
    let help = help_of("stew");
    assert!(help.starts_with("stew"));
    assert!(help.contains("Martijn Gribnau <garm@ilumeo.com>"));
}

#[test]
fn help_lists_every_argument_with_its_forms() {
    let help = help_of("stew");
    for line in [
        "-f, --output-format <FORMAT>",
        "--license",
        "--dep-licenses",
        "--jpeg-encoding-quality <QUALITY>",
        "--pnm-encoding-ascii",
        "--disable-automatic-color-type-adjustment",
        "-i, --input <FILE_INPUT>",
        "-o, --output <FILE_OUTPUT>",
    ] {
        assert!(help.contains(line), "help lacks {}", line);
    }
    assert!(help.contains("Displays the license of this piece of software (`stew`)."));
    assert!(help.contains("Set the jpeg quality to QUALITY."));
    assert!(help.contains("Output image path."));
}

#[test]
fn flags_take_no_value_and_options_take_one() {
    let app = get_app_skeleton("stew");
    let error = app.clone().get_matches_from_safe(vec!["stew", "--license", "yes"]).unwrap_err();
    assert_eq!(error.kind, ErrorKind::UnknownArgument);
    let matches = app.clone().get_matches_from_safe(vec!["stew", "--license"]).unwrap();
    assert_eq!(matches.value_of("license"), None);
    let error = app.clone().get_matches_from_safe(vec!["stew", "--output"]).unwrap_err();
    assert_eq!(error.kind, ErrorKind::EmptyValue);
    let error = app.get_matches_from_safe(vec!["stew", "--quality", "3"]).unwrap_err();
    assert_eq!(error.kind, ErrorKind::UnknownArgument);
}

#[test]
fn table_of_arguments_is_what_the_skeleton_parses() {
    let arguments = cli_arguments();
    let names: Vec<&str> = arguments.iter().map(|a| a.name).collect();
    assert_eq!(
        names,
        vec![
            "forced_output_format",
            "license",
            "dep_licenses",
            "jpeg_encoding_quality",
            "pnm_encoding_ascii",
            "disable_automatic_color_type_adjustment",
            "input",
            "output",
        ]
    );
    let longs: Vec<&str> = arguments.iter().map(|a| a.long).collect();
    assert_eq!(
        longs,
        vec![
            "output-format",
            "license",
            "dep-licenses",
            "jpeg-encoding-quality",
            "pnm-encoding-ascii",
            "disable-automatic-color-type-adjustment",
            "input",
            "output",
        ]
    );
    let shorts: Vec<Option<char>> = arguments.iter().map(|a| a.short).collect();
    assert_eq!(shorts, vec![Some('f'), None, None, None, None, None, Some('i'), Some('o')]);
    let values: Vec<Option<&str>> = arguments.iter().map(|a| a.value_name).collect();
    assert_eq!(
        values,
        vec![
            Some("FORMAT"),
            None,
            None,
            Some("QUALITY"),
            None,
            None,
            Some("FILE_INPUT"),
            Some("FILE_OUTPUT"),
        ]
    );
    for argument in &arguments {
        let flag = format!("--{}", argument.long);
        let line = match argument.value_name {
            Some(_) => vec!["stew".to_string(), flag, "1".to_string()],
            None => vec!["stew".to_string(), flag],
        };
        let matches = get_app_skeleton("stew").get_matches_from_safe(line).unwrap();
        assert!(matches.is_present(argument.name));
        assert_eq!(matches.value_of(argument.name).is_some(), argument.value_name.is_some());
    }
}
