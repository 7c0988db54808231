//! The command-line surface of the tool: which arguments exist, how they are spelled,
//! and the `clap` application that parses them.

use clap::{App, Arg};
use vstd::prelude::*;

verus! {

/// Name under which the forced output format is matched.
pub const ARG_FORCED_OUTPUT_FORMAT: &'static str = "forced_output_format";

/// Name under which the flag for the tool's own license is matched.
pub const ARG_LICENSE: &'static str = "license";

/// Name under which the flag for the dependencies' licenses is matched.
pub const ARG_DEP_LICENSES: &'static str = "dep_licenses";

/// Name under which the JPEG quality is matched.
pub const ARG_JPEG_ENCODING_QUALITY: &'static str = "jpeg_encoding_quality";

/// Name under which the PNM ascii flag is matched.
pub const ARG_PNM_ENCODING_ASCII: &'static str = "pnm_encoding_ascii";

/// Name under which the flag that switches off color type adjustment is matched.
pub const ARG_DISABLE_AUTOMATIC_COLOR_TYPE_ADJUSTMENT: &'static str =
    "disable_automatic_color_type_adjustment";

/// Name under which the input path is matched.
pub const ARG_INPUT: &'static str = "input";

/// Name under which the output path is matched.
pub const ARG_OUTPUT: &'static str = "output";

/// Name under which a front-end may match its own input path option.
pub const ARG_INPUT_FILE: &'static str = "input_file";

/// Name under which a front-end may match its own output path option.
pub const ARG_OUTPUT_FILE: &'static str = "output_file";

/// Author line of the application.
pub const AUTHOR: &'static str = "Martijn Gribnau <garm@ilumeo.com>";

/// Long form of the forced output format option.
pub const LONG_FORCED_OUTPUT_FORMAT: &'static str = "output-format";

/// Long form of the flag for the tool's own license.
pub const LONG_LICENSE: &'static str = "license";

/// Long form of the flag for the dependencies' licenses.
pub const LONG_DEP_LICENSES: &'static str = "dep-licenses";

/// Long form of the JPEG quality option.
pub const LONG_JPEG_ENCODING_QUALITY: &'static str = "jpeg-encoding-quality";

/// Long form of the PNM ascii flag.
pub const LONG_PNM_ENCODING_ASCII: &'static str = "pnm-encoding-ascii";

/// Long form of the flag that switches off color type adjustment.
pub const LONG_DISABLE_AUTOMATIC_COLOR_TYPE_ADJUSTMENT: &'static str =
    "disable-automatic-color-type-adjustment";

/// Long form of the input path option.
pub const LONG_INPUT: &'static str = "input";

/// Long form of the output path option.
pub const LONG_OUTPUT: &'static str = "output";

/// How the help calls the value of the forced output format option.
pub const VALUE_FORMAT: &'static str = "FORMAT";

/// How the help calls the value of the JPEG quality option.
pub const VALUE_QUALITY: &'static str = "QUALITY";

/// How the help calls the value of the input path option.
pub const VALUE_FILE_INPUT: &'static str = "FILE_INPUT";

/// How the help calls the value of the output path option.
pub const VALUE_FILE_OUTPUT: &'static str = "FILE_OUTPUT";

/// Help text of the forced output format option.
pub const HELP_FORCED_OUTPUT_FORMAT: &'static str =
    "Force the output image format to use FORMAT, regardless of the (if any) extension of the given output file path. Output formats (FORMAT values) supported: BMP, GIF, ICO, JPEG, PNG, PBM, PGM, PPM and PAM.";

/// Help text of the flag for the tool's own license.
pub const HELP_LICENSE: &'static str = "Displays the license of this piece of software (`stew`).";

/// Help text of the flag for the dependencies' licenses.
pub const HELP_DEP_LICENSES: &'static str =
    "Displays the licenses of the dependencies on which this software relies.";

/// Help text of the JPEG quality option.
pub const HELP_JPEG_ENCODING_QUALITY: &'static str =
    "Set the jpeg quality to QUALITY. Valid values are natural numbers from 1 up to and including 100. Will only be used when the output format is determined to be jpeg.";

/// Help text of the PNM ascii flag.
pub const HELP_PNM_ENCODING_ASCII: &'static str =
    "Use ascii based encoding when using a PNM image output format (pbm, pgm or ppm). Doesn't apply to 'pam' (PNM Arbitrary Map).";

/// Help text of the flag that switches off color type adjustment.
pub const HELP_DISABLE_AUTOMATIC_COLOR_TYPE_ADJUSTMENT: &'static str =
    "Some image output formats do not support the color type of the image buffer prior to encoding. By default Stew tries to adjust the color type. If this flag is provided, sic will not try to adjust the color type.";

/// Help text of the input path option.
pub const HELP_INPUT: &'static str =
    "Input image path. When using this option, input piped from stdin will be ignored.";

/// Help text of the output path option.
pub const HELP_OUTPUT: &'static str =
    "Output image path. When using this option, output won't be piped to stdout.";

/// One argument of the command line, as the tool describes it.
#[derive(Debug, Clone, Copy)]
pub struct Argument {
    /// Name under which the argument is found among the matches.
    pub name: &'static str,
    /// The letter of the short form, if the argument has one.
    pub short: Option<char>,
    /// The long form, without the leading dashes.
    pub long: &'static str,
    /// How the help text calls the value; an argument takes a value exactly if it has one.
    pub value_name: Option<&'static str>,
    /// The help text.
    pub help: &'static str,
}

/// What has been set on a `clap` argument.
pub ghost struct ArgModel {
    /// The name under which the argument is matched.
    pub name: Seq<char>,
    /// The letter of the short form.
    pub short: Option<char>,
    /// The long form, without leading dashes.
    pub long: Option<Seq<char>>,
    /// The names of the values, in the order in which they were given.
    pub value_names: Seq<Seq<char>>,
    /// Whether the argument takes a value.
    pub takes_value: bool,
    /// The help text.
    pub help: Option<Seq<char>>,
    /// Nothing but the above has been set: no index, group, requirement or other setting.
    pub bare: bool,
}

/// What has been set on a `clap` application.
pub ghost struct AppModel {
    /// The name of the application.
    pub name: Seq<char>,
    /// The author line.
    pub author: Option<Seq<char>>,
    /// The arguments, in the order in which they were added.
    pub args: Seq<ArgModel>,
}

impl Argument {
    /// What is set on the `clap` argument that stands for this one.
    pub open spec fn model(self) -> ArgModel {
        ArgModel {
            name: self.name@,
            short: self.short,
            long: Some(self.long@),
            value_names: match self.value_name {
                Some(v) => seq![v@],
                None => Seq::empty(),
            },
            takes_value: self.value_name is Some,
            help: Some(self.help@),
            bare: true,
        }
    }

    /// Neither form starts with a dash: the dashes belong to the command line, not to the form.
    pub open spec fn well_formed(self) -> bool {
        &&& self.short != Some('-')
        &&& !starts_with_dash(self.long@)
    }
}

/// Whether the text begins with a dash.
pub open spec fn starts_with_dash(s: Seq<char>) -> bool {
    s.len() > 0 && s[0] == '-'
}

/// The models of a list of arguments, in the same order.
pub open spec fn models(arguments: Seq<Argument>) -> Seq<ArgModel> {
    Seq::new(arguments.len(), |i: int| arguments[i].model())
}

/// Whether `arg` can stand beside `other` in one application: the names differ, and so do
/// the long forms and the short forms where `arg` has them.
pub open spec fn compatible(other: ArgModel, arg: ArgModel) -> bool {
    &&& other.name != arg.name
    &&& arg.long is Some ==> other.long != arg.long
    &&& arg.short is Some ==> other.short != arg.short
}

/// Whether no two arguments of the list clash in name, long form or short form.
pub open spec fn distinct(args: Seq<ArgModel>) -> bool {
    forall|i: int, j: int| 0 <= i < j < args.len() ==> compatible(args[i], args[j])
}

#[verifier::external_type_specification]
#[verifier::external_body]
pub struct ExApp<'a, 'b>(App<'a, 'b>) where 'a: 'b;

#[verifier::external_type_specification]
#[verifier::external_body]
pub struct ExArg<'a, 'b>(Arg<'a, 'b>) where 'a: 'b;

/// What has been set on an argument so far.
pub uninterp spec fn arg_model(arg: Arg<'static, 'static>) -> ArgModel;

/// What has been set on an application so far.
pub uninterp spec fn app_model(app: App<'static, 'static>) -> AppModel;

/// `Arg::with_name`: a fresh argument carries its name and nothing else.
#[verifier::external_body]
fn arg_with_name(name: &'static str) -> (arg: Arg<'static, 'static>)
    ensures
        arg_model(arg) == (ArgModel {
            name: name@,
            short: None,
            long: None,
            value_names: Seq::empty(),
            takes_value: false,
            help: None,
            bare: true,
        }),
{
    Arg::with_name(name)
}

/// `Arg::short`: the short form becomes the given letter. `clap` strips leading dashes
/// first, so a dash itself is left out.
#[verifier::external_body]
fn arg_short(arg: Arg<'static, 'static>, short: char) -> (res: Arg<'static, 'static>)
    requires
        short != '-',
    ensures
        arg_model(res) == (ArgModel { short: Some(short), ..arg_model(arg) }),
{
    arg.short(short.to_string())
}

/// `Arg::long`: the long form becomes the given text. `clap` strips leading dashes
/// first, so a text that starts with one is left out.
#[verifier::external_body]
fn arg_long(arg: Arg<'static, 'static>, long: &'static str) -> (res: Arg<'static, 'static>)
    requires
        !starts_with_dash(long@),
    ensures
        arg_model(res) == (ArgModel { long: Some(long@), ..arg_model(arg) }),
{
    arg.long(long)
}

/// `Arg::value_name`: one more value name is appended, and the argument takes a value.
#[verifier::external_body]
fn arg_value_name(arg: Arg<'static, 'static>, value_name: &'static str) -> (res: Arg<
    'static,
    'static,
>)
    ensures
        arg_model(res) == (ArgModel {
            value_names: arg_model(arg).value_names.push(value_name@),
            takes_value: true,
            ..arg_model(arg)
        }),
{
    arg.value_name(value_name)
}

/// `Arg::help`: the help text becomes the given text.
#[verifier::external_body]
fn arg_help(arg: Arg<'static, 'static>, help: &'static str) -> (res: Arg<'static, 'static>)
    ensures
        arg_model(res) == (ArgModel { help: Some(help@), ..arg_model(arg) }),
{
    arg.help(help)
}

/// `App::new`: a fresh application carries its name, no author and no argument.
#[verifier::external_body]
fn app_new(name: &str) -> (app: App<'static, 'static>)
    ensures
        app_model(app) == (AppModel { name: name@, author: None, args: Seq::empty() }),
{
    App::new(name)
}

/// `App::author`: the author line becomes the given text.
#[verifier::external_body]
fn app_author(app: App<'static, 'static>, author: &'static str) -> (res: App<'static, 'static>)
    ensures
        app_model(res) == (AppModel { author: Some(author@), ..app_model(app) }),
{
    app.author(author)
}

/// `App::arg`: the argument is added behind those already there. `clap` asserts that a
/// new argument's name, long form and short form are not in use yet; here the argument
/// is one with a long or short form and nothing set beyond the model.
#[verifier::external_body]
fn app_arg(app: App<'static, 'static>, arg: Arg<'static, 'static>) -> (res: App<
    'static,
    'static,
>)
    requires
        arg_model(arg).bare,
        arg_model(arg).long is Some || arg_model(arg).short is Some,
        forall|i: int|
            0 <= i < app_model(app).args.len() ==> compatible(
                #[trigger] app_model(app).args[i],
                arg_model(arg),
            ),
    ensures
        app_model(res) == (AppModel {
            args: app_model(app).args.push(arg_model(arg)),
            ..app_model(app)
        }),
{
    app.arg(arg)
}

/// The `clap` argument that stands for `argument`.
fn build_arg(argument: &Argument) -> (arg: Arg<'static, 'static>)
    requires
        argument.well_formed(),
    ensures
        arg_model(arg) == argument.model(),
{
    let mut arg = arg_long(arg_with_name(argument.name), argument.long);
    if let Some(short) = argument.short {
        arg = arg_short(arg, short);
    }
    if let Some(value_name) = argument.value_name {
        arg = arg_value_name(arg, value_name);
        assert(arg_model(arg).value_names =~= seq![value_name@]);
    }
    arg_help(arg, argument.help)
}

/// An application with the given name and author and the given arguments, in order.
fn build_app(name: &str, author: &'static str, arguments: &Vec<Argument>) -> (app: App<
    'static,
    'static,
>)
    requires
        forall|i: int| 0 <= i < arguments.len() ==> (#[trigger] arguments[i]).well_formed(),
        distinct(models(arguments@)),
    ensures
        app_model(app) == (AppModel {
            name: name@,
            author: Some(author@),
            args: models(arguments@),
        }),
{
    let mut app = app_author(app_new(name), author);
    let mut i: usize = 0;
    assert(models(arguments@).take(0) =~= Seq::empty());
    while i < arguments.len()
        invariant
            i <= arguments.len(),
            forall|k: int| 0 <= k < arguments.len() ==> (#[trigger] arguments[k]).well_formed(),
            distinct(models(arguments@)),
            app_model(app) == (AppModel {
                name: name@,
                author: Some(author@),
                args: models(arguments@).take(i as int),
            }),
        decreases arguments.len() - i,
    {
        let arg = build_arg(&arguments[i]);
        assert forall|k: int| 0 <= k < app_model(app).args.len() implies compatible(
            #[trigger] app_model(app).args[k],
            arg_model(arg),
        ) by {
            assert(app_model(app).args[k] == models(arguments@)[k]);
            assert(arg_model(arg) == models(arguments@)[i as int]);
        }
        app = app_arg(app, arg);
        assert(models(arguments@).take(i as int).push(models(arguments@)[i as int]) =~= models(
            arguments@,
        ).take(i + 1));
        i += 1;
    }
    assert(models(arguments@).take(i as int) =~= models(arguments@));
    app
}

/// The arguments of the command line, in the order in which the help lists them.
pub open spec fn cli_surface() -> Seq<Argument> {
    seq![
        Argument {
            name: ARG_FORCED_OUTPUT_FORMAT,
            short: Some('f'),
            long: LONG_FORCED_OUTPUT_FORMAT,
            value_name: Some(VALUE_FORMAT),
            help: HELP_FORCED_OUTPUT_FORMAT,
        },
        Argument {
            name: ARG_LICENSE,
            short: None,
            long: LONG_LICENSE,
            value_name: None,
            help: HELP_LICENSE,
        },
        Argument {
            name: ARG_DEP_LICENSES,
            short: None,
            long: LONG_DEP_LICENSES,
            value_name: None,
            help: HELP_DEP_LICENSES,
        },
        Argument {
            name: ARG_JPEG_ENCODING_QUALITY,
            short: None,
            long: LONG_JPEG_ENCODING_QUALITY,
            value_name: Some(VALUE_QUALITY),
            help: HELP_JPEG_ENCODING_QUALITY,
        },
        Argument {
            name: ARG_PNM_ENCODING_ASCII,
            short: None,
            long: LONG_PNM_ENCODING_ASCII,
            value_name: None,
            help: HELP_PNM_ENCODING_ASCII,
        },
        Argument {
            name: ARG_DISABLE_AUTOMATIC_COLOR_TYPE_ADJUSTMENT,
            short: None,
            long: LONG_DISABLE_AUTOMATIC_COLOR_TYPE_ADJUSTMENT,
            value_name: None,
            help: HELP_DISABLE_AUTOMATIC_COLOR_TYPE_ADJUSTMENT,
        },
        Argument {
            name: ARG_INPUT,
            short: Some('i'),
            long: LONG_INPUT,
            value_name: Some(VALUE_FILE_INPUT),
            help: HELP_INPUT,
        },
        Argument {
            name: ARG_OUTPUT,
            short: Some('o'),
            long: LONG_OUTPUT,
            value_name: Some(VALUE_FILE_OUTPUT),
            help: HELP_OUTPUT,
        },
    ]
}

/// The arguments of the command line.
pub fn cli_arguments() -> (arguments: Vec<Argument>)
    ensures
        arguments@ == cli_surface(),
{
    let mut arguments: Vec<Argument> = Vec::new();
    arguments.push(
        Argument {
            name: ARG_FORCED_OUTPUT_FORMAT,
            short: Some('f'),
            long: LONG_FORCED_OUTPUT_FORMAT,
            value_name: Some(VALUE_FORMAT),
            help: HELP_FORCED_OUTPUT_FORMAT,
        },
    );
    arguments.push(
        Argument {
            name: ARG_LICENSE,
            short: None,
            long: LONG_LICENSE,
            value_name: None,
            help: HELP_LICENSE,
        },
    );
    arguments.push(
        Argument {
            name: ARG_DEP_LICENSES,
            short: None,
            long: LONG_DEP_LICENSES,
            value_name: None,
            help: HELP_DEP_LICENSES,
        },
    );
    arguments.push(
        Argument {
            name: ARG_JPEG_ENCODING_QUALITY,
            short: None,
            long: LONG_JPEG_ENCODING_QUALITY,
            value_name: Some(VALUE_QUALITY),
            help: HELP_JPEG_ENCODING_QUALITY,
        },
    );
    arguments.push(
        Argument {
            name: ARG_PNM_ENCODING_ASCII,
            short: None,
            long: LONG_PNM_ENCODING_ASCII,
            value_name: None,
            help: HELP_PNM_ENCODING_ASCII,
        },
    );
    arguments.push(
        Argument {
            name: ARG_DISABLE_AUTOMATIC_COLOR_TYPE_ADJUSTMENT,
            short: None,
            long: LONG_DISABLE_AUTOMATIC_COLOR_TYPE_ADJUSTMENT,
            value_name: None,
            help: HELP_DISABLE_AUTOMATIC_COLOR_TYPE_ADJUSTMENT,
        },
    );
    arguments.push(
        Argument {
            name: ARG_INPUT,
            short: Some('i'),
            long: LONG_INPUT,
            value_name: Some(VALUE_FILE_INPUT),
            help: HELP_INPUT,
        },
    );
    arguments.push(
        Argument {
            name: ARG_OUTPUT,
            short: Some('o'),
            long: LONG_OUTPUT,
            value_name: Some(VALUE_FILE_OUTPUT),
            help: HELP_OUTPUT,
        },
    );
    assert(arguments@ =~= cli_surface());
    arguments
}

/// Every argument of the command line is well formed, and no two of them clash in
/// name, long form or short form.
pub proof fn lemma_cli_surface_is_sound()
    ensures
        forall|i: int| 0 <= i < cli_surface().len() ==> (#[trigger] cli_surface()[i]).well_formed(),
        distinct(models(cli_surface())),
{
    reveal_strlit("forced_output_format");
    reveal_strlit("license");
    reveal_strlit("dep_licenses");
    reveal_strlit("jpeg_encoding_quality");
    reveal_strlit("pnm_encoding_ascii");
    reveal_strlit("disable_automatic_color_type_adjustment");
    reveal_strlit("input");
    reveal_strlit("output");
    reveal_strlit("output-format");
    reveal_strlit("dep-licenses");
    reveal_strlit("jpeg-encoding-quality");
    reveal_strlit("pnm-encoding-ascii");
    reveal_strlit("disable-automatic-color-type-adjustment");
    let args = models(cli_surface());
    assert(args.len() == 8);
    assert(args[0].name.len() == 20 && args[0].long->0.len() == 13);
    assert(args[1].name.len() == 7 && args[1].long->0.len() == 7);
    assert(args[2].name.len() == 12 && args[2].long->0.len() == 12);
    assert(args[3].name.len() == 21 && args[3].long->0.len() == 21);
    assert(args[4].name.len() == 18 && args[4].long->0.len() == 18);
    assert(args[5].name.len() == 39 && args[5].long->0.len() == 39);
    assert(args[6].name.len() == 5 && args[6].long->0.len() == 5);
    assert(args[7].name.len() == 6 && args[7].long->0.len() == 6);
    assert forall|i: int, j: int| 0 <= i < j < args.len() implies compatible(
        args[i],
        args[j],
    ) by {
        assert(args[i].name.len() != args[j].name.len());
        assert(args[i].long->0.len() != args[j].long->0.len());
    }
}

/// The application that parses the tool's command line: it carries the given name and
/// the arguments of [`cli_surface`], in that order.
pub fn get_app_skeleton(name: &str) -> (app: App<'static, 'static>)
    ensures
        app_model(app) == (AppModel {
            name: name@,
            author: Some(AUTHOR@),
            args: models(cli_surface()),
        }),
{
    let arguments = cli_arguments();
    proof {
        lemma_cli_surface_is_sound();
    }
    build_app(name, AUTHOR, &arguments)
}

} // verus!
