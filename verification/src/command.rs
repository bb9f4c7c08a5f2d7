use vstd::prelude::*;
use crate::decimal::spec_i32_decimal;
use crate::image::Image;
use crate::lines::views_of;
use crate::options::Args;
use crate::options::spec_config_param;

verus! {

/// An invocation of the external binary, ready to be spawned: the program
/// name and its argument list, in order.
#[derive(Debug, Clone)]
pub struct TessCommand {
    pub program: String,
    pub args: Vec<String>,
}

impl TessCommand {
    /// The argument list as plain text.
    pub open spec fn args_view(self) -> Seq<Seq<char>> {
        views_of(self.args@)
    }
}

/// The name the external binary is resolved by on the search path: the
/// executable-suffixed form on the windowed operating system, the bare name
/// elsewhere.
pub open spec fn spec_program_name(windows: bool) -> Seq<char> {
    if windows {
        "tesseract.exe"@
    } else {
        "tesseract"@
    }
}

/// The fixed arguments requesting the binary's version string.
pub open spec fn spec_version_args() -> Seq<Seq<char>> {
    seq!["--version"@]
}

/// The fixed arguments requesting the binary's installed language packs.
pub open spec fn spec_list_langs_args() -> Seq<Seq<char>> {
    seq!["--list-langs"@]
}

/// The arguments of a recognize invocation before any configuration flag:
/// the image path, the token sending output to standard output, and the
/// language, resolution, page-segmentation and engine-mode flags.
pub open spec fn spec_recognize_base_args(image: Image, args: Args) -> Seq<Seq<char>> {
    seq![
        image.path@,
        "stdout"@,
        "-l"@,
        args.lang@,
        "--dpi"@,
        spec_i32_decimal(args.dpi as int),
        "--psm"@,
        spec_i32_decimal(args.psm as int),
        "--oem"@,
        spec_i32_decimal(args.oem as int),
    ]
}

/// The full arguments of a recognize invocation: the base arguments, then
/// one `-c` flag with the combined configuration parameter when at least
/// one override is present, and nothing more when none is.
pub open spec fn spec_recognize_args(image: Image, args: Args) -> Seq<Seq<char>> {
    if args.config_variables@.len() == 0 {
        spec_recognize_base_args(image, args)
    } else {
        spec_recognize_base_args(image, args) + seq![
            "-c"@,
            spec_config_param(args.config_variables@),
        ]
    }
}

/// A command for the external binary with no arguments yet, resolved by
/// its platform-dependent name.
pub fn get_tesseract_command(windows: bool) -> (c: TessCommand)
    ensures
        c.program@ == spec_program_name(windows),
        c.args@.len() == 0,
{
    let name = if windows {
        "tesseract.exe"
    } else {
        "tesseract"
    };
    TessCommand { program: String::from_str(name), args: Vec::new() }
}

/// The command requesting the binary's version string.
pub fn version_command(windows: bool) -> (c: TessCommand)
    ensures
        c.program@ == spec_program_name(windows),
        c.args_view() == spec_version_args(),
{
    let mut c = get_tesseract_command(windows);
    c.args.push(String::from_str("--version"));
    proof {
        assert(c.args_view() =~= spec_version_args());
    }
    c
}

/// The command requesting the binary's installed language packs.
pub fn list_langs_command(windows: bool) -> (c: TessCommand)
    ensures
        c.program@ == spec_program_name(windows),
        c.args_view() == spec_list_langs_args(),
{
    let mut c = get_tesseract_command(windows);
    c.args.push(String::from_str("--list-langs"));
    proof {
        assert(c.args_view() =~= spec_list_langs_args());
    }
    c
}

/// The command that recognizes text in `image` under `args`, exactly as
/// `spec_recognize_args` lays the arguments out.
pub fn create_tesseract_command(image: &Image, args: &Args, windows: bool) -> (c: TessCommand)
    ensures
        c.program@ == spec_program_name(windows),
        c.args_view() == spec_recognize_args(*image, *args),
{
    let mut c = get_tesseract_command(windows);
    c.args.push(image.get_image_path());
    c.args.push(String::from_str("stdout"));
    c.args.push(String::from_str("-l"));
    c.args.push(args.lang.clone());
    c.args.push(String::from_str("--dpi"));
    c.args.push(crate::decimal::i32_to_decimal(args.dpi));
    c.args.push(String::from_str("--psm"));
    c.args.push(crate::decimal::i32_to_decimal(args.psm));
    c.args.push(String::from_str("--oem"));
    c.args.push(crate::decimal::i32_to_decimal(args.oem));
    match args.get_config_variable_args() {
        Some(parameter) => {
            c.args.push(String::from_str("-c"));
            c.args.push(parameter);
        },
        None => {},
    }
    proof {
        assert(c.args_view() =~= spec_recognize_args(*image, *args));
    }
    c
}

/// With at least one configuration override, the recognize arguments are
/// the base arguments followed by exactly one `-c` flag and its combined
/// parameter — two trailing entries, however many overrides there are.
pub proof fn lemma_one_config_flag(image: Image, args: Args)
    requires
        args.config_variables@.len() > 0,
    ensures
        spec_recognize_args(image, args) == spec_recognize_base_args(image, args).push("-c"@).push(
            spec_config_param(args.config_variables@),
        ),
        spec_recognize_args(image, args).len() == spec_recognize_base_args(image, args).len() + 2,
{
    assert(spec_recognize_args(image, args) =~= spec_recognize_base_args(image, args).push(
        "-c"@,
    ).push(spec_config_param(args.config_variables@)));
}

/// Without configuration overrides the recognize arguments are the base
/// arguments alone: no configuration flag is appended.
pub proof fn lemma_no_config_flag(image: Image, args: Args)
    requires
        args.config_variables@.len() == 0,
    ensures
        spec_recognize_args(image, args) == spec_recognize_base_args(image, args),
        spec_recognize_args(image, args).len() == 10,
{
}

} // verus!
