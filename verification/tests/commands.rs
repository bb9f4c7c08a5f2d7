use tesseract_shim::Args;
use tesseract_shim::ConfigVariable;
use tesseract_shim::Image;
use tesseract_shim::create_tesseract_command;
use tesseract_shim::get_tesseract_command;
use tesseract_shim::list_langs_command;
use tesseract_shim::version_command;

fn plain_args() -> Args {
    Args {
        lang: "eng".to_string(),
        dpi: 300,
        psm: 3,
        oem: 3,
        config_variables: Vec::new(),
    }
}

#[test]
fn program_name_by_platform() {
    assert_eq!(get_tesseract_command(false).program, "tesseract");
    assert_eq!(get_tesseract_command(true).program, "tesseract.exe");
    assert!(get_tesseract_command(false).args.is_empty());
}

#[test]
fn version_command_args() {
    let c = version_command(false);
    assert_eq!(c.program, "tesseract");
    assert_eq!(c.args, vec!["--version".to_string()]);
}

#[test]
fn list_langs_command_args() {
    let c = list_langs_command(false);
    assert_eq!(c.program, "tesseract");
    assert_eq!(c.args, vec!["--list-langs".to_string()]);
}

#[test]
fn recognize_args_without_overrides() {
    let image = Image::from_path("page.png".to_string());
    let c = create_tesseract_command(&image, &plain_args(), false);
    let expected: Vec<String> = vec![
        "page.png".to_string(),
        "stdout".to_string(),
        "-l".to_string(),
        "eng".to_string(),
        "--dpi".to_string(),
        "300".to_string(),
        "--psm".to_string(),
        "3".to_string(),
        "--oem".to_string(),
        "3".to_string(),
    ];
    assert_eq!(c.args, expected);
}

#[test]
fn recognize_args_with_one_override() {
    let image = Image::from_path("page.png".to_string());
    let mut args = plain_args();
    args.config_variables = vec![ConfigVariable {
        name: "tessedit_char_whitelist".to_string(),
        value: "0123456789".to_string(),
    }];
    let base = create_tesseract_command(&image, &plain_args(), false).args;
    let c = create_tesseract_command(&image, &args, false);
    assert_eq!(c.args.len(), base.len() + 2);
    assert_eq!(c.args[..base.len()], base[..]);
    assert_eq!(c.args[base.len()], "-c");
    assert_eq!(c.args[base.len() + 1], "tessedit_char_whitelist=0123456789");
}

#[test]
fn recognize_args_combine_many_overrides_into_one_flag() {
    let image = Image::from_path("scan.tiff".to_string());
    let mut args = plain_args();
    args.config_variables = vec![
        ConfigVariable {
            name: "a".to_string(),
            value: "1".to_string(),
        },
        ConfigVariable {
            name: "b".to_string(),
            value: "2".to_string(),
        },
        ConfigVariable {
            name: "c".to_string(),
            value: "3".to_string(),
        },
    ];
    let base = create_tesseract_command(&image, &plain_args(), false).args;
    let c = create_tesseract_command(&image, &args, false);
    assert_eq!(c.args.len(), base.len() + 2);
    assert_eq!(c.args.iter().filter(|a| a.as_str() == "-c").count(), 1);
    assert_eq!(c.args[base.len()], "-c");
    assert_eq!(c.args[base.len() + 1], "a=1,b=2,c=3");
}

#[test]
fn config_variable_args_empty_and_single() {
    assert!(plain_args().get_config_variable_args().is_none());
    let mut args = plain_args();
    args.config_variables = vec![ConfigVariable {
        name: "user_defined_dpi".to_string(),
        value: "70".to_string(),
    }];
    assert_eq!(
        args.get_config_variable_args(),
        Some("user_defined_dpi=70".to_string())
    );
}

#[test]
fn image_path_round_trip() {
    let image = Image::from_path("dir/page.png".to_string());
    assert_eq!(image.get_image_path(), "dir/page.png");
}
