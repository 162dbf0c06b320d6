use dbn::cli::{
    encoding_for, extension_for, infer_encoding, open_output_file, output_from_args, target_for,
    Args, CliError, Encoding, OpenMode, OutputEncoding, OutputTarget,
};

fn args(output: Option<&str>, stdout: bool, encoding: OutputEncoding) -> Args {
    Args {
        input: "data/trades.dbz".to_owned(),
        output: output.map(|o| o.to_owned()),
        stdout,
        encoding,
        force: false,
    }
}

#[test]
fn test_explicit_encoding_stands() {
    assert_eq!(
        infer_encoding(&args(Some("out.json"), false, OutputEncoding::Csv)),
        Ok(Encoding::Csv)
    );
    assert_eq!(
        infer_encoding(&args(None, true, OutputEncoding::Json)),
        Ok(Encoding::Json)
    );
}

#[test]
fn test_encoding_is_inferred_from_the_extension() {
    assert_eq!(
        infer_encoding(&args(Some("out.csv"), false, OutputEncoding::Infer)),
        Ok(Encoding::Csv)
    );
    assert_eq!(
        infer_encoding(&args(Some("dir.d/out.json"), false, OutputEncoding::Infer)),
        Ok(Encoding::Json)
    );
    assert_eq!(
        infer_encoding(&args(Some("out.txt"), false, OutputEncoding::Infer)),
        Err(CliError::UnknownExtension { extension: "txt".to_owned() })
    );
    assert_eq!(
        infer_encoding(&args(Some("out"), false, OutputEncoding::Infer)),
        Err(CliError::NoExtension)
    );
    assert_eq!(
        infer_encoding(&args(None, false, OutputEncoding::Infer)),
        Err(CliError::NoExtension)
    );
}

#[test]
fn test_encoding_for_each_case() {
    assert_eq!(
        encoding_for(OutputEncoding::Infer, Some("csv".to_owned())),
        Ok(Encoding::Csv)
    );
    assert_eq!(
        encoding_for(OutputEncoding::Infer, Some("CSV".to_owned())),
        Err(CliError::UnknownExtension { extension: "CSV".to_owned() })
    );
    assert_eq!(encoding_for(OutputEncoding::Infer, None), Err(CliError::NoExtension));
    assert_eq!(encoding_for(OutputEncoding::Json, None), Ok(Encoding::Json));
}

#[test]
fn test_output_target() {
    assert_eq!(
        output_from_args(&args(Some("out.csv"), false, OutputEncoding::Csv), Encoding::Csv),
        Ok(OutputTarget::File { path: "out.csv".to_owned() })
    );
    assert_eq!(
        output_from_args(&args(None, true, OutputEncoding::Csv), Encoding::Csv),
        Ok(OutputTarget::Stdout)
    );
    assert_eq!(
        output_from_args(&args(None, false, OutputEncoding::Csv), Encoding::Csv),
        Ok(OutputTarget::File { path: "data/trades.csv".to_owned() })
    );
    assert_eq!(
        output_from_args(&args(None, false, OutputEncoding::Json), Encoding::Json),
        Ok(OutputTarget::File { path: "data/trades.json".to_owned() })
    );
    let mut empty = args(None, false, OutputEncoding::Csv);
    empty.input = String::new();
    assert_eq!(output_from_args(&empty, Encoding::Csv), Err(CliError::EmptyInput));
}

#[test]
fn test_target_for_each_case() {
    assert_eq!(
        target_for(Some("a".to_owned()), true, Some("b".to_owned())),
        Ok(OutputTarget::File { path: "a".to_owned() })
    );
    assert_eq!(target_for(None, true, Some("b".to_owned())), Ok(OutputTarget::Stdout));
    assert_eq!(
        target_for(None, false, Some("b".to_owned())),
        Ok(OutputTarget::File { path: "b".to_owned() })
    );
    assert_eq!(target_for(None, false, None), Err(CliError::EmptyInput));
    assert_eq!(extension_for(Encoding::Csv), "csv");
    assert_eq!(extension_for(Encoding::Json), "json");
}

#[test]
fn test_open_mode() {
    assert_eq!(open_output_file(true, true), Ok(OpenMode::Create));
    assert_eq!(open_output_file(true, false), Ok(OpenMode::Create));
    assert_eq!(open_output_file(false, true), Err(CliError::OutputExists));
    assert_eq!(open_output_file(false, false), Ok(OpenMode::CreateNew));
}
