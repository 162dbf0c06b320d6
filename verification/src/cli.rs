//! The decisions of a command-line converter: which encoding to write, and
//! where to.
//!
//! Nothing here touches a file. Paths are plain strings, and what only the
//! file system knows comes in as an argument.
use vstd::prelude::*;
use vstd::string::StringExecFns;

verus! {

/// The encoding that the user asked for.
#[derive(Clone, Copy, Debug, PartialEq, Eq, Structural)]
pub enum OutputEncoding {
    /// The encoding that the extension of the output file stands for.
    Infer,
    Csv,
    Json,
}

/// An encoding that can be written.
#[derive(Clone, Copy, Debug, PartialEq, Eq, Structural)]
pub enum Encoding {
    Csv,
    Json,
}

/// The arguments of the converter.
#[derive(Clone, Debug, PartialEq, Eq)]
pub struct Args {
    /// The file to convert.
    pub input: String,
    /// The file to write; where there is none, it is derived from `input`.
    pub output: Option<String>,
    /// Whether to write to the standard output.
    pub stdout: bool,
    /// The encoding to write.
    pub encoding: OutputEncoding,
    /// Whether an existing output file may be overwritten.
    pub force: bool,
}

/// Why the converter cannot go on.
#[derive(Clone, Debug, PartialEq, Eq)]
pub enum CliError {
    /// The output file's extension stands for no encoding.
    UnknownExtension { extension: String },
    /// The output file has no extension, or there is no output file.
    NoExtension,
    /// The input path has no file name to derive the output file from.
    EmptyInput,
    /// The output file exists, and overwriting was not asked for.
    OutputExists,
}

/// Where the converter writes.
#[derive(Clone, Debug, PartialEq, Eq)]
pub enum OutputTarget {
    /// The file at `path`.
    File { path: String },
    /// The standard output.
    Stdout,
}

/// How to open the output file.
#[derive(Clone, Copy, Debug, PartialEq, Eq, Structural)]
pub enum OpenMode {
    /// Create the file, or truncate nothing and write over it.
    Create,
    /// Create the file, and fail if it has come to exist meanwhile.
    CreateNew,
}

/// The extension of the file name of `path`, by `std::path::Path::extension`.
/// What counts as a file name depends on the platform.
#[verifier::external_body]
fn extension_of(path: &str) -> (r: Option<String>) {
    match std::path::Path::new(path).extension() {
        Some(e) => Some(e.to_string_lossy().into_owned()),
        None => None,
    }
}

/// `path` after `std::path::PathBuf::set_extension` with `extension`, and
/// what the call returned: whether the path has a file name, so that its
/// extension was set. What counts as a file name depends on the platform.
/// The std function panics on an extension that holds a path separator, so
/// only the two extensions that the converter writes are let in.
#[verifier::external_body]
fn with_extension(path: &str, extension: &str) -> (r: (bool, String))
    requires
        extension@ == "csv"@ || extension@ == "json"@,
{
    let mut derived = std::path::PathBuf::from(path);
    let changed = derived.set_extension(extension);
    (changed, derived.to_string_lossy().into_owned())
}

/// The encoding to write, from what the user asked for and the extension
/// of the output file: an explicit choice stands; else `csv` and `json`
/// stand for their encodings, and anything else is an error.
pub open spec fn encoding_choice(encoding: OutputEncoding, extension: Option<String>) -> Result<
    Encoding,
    CliError,
> {
    match encoding {
        OutputEncoding::Csv => Ok(Encoding::Csv),
        OutputEncoding::Json => Ok(Encoding::Json),
        OutputEncoding::Infer => match extension {
            Some(e) => if e@ == "csv"@ {
                Ok(Encoding::Csv)
            } else if e@ == "json"@ {
                Ok(Encoding::Json)
            } else {
                Err(CliError::UnknownExtension { extension: e })
            },
            None => Err(CliError::NoExtension),
        },
    }
}

/// The encoding to write: see [`encoding_choice`].
pub fn encoding_for(encoding: OutputEncoding, extension: Option<String>) -> (r: Result<
    Encoding,
    CliError,
>)
    ensures
        r == encoding_choice(encoding, extension),
{
    match encoding {
        OutputEncoding::Csv => Ok(Encoding::Csv),
        OutputEncoding::Json => Ok(Encoding::Json),
        OutputEncoding::Infer => match extension {
            Some(e) => {
                if e == String::from_str("csv") {
                    Ok(Encoding::Csv)
                } else if e == String::from_str("json") {
                    Ok(Encoding::Json)
                } else {
                    Err(CliError::UnknownExtension { extension: e })
                }
            },
            None => Err(CliError::NoExtension),
        },
    }
}

/// The encoding to write for `args`: what [`encoding_choice`] gives for the
/// extension of the output file, as the platform's path rules find it. With
/// no output file there is no extension.
pub fn infer_encoding(args: &Args) -> (r: Result<Encoding, CliError>)
    ensures
        args.output is None ==> r == encoding_choice(args.encoding, None),
        exists|extension: Option<String>| r == encoding_choice(args.encoding, extension),
{
    let extension = match &args.output {
        Some(output) => extension_of(output.as_str()),
        None => None,
    };
    encoding_for(args.encoding, extension)
}

/// The name of the extension that stands for `encoding`.
pub fn extension_for(encoding: Encoding) -> (e: &'static str)
    ensures
        e@ == (match encoding {
            Encoding::Csv => "csv"@,
            Encoding::Json => "json"@,
        }),
{
    match encoding {
        Encoding::Csv => "csv",
        Encoding::Json => "json",
    }
}

/// Where to write, from the user's choices and the path derived from the
/// input: the output file where one is given; else the standard output
/// where it was asked for; else the derived path, and an error where the
/// input has no file name to derive one from.
pub open spec fn target_choice(output: Option<String>, stdout: bool, derived: Option<String>) -> Result<
    OutputTarget,
    CliError,
> {
    match output {
        Some(path) => Ok(OutputTarget::File { path }),
        None => if stdout {
            Ok(OutputTarget::Stdout)
        } else {
            match derived {
                Some(path) => Ok(OutputTarget::File { path }),
                None => Err(CliError::EmptyInput),
            }
        },
    }
}

/// Where to write: see [`target_choice`].
pub fn target_for(output: Option<String>, stdout: bool, derived: Option<String>) -> (r: Result<
    OutputTarget,
    CliError,
>)
    ensures
        r == target_choice(output, stdout, derived),
{
    match output {
        Some(path) => Ok(OutputTarget::File { path }),
        None => {
            if stdout {
                Ok(OutputTarget::Stdout)
            } else {
                match derived {
                    Some(path) => Ok(OutputTarget::File { path }),
                    None => Err(CliError::EmptyInput),
                }
            }
        },
    }
}

/// Where to write for `args` and `encoding`: what [`target_choice`] gives
/// for the path derived from the input, which is the input with the
/// extension of `encoding`, as the platform's path rules set it. The path
/// is derived only where it is needed.
pub fn output_from_args(args: &Args, encoding: Encoding) -> (r: Result<OutputTarget, CliError>)
    ensures
        args.output is Some || args.stdout ==> r == target_choice(args.output, args.stdout, None),
        exists|derived: Option<String>| r == target_choice(args.output, args.stdout, derived),
{
    let derived = if args.output.is_none() && !args.stdout {
        let (changed, path) = with_extension(args.input.as_str(), extension_for(encoding));
        if changed {
            Some(path)
        } else {
            None
        }
    } else {
        None
    };
    target_for(args.output.clone(), args.stdout, derived)
}

/// How to open the output file, from whether overwriting was asked for and
/// whether the file exists: with `force`, create or write over it; without,
/// refuse an existing file and create a new one.
pub fn open_output_file(force: bool, exists: bool) -> (r: Result<OpenMode, CliError>)
    ensures
        force ==> r == Ok::<OpenMode, CliError>(OpenMode::Create),
        !force && exists ==> r == Err::<OpenMode, CliError>(CliError::OutputExists),
        !force && !exists ==> r == Ok::<OpenMode, CliError>(OpenMode::CreateNew),
{
    if force {
        Ok(OpenMode::Create)
    } else if exists {
        Err(CliError::OutputExists)
    } else {
        Ok(OpenMode::CreateNew)
    }
}

} // verus!
