use vstd::prelude::*;
use vstd::string::*;

verus! {

/// The file format the tool writes.
#[derive(Debug, Clone, Copy, PartialEq, Eq)]
pub enum OutputFormat {
    Json,
    Yaml,
    Text,
}

/// The subcommands of the tool; paths are held as text.
#[derive(Debug, Clone)]
pub enum Commands {
    /// Processes `files` into the directory `output`.
    Process { files: Vec<String>, output: String, format: OutputFormat },
    /// Shows the configuration path.
    Config,
    /// Initialises a project at `path`.
    Init { path: String },
}

/// Failures of the tool.
#[derive(Debug, Clone)]
pub enum CliError {
    FileNotFound(String),
    InvalidFormat(String),
    Io(String),
    Parse(String),
}

pub open spec fn extension_of(f: OutputFormat) -> Seq<char> {
    match f {
        OutputFormat::Json => "json"@,
        OutputFormat::Yaml => "yaml"@,
        OutputFormat::Text => "txt"@,
    }
}

impl OutputFormat {
    /// The file extension of the format.
    pub fn extension(&self) -> (r: String)
        ensures
            r@ == extension_of(*self),
    {
        match self {
            OutputFormat::Json => "json".to_owned(),
            OutputFormat::Yaml => "yaml".to_owned(),
            OutputFormat::Text => "txt".to_owned(),
        }
    }
}

/// The name of the file written for an input of stem `stem` (`"output"` when
/// the input has none): the stem, a dot and the format's extension.
pub fn output_file_name(stem: Option<String>, format: OutputFormat) -> (r: String)
    ensures
        r@ == match stem {
            Some(s) => s@,
            None => "output"@,
        } + "."@ + extension_of(format),
{
    let mut name = match stem {
        Some(s) => s,
        None => "output".to_owned(),
    };
    name.append(".");
    let ext = format.extension();
    name.append(ext.as_str());
    name
}

/// What `str::to_uppercase` makes of a text.
pub uninterp spec fn upper_of(s: Seq<char>) -> Seq<char>;

/// Relies on `str::to_uppercase`: the result depends on the text alone.
#[verifier::external_body]
fn uppercase(s: &str) -> (r: String)
    ensures
        r@ == upper_of(s@),
{
    s.to_uppercase()
}

/// The transformation applied to each input file's content: upper case.
pub fn process_content(content: &str) -> (r: String)
    ensures
        r@ == upper_of(content@),
{
    uppercase(content)
}

impl CliError {
    /// The error's message.
    pub fn message(&self) -> (r: String)
        ensures
            r@ == match self {
                CliError::FileNotFound(m) => "file not found: "@ + m@,
                CliError::InvalidFormat(m) => "invalid format: "@ + m@,
                CliError::Io(m) => "io error: "@ + m@,
                CliError::Parse(m) => "parse error: "@ + m@,
            },
    {
        let (mut head, tail) = match self {
            CliError::FileNotFound(m) => ("file not found: ".to_owned(), m),
            CliError::InvalidFormat(m) => ("invalid format: ".to_owned(), m),
            CliError::Io(m) => ("io error: ".to_owned(), m),
            CliError::Parse(m) => ("parse error: ".to_owned(), m),
        };
        head.append(tail.as_str());
        head
    }
}

} // verus!
