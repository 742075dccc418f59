//! The command surface as plain data: one type per command and option set,
//! the parse functions for the selector values, and the small computations
//! the command handlers make before touching any file.

use crate::codec::{str_eq, Base64FormatType};
use crate::text_sign::TextSignFormatType;
use vstd::prelude::*;
use vstd::string::StringExecFns;

verus! {

/// Parse a base64 flavour selector.
pub open spec fn parse_base64_format_spec(s: Seq<char>) -> Option<Base64FormatType> {
    if s == "urlsafe"@ {
        Some(Base64FormatType::UrlSafe)
    } else if s == "standard"@ {
        Some(Base64FormatType::Standard)
    } else {
        None
    }
}

/// Check and parse a base64 flavour selector from a command line.
pub fn verify_base64_format(s: &str) -> (r: Option<Base64FormatType>)
    ensures
        r == parse_base64_format_spec(s@),
{
    if str_eq(s, "urlsafe") {
        Some(Base64FormatType::UrlSafe)
    } else if str_eq(s, "standard") {
        Some(Base64FormatType::Standard)
    } else {
        None
    }
}

/// The output format a csv file can be converted to.
#[derive(Clone, Copy, Debug, PartialEq, Eq, Structural)]
pub enum CsvFormatType {
    Json,
    Yaml,
    Toml,
}

impl CsvFormatType {
    /// The name under which this format is selected on a command line; also
    /// the file extension of the default output path.
    pub fn name(&self) -> (r: &'static str)
        ensures
            r@ == self.name_spec(),
    {
        match self {
            CsvFormatType::Json => "json",
            CsvFormatType::Yaml => "yaml",
            CsvFormatType::Toml => "toml",
        }
    }

    pub open spec fn name_spec(&self) -> Seq<char> {
        match self {
            CsvFormatType::Json => "json"@,
            CsvFormatType::Yaml => "yaml"@,
            CsvFormatType::Toml => "toml"@,
        }
    }
}

/// Parse a csv output-format selector.
pub open spec fn parse_csv_format_spec(s: Seq<char>) -> Option<CsvFormatType> {
    if s == "json"@ {
        Some(CsvFormatType::Json)
    } else if s == "yaml"@ {
        Some(CsvFormatType::Yaml)
    } else if s == "toml"@ {
        Some(CsvFormatType::Toml)
    } else {
        None
    }
}

/// Check and parse a csv output-format selector from a command line.
pub fn parse_csv_format_value(s: &str) -> (r: Option<CsvFormatType>)
    ensures
        r == parse_csv_format_spec(s@),
{
    if str_eq(s, "json") {
        Some(CsvFormatType::Json)
    } else if str_eq(s, "yaml") {
        Some(CsvFormatType::Yaml)
    } else if str_eq(s, "toml") {
        Some(CsvFormatType::Toml)
    } else {
        None
    }
}

/// Parse a signing-scheme selector.
pub open spec fn parse_text_sign_format_spec(s: Seq<char>) -> Option<TextSignFormatType> {
    if s == "blake3"@ {
        Some(TextSignFormatType::Blake3)
    } else if s == "ed25519"@ {
        Some(TextSignFormatType::Ed25519)
    } else {
        None
    }
}

/// Check and parse a signing-scheme selector from a command line.
pub fn parse_text_sign_format(s: &str) -> (r: Option<TextSignFormatType>)
    ensures
        r == parse_text_sign_format_spec(s@),
{
    if str_eq(s, "blake3") {
        Some(TextSignFormatType::Blake3)
    } else if str_eq(s, "ed25519") {
        Some(TextSignFormatType::Ed25519)
    } else {
        None
    }
}

/// Options for encoding a file or standard input as base64.
pub struct Base64EncodeOptions {
    /// The input path; `-` reads standard input.
    pub input: String,
    /// The base64 flavour to encode with.
    pub format: Base64FormatType,
}

impl Default for Base64EncodeOptions {
    /// Read standard input and encode with the url-safe flavour.
    fn default() -> (r: Self)
        ensures
            r.input@ == "-"@,
            r.format == Base64FormatType::UrlSafe,
    {
        Base64EncodeOptions { input: String::from_str("-"), format: Base64FormatType::UrlSafe }
    }
}

/// Options for decoding base64 from a file or standard input.
pub struct Base64DecodeOptions {
    /// The input path; `-` reads standard input.
    pub input: String,
    /// The base64 flavour to decode with.
    pub format: Base64FormatType,
}

impl Default for Base64DecodeOptions {
    /// Read standard input and decode with the url-safe flavour.
    fn default() -> (r: Self)
        ensures
            r.input@ == "-"@,
            r.format == Base64FormatType::UrlSafe,
    {
        Base64DecodeOptions { input: String::from_str("-"), format: Base64FormatType::UrlSafe }
    }
}

/// The base64 subcommands.
pub enum Base64SubCommand {
    Encode(Base64EncodeOptions),
    Decode(Base64DecodeOptions),
}

/// Options for converting a csv file to another format.
pub struct CsvOptions {
    /// The csv file to read.
    pub input: String,
    /// Where to write the converted output; the default is derived from the
    /// format.
    pub output: Option<String>,
    /// The output format.
    pub format: CsvFormatType,
}

impl CsvOptions {
    /// The output path to write to: the explicit one when given, otherwise
    /// `output.` followed by the format's name.
    pub fn output_path(&self) -> (r: String)
        ensures
            self.output matches Some(o) ==> r@ == o@,
            self.output is None ==> r@ == "output."@ + self.format.name_spec(),
    {
        match &self.output {
            Some(output) => output.clone(),
            None => String::from_str("output.").concat(self.format.name()),
        }
    }
}

/// Options for generating a random password.
pub struct GenPassOptions {
    /// How many characters the password has.
    pub length: u8,
    /// Leave digits out.
    pub no_numbers: bool,
    /// Leave symbols out.
    pub no_symbols: bool,
    /// Leave upper-case letters out.
    pub no_uppercase: bool,
    /// Leave lower-case letters out.
    pub no_lowercase: bool,
}

impl Default for GenPassOptions {
    /// Sixteen characters with every class enabled.
    fn default() -> (r: Self)
        ensures
            r.length == 16,
            !r.no_numbers && !r.no_symbols && !r.no_uppercase && !r.no_lowercase,
    {
        GenPassOptions {
            length: 16,
            no_numbers: false,
            no_symbols: false,
            no_uppercase: false,
            no_lowercase: false,
        }
    }
}

/// Options for serving a directory over http.
pub struct HttpServeOption {
    /// The directory to serve.
    pub root: String,
    /// The port to listen on.
    pub port: u16,
}

impl Default for HttpServeOption {
    /// Serve the current directory on port 8080.
    fn default() -> (r: Self)
        ensures
            r.root@ == "."@,
            r.port == 8080,
    {
        HttpServeOption { root: String::from_str("."), port: 8080 }
    }
}

/// The http subcommands.
pub enum HttpSubCommand {
    Serve(HttpServeOption),
}

/// Options for signing a file or standard input.
pub struct TextSignOption {
    /// The input path; `-` reads standard input.
    pub input: String,
    /// The key file to sign with.
    pub key: String,
    /// The scheme to sign under.
    pub format: TextSignFormatType,
}

/// Options for verifying a signature over a file or standard input.
pub struct TextVerifyOption {
    /// The input path; `-` reads standard input.
    pub input: String,
    /// The key file to verify with.
    pub key: String,
    /// The file holding the signature text.
    pub sin: String,
    /// The scheme to verify under.
    pub format: TextSignFormatType,
}

/// Options for generating key material.
pub struct TextGenerateOption {
    /// The scheme to generate keys for.
    pub format: TextSignFormatType,
    /// The directory the key files are written into.
    pub output: String,
}

impl TextGenerateOption {
    /// The file names of the generated artifacts, in the order the generator
    /// returns them: one secret-key file for the symmetric scheme, a
    /// secret-key and a public-key file for the asymmetric scheme.
    pub fn artifact_names(&self) -> (r: Vec<&'static str>)
        ensures
            self.format == TextSignFormatType::Blake3 ==> (r@.len() == 1 && r@[0]@
                == "blake3.txt"@),
            self.format == TextSignFormatType::Ed25519 ==> (r@.len() == 2 && r@[0]@
                == "ed25519.sk"@ && r@[1]@ == "ed25519.pk"@),
    {
        let mut names: Vec<&'static str> = Vec::new();
        match self.format {
            TextSignFormatType::Blake3 => {
                names.push("blake3.txt");
            },
            TextSignFormatType::Ed25519 => {
                names.push("ed25519.sk");
                names.push("ed25519.pk");
            },
        }
        names
    }
}

/// The text signing subcommands.
pub enum TextSubCommand {
    Sign(TextSignOption),
    Verify(TextVerifyOption),
    Generate(TextGenerateOption),
}

/// The toolbox's commands.
pub enum RCliCommand {
    Csv(CsvOptions),
    GenPass(GenPassOptions),
    Base64(Base64SubCommand),
    Text(TextSubCommand),
    Http(HttpSubCommand),
}

/// The parsed command line: one command with its options.
pub struct Cli {
    pub subcommand: RCliCommand,
}

} // verus!
