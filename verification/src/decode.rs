//! The trusted boundary to the trace decoder: constructing it from an
//! effective-configuration document, and classifying how a decode attempt
//! failed. The decoding of packet bytes itself happens outside the library,
//! behind a reader; only plain values cross back in.
use crate::driver::{DecodeFailure, Opts, RunError};
use vstd::prelude::*;

verus! {

#[verifier::external_type_specification]
#[verifier::external_body]
pub struct ExConfig(barectf_parser::Config);

#[verifier::external_type_specification]
#[verifier::external_body]
pub struct ExParser(barectf_parser::Parser);

#[verifier::external_type_specification]
#[verifier::external_body]
pub struct ExError(barectf_parser::Error);

#[verifier::external_type_specification]
#[verifier::external_body]
pub struct ExYamlError(serde_yaml::Error);

/// Whether a text is a well-formed effective-configuration document:
/// whatever `serde_yaml::from_str` accepts for the decoder's configuration
/// type.
pub uninterp spec fn config_parses(text: Seq<char>) -> bool;

/// Whether the decoder accepts the configuration parsed from a well-formed
/// document text: whatever `barectf_parser::Parser::new` accepts. Since
/// parsing is deterministic, acceptance is a function of the text alone.
pub uninterp spec fn decoder_builds(text: Seq<char>) -> bool;

/// A parsed configuration paired with the document text it was parsed from.
/// Only `parse_config_text` constructs values of this type, so the pairing
/// is faithful: the configuration is the deterministic parse of the text.
pub struct ParsedConfig {
    cfg: barectf_parser::Config,
    text: String,
}

impl ParsedConfig {
    /// The document text this configuration was parsed from.
    pub closed spec fn spec_text(self) -> Seq<char> {
        self.text@
    }
}

/// Relies on serde_yaml::from_str: deserializing a configuration document
/// is a function of the text alone, and succeeds exactly on the well-formed
/// documents. The parsed configuration is returned paired with its text.
#[verifier::external_body]
fn parse_config_text(text: &str) -> (r: Result<ParsedConfig, serde_yaml::Error>)
    ensures
        r is Ok <==> config_parses(text@),
        r matches Ok(pc) ==> pc.spec_text() == text@,
{
    match serde_yaml::from_str(text) {
        Ok(cfg) => Ok(ParsedConfig { cfg, text: text.to_owned() }),
        Err(e) => Err(e),
    }
}

/// Relies on serde_yaml::Error's Display implementation for the diagnostic
/// text of a rejected document.
#[verifier::external_body]
fn yaml_error_text(e: &serde_yaml::Error) -> (t: String) {
    e.to_string()
}

/// Relies on barectf_parser::Parser::new, which checks the configuration's
/// field types and builds the per-stream decoders: a pure function of the
/// configuration, itself the deterministic parse of the document text, so
/// it succeeds exactly on the texts the decoder accepts.
#[verifier::external_body]
fn decoder_new(pc: &ParsedConfig) -> (r: Result<barectf_parser::Parser, barectf_parser::Error>)
    ensures
        r is Ok <==> decoder_builds(pc.spec_text()),
{
    barectf_parser::Parser::new(&pc.cfg)
}

/// Relies on barectf_parser::Error's Display implementation for the
/// diagnostic text of a decode failure.
#[verifier::external_body]
fn decode_error_text(e: &barectf_parser::Error) -> (t: String) {
    e.to_string()
}

/// Relies on barectf_parser::Error::Io and std::io::Error::kind: the
/// decoder surfaces exhaustion of the input stream as an IO error of kind
/// UnexpectedEof, and every other failure means malformed data.
#[verifier::external_body]
fn decode_error_is_end_of_input(e: &barectf_parser::Error) -> (eof: bool) {
    match e {
        barectf_parser::Error::Io(io_err) => io_err.kind() == std::io::ErrorKind::UnexpectedEof,
        _ => false,
    }
}

/// Builds the tagged failure value the driver decides on: end-of-input
/// failures become `EndOfInput`, every other failure keeps its diagnostic
/// text.
pub fn classify_decode_failure(end_of_input: bool, detail: String) -> (k: DecodeFailure)
    ensures
        end_of_input ==> k is EndOfInput,
        !end_of_input ==> (k matches DecodeFailure::Other(m) && m@ == detail@),
{
    if end_of_input {
        DecodeFailure::EndOfInput
    } else {
        DecodeFailure::Other(detail)
    }
}

/// Classifies how a decode attempt failed, from the decoder's own error
/// value: exhaustion of the input, or a real failure with its diagnostic
/// text. What holds of the result for each classification is stated by
/// `classify_decode_failure`.
pub fn classify_decode_error(e: &barectf_parser::Error) -> DecodeFailure {
    classify_decode_failure(decode_error_is_end_of_input(e), decode_error_text(e))
}

/// Builds the trace decoder for a run: parses the configuration document,
/// requires at least one stream file, and hands the parsed configuration to
/// the decoder.
///
/// Success is owed, and delivered, exactly when the document is well-formed,
/// at least one stream path was given, and the decoder accepts the
/// configuration. The run is refused with `ConfigParse` exactly when the
/// document is not well-formed; with `NoStreamFiles` exactly when the
/// document is well-formed but no stream path was given; and with
/// `DecoderBuild` exactly when both checks pass but the decoder rejects the
/// configuration.
pub fn build_decoder(cfg_text: &str, opts: &Opts) -> (r: Result<barectf_parser::Parser, RunError>)
    ensures
        r is Ok <==> config_parses(cfg_text@) && opts.stream@.len() > 0 && decoder_builds(
            cfg_text@,
        ),
        !config_parses(cfg_text@) <==> (r matches Err(e) && e is ConfigParse),
        (config_parses(cfg_text@) && opts.stream@.len() == 0) <==> (r matches Err(e)
            && e is NoStreamFiles),
        (config_parses(cfg_text@) && opts.stream@.len() > 0 && !decoder_builds(cfg_text@)) <==> (
        r matches Err(e) && e is DecoderBuild),
{
    let cfg = match parse_config_text(cfg_text) {
        Ok(c) => c,
        Err(e) => {
            return Err(RunError::ConfigParse(yaml_error_text(&e)));
        },
    };
    if opts.stream.len() == 0 {
        return Err(RunError::NoStreamFiles);
    }
    match decoder_new(&cfg) {
        Ok(p) => Ok(p),
        Err(e) => Err(RunError::DecoderBuild(decode_error_text(&e))),
    }
}

} // verus!
