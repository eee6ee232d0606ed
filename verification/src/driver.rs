//! The stream driver's decisions: how one decode outcome advances a file's
//! rendering loop, and which run-level errors stop the whole run.
use crate::fields::Packet;
use crate::render::spec_line;
use crate::render::render_packet_lines;
use vstd::prelude::*;
use vstd::string::StringExecFns;

verus! {

/// The command-line surface: the configuration document path, then the
/// stream file paths, of which at least one must be given.
#[derive(Clone, Debug, PartialEq)]
pub struct Opts {
    /// The effective-configuration document file path.
    pub config: String,
    /// The binary CTF stream file paths, processed strictly in this order.
    pub stream: Vec<String>,
}

/// How one decode attempt failed: the input ran out where the decoder
/// expected more bytes (normal exhaustion), or anything else, carrying the
/// decoder's diagnostic text.
#[derive(Clone, Debug, PartialEq)]
pub enum DecodeFailure {
    EndOfInput,
    Other(String),
}

/// What the driver does after one decode attempt on a file: print these
/// lines and request the next packet, finish the file silently, or report a
/// diagnostic and finish the file.
#[derive(Clone, Debug, PartialEq)]
pub enum StreamAction {
    Emit(Vec<String>),
    Finish,
    Report(String),
}

/// Decides one step of the per-file driver loop.
///
/// A decoded packet has every one of its events rendered, in order, and the
/// loop continues; end of input finishes the file without any report; any
/// other decode failure finishes the file and reports the decoder's
/// diagnostic text, leaving the run free to continue with the next file.
pub fn stream_step(outcome: Result<Packet, DecodeFailure>) -> (action: StreamAction)
    ensures
        outcome matches Ok(pkt) ==> (action matches StreamAction::Emit(lines) && lines@.len()
            == pkt.events@.len() && forall|i: int|
            0 <= i < lines@.len() ==> lines@[i]@ == spec_line(
                pkt.events@[i],
                pkt.header,
                pkt.context,
            )),
        outcome matches Err(DecodeFailure::EndOfInput) ==> action is Finish,
        outcome matches Err(DecodeFailure::Other(m)) ==> (action matches StreamAction::Report(text)
            && text@ == m@),
{
    match outcome {
        Ok(pkt) => StreamAction::Emit(render_packet_lines(&pkt)),
        Err(DecodeFailure::EndOfInput) => StreamAction::Finish,
        Err(DecodeFailure::Other(m)) => StreamAction::Report(m),
    }
}

/// A fatal, run-level error: the whole run stops and exits with a non-zero
/// status.
#[derive(Clone, Debug, PartialEq)]
pub enum RunError {
    /// The configuration document could not be parsed; carries the parser's
    /// diagnostic text.
    ConfigParse(String),
    /// The decoder rejected the parsed configuration; carries its
    /// diagnostic text.
    DecoderBuild(String),
    /// No stream file path was given on the command line.
    NoStreamFiles,
}

impl RunError {
    /// The diagnostic text of this run-level error.
    pub open spec fn spec_message(self) -> Seq<char> {
        match self {
            RunError::ConfigParse(t) => "Failed to parse barectf effective-configuration yaml file. "@
                + t@,
            RunError::DecoderBuild(t) => "Failed to construct the trace decoder. "@ + t@,
            RunError::NoStreamFiles => "Missing CTF stream file(s). Specify a path to import on the command line."@,
        }
    }

    /// Renders the diagnostic text of this run-level error.
    pub fn message(&self) -> (m: String)
        ensures
            m@ == self.spec_message(),
    {
        match self {
            RunError::ConfigParse(t) => {
                let mut m = "Failed to parse barectf effective-configuration yaml file. ".to_owned();
                m.append(t.as_str());
                m
            },
            RunError::DecoderBuild(t) => {
                let mut m = "Failed to construct the trace decoder. ".to_owned();
                m.append(t.as_str());
                m
            },
            RunError::NoStreamFiles => {
                "Missing CTF stream file(s). Specify a path to import on the command line.".to_owned()
            },
        }
    }
}

} // verus!
