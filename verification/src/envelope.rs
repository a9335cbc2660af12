//! The frames of the wire format: what an incoming text asks for, and the
//! texts that go out.

use vstd::prelude::*;
use vstd::string::StringExecFns;
use crate::json::{quote, quoted, read_fields, string_at, text_of, Fields};
use crate::text::{chars_of, decimal, push_decimal, same_text};

verus! {

/// What an incoming text frame asks for.
#[derive(Clone, Debug, PartialEq, Eq)]
pub enum Envelope {
    /// Run this command, which is not empty.
    Command(String),
    /// Answer with a pong.
    Ping,
    /// The peer answered a ping.
    Pong,
    /// A JSON frame with a type that calls for nothing, or a command frame
    /// without a command.
    Unrecognized,
    /// Not a frame of the JSON format: plain text of the older protocol.
    Legacy,
}

/// An `Envelope` as plain values.
pub enum EnvelopeView {
    Command(Seq<char>),
    Ping,
    Pong,
    Unrecognized,
    Legacy,
}

impl View for Envelope {
    type V = EnvelopeView;

    open spec fn view(&self) -> EnvelopeView {
        match self {
            Envelope::Command(c) => EnvelopeView::Command(c@),
            Envelope::Ping => EnvelopeView::Ping,
            Envelope::Pong => EnvelopeView::Pong,
            Envelope::Unrecognized => EnvelopeView::Unrecognized,
            Envelope::Legacy => EnvelopeView::Legacy,
        }
    }
}

/// The envelope of a frame whose `type` is the string `kind` and whose
/// `payload.command` is the string `command` (`None`: no string there).
/// Without a type the frame is legacy text. A command needs a command text
/// that is not empty; `ping` and `pong` need nothing more; every other type,
/// and a command without its text, is unrecognized.
pub open spec fn classified(kind: Option<Seq<char>>, command: Option<Seq<char>>) -> EnvelopeView {
    match kind {
        None => EnvelopeView::Legacy,
        Some(k) => if k == "command"@ {
            match command {
                Some(c) => if c.len() > 0 {
                    EnvelopeView::Command(c)
                } else {
                    EnvelopeView::Unrecognized
                },
                None => EnvelopeView::Unrecognized,
            }
        } else if k == "ping"@ {
            EnvelopeView::Ping
        } else if k == "pong"@ {
            EnvelopeView::Pong
        } else {
            EnvelopeView::Unrecognized
        },
    }
}

/// The envelope of the frame `text`: that of the strings which the text,
/// read as a JSON document, holds under `type` and under `payload.command`.
pub open spec fn decoded(text: Seq<char>) -> EnvelopeView {
    classified(string_at(text, seq!["type"@]), string_at(text, seq!["payload"@, "command"@]))
}

impl Envelope {
    /// The envelope of a frame that holds the strings `fields`.
    pub fn classify(fields: Fields) -> (r: Envelope)
        ensures
            r@ == classified(text_of(fields.kind), text_of(fields.command)),
    {
        match fields.kind {
            None => Envelope::Legacy,
            Some(kind) => {
                if same_text(kind.as_str(), "command") {
                    match fields.command {
                        Some(command) => {
                            if chars_of(command.as_str()).len() > 0 {
                                Envelope::Command(command)
                            } else {
                                Envelope::Unrecognized
                            }
                        },
                        None => Envelope::Unrecognized,
                    }
                } else if same_text(kind.as_str(), "ping") {
                    Envelope::Ping
                } else if same_text(kind.as_str(), "pong") {
                    Envelope::Pong
                } else {
                    Envelope::Unrecognized
                }
            },
        }
    }

    /// The envelope of the frame `text`.
    pub fn decode(text: &str) -> (r: Envelope)
        ensures
            r@ == decoded(text@),
    {
        Envelope::classify(read_fields(text))
    }
}

/// What running a command came to.
#[derive(Clone, Debug, PartialEq, Eq)]
pub struct CommandResult {
    /// The command as it was sent.
    pub command: String,
    /// What the command wrote to its standard output, trimmed.
    pub stdout: String,
    /// What it wrote to its standard error, trimmed, or why it did not run.
    pub stderr: String,
    /// Its exit status; -1 where it did not run to its end.
    pub exit_code: i32,
    /// The directory in which it ran, or, after a `cd`, the directory that
    /// the session is in now.
    pub current_directory: String,
}

/// A `CommandResult` as plain values.
pub struct CommandResultView {
    pub command: Seq<char>,
    pub stdout: Seq<char>,
    pub stderr: Seq<char>,
    pub exit_code: int,
    pub current_directory: Seq<char>,
}

impl View for CommandResult {
    type V = CommandResultView;

    open spec fn view(&self) -> CommandResultView {
        CommandResultView {
            command: self.command@,
            stdout: self.stdout@,
            stderr: self.stderr@,
            exit_code: self.exit_code as int,
            current_directory: self.current_directory@,
        }
    }
}

impl CommandResultView {
    /// The frame that reports this result.
    pub open spec fn frame(self) -> Seq<char> {
        command_output_text(
            self.command,
            self.stdout,
            self.stderr,
            self.exit_code,
            self.current_directory,
        )
    }
}

/// The frame that reports a command's result.
pub open spec fn command_output_text(
    command: Seq<char>,
    stdout: Seq<char>,
    stderr: Seq<char>,
    exit_code: int,
    directory: Seq<char>,
) -> Seq<char> {
    "{\"type\":\"command_output\",\"payload\":{\"command\":"@ + quoted(command) + ",\"stdout\":"@
        + quoted(stdout) + ",\"stderr\":"@ + quoted(stderr) + ",\"exitCode\":"@ + decimal(exit_code)
        + ",\"currentDirectory\":"@ + quoted(directory) + "}}"@
}

/// The frame that greets a new session.
pub open spec fn system_message_text(
    message: Seq<char>,
    timestamp: Seq<char>,
    directory: Seq<char>,
) -> Seq<char> {
    "{\"type\":\"system_message\",\"payload\":{\"message\":"@ + quoted(message)
        + ",\"timestamp\":"@ + quoted(timestamp) + ",\"currentDirectory\":"@ + quoted(directory)
        + "}}"@
}

/// The frame by which the broker answers a ping.
pub open spec fn pong_text(timestamp: Seq<char>) -> Seq<char> {
    "{\"type\":\"pong\",\"payload\":{\"timestamp\":"@ + quoted(timestamp) + "}}"@
}

/// The frame of type `kind` (`ping` or `pong`) that a connection sends on
/// its own account, at `seconds` since the start of 1970.
pub open spec fn heartbeat_text(kind: Seq<char>, seconds: int) -> Seq<char> {
    "{\"type\":"@ + quoted(kind) + ",\"timestamp\":"@ + decimal(seconds)
        + ",\"server_id\":\"http-ssh-server\"}"@
}

impl CommandResult {
    /// Writes the frame that reports this result.
    pub fn encode(&self) -> (r: String)
        ensures
            r@ == self@.frame(),
    {
        let mut r = "{\"type\":\"command_output\",\"payload\":{\"command\":".to_owned();
        r.append(quote(self.command.as_str()).as_str());
        r.append(",\"stdout\":");
        r.append(quote(self.stdout.as_str()).as_str());
        r.append(",\"stderr\":");
        r.append(quote(self.stderr.as_str()).as_str());
        r.append(",\"exitCode\":");
        push_decimal(&mut r, self.exit_code as i64);
        r.append(",\"currentDirectory\":");
        r.append(quote(self.current_directory.as_str()).as_str());
        r.append("}}");
        r
    }
}

/// Writes the frame that greets a new session.
pub fn system_message(message: &str, timestamp: &str, directory: &str) -> (r: String)
    ensures
        r@ == system_message_text(message@, timestamp@, directory@),
{
    let mut r = "{\"type\":\"system_message\",\"payload\":{\"message\":".to_owned();
    r.append(quote(message).as_str());
    r.append(",\"timestamp\":");
    r.append(quote(timestamp).as_str());
    r.append(",\"currentDirectory\":");
    r.append(quote(directory).as_str());
    r.append("}}");
    r
}

/// Writes the frame by which the broker answers a ping.
pub fn pong(timestamp: &str) -> (r: String)
    ensures
        r@ == pong_text(timestamp@),
{
    let mut r = "{\"type\":\"pong\",\"payload\":{\"timestamp\":".to_owned();
    r.append(quote(timestamp).as_str());
    r.append("}}");
    r
}

/// Writes the frame of type `kind` that a connection sends on its own
/// account.
pub fn heartbeat(kind: &str, seconds: i64) -> (r: String)
    ensures
        r@ == heartbeat_text(kind@, seconds as int),
{
    let mut r = "{\"type\":".to_owned();
    r.append(quote(kind).as_str());
    r.append(",\"timestamp\":");
    push_decimal(&mut r, seconds);
    r.append(",\"server_id\":\"http-ssh-server\"}");
    r
}

} // verus!
