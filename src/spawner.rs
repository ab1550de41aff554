use vstd::prelude::*;
use crate::decimal::{decimal, decimal_string};

verus! {

/// The argument vector handed to the sidecar: `serve --port <port>`.
pub open spec fn serve_args(port: nat) -> Seq<Seq<char>> {
    seq!["serve"@, "--port"@, decimal(port)]
}

/// Builds the sidecar's arguments for the given port.
pub fn sidecar_args(port: u16) -> (r: Vec<String>)
    ensures
        r@.map_values(|a: String| a@) == serve_args(port as nat),
{
    let mut args: Vec<String> = Vec::new();
    args.push(String::from_str("serve"));
    args.push(String::from_str("--port"));
    args.push(decimal_string(port as u64));
    proof {
        reveal_strlit("serve");
        reveal_strlit("--port");
        assert(args@.map_values(|a: String| a@) =~= serve_args(port as nat));
    }
    args
}

/// What the child sent on its event stream.
#[derive(Clone, Copy, Debug, PartialEq, Eq, Structural)]
pub enum OutputKind {
    Stdout,
    Stderr,
    Error,
    Terminated,
    Other,
}

/// How one event of the child's stream is passed on to the host.
pub struct Forward {
    /// Whether anything is written for this event.
    pub emit: bool,
    /// Written to the host's stdout when this holds, to its stderr otherwise.
    pub to_stdout: bool,
    /// Written before the event's text.
    pub prefix: String,
    /// Whether a line break follows the text (child output lines carry their own).
    pub newline: bool,
    /// Whether the reader stops after this event.
    pub stop: bool,
}

pub open spec fn forward_prefix(kind: OutputKind) -> Seq<char> {
    match kind {
        OutputKind::Error => "[sidecar error] "@,
        OutputKind::Terminated => "[sidecar] process exited: "@,
        _ => Seq::empty(),
    }
}

/// Decides how the forwarder treats one event: output lines are re-emitted
/// verbatim on the host's stream of the same name, errors and the exit status
/// are logged to stderr on a line of their own, and the reader ends at termination.
pub fn forwarding(kind: OutputKind) -> (r: Forward)
    ensures
        r.emit == (kind != OutputKind::Other),
        r.to_stdout == (kind == OutputKind::Stdout),
        r.prefix@ == forward_prefix(kind),
        r.newline == (kind == OutputKind::Error || kind == OutputKind::Terminated),
        r.stop == (kind == OutputKind::Terminated),
{
    proof {
        reveal_strlit("[sidecar error] ");
        reveal_strlit("[sidecar] process exited: ");
    }
    match kind {
        OutputKind::Stdout => Forward {
            emit: true,
            to_stdout: true,
            prefix: String::new(),
            newline: false,
            stop: false,
        },
        OutputKind::Stderr => Forward {
            emit: true,
            to_stdout: false,
            prefix: String::new(),
            newline: false,
            stop: false,
        },
        OutputKind::Error => Forward {
            emit: true,
            to_stdout: false,
            prefix: String::from_str("[sidecar error] "),
            newline: true,
            stop: false,
        },
        OutputKind::Terminated => Forward {
            emit: true,
            to_stdout: false,
            prefix: String::from_str("[sidecar] process exited: "),
            newline: true,
            stop: true,
        },
        OutputKind::Other => Forward {
            emit: false,
            to_stdout: false,
            prefix: String::new(),
            newline: false,
            stop: false,
        },
    }
}

} // verus!
