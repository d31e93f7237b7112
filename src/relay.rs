//! Decisions of the interactive terminal relay.
//!
//! The relay runs two pumps at once between a client socket and the standard
//! streams of the shell in a workload. The caller does the reading and
//! writing; these functions say what each frame or read leads to.

use vstd::prelude::*;
use vstd::slice::{slice_subrange, slice_to_vec};

verus! {

/// How to attach to a workload's shell.
pub struct AttachOptions {
    pub stdin: bool,
    pub stdout: bool,
    pub stderr: bool,
    pub tty: bool,
    /// The container to attach to; `None` is the workload's first container.
    pub container: Option<String>,
}

/// The attach the relay asks for: input and output, no error stream, and a
/// pseudo-terminal so the shell behaves interactively.
pub fn relay_attach_options() -> (r: AttachOptions)
    ensures
        r.stdin && r.stdout && !r.stderr && r.tty,
        r.container is None,
{
    AttachOptions { stdin: true, stdout: true, stderr: false, tty: true, container: None }
}

/// The command the relay runs in the workload.
pub fn shell_command() -> (r: Vec<String>)
    ensures
        r@.len() == 1,
        r@[0]@ == "/bin/bash"@,
{
    vec![String::from_str("/bin/bash")]
}

/// A frame read from the client socket.
pub enum ClientFrame {
    Binary(Vec<u8>),
    Text(String),
    Ping(Vec<u8>),
    Pong(Vec<u8>),
    Close,
}

/// What the client-to-shell pump does with a frame.
pub enum OutboundAction {
    /// Write these bytes to the shell's input.
    Forward(Vec<u8>),
    /// Nothing; read the next frame.
    Ignore,
    /// Stop pumping and close the shell's input.
    CloseInput,
}

/// The client-to-shell decision for one frame: binary frames pass through
/// unchanged, a close frame ends the pump, and every other frame is ignored.
pub fn outbound_step(frame: ClientFrame) -> (r: OutboundAction)
    ensures
        match frame {
            ClientFrame::Binary(d) => r matches OutboundAction::Forward(f) && f@ == d@,
            ClientFrame::Close => r is CloseInput,
            _ => r is Ignore,
        },
{
    match frame {
        ClientFrame::Binary(d) => OutboundAction::Forward(d),
        ClientFrame::Close => OutboundAction::CloseInput,
        _ => OutboundAction::Ignore,
    }
}

/// What the shell-to-client pump does after one read of the shell's output.
pub enum InboundAction {
    /// Send these bytes to the client as one binary frame.
    Send(Vec<u8>),
    /// Stop pumping.
    Stop,
}

/// The frame that a read of `chunk` gives; none once the output has ended.
pub open spec fn frame_of(chunk: Seq<u8>) -> Option<Seq<u8>> {
    if chunk.len() == 0 {
        None
    } else {
        Some(chunk)
    }
}

/// The shell-to-client decision after a read into `buf`: `read` is the number
/// of bytes read, or `None` when the read failed. An empty or failed read
/// ends the pump; otherwise exactly the bytes read are sent.
pub fn inbound_step(buf: &[u8], read: Option<usize>) -> (r: InboundAction)
    requires
        read matches Some(n) ==> n <= buf@.len(),
    ensures
        match read {
            Some(n) => match frame_of(buf@.subrange(0, n as int)) {
                Some(f) => r matches InboundAction::Send(v) && v@ == f,
                None => r is Stop,
            },
            None => r is Stop,
        },
{
    match read {
        Some(n) => {
            if n == 0 {
                InboundAction::Stop
            } else {
                InboundAction::Send(slice_to_vec(slice_subrange(buf, 0, n)))
            }
        },
        None => InboundAction::Stop,
    }
}

/// The bytes the client receives, in order, from a run of reads of the
/// shell's output; the pump stops at the first empty read.
pub open spec fn relayed(reads: Seq<Seq<u8>>) -> Seq<u8>
    decreases reads.len(),
{
    if reads.len() == 0 {
        Seq::empty()
    } else {
        match frame_of(reads[0]) {
            Some(f) => f + relayed(reads.drop_first()),
            None => Seq::empty(),
        }
    }
}

/// All of a run of reads, in order.
pub open spec fn concat_reads(reads: Seq<Seq<u8>>) -> Seq<u8>
    decreases reads.len(),
{
    if reads.len() == 0 {
        Seq::empty()
    } else {
        reads[0] + concat_reads(reads.drop_first())
    }
}

/// Output that the shell produces before the relay ends reaches the client
/// whole and in order: no byte is lost, added or reordered.
pub proof fn lemma_output_relayed_in_order(reads: Seq<Seq<u8>>)
    requires
        forall|i: int| 0 <= i < reads.len() ==> (#[trigger] reads[i]).len() > 0,
    ensures
        relayed(reads) == concat_reads(reads),
    decreases reads.len(),
{
    if reads.len() > 0 {
        let rest = reads.drop_first();
        assert forall|i: int| 0 <= i < rest.len() implies (#[trigger] rest[i]).len() > 0 by {
            assert(rest[i] == reads[i + 1]);
        }
        lemma_output_relayed_in_order(rest);
    }
}

} // verus!
