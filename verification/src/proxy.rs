//! The WebSocket relay between a client and the upstream node: what each
//! frame from one side makes the relay send to the other, and when it stops.
use vstd::prelude::*;

use vstd::utf8::{decode_utf8, valid_utf8};

verus! {

/// A frame received from the client, or a failure of the client stream.
#[derive(Debug)]
pub enum ClientFrame {
    Text(Vec<u8>),
    Binary(Vec<u8>),
    Ping(Vec<u8>),
    Pong(Vec<u8>),
    Close,
    Failed,
}

/// A frame to send upstream.
#[derive(Debug)]
pub enum UpstreamSend {
    Text(String),
    Binary(Vec<u8>),
    Ping(Vec<u8>),
    Pong(Vec<u8>),
    Close,
}

/// A frame received from upstream, or a failure of the upstream stream.
#[derive(Debug)]
pub enum UpstreamFrame {
    Text(String),
    Binary(Vec<u8>),
    Ping(Vec<u8>),
    Pong(Vec<u8>),
    Close,
    /// A raw frame, which the relay does not forward.
    Other,
    Failed,
}

/// A frame to send to the client.
#[derive(Debug)]
pub enum ClientSend {
    Text(String),
    Binary(Vec<u8>),
    Pong(Vec<u8>),
    Close,
}

/// What the relay does with one frame: what it sends (if anything), whether a
/// failed send ends the relay, and whether the relay ends after this frame.
#[derive(Debug)]
pub struct RelayStep<A> {
    pub send: Option<A>,
    pub stop_if_send_fails: bool,
    pub stop: bool,
}

/// Trusted: `String::from_utf8`, which std documents as succeeding exactly on
/// valid UTF-8, with the text the bytes encode.
#[verifier::external_body]
fn utf8_text(bytes: Vec<u8>) -> (res: Option<String>)
    ensures
        res is Some <==> valid_utf8(bytes@),
        res matches Some(s) ==> s@ == decode_utf8(bytes@),
{
    String::from_utf8(bytes).ok()
}

/// The relay's step for a frame from the client. Text that is valid UTF-8 and
/// binary data are forwarded, and a failed send ends the relay; invalid text is
/// dropped; pings and pongs are forwarded whatever comes of it; a close or a
/// stream failure sends a close upstream and ends the relay.
pub fn client_frame_step(frame: ClientFrame) -> (step: RelayStep<UpstreamSend>)
    ensures
        match frame {
            ClientFrame::Text(bytes) => if valid_utf8(bytes@) {
                step.send matches Some(UpstreamSend::Text(s)) && s@ == decode_utf8(bytes@)
                    && step.stop_if_send_fails && !step.stop
            } else {
                step.send is None && !step.stop
            },
            ClientFrame::Binary(b) => step.send == Some(UpstreamSend::Binary(b))
                && step.stop_if_send_fails && !step.stop,
            ClientFrame::Ping(p) => step.send == Some(UpstreamSend::Ping(p))
                && !step.stop_if_send_fails && !step.stop,
            ClientFrame::Pong(p) => step.send == Some(UpstreamSend::Pong(p))
                && !step.stop_if_send_fails && !step.stop,
            ClientFrame::Close => step.send == Some(UpstreamSend::Close) && step.stop,
            ClientFrame::Failed => step.send == Some(UpstreamSend::Close) && step.stop,
        },
{
    match frame {
        ClientFrame::Text(bytes) => match utf8_text(bytes) {
            Some(s) => RelayStep {
                send: Some(UpstreamSend::Text(s)),
                stop_if_send_fails: true,
                stop: false,
            },
            None => RelayStep { send: None, stop_if_send_fails: false, stop: false },
        },
        ClientFrame::Binary(b) => RelayStep {
            send: Some(UpstreamSend::Binary(b)),
            stop_if_send_fails: true,
            stop: false,
        },
        ClientFrame::Ping(p) => RelayStep {
            send: Some(UpstreamSend::Ping(p)),
            stop_if_send_fails: false,
            stop: false,
        },
        ClientFrame::Pong(p) => RelayStep {
            send: Some(UpstreamSend::Pong(p)),
            stop_if_send_fails: false,
            stop: false,
        },
        ClientFrame::Close => RelayStep {
            send: Some(UpstreamSend::Close),
            stop_if_send_fails: false,
            stop: true,
        },
        ClientFrame::Failed => RelayStep {
            send: Some(UpstreamSend::Close),
            stop_if_send_fails: false,
            stop: true,
        },
    }
}

/// The relay's step for a frame from upstream. Text and binary data are
/// forwarded, and a failed send ends the relay; a ping or a pong is answered
/// to the client with a pong of the same payload, whatever comes of it; a
/// close or a stream failure closes the client and ends the relay; other
/// frames are ignored.
pub fn upstream_frame_step(frame: UpstreamFrame) -> (step: RelayStep<ClientSend>)
    ensures
        match frame {
            UpstreamFrame::Text(t) => step.send == Some(ClientSend::Text(t))
                && step.stop_if_send_fails && !step.stop,
            UpstreamFrame::Binary(b) => step.send == Some(ClientSend::Binary(b))
                && step.stop_if_send_fails && !step.stop,
            UpstreamFrame::Ping(p) => step.send == Some(ClientSend::Pong(p))
                && !step.stop_if_send_fails && !step.stop,
            UpstreamFrame::Pong(p) => step.send == Some(ClientSend::Pong(p))
                && !step.stop_if_send_fails && !step.stop,
            UpstreamFrame::Close => step.send == Some(ClientSend::Close) && step.stop,
            UpstreamFrame::Other => step.send is None && !step.stop,
            UpstreamFrame::Failed => step.send == Some(ClientSend::Close) && step.stop,
        },
{
    match frame {
        UpstreamFrame::Text(t) => RelayStep {
            send: Some(ClientSend::Text(t)),
            stop_if_send_fails: true,
            stop: false,
        },
        UpstreamFrame::Binary(b) => RelayStep {
            send: Some(ClientSend::Binary(b)),
            stop_if_send_fails: true,
            stop: false,
        },
        UpstreamFrame::Ping(p) => RelayStep {
            send: Some(ClientSend::Pong(p)),
            stop_if_send_fails: false,
            stop: false,
        },
        UpstreamFrame::Pong(p) => RelayStep {
            send: Some(ClientSend::Pong(p)),
            stop_if_send_fails: false,
            stop: false,
        },
        UpstreamFrame::Close => RelayStep {
            send: Some(ClientSend::Close),
            stop_if_send_fails: false,
            stop: true,
        },
        UpstreamFrame::Other => RelayStep { send: None, stop_if_send_fails: false, stop: false },
        UpstreamFrame::Failed => RelayStep {
            send: Some(ClientSend::Close),
            stop_if_send_fails: false,
            stop: true,
        },
    }
}

} // verus!
