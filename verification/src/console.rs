//! Receiving the terminal of a container.

use crate::error::{Error, IoError};
use crate::path::HostPath;
use vstd::prelude::*;

verus! {

/// How far the receipt of a terminal has come.
#[derive(Debug, Clone, Copy, PartialEq, Eq, Structural)]
pub enum PtyStage {
    /// A connection is to be accepted
    Listening,
    /// A message is to be received
    Connected,
    /// The file descriptor of the terminal is there
    Holding(i32),
}

/// What a message carried beside its bytes.
#[derive(Debug, Clone, Copy, PartialEq, Eq, Structural)]
pub enum Control {
    /// Nothing
    Absent,
    /// A header without data
    Empty,
    /// A file descriptor
    Descriptor(i32),
}

/// What the host has to say of the receipt.
#[derive(Debug)]
pub enum PtyReply {
    /// Whether a connection was accepted
    Accepted(Result<(), IoError>),
    /// What receiving a message returned, and what the message carried
    Received { ret: isize, control: Control },
}

/// Receive a PTY master over the provided unix socket
#[derive(Debug)]
pub struct ReceivePtyMaster {
    console_socket: HostPath,
    stage: PtyStage,
}

#[verifier::ext_equal]
pub struct PtyView {
    pub console_socket: Seq<u8>,
    pub stage: PtyStage,
}

impl View for ReceivePtyMaster {
    type V = PtyView;

    closed spec fn view(&self) -> PtyView {
        PtyView { console_socket: self.console_socket@, stage: self.stage }
    }
}

impl PtyView {
    /// The stage when the host has replied. A reply that does not fit the stage
    /// changes nothing.
    pub open spec fn next(self, reply: PtyReply) -> PtyView {
        match (self.stage, reply) {
            (PtyStage::Listening, PtyReply::Accepted(Ok(_))) => PtyView {
                stage: PtyStage::Connected,
                ..self
            },
            (PtyStage::Connected, PtyReply::Received { ret, control }) => match control {
                Control::Descriptor(fd) if ret >= 0 => PtyView {
                    stage: PtyStage::Holding(fd),
                    ..self
                },
                _ => self,
            },
            _ => self,
        }
    }

    /// The error that ends the receipt, if there is one.
    pub open spec fn fault(self, reply: PtyReply) -> Option<Error> {
        match (self.stage, reply) {
            (PtyStage::Listening, PtyReply::Accepted(Err(e))) => Some(
                Error::UnixSocketConnectError(e),
            ),
            (PtyStage::Connected, PtyReply::Received { ret, control }) => if ret < 0
                || control == Control::Empty {
                Some(Error::UnixSocketReceiveMessageError)
            } else {
                None
            },
            _ => None,
        }
    }

    /// The stage when a number of replies have come.
    pub open spec fn after(self, replies: Seq<PtyReply>) -> PtyView
        decreases replies.len(),
    {
        if replies.len() == 0 {
            self
        } else {
            self.after(replies.drop_last()).next(replies.last())
        }
    }
}

impl ReceivePtyMaster {
    /// The receipt over a socket that the host was to bind to the provided path
    pub fn new(console_socket: &HostPath, bound: Result<(), IoError>) -> (r: Result<Self, Error>)
        ensures
            match bound {
                Ok(_) => r matches Ok(master) && master@ == (PtyView {
                    console_socket: console_socket@,
                    stage: PtyStage::Listening,
                }),
                Err(e) => r matches Err(f) && f == Error::UnixSocketOpenError(e),
            },
    {
        match bound {
            Ok(_) => Ok(
                ReceivePtyMaster {
                    console_socket: console_socket.clone(),
                    stage: PtyStage::Listening,
                },
            ),
            Err(e) => Err(Error::UnixSocketOpenError(e)),
        }
    }

    /// The path of the socket, which is to be removed in the end
    pub fn console_socket(&self) -> (r: HostPath)
        ensures
            r@ == self@.console_socket,
    {
        self.console_socket.clone()
    }

    /// How far the receipt has come
    pub fn stage(&self) -> (r: PtyStage)
        ensures
            r == self@.stage,
    {
        self.stage
    }

    /// Receive a master PTY file descriptor from the socket: takes the host's
    /// reply to what the stage asks for
    pub fn receive(&mut self, reply: PtyReply) -> (r: Result<(), Error>)
        ensures
            final(self)@ == old(self)@.next(reply),
            match old(self)@.fault(reply) {
                Some(e) => r == Err::<(), Error>(e),
                None => r is Ok,
            },
    {
        match (self.stage, reply) {
            (PtyStage::Listening, PtyReply::Accepted(accepted)) => match accepted {
                Ok(_) => {
                    self.stage = PtyStage::Connected;
                    Ok(())
                },
                Err(e) => Err(Error::UnixSocketConnectError(e)),
            },
            (PtyStage::Connected, PtyReply::Received { ret, control }) => {
                if ret < 0 {
                    return Err(Error::UnixSocketReceiveMessageError);
                }
                match control {
                    Control::Absent => Ok(()),
                    Control::Empty => Err(Error::UnixSocketReceiveMessageError),
                    Control::Descriptor(fd) => {
                        self.stage = PtyStage::Holding(fd);
                        Ok(())
                    },
                }
            },
            _ => Ok(()),
        }
    }
}

} // verus!
