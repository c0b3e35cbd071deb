//! What a box and its device say to each other.
//!
//! A box never reaches the device itself. It writes down each request as a
//! [`Command`]. A driver carries the command out and reports what came of it
//! as a [`Reply`].

use vstd::prelude::*;
use crate::template::{CipherMode, KeyTemplate, KeyTemplateView};

verus! {

/// Reference to a key object inside the device. It is only meaningful in the
/// session that created the key, and says nothing of the key's bytes.
#[derive(Clone, Copy, Debug, PartialEq, Eq)]
pub struct KeyHandle {
    pub value: u32,
}

/// What an authorization value is set for.
#[derive(Clone, Copy, Debug, PartialEq, Eq)]
pub enum AuthTarget {
    /// The null hierarchy, which the device clears at every reset.
    NullHierarchy,
    /// A key object.
    Key(KeyHandle),
}

/// What random bytes of the device are drawn for. The driver holds the bytes
/// to the size of the buffer that they will fill.
#[derive(Clone, Copy, Debug, PartialEq, Eq)]
pub enum RandomUse {
    /// The authorization value of the key.
    AuthValue,
    /// The initial value of the cipher.
    InitialValue,
}

/// The authorization session in which a command runs.
#[derive(Clone, Copy, Debug, PartialEq, Eq)]
pub enum Session {
    /// No session.
    Absent,
    /// A session that presents the authorization value of the object.
    Password,
}

/// A request to the device.
#[derive(Debug, PartialEq, Eq)]
pub enum Command {
    /// Open a session to the device that the transport descriptor names.
    OpenSession { descriptor: String },
    /// Set the authorization value that later commands present for
    /// `target`.
    SetAuth { target: AuthTarget, auth: Vec<u8> },
    /// Draw `count` random bytes from the device's own generator.
    GetRandom { count: usize, purpose: RandomUse },
    /// Create a primary key under the null hierarchy from `template`, with
    /// `auth` as its authorization value.
    CreatePrimary { template: KeyTemplate, auth: Vec<u8> },
    /// Encrypt `data`, or decrypt it where `decrypt` is set, under `key`.
    EncryptDecrypt {
        key: KeyHandle,
        decrypt: bool,
        mode: CipherMode,
        data: Vec<u8>,
        initial_value: Vec<u8>,
    },
}

/// Mathematical value of a [`Command`].
pub enum CommandView {
    OpenSession { descriptor: Seq<char> },
    SetAuth { target: AuthTarget, auth: Seq<u8> },
    GetRandom { count: usize, purpose: RandomUse },
    CreatePrimary { template: KeyTemplateView, auth: Seq<u8> },
    EncryptDecrypt {
        key: KeyHandle,
        decrypt: bool,
        mode: CipherMode,
        data: Seq<u8>,
        initial_value: Seq<u8>,
    },
}

impl View for Command {
    type V = CommandView;

    open spec fn view(&self) -> CommandView {
        match self {
            Command::OpenSession { descriptor } => CommandView::OpenSession {
                descriptor: descriptor@,
            },
            Command::SetAuth { target, auth } => CommandView::SetAuth {
                target: *target,
                auth: auth@,
            },
            Command::GetRandom { count, purpose } => CommandView::GetRandom {
                count: *count,
                purpose: *purpose,
            },
            Command::CreatePrimary { template, auth } => CommandView::CreatePrimary {
                template: template@,
                auth: auth@,
            },
            Command::EncryptDecrypt { key, decrypt, mode, data, initial_value } => {
                CommandView::EncryptDecrypt {
                    key: *key,
                    decrypt: *decrypt,
                    mode: *mode,
                    data: data@,
                    initial_value: initial_value@,
                }
            },
        }
    }
}

/// What the driver reports of one command.
#[derive(Debug, PartialEq, Eq)]
pub enum Reply {
    /// The command succeeded and returns nothing.
    Done,
    /// The random bytes that were drawn.
    Random(Vec<u8>),
    /// The handle of the key that was created.
    Key(KeyHandle),
    /// The bytes that the cipher gave, and the value with which the device
    /// would go on with the same stream.
    Transformed { data: Vec<u8>, chained_value: Vec<u8> },
    /// The command failed. The message is the device's.
    Failed(String),
}

/// Mathematical value of a [`Reply`].
pub enum ReplyView {
    Done,
    Random(Seq<u8>),
    Key(KeyHandle),
    Transformed { data: Seq<u8>, chained_value: Seq<u8> },
    Failed(Seq<char>),
}

impl View for Reply {
    type V = ReplyView;

    open spec fn view(&self) -> ReplyView {
        match self {
            Reply::Done => ReplyView::Done,
            Reply::Random(bytes) => ReplyView::Random(bytes@),
            Reply::Key(key) => ReplyView::Key(*key),
            Reply::Transformed { data, chained_value } => ReplyView::Transformed {
                data: data@,
                chained_value: chained_value@,
            },
            Reply::Failed(message) => ReplyView::Failed(message@),
        }
    }
}

impl CommandView {
    /// The session in which the command runs: a password session where the
    /// command creates or uses a key, none otherwise.
    pub open spec fn session(self) -> Session {
        match self {
            CommandView::CreatePrimary { .. } => Session::Password,
            CommandView::EncryptDecrypt { .. } => Session::Password,
            _ => Session::Absent,
        }
    }

    /// Whether `reply` is an answer to this command: its failure, or what
    /// the command returns when it succeeds.
    pub open spec fn answered_by(self, reply: ReplyView) -> bool {
        reply is Failed || match self {
            CommandView::OpenSession { .. } => reply is Done,
            CommandView::SetAuth { .. } => reply is Done,
            CommandView::GetRandom { .. } => reply is Random,
            CommandView::CreatePrimary { .. } => reply is Key,
            CommandView::EncryptDecrypt { .. } => reply is Transformed,
        }
    }
}

impl Command {
    /// The session in which the driver runs the command.
    pub fn session(&self) -> (session: Session)
        ensures
            session == self@.session(),
    {
        match self {
            Command::CreatePrimary { .. } => Session::Password,
            Command::EncryptDecrypt { .. } => Session::Password,
            _ => Session::Absent,
        }
    }

    /// Whether `reply` is an answer to this command.
    pub fn answered_by(&self, reply: &Reply) -> (answered: bool)
        ensures
            answered == self@.answered_by(reply@),
    {
        match reply {
            Reply::Failed(_) => true,
            Reply::Done => match self {
                Command::OpenSession { .. } => true,
                Command::SetAuth { .. } => true,
                _ => false,
            },
            Reply::Random(_) => match self {
                Command::GetRandom { .. } => true,
                _ => false,
            },
            Reply::Key(_) => match self {
                Command::CreatePrimary { .. } => true,
                _ => false,
            },
            Reply::Transformed { .. } => match self {
                Command::EncryptDecrypt { .. } => true,
                _ => false,
            },
        }
    }
}

} // verus!
