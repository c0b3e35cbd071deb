//! The box itself: one key inside the device and one initial value.

use vstd::prelude::*;
use vstd::slice::slice_to_vec;
use crate::device::{Command, CommandView, KeyHandle, Reply, ReplyView};
use crate::error::{Error, ErrorView};
use crate::provision::{Provisioning, ProvisioningView};
use crate::template::CipherMode;

verus! {

/// TPM encryption engine.
///
/// This object stands for the ephemeral symmetric key used for encryption
/// and decryption. It holds the handle of the key, never its bytes, and the
/// initial value that every operation of the box uses.
///
/// One initial value under one key makes the box repeatable: the same data
/// always give the same bytes. That is weaker than a fresh value for each
/// message. The box keeps to it all the same, since another choice would
/// change every ciphertext.
#[derive(Debug)]
pub struct TpmBox {
    key: KeyHandle,
    initial_value: Vec<u8>,
}

/// Mathematical value of a [`TpmBox`].
pub struct TpmBoxView {
    pub key: KeyHandle,
    pub initial_value: Seq<u8>,
}

impl View for TpmBox {
    type V = TpmBoxView;

    closed spec fn view(&self) -> TpmBoxView {
        TpmBoxView { key: self.key, initial_value: self.initial_value@ }
    }
}

/// Mathematical value of what an operation of a box returns.
pub open spec fn outcome_view(outcome: Result<Vec<u8>, Error>) -> Result<Seq<u8>, ErrorView> {
    match outcome {
        Ok(bytes) => Ok(bytes@),
        Err(error) => Err(error@),
    }
}

impl TpmBoxView {
    /// The command by which the box has `data` encrypted, or decrypted where
    /// `decrypt` is set: one pass of the cipher in CFB mode under the box's
    /// key, started from the box's initial value.
    pub open spec fn request(self, decrypt: bool, data: Seq<u8>) -> CommandView {
        CommandView::EncryptDecrypt {
            key: self.key,
            decrypt,
            mode: CipherMode::Cfb,
            data,
            initial_value: self.initial_value,
        }
    }

    /// What an operation on `data` returns when the device answers each
    /// command as `device` says.
    pub open spec fn run(
        self,
        device: spec_fn(CommandView) -> ReplyView,
        decrypt: bool,
        data: Seq<u8>,
    ) -> Result<Seq<u8>, ErrorView> {
        TpmBoxView::output(device(self.request(decrypt, data)))
    }

    /// What an operation returns once the device has answered with `reply`:
    /// the bytes that the cipher gave, or the device's failure.
    pub open spec fn output(reply: ReplyView) -> Result<Seq<u8>, ErrorView>
        recommends
            reply is Transformed || reply is Failed,
    {
        match reply {
            ReplyView::Failed(message) => Err(ErrorView::TpmError(message)),
            _ => Ok(reply->data),
        }
    }
}

impl TpmBox {
    /// Starts the construction of a new TPM encryption engine on the device
    /// that the transport descriptor `tcti` names. The box exists once the
    /// returned state has been advanced through every step.
    pub fn new(tcti: &str) -> (state: Provisioning)
        ensures
            state@ == ProvisioningView::start(tcti@),
    {
        Provisioning::start(tcti.to_owned())
    }

    /// Puts a box together from the handle of its key and its initial value.
    pub(crate) fn assemble(key: KeyHandle, initial_value: Vec<u8>) -> (engine: TpmBox)
        ensures
            engine@ == (TpmBoxView { key, initial_value: initial_value@ }),
    {
        TpmBox { key, initial_value }
    }

    /// The command for one pass over `data`. `decrypt` gives the direction:
    /// clear to encrypt, set to decrypt.
    fn encrypt_decrypt(&self, data: &[u8], decrypt: bool) -> (command: Command)
        ensures
            command@ == self@.request(decrypt, data@),
    {
        Command::EncryptDecrypt {
            key: self.key,
            decrypt,
            mode: CipherMode::Cfb,
            data: slice_to_vec(data),
            initial_value: self.initial_value.clone(),
        }
    }

    /// Encrypts a piece of data: gives the command that does so. The bytes
    /// come back through [`TpmBox::output`].
    pub fn encrypt(&self, data: &[u8]) -> (command: Command)
        ensures
            command@ == self@.request(false, data@),
    {
        self.encrypt_decrypt(data, false)
    }

    /// Decrypts a piece of data: gives the command that does so. The bytes
    /// come back through [`TpmBox::output`].
    pub fn decrypt(&self, data: &[u8]) -> (command: Command)
        ensures
            command@ == self@.request(true, data@),
    {
        self.encrypt_decrypt(data, true)
    }

    /// Ends an operation with the device's reply to its command. The bytes
    /// of the cipher are returned as they came. The value with which the
    /// device would chain is dropped, so the box never changes.
    pub fn output(reply: Reply) -> (outcome: Result<Vec<u8>, Error>)
        requires
            reply@ is Transformed || reply@ is Failed,
        ensures
            outcome_view(outcome) == TpmBoxView::output(reply@),
    {
        match reply {
            Reply::Transformed { data, chained_value: _ } => Ok(data),
            Reply::Failed(message) => Err(Error::TpmError(message)),
            _ => vstd::pervasive::unreached(),
        }
    }
}

/// Whether `device` takes `data` there and back: it answers one pass of the
/// CFB cipher over `data` under `key` from `initial_value` with bytes, and
/// it answers the pass in the other direction over those bytes, under the
/// same key and from the same initial value, with `data`.
pub open spec fn restores(
    device: spec_fn(CommandView) -> ReplyView,
    key: KeyHandle,
    initial_value: Seq<u8>,
    decrypt: bool,
    data: Seq<u8>,
) -> bool {
    let there = device(
        CommandView::EncryptDecrypt { key, decrypt, mode: CipherMode::Cfb, data, initial_value },
    );
    let back = device(
        CommandView::EncryptDecrypt {
            key,
            decrypt: !decrypt,
            mode: CipherMode::Cfb,
            data: there->data,
            initial_value,
        },
    );
    &&& there is Transformed
    &&& back is Transformed
    &&& back->data == data
}

/// Whether `device` answers one pass of the CFB cipher over `data` under
/// `key` from `initial_value` with as many bytes as `data` has.
pub open spec fn keeps_length(
    device: spec_fn(CommandView) -> ReplyView,
    key: KeyHandle,
    initial_value: Seq<u8>,
    decrypt: bool,
    data: Seq<u8>,
) -> bool {
    let there = device(
        CommandView::EncryptDecrypt { key, decrypt, mode: CipherMode::Cfb, data, initial_value },
    );
    there is Transformed && there->data.len() == data.len()
}

/// Every command of one box names the same key and starts from the same
/// initial value, whatever the data and the direction. The direction of the
/// command is the one asked for, and its data are the data given.
pub proof fn lemma_one_key_one_initial_value(
    engine: TpmBoxView,
    decrypt: bool,
    data: Seq<u8>,
    other_decrypt: bool,
    other_data: Seq<u8>,
)
    ensures
        engine.request(decrypt, data)->key == engine.request(other_decrypt, other_data)->key,
        engine.request(decrypt, data)->initial_value == engine.request(
            other_decrypt,
            other_data,
        )->initial_value,
        engine.request(decrypt, data)->decrypt == decrypt,
        engine.request(decrypt, data)->data == data,
{
}

/// Round trip. On a device whose cipher takes `data` there and back under
/// the box's key and initial value, one operation of the box followed by
/// the opposite one returns `data`. With `decrypt` clear this is decrypting
/// what was encrypted, with `decrypt` set it is encrypting what was
/// decrypted.
pub proof fn lemma_round_trip(
    engine: TpmBoxView,
    device: spec_fn(CommandView) -> ReplyView,
    decrypt: bool,
    data: Seq<u8>,
)
    requires
        restores(device, engine.key, engine.initial_value, decrypt, data),
    ensures
        engine.run(device, decrypt, data) is Ok,
        engine.run(device, !decrypt, engine.run(device, decrypt, data)->Ok_0) == Ok::<
            Seq<u8>,
            ErrorView,
        >(data),
{
}

/// Length. On a device whose cipher answers with as many bytes as it was
/// given, an operation of the box returns as many bytes as it was given:
/// the box adds nothing to the data and takes nothing from the answer.
pub proof fn lemma_length_kept(
    engine: TpmBoxView,
    device: spec_fn(CommandView) -> ReplyView,
    decrypt: bool,
    data: Seq<u8>,
)
    requires
        keeps_length(device, engine.key, engine.initial_value, decrypt, data),
    ensures
        engine.run(device, decrypt, data) is Ok,
        engine.run(device, decrypt, data)->Ok_0.len() == data.len(),
{
}

/// A failure of the device during an operation is the error of the
/// operation, with the device's message.
pub proof fn lemma_failure_is_reported(
    engine: TpmBoxView,
    device: spec_fn(CommandView) -> ReplyView,
    decrypt: bool,
    data: Seq<u8>,
    message: Seq<char>,
)
    requires
        device(engine.request(decrypt, data)) == ReplyView::Failed(message),
    ensures
        engine.run(device, decrypt, data) == Err::<Seq<u8>, ErrorView>(
            ErrorView::TpmError(message),
        ),
{
}

} // verus!
