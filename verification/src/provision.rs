//! The construction of a box, one command at a time.
//!
//! A [`Provisioning`] is where a construction stands. It names the command
//! that is due, and [`Provisioning::advance`] takes the device's reply to
//! that command to the next state, to the finished box, or to the error
//! that ends the construction.

use vstd::prelude::*;
use crate::device::{AuthTarget, Command, CommandView, KeyHandle, RandomUse, Reply, ReplyView};
use crate::engine::{TpmBox, TpmBoxView};
use crate::error::{Error, ErrorView};
use crate::template::{KeyTemplate, KeyTemplateView};

verus! {

/// Number of random bytes that a box draws for its authorization value,
/// and again for its initial value.
pub const SECRET_LEN: usize = 16;

/// Where the construction of a box stands: the step whose reply is
/// awaited, with what the steps before it have brought. A construction
/// starts with [`TpmBox::new`] and goes on through
/// [`Provisioning::advance`] alone, so that a box only ever comes out of a
/// construction that has run through every step.
#[derive(Debug)]
pub struct Provisioning {
    stage: Stage,
}

#[derive(Debug)]
enum Stage {
    OpeningSession { descriptor: String },
    AuthorizingHierarchy,
    DrawingAuth,
    CreatingKey { auth: Vec<u8> },
    BindingAuth { key: KeyHandle, auth: Vec<u8> },
    DrawingInitialValue { key: KeyHandle },
}

/// Mathematical value of a [`Provisioning`].
pub enum ProvisioningView {
    /// The session to the device is being opened.
    OpeningSession { descriptor: Seq<char> },
    /// The null hierarchy is being authorized.
    AuthorizingHierarchy,
    /// The authorization value of the key is being drawn.
    DrawingAuth,
    /// The key is being created.
    CreatingKey { auth: Seq<u8> },
    /// The authorization value is being set for the handle of the key.
    BindingAuth { key: KeyHandle, auth: Seq<u8> },
    /// The initial value is being drawn.
    DrawingInitialValue { key: KeyHandle },
}

impl View for Provisioning {
    type V = ProvisioningView;

    closed spec fn view(&self) -> ProvisioningView {
        match self.stage {
            Stage::OpeningSession { descriptor } => ProvisioningView::OpeningSession {
                descriptor: descriptor@,
            },
            Stage::AuthorizingHierarchy => ProvisioningView::AuthorizingHierarchy,
            Stage::DrawingAuth => ProvisioningView::DrawingAuth,
            Stage::CreatingKey { auth } => ProvisioningView::CreatingKey { auth: auth@ },
            Stage::BindingAuth { key, auth } => ProvisioningView::BindingAuth { key, auth: auth@ },
            Stage::DrawingInitialValue { key } => ProvisioningView::DrawingInitialValue { key },
        }
    }
}

/// What a reply makes of a construction.
#[derive(Debug)]
pub enum Progress {
    /// The construction goes on from this state.
    Continue(Provisioning),
    /// The box is complete.
    Ready(TpmBox),
    /// The construction has failed, and no box exists.
    Failed(Error),
}

/// Mathematical value of a [`Progress`].
pub enum ProgressView {
    Continue(ProvisioningView),
    Ready(TpmBoxView),
    Failed(ErrorView),
}

impl View for Progress {
    type V = ProgressView;

    open spec fn view(&self) -> ProgressView {
        match self {
            Progress::Continue(state) => ProgressView::Continue(state@),
            Progress::Ready(engine) => ProgressView::Ready(engine@),
            Progress::Failed(error) => ProgressView::Failed(error@),
        }
    }
}

impl ProvisioningView {
    /// The state in which every construction starts.
    pub open spec fn start(descriptor: Seq<char>) -> ProvisioningView {
        ProvisioningView::OpeningSession { descriptor }
    }

    /// The command that is due in this state.
    pub open spec fn command(self) -> CommandView {
        match self {
            ProvisioningView::OpeningSession { descriptor } => CommandView::OpenSession {
                descriptor,
            },
            ProvisioningView::AuthorizingHierarchy => CommandView::SetAuth {
                target: AuthTarget::NullHierarchy,
                auth: Seq::empty(),
            },
            ProvisioningView::DrawingAuth => CommandView::GetRandom {
                count: SECRET_LEN,
                purpose: RandomUse::AuthValue,
            },
            ProvisioningView::CreatingKey { auth } => CommandView::CreatePrimary {
                template: KeyTemplateView::symmetric(),
                auth,
            },
            ProvisioningView::BindingAuth { key, auth } => CommandView::SetAuth {
                target: AuthTarget::Key(key),
                auth,
            },
            ProvisioningView::DrawingInitialValue { .. } => CommandView::GetRandom {
                count: SECRET_LEN,
                purpose: RandomUse::InitialValue,
            },
        }
    }

    /// The number of commands that a construction in this state still has
    /// to send before the box is complete.
    pub open spec fn steps_left(self) -> nat {
        match self {
            ProvisioningView::OpeningSession { .. } => 6,
            ProvisioningView::AuthorizingHierarchy => 5,
            ProvisioningView::DrawingAuth => 4,
            ProvisioningView::CreatingKey { .. } => 3,
            ProvisioningView::BindingAuth { .. } => 2,
            ProvisioningView::DrawingInitialValue { .. } => 1,
        }
    }

    /// Whether `reply` forbids the construction to return at all: the
    /// device did not create the key. A box without a working key must
    /// never appear usable, so this is no error to hand to a caller.
    pub open spec fn fatal(self, reply: ReplyView) -> bool {
        self is CreatingKey && reply is Failed
    }

    /// The replies from which the construction can go on or fail in
    /// order: the answers to the command that is due, but for the fatal
    /// one.
    pub open spec fn admits(self, reply: ReplyView) -> bool {
        self.command().answered_by(reply) && !self.fatal(reply)
    }

    /// What an admitted reply makes of the construction. A failure ends
    /// it with the device's message. Success leads to the next step, and
    /// after the last step to the box.
    pub open spec fn advance(self, reply: ReplyView) -> ProgressView
        recommends
            self.admits(reply),
    {
        match reply {
            ReplyView::Failed(message) => ProgressView::Failed(ErrorView::TpmError(message)),
            _ => match self {
                ProvisioningView::OpeningSession { .. } => ProgressView::Continue(
                    ProvisioningView::AuthorizingHierarchy,
                ),
                ProvisioningView::AuthorizingHierarchy => ProgressView::Continue(
                    ProvisioningView::DrawingAuth,
                ),
                ProvisioningView::DrawingAuth => ProgressView::Continue(
                    ProvisioningView::CreatingKey { auth: reply->Random_0 },
                ),
                ProvisioningView::CreatingKey { auth } => ProgressView::Continue(
                    ProvisioningView::BindingAuth { key: reply->Key_0, auth },
                ),
                ProvisioningView::BindingAuth { key, .. } => ProgressView::Continue(
                    ProvisioningView::DrawingInitialValue { key },
                ),
                ProvisioningView::DrawingInitialValue { key } => ProgressView::Ready(
                    TpmBoxView { key, initial_value: reply->Random_0 },
                ),
            },
        }
    }
}

impl Provisioning {
    /// The state in which every construction starts.
    pub(crate) fn start(descriptor: String) -> (state: Provisioning)
        ensures
            state@ == ProvisioningView::start(descriptor@),
    {
        Provisioning { stage: Stage::OpeningSession { descriptor } }
    }

    /// The command that the driver is to carry out next.
    pub fn command(&self) -> (command: Command)
        ensures
            command@ == self@.command(),
    {
        match &self.stage {
            Stage::OpeningSession { descriptor } => Command::OpenSession {
                descriptor: descriptor.clone(),
            },
            Stage::AuthorizingHierarchy => Command::SetAuth {
                target: AuthTarget::NullHierarchy,
                auth: Vec::new(),
            },
            Stage::DrawingAuth => Command::GetRandom {
                count: SECRET_LEN,
                purpose: RandomUse::AuthValue,
            },
            Stage::CreatingKey { auth } => Command::CreatePrimary {
                template: KeyTemplate::symmetric(),
                auth: auth.clone(),
            },
            Stage::BindingAuth { key, auth } => Command::SetAuth {
                target: AuthTarget::Key(*key),
                auth: auth.clone(),
            },
            Stage::DrawingInitialValue { .. } => Command::GetRandom {
                count: SECRET_LEN,
                purpose: RandomUse::InitialValue,
            },
        }
    }

    /// Whether `reply` forbids the construction to return at all.
    pub fn fatal(&self, reply: &Reply) -> (fatal: bool)
        ensures
            fatal == self@.fatal(reply@),
    {
        match &self.stage {
            Stage::CreatingKey { .. } => match reply {
                Reply::Failed(_) => true,
                _ => false,
            },
            _ => false,
        }
    }

    /// Whether the construction can be advanced with `reply`.
    pub fn admits(&self, reply: &Reply) -> (admitted: bool)
        ensures
            admitted == self@.admits(reply@),
    {
        let command = self.command();
        command.answered_by(reply) && !self.fatal(reply)
    }

    /// Takes the construction one step further with the device's reply to
    /// the command that was due.
    pub fn advance(self, reply: Reply) -> (progress: Progress)
        requires
            self@.admits(reply@),
        ensures
            progress@ == self@.advance(reply@),
    {
        match reply {
            Reply::Failed(message) => Progress::Failed(Error::TpmError(message)),
            Reply::Done => match self.stage {
                Stage::OpeningSession { .. } => Progress::Continue(
                    Provisioning { stage: Stage::AuthorizingHierarchy },
                ),
                Stage::AuthorizingHierarchy => Progress::Continue(
                    Provisioning { stage: Stage::DrawingAuth },
                ),
                Stage::BindingAuth { key, .. } => Progress::Continue(
                    Provisioning { stage: Stage::DrawingInitialValue { key } },
                ),
                _ => vstd::pervasive::unreached(),
            },
            Reply::Random(bytes) => match self.stage {
                Stage::DrawingAuth => Progress::Continue(
                    Provisioning { stage: Stage::CreatingKey { auth: bytes } },
                ),
                Stage::DrawingInitialValue { key } => Progress::Ready(
                    TpmBox::assemble(key, bytes),
                ),
                _ => vstd::pervasive::unreached(),
            },
            Reply::Key(key) => match self.stage {
                Stage::CreatingKey { auth } => Progress::Continue(
                    Provisioning { stage: Stage::BindingAuth { key, auth } },
                ),
                _ => vstd::pervasive::unreached(),
            },
            Reply::Transformed { .. } => vstd::pervasive::unreached(),
        }
    }
}

/// A failure of the device ends the construction with an error that holds
/// the device's message, and without a box. This holds at every step at
/// which a failure is admitted, that is at every step but the creation of
/// the key.
pub proof fn lemma_failure_ends_construction(state: ProvisioningView, message: Seq<char>)
    requires
        state.admits(ReplyView::Failed(message)),
    ensures
        !(state is CreatingKey),
        state.advance(ReplyView::Failed(message)) == ProgressView::Failed(
            ErrorView::TpmError(message),
        ),
{
}

/// A device that cannot be opened under the transport descriptor gives no
/// box: the construction starts by opening the session, and the failure to
/// do so is admitted and is the error of the construction.
pub proof fn lemma_unreachable_device_gives_no_box(descriptor: Seq<char>, message: Seq<char>)
    ensures
        ProvisioningView::start(descriptor).command() == (CommandView::OpenSession {
            descriptor,
        }),
        ProvisioningView::start(descriptor).admits(ReplyView::Failed(message)),
        ProvisioningView::start(descriptor).advance(ReplyView::Failed(message))
            == ProgressView::Failed(ErrorView::TpmError(message)),
{
}

/// The course of a construction on which no command fails, in six steps.
/// The session is opened, and the null hierarchy authorized with the empty
/// value. Sixteen random bytes become the authorization value with which
/// the key is created from the box's template, and which is then set for
/// the key's handle. Sixteen more random bytes become the initial value.
/// The box that results holds the handle and the initial value, and not
/// the authorization value.
pub proof fn lemma_construction_in_order(
    descriptor: Seq<char>,
    auth: Seq<u8>,
    key: KeyHandle,
    initial_value: Seq<u8>,
)
    ensures
        ({
            let opening = ProvisioningView::start(descriptor);
            let authorizing = ProvisioningView::AuthorizingHierarchy;
            let drawing_auth = ProvisioningView::DrawingAuth;
            let creating = ProvisioningView::CreatingKey { auth };
            let binding = ProvisioningView::BindingAuth { key, auth };
            let drawing_value = ProvisioningView::DrawingInitialValue { key };
            &&& opening.steps_left() == 6
            &&& opening.command() == (CommandView::OpenSession { descriptor })
            &&& opening.admits(ReplyView::Done)
            &&& opening.advance(ReplyView::Done) == ProgressView::Continue(authorizing)
            &&& authorizing.command() == (CommandView::SetAuth {
                target: AuthTarget::NullHierarchy,
                auth: Seq::empty(),
            })
            &&& authorizing.admits(ReplyView::Done)
            &&& authorizing.advance(ReplyView::Done) == ProgressView::Continue(drawing_auth)
            &&& drawing_auth.command() == (CommandView::GetRandom {
                count: 16,
                purpose: RandomUse::AuthValue,
            })
            &&& drawing_auth.admits(ReplyView::Random(auth))
            &&& drawing_auth.advance(ReplyView::Random(auth)) == ProgressView::Continue(creating)
            &&& creating.command() == (CommandView::CreatePrimary {
                template: KeyTemplateView::symmetric(),
                auth,
            })
            &&& creating.admits(ReplyView::Key(key))
            &&& creating.advance(ReplyView::Key(key)) == ProgressView::Continue(binding)
            &&& binding.command() == (CommandView::SetAuth { target: AuthTarget::Key(key), auth })
            &&& binding.admits(ReplyView::Done)
            &&& binding.advance(ReplyView::Done) == ProgressView::Continue(drawing_value)
            &&& drawing_value.command() == (CommandView::GetRandom {
                count: 16,
                purpose: RandomUse::InitialValue,
            })
            &&& drawing_value.admits(ReplyView::Random(initial_value))
            &&& drawing_value.advance(ReplyView::Random(initial_value)) == ProgressView::Ready(
                TpmBoxView { key, initial_value },
            )
        }),
{
}

/// No step is taken twice. Each admitted reply either ends the
/// construction, with the box after the last step or with an error after a
/// failure, or leaves one step fewer.
pub proof fn lemma_every_reply_leads_on(state: ProvisioningView, reply: ReplyView)
    requires
        state.admits(reply),
    ensures
        (match state.advance(reply) {
            ProgressView::Continue(next) => !(reply is Failed) && next.steps_left() + 1
                == state.steps_left(),
            ProgressView::Ready(_) => !(reply is Failed) && state.steps_left() == 1,
            ProgressView::Failed(_) => reply is Failed,
        }),
{
}

/// Only the creation of the key can end a construction for good, and it
/// does so exactly when the device fails to create the key. Every other
/// answer to the command that is due is admitted.
pub proof fn lemma_fatal_only_at_key_creation(state: ProvisioningView, reply: ReplyView)
    requires
        state.command().answered_by(reply),
    ensures
        state.fatal(reply) <==> state.command() is CreatePrimary && reply is Failed,
        state.admits(reply) <==> !state.fatal(reply),
{
}

} // verus!
