//! One export, from the resolved format to the handoff.
//!
//! An export goes through these steps: check whether the helper package is
//! installed; install it if it is not; then set the environment and replace
//! the process with the helper's executable. Each step is work for the
//! caller. An [`Export`] says which step is due ([`Export::action`]) and takes
//! the step's outcome ([`Export::advance`]):
//!
//! | phase           | step due     | after success | after failure |
//! |-----------------|--------------|---------------|---------------|
//! | `CheckPresence` | probe        | `Present`     | `Install`     |
//! | `Install`       | installation | `Present`     | `Failed`      |
//! | `Present`       | handoff      | `Transferred` | `Failed`      |
//! | `Transferred`   | none         |               |               |
//! | `Failed`        | none         |               |               |
//!
//! [`start`] puts a resolved format into `CheckPresence`. The user is told
//! one thing on the way: that the helper is missing, when the probe failed.

use crate::error::Error;
use crate::error::ErrorView;
use crate::platform::invocation;
use crate::platform::invocation_of;
use crate::platform::Platform;
use crate::platform::PlatformView;
use crate::ident::IdentView;
use crate::ident::PackageIdent;
use crate::registry::ExportFormat;
use crate::registry::FormatView;
use crate::text::opt_text;
use crate::text::texts;
use crate::ui::MessageView;
use crate::ui::Ui;
use vstd::prelude::*;

verus! {

/// How far an export has come.
#[derive(Clone, Copy, Debug, PartialEq, Eq)]
pub enum Phase {
    /// It is not yet known whether the helper is installed.
    CheckPresence,
    /// The helper is not installed; its installation is due.
    Install,
    /// The helper is installed; the handoff is due.
    Present,
    /// Control went to the helper. Nothing is left to do.
    Transferred,
    /// The installation or the handoff failed. Nothing is left to do.
    Failed,
}

/// A request to install the helper package.
#[derive(Debug, PartialEq, Eq)]
pub struct InstallRequest {
    /// The registry to install from.
    pub url: String,
    /// The channel of that registry. Without one, the installer picks its
    /// default.
    pub channel: Option<String>,
    /// The string form of the helper package's identifier.
    pub ident: String,
    /// Whether to install over an existing installation.
    pub force: bool,
}

/// The mathematical value of an [`InstallRequest`].
pub struct InstallView {
    pub url: Seq<char>,
    pub channel: Option<Seq<char>>,
    pub ident: Seq<char>,
    pub force: bool,
}

impl View for InstallRequest {
    type V = InstallView;

    open spec fn view(&self) -> InstallView {
        InstallView {
            url: self.url@,
            channel: opt_text(self.channel),
            ident: self.ident@,
            force: self.force,
        }
    }
}

/// What the helper's process is started with.
#[derive(Debug, PartialEq, Eq)]
pub struct Handoff {
    /// The helper package, in which the executable is found.
    pub helper: PackageIdent,
    /// The name of the executable.
    pub command: String,
    /// The arguments of the executable.
    pub args: Vec<String>,
    /// The value of the environment variable that names the registry of the
    /// package to export.
    pub registry_url: String,
    /// The value of the environment variable that names the channel of the
    /// package to export.
    pub registry_channel: String,
}

/// The mathematical value of a [`Handoff`].
pub struct HandoffView {
    pub helper: IdentView,
    pub command: Seq<char>,
    pub args: Seq<Seq<char>>,
    pub registry_url: Seq<char>,
    pub registry_channel: Seq<char>,
}

impl View for Handoff {
    type V = HandoffView;

    open spec fn view(&self) -> HandoffView {
        HandoffView {
            helper: self.helper@,
            command: self.command@,
            args: texts(self.args@),
            registry_url: self.registry_url@,
            registry_channel: self.registry_channel@,
        }
    }
}

/// A step that the caller is to perform.
#[derive(Debug, PartialEq, Eq)]
pub enum Action {
    /// Try to load the installed package of this identifier, without asking
    /// any registry. The step succeeds if the package is there.
    Probe(PackageIdent),
    /// Install the helper package.
    Install(InstallRequest),
    /// Set the two environment variables, then replace this process with the
    /// helper's executable. On success the process is gone.
    Handoff(Handoff),
}

/// The mathematical value of an [`Action`].
pub enum ActionView {
    Probe(IdentView),
    Install(InstallView),
    Handoff(HandoffView),
}

impl View for Action {
    type V = ActionView;

    open spec fn view(&self) -> ActionView {
        match self {
            Action::Probe(ident) => ActionView::Probe(ident@),
            Action::Install(request) => ActionView::Install(request@),
            Action::Handoff(handoff) => ActionView::Handoff(handoff@),
        }
    }
}

/// The view of an optional action.
pub open spec fn opt_action(action: Option<Action>) -> Option<ActionView> {
    match action {
        Some(a) => Some(a@),
        None => None,
    }
}

/// An export under way.
#[derive(Debug, PartialEq, Eq)]
pub struct Export {
    url: String,
    channel: String,
    hab_url: String,
    hab_channel: String,
    ident: PackageIdent,
    format: ExportFormat,
    phase: Phase,
}

/// The mathematical value of an [`Export`]: what was asked for, and how far
/// it has come.
pub struct ExportView {
    /// The registry of the package to export.
    pub url: Seq<char>,
    /// The channel of the package to export.
    pub channel: Seq<char>,
    /// The registry of the helper package.
    pub hab_url: Seq<char>,
    /// The channel of the helper package.
    pub hab_channel: Seq<char>,
    /// The package to export.
    pub ident: IdentView,
    /// The resolved format.
    pub format: FormatView,
    pub phase: Phase,
}

/// The phase after `phase`, once the step that was due there succeeded
/// (`ok`) or failed.
pub open spec fn next_phase(phase: Phase, ok: bool) -> Phase {
    match phase {
        Phase::CheckPresence => if ok {
            Phase::Present
        } else {
            Phase::Install
        },
        Phase::Install => if ok {
            Phase::Present
        } else {
            Phase::Failed
        },
        Phase::Present => if ok {
            Phase::Transferred
        } else {
            Phase::Failed
        },
        Phase::Transferred => Phase::Transferred,
        Phase::Failed => Phase::Failed,
    }
}

/// The status line that reports the helper `ident` as missing.
pub open spec fn missing_notice(ident: IdentView) -> MessageView {
    MessageView::Missing("package for "@ + ident.text())
}

/// The warning that a platform which cannot export gives when an export is
/// started.
pub open spec fn start_warning() -> Seq<char> {
    "Exporting packages from this operating system is not yet supported. Try running this command again on a 64-bit Linux operating system."@
}

impl ExportView {
    /// The probe for the helper package.
    pub open spec fn probe(self) -> ActionView {
        ActionView::Probe(self.format.pkg_ident)
    }

    /// The installation of the helper package: from the helper's registry and
    /// channel, never over an existing installation.
    pub open spec fn install(self) -> ActionView {
        ActionView::Install(
            InstallView {
                url: self.hab_url,
                channel: Some(self.hab_channel),
                ident: self.format.pkg_ident.text(),
                force: false,
            },
        )
    }

    /// The handoff: the helper's executable, the package to export as its
    /// only argument, and that package's registry and channel as the
    /// environment.
    pub open spec fn handoff(self) -> ActionView {
        ActionView::Handoff(
            HandoffView {
                helper: self.format.pkg_ident,
                command: self.format.cmd,
                args: seq![self.ident.text()],
                registry_url: self.url,
                registry_channel: self.channel,
            },
        )
    }

    /// The step that is due, if any.
    pub open spec fn action(self) -> Option<ActionView> {
        match self.phase {
            Phase::CheckPresence => Some(self.probe()),
            Phase::Install => Some(self.install()),
            Phase::Present => Some(self.handoff()),
            Phase::Transferred => None,
            Phase::Failed => None,
        }
    }

    /// The export after the step that was due succeeded (`ok`) or failed.
    pub open spec fn after(self, ok: bool) -> ExportView {
        ExportView { phase: next_phase(self.phase, ok), ..self }
    }

    /// What the user is told when the step that was due succeeded (`ok`) or
    /// failed: that the helper is missing, when the probe failed, and nothing
    /// otherwise.
    pub open spec fn notices(self, ok: bool) -> Seq<MessageView> {
        if self.phase == Phase::CheckPresence && !ok {
            seq![missing_notice(self.format.pkg_ident)]
        } else {
            Seq::empty()
        }
    }
}

impl View for Export {
    type V = ExportView;

    closed spec fn view(&self) -> ExportView {
        ExportView {
            url: self.url@,
            channel: self.channel@,
            hab_url: self.hab_url@,
            hab_channel: self.hab_channel@,
            ident: self.ident@,
            format: self.format@,
            phase: self.phase,
        }
    }
}

/// Starts an export of the package `ident` in the resolved `format`.
///
/// `url` and `channel` say where the package to export comes from; `hab_url`
/// and `hab_channel` say where the helper package comes from.
///
/// Where exports work, the export begins with the check for the helper, and
/// nothing is recorded on `ui`. Where they do not, the user is warned, and the
/// export is refused with the command that the user ran.
pub fn start(
    ui: &mut Ui,
    platform: &Platform,
    url: &str,
    channel: &str,
    hab_url: &str,
    hab_channel: &str,
    ident: &PackageIdent,
    format: &ExportFormat,
) -> (r: Result<Export, Error>)
    ensures
        match platform@ {
            PlatformView::Supported => {
                &&& final(ui)@ == old(ui)@
                &&& r matches Ok(export)
                &&& export@ == (ExportView {
                    url: url@,
                    channel: channel@,
                    hab_url: hab_url@,
                    hab_channel: hab_channel@,
                    ident: ident@,
                    format: format@,
                    phase: Phase::CheckPresence,
                })
            },
            PlatformView::Unsupported(args) => {
                &&& final(ui)@ == old(ui)@.push(MessageView::Warn(start_warning())).push(
                    MessageView::Br,
                )
                &&& r matches Err(e)
                &&& e@ == ErrorView::SubcommandNotSupported(invocation(args))
            },
        },
{
    match platform {
        Platform::Supported => Ok(
            Export {
                url: url.to_owned(),
                channel: channel.to_owned(),
                hab_url: hab_url.to_owned(),
                hab_channel: hab_channel.to_owned(),
                ident: ident.clone(),
                format: format.clone(),
                phase: Phase::CheckPresence,
            },
        ),
        Platform::Unsupported(args) => {
            let command = invocation_of(args);
            ui.warn(
                "Exporting packages from this operating system is not yet supported. Try running this command again on a 64-bit Linux operating system.".to_owned(),
            );
            ui.br();
            Err(Error::SubcommandNotSupported(command))
        },
    }
}

impl Export {
    /// How far the export has come.
    pub fn phase(&self) -> (phase: Phase)
        ensures
            phase == self@.phase,
    {
        self.phase
    }

    /// The step that is due: the probe, the installation or the handoff; none
    /// once control went to the helper or a step failed.
    pub fn action(&self) -> (action: Option<Action>)
        ensures
            opt_action(action) == self@.action(),
    {
        match self.phase {
            Phase::CheckPresence => Some(Action::Probe(self.format.pkg_ident().clone())),
            Phase::Install => Some(
                Action::Install(
                    InstallRequest {
                        url: self.hab_url.clone(),
                        channel: Some(self.hab_channel.clone()),
                        ident: self.format.pkg_ident().to_string(),
                        force: false,
                    },
                ),
            ),
            Phase::Present => {
                let mut args: Vec<String> = Vec::new();
                args.push(self.ident.to_string());
                assert(texts(args@) =~= seq![self.ident@.text()]);
                Some(
                    Action::Handoff(
                        Handoff {
                            helper: self.format.pkg_ident().clone(),
                            command: self.format.cmd().to_owned(),
                            args,
                            registry_url: self.url.clone(),
                            registry_channel: self.channel.clone(),
                        },
                    ),
                )
            },
            Phase::Transferred => None,
            Phase::Failed => None,
        }
    }

    /// Takes the outcome of the step that was due and moves on.
    ///
    /// A failed probe means that the helper is absent: the user is told that
    /// it is missing, its installation is due, and the failure is dropped. A
    /// failed installation or handoff ends the export, and the failure is
    /// handed back as it came. Once nothing is due, the export stays as it is
    /// and `outcome` is handed back.
    pub fn advance<E>(&mut self, ui: &mut Ui, outcome: Result<(), E>) -> (r: Result<(), E>)
        ensures
            final(self)@ == old(self)@.after(outcome is Ok),
            final(ui)@ == old(ui)@ + old(self)@.notices(outcome is Ok),
            r == if old(self)@.phase == Phase::CheckPresence {
                Ok(())
            } else {
                outcome
            },
    {
        let ok = outcome.is_ok();
        match self.phase {
            Phase::CheckPresence => {
                if ok {
                    self.phase = Phase::Present;
                } else {
                    let mut text = "package for ".to_owned();
                    text.append(self.format.pkg_ident().to_string().as_str());
                    ui.missing(text);
                    self.phase = Phase::Install;
                }
                Ok(())
            },
            Phase::Install => {
                self.phase = if ok {
                    Phase::Present
                } else {
                    Phase::Failed
                };
                outcome
            },
            Phase::Present => {
                self.phase = if ok {
                    Phase::Transferred
                } else {
                    Phase::Failed
                };
                outcome
            },
            Phase::Transferred => outcome,
            Phase::Failed => outcome,
        }
    }
}

/// What a run of an export comes to.
pub struct Trace {
    /// The steps that were performed, in order.
    pub actions: Seq<ActionView>,
    /// The lines that the user was told, in order.
    pub notices: Seq<MessageView>,
    /// The export at the end of the run.
    pub end: ExportView,
}

impl ExportView {
    /// The run in which the steps end as `outcomes` says, one after the
    /// other, `true` for a success. The run is over when nothing is due or
    /// when `outcomes` is used up.
    pub open spec fn run(self, outcomes: Seq<bool>) -> Trace
        decreases outcomes.len(),
    {
        if outcomes.len() == 0 || self.action() is None {
            Trace { actions: Seq::empty(), notices: Seq::empty(), end: self }
        } else {
            let rest = self.after(outcomes[0]).run(outcomes.drop_first());
            Trace {
                actions: seq![self.action()->0] + rest.actions,
                notices: self.notices(outcomes[0]) + rest.notices,
                end: rest.end,
            }
        }
    }
}

/// With the helper present, an export goes from the probe straight to the
/// handoff: nothing is installed, and the user is told nothing.
pub proof fn lemma_present_skips_install(s: ExportView, outcomes: Seq<bool>)
    requires
        s.phase == Phase::CheckPresence,
        outcomes.len() >= 1,
        outcomes[0],
    ensures
        s.run(outcomes).notices == Seq::<MessageView>::empty(),
        s.run(outcomes).actions == if outcomes.len() == 1 {
            seq![s.probe()]
        } else {
            seq![s.probe(), s.handoff()]
        },
        outcomes.len() == 1 ==> s.run(outcomes).end.action() == Some(s.handoff()),
        outcomes.len() >= 2 ==> s.run(outcomes).end.action() is None,
{
    reveal_with_fuel(ExportView::run, 4);
}

/// With the helper absent, the user is told once that it is missing, and the
/// helper is installed once, never over an existing installation. The handoff
/// follows the installation, and only if that succeeded.
pub proof fn lemma_absent_installs_once(s: ExportView, outcomes: Seq<bool>)
    requires
        s.phase == Phase::CheckPresence,
        outcomes.len() >= 1,
        !outcomes[0],
    ensures
        s.run(outcomes).notices == seq![missing_notice(s.format.pkg_ident)],
        s.run(outcomes).actions == if outcomes.len() == 1 {
            seq![s.probe()]
        } else if outcomes.len() == 2 || !outcomes[1] {
            seq![s.probe(), s.install()]
        } else {
            seq![s.probe(), s.install(), s.handoff()]
        },
        s.install() matches ActionView::Install(request) && !request.force,
        outcomes.len() == 1 ==> s.run(outcomes).end.action() == Some(s.install()),
        outcomes.len() == 2 && outcomes[1] ==> s.run(outcomes).end.action() == Some(s.handoff()),
        outcomes.len() >= 2 && !outcomes[1] ==> s.run(outcomes).end.phase == Phase::Failed,
{
    reveal_with_fuel(ExportView::run, 5);
}

/// Whatever happens in a run, each of its steps is made from what the export
/// was started with. The handoff names the registry and the channel of the
/// package to export, and the installation those of the helper: the two pairs
/// are never mixed up.
pub proof fn lemma_run_keeps_coordinates(s: ExportView, outcomes: Seq<bool>, i: int)
    requires
        0 <= i < s.run(outcomes).actions.len(),
    ensures
        match s.run(outcomes).actions[i] {
            ActionView::Probe(ident) => ident == s.format.pkg_ident,
            ActionView::Install(request) => {
                &&& request.url == s.hab_url
                &&& request.channel == Some(s.hab_channel)
                &&& request.ident == s.format.pkg_ident.text()
                &&& !request.force
            },
            ActionView::Handoff(handoff) => {
                &&& handoff.registry_url == s.url
                &&& handoff.registry_channel == s.channel
                &&& handoff.args == seq![s.ident.text()]
                &&& handoff.command == s.format.cmd
                &&& handoff.helper == s.format.pkg_ident
            },
        },
    decreases outcomes.len(),
{
    if i > 0 {
        lemma_run_keeps_coordinates(s.after(outcomes[0]), outcomes.drop_first(), i - 1);
    }
}

} // verus!
