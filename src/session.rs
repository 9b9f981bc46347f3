//! The domain manager: the sequence of native operations that runs an
//! in-memory program, as a state machine. The host performs each action the
//! session asks for and reports its outcome as an event; the session decides
//! what follows, and on any failure tears down what was acquired, in order:
//! unload the domain, then stop the runtime.

use vstd::prelude::*;
use crate::array::{entry_arguments, values_of, wide_args, SafeArray};
use crate::error::ClrError;
use crate::runtime::{
    header_spec, image_header, validate_file, validate_spec, version_text, RuntimeVersion,
};
use crate::store::RustClrControl;
use crate::variant::DynValue;
use crate::wide::{encode_wide_z, utf16_encode};

verus! {

/// The native operation the session waits on.
#[derive(Debug, Clone, Copy, PartialEq, Eq, Structural)]
pub enum Action {
    /// Create the meta-host service.
    CreateMetaHost,
    /// Obtain the runtime-info service for the selected version.
    GetRuntime,
    /// Compute the image's identity; answered by `Event::Identity`.
    ExtractIdentity,
    /// Obtain the runtime host that accepts a host control.
    GetRuntimeHost,
    /// Ask whether the runtime can still be started here; answered by
    /// `Event::Startable`.
    CheckStarted,
    /// Register the bind interceptor built by `interceptor`.
    RegisterInterceptor,
    /// Start the runtime.
    StartRuntime,
    /// Obtain the runtime host that creates domains.
    GetCorRuntimeHost,
    /// Create the execution domain named by `domain_name_wide`.
    CreateDomain,
    /// Load the image, by its identity, into the domain.
    LoadAssembly,
    /// Find the core library among the loaded assemblies.
    ResolveMscorlib,
    /// Neutralize the process-termination routine.
    NeutralizeExit,
    /// Arm the output redirector.
    ArmOutput,
    /// Invoke the entry point with `entry_args`.
    InvokeEntry,
    /// Capture the redirected output; answered by `Event::Output`.
    CaptureOutput,
    /// Unload the domain.
    UnloadDomain,
    /// Stop the runtime.
    StopRuntime,
    /// Nothing more: the outcome is ready.
    Finish,
}

/// The outcome of the action performed.
#[derive(Debug)]
pub enum Event {
    /// It succeeded.
    Done,
    /// The identity was computed.
    Identity(String),
    /// Whether the runtime is loadable and not started yet.
    Startable(bool),
    /// The captured output.
    Output(String),
    /// It failed with this error.
    Failed(ClrError),
}

/// Whether `ev` is the successful outcome of `a`.
pub open spec fn event_fits(a: Action, ev: Event) -> bool {
    match ev {
        Event::Done => a != Action::ExtractIdentity && a != Action::CheckStarted && a
            != Action::CaptureOutput,
        Event::Identity(_) => a == Action::ExtractIdentity,
        Event::Startable(_) => a == Action::CheckStarted,
        Event::Output(_) => a == Action::CaptureOutput,
        Event::Failed(_) => false,
    }
}

/// The error that an outcome other than the expected success stands for.
pub open spec fn failure_of(ev: Event) -> ClrError {
    match ev {
        Event::Failed(e) => e,
        _ => ClrError::GenericError("unexpected event"),
    }
}

/// The action after `a` succeeded with `ev`.
pub open spec fn success_next(a: Action, ev: Event, patch: bool, redirect: bool) -> Action {
    match a {
        Action::CreateMetaHost => Action::GetRuntime,
        Action::GetRuntime => Action::ExtractIdentity,
        Action::ExtractIdentity => Action::GetRuntimeHost,
        Action::GetRuntimeHost => Action::CheckStarted,
        Action::CheckStarted => match ev {
            Event::Startable(true) => Action::RegisterInterceptor,
            _ => Action::GetCorRuntimeHost,
        },
        Action::RegisterInterceptor => Action::StartRuntime,
        Action::StartRuntime => Action::GetCorRuntimeHost,
        Action::GetCorRuntimeHost => Action::CreateDomain,
        Action::CreateDomain => Action::LoadAssembly,
        Action::LoadAssembly => Action::ResolveMscorlib,
        Action::ResolveMscorlib => if patch {
            Action::NeutralizeExit
        } else if redirect {
            Action::ArmOutput
        } else {
            Action::InvokeEntry
        },
        Action::NeutralizeExit => if redirect {
            Action::ArmOutput
        } else {
            Action::InvokeEntry
        },
        Action::ArmOutput => Action::InvokeEntry,
        Action::InvokeEntry => if redirect {
            Action::CaptureOutput
        } else {
            Action::UnloadDomain
        },
        Action::CaptureOutput => Action::UnloadDomain,
        Action::UnloadDomain => Action::StopRuntime,
        Action::StopRuntime => Action::Finish,
        Action::Finish => Action::Finish,
    }
}

/// The first teardown action for what is held: the domain is unloaded only
/// when one exists, and the runtime stopped only when it was obtained.
pub open spec fn teardown_spec(has_domain: bool, has_host: bool) -> Action {
    if has_domain && has_host {
        Action::UnloadDomain
    } else if has_host {
        Action::StopRuntime
    } else {
        Action::Finish
    }
}

/// The domain name to create: the one requested, else the fresh one.
pub open spec fn domain_name_spec(requested: Option<String>, fresh: Seq<char>) -> Seq<char> {
    match requested {
        Some(n) => n@,
        None => fresh,
    }
}

/// One run of an in-memory program image.
pub struct RustClr<'a> {
    /// The program image.
    pub buffer: &'a [u8],
    /// Whether output is captured.
    pub redirect_output: bool,
    /// Whether the process-termination routine is neutralized.
    pub patch_exit: bool,
    /// Arguments for the entry point.
    pub args: Option<Vec<String>>,
    /// Name of the domain to create.
    pub domain_name: Option<String>,
    /// Runtime version to use.
    pub runtime_version: Option<RuntimeVersion>,
    /// The image's identity, once computed.
    pub identity_assembly: String,
    /// The action whose outcome is awaited.
    pub awaiting: Action,
    /// Whether the domain-creating runtime host was obtained (the runtime is
    /// then stopped at the end).
    pub has_host: bool,
    /// Whether a domain exists that has not been unloaded.
    pub has_domain: bool,
    /// The first error, if any.
    pub error: Option<ClrError>,
    /// The captured output.
    pub output: String,
}

/// Whether the runtime's start status reports success.
pub fn start_status(status: i32) -> (r: Result<(), ClrError>)
    ensures
        status == 0 ==> r is Ok,
        status != 0 ==> r == Err::<(), ClrError>(ClrError::RuntimeStartError),
{
    if status != 0 {
        Err(ClrError::RuntimeStartError)
    } else {
        Ok(())
    }
}

impl<'a> RustClr<'a> {
    /// The settings a run keeps from start to end.
    pub open spec fn same_settings(&self, other: &RustClr<'a>) -> bool {
        self.buffer == other.buffer && self.redirect_output == other.redirect_output
            && self.patch_exit == other.patch_exit && self.args == other.args && self.domain_name
            == other.domain_name && self.runtime_version == other.runtime_version
    }

    /// A run of the image in `buffer`, once its headers pass the pre-check;
    /// the first action is `CreateMetaHost`.
    pub fn new(buffer: &'a [u8]) -> (r: Result<RustClr<'a>, ClrError>)
        ensures
            match validate_spec(header_spec(buffer@)) {
                Ok(_) => (r matches Ok(c) && c.buffer == buffer && !c.redirect_output && !c.patch_exit
                    && c.args is None && c.domain_name is None && c.runtime_version is None
                    && c.awaiting == Action::CreateMetaHost && !c.has_host && !c.has_domain
                    && c.error is None && c.output@.len() == 0),
                Err(e) => r == Err::<RustClr<'a>, ClrError>(e),
            },
    {
        match validate_file(image_header(buffer)) {
            Err(e) => Err(e),
            Ok(()) => Ok(
                RustClr {
                    buffer,
                    redirect_output: false,
                    patch_exit: false,
                    args: None,
                    domain_name: None,
                    runtime_version: None,
                    identity_assembly: String::new(),
                    awaiting: Action::CreateMetaHost,
                    has_host: false,
                    has_domain: false,
                    error: None,
                    output: String::new(),
                },
            ),
        }
    }

    /// Sets the runtime version to use.
    pub fn runtime_version(self, version: RuntimeVersion) -> (r: Self)
        ensures
            r.runtime_version == Some(version),
            r.buffer == self.buffer && r.redirect_output == self.redirect_output && r.patch_exit
                == self.patch_exit && r.args == self.args && r.domain_name == self.domain_name
                && r.awaiting == self.awaiting,
    {
        let mut s = self;
        s.runtime_version = Some(version);
        s
    }

    /// Sets the name of the domain to create.
    pub fn domain(self, domain_name: &str) -> (r: Self)
        ensures
            r.domain_name matches Some(n) && n@ == domain_name@,
            r.buffer == self.buffer && r.redirect_output == self.redirect_output && r.patch_exit
                == self.patch_exit && r.args == self.args && r.runtime_version
                == self.runtime_version && r.awaiting == self.awaiting,
    {
        let mut s = self;
        s.domain_name = Some(String::from_str(domain_name));
        s
    }

    /// Sets the arguments of the entry point.
    pub fn args(self, args: Vec<&str>) -> (r: Self)
        ensures
            r.args matches Some(a) && a@.len() == args@.len() && forall|i: int|
                0 <= i < args@.len() ==> #[trigger] a@[i]@ == args@[i]@,
            r.buffer == self.buffer && r.redirect_output == self.redirect_output && r.patch_exit
                == self.patch_exit && r.domain_name == self.domain_name && r.runtime_version
                == self.runtime_version && r.awaiting == self.awaiting,
    {
        let mut owned: Vec<String> = Vec::new();
        let mut i: usize = 0;
        while i < args.len()
            invariant
                i <= args@.len(),
                owned@.len() == i,
                forall|j: int| 0 <= j < i ==> #[trigger] owned@[j]@ == args@[j]@,
            decreases args@.len() - i,
        {
            owned.push(String::from_str(args[i]));
            i += 1;
        }
        let mut s = self;
        s.args = Some(owned);
        s
    }

    /// Enables output capture.
    pub fn output(self) -> (r: Self)
        ensures
            r.redirect_output,
            r.buffer == self.buffer && r.patch_exit == self.patch_exit && r.args == self.args
                && r.domain_name == self.domain_name && r.runtime_version == self.runtime_version
                && r.awaiting == self.awaiting,
    {
        let mut s = self;
        s.redirect_output = true;
        s
    }

    /// Enables neutralization of the process-termination routine.
    pub fn exit(self) -> (r: Self)
        ensures
            r.patch_exit,
            r.buffer == self.buffer && r.redirect_output == self.redirect_output && r.args
                == self.args && r.domain_name == self.domain_name && r.runtime_version
                == self.runtime_version && r.awaiting == self.awaiting,
    {
        let mut s = self;
        s.patch_exit = true;
        s
    }

    /// The version string to ask the meta-host for, zero-terminated.
    pub fn version_wide(&self) -> (r: Vec<u16>)
        ensures
            r@ == utf16_encode(
                version_text(
                    match self.runtime_version {
                        Some(v) => v,
                        None => RuntimeVersion::V4,
                    },
                ),
            ).push(0),
    {
        RuntimeVersion::selected(self.runtime_version).to_vec()
    }

    /// The name of the domain to create, zero-terminated: the one requested,
    /// else `fresh`, a newly generated unique name.
    pub fn domain_name_wide(&self, fresh: &str) -> (r: Vec<u16>)
        ensures
            r@ == utf16_encode(domain_name_spec(self.domain_name, fresh@)).push(0),
    {
        match &self.domain_name {
            Some(n) => encode_wide_z(n.as_str()),
            None => encode_wide_z(fresh),
        }
    }

    /// The bind interceptor to register: it serves this run's image under the
    /// identity computed for it, the same identity the image is loaded by.
    pub fn interceptor(&self) -> (r: RustClrControl<'a>)
        ensures
            r.manager_view().store_view().image() == self.buffer@,
            r.manager_view().store_view().identity() == self.identity_assembly@,
    {
        RustClrControl::new(self.buffer, self.identity_assembly.as_str())
    }

    /// The argument list of the entry point.
    pub fn entry_args(&self) -> (r: Option<SafeArray>)
        ensures
            self.args is None ==> r is None,
            self.args matches Some(a) ==> (r matches Some(arr) && arr.wf() && arr.lower == 0
                && values_of(arr.items@) == seq![DynValue::TextArray(wide_args(a@))]),
    {
        entry_arguments(&self.args)
    }

    /// Takes the outcome of the awaited action and returns the next one. A
    /// success moves along the run; anything else records the error and
    /// starts the teardown. Teardown failures are recorded only when no
    /// error is pending, and the identity never changes once computed.
    pub fn step(&mut self, ev: Event) -> (r: Action)
        ensures
            final(self).same_settings(old(self)),
            final(self).awaiting == r,
            old(self).awaiting != Action::ExtractIdentity ==> final(self).identity_assembly
                == old(self).identity_assembly,
            old(self).awaiting != Action::CaptureOutput ==> final(self).output == old(self).output,
            old(self).awaiting == Action::Finish ==> r == Action::Finish && final(self).error
                == old(self).error && final(self).has_domain == old(self).has_domain,
            old(self).awaiting == Action::UnloadDomain ==> !final(self).has_domain
                && final(self).has_host == old(self).has_host && r == (if old(self).has_host {
                Action::StopRuntime
            } else {
                Action::Finish
            }) && final(self).error == (match (ev, old(self).error) {
                (Event::Failed(e), None) => Some(e),
                _ => old(self).error,
            }),
            old(self).awaiting == Action::StopRuntime ==> !final(self).has_host && r
                == Action::Finish && final(self).error == old(self).error
                && final(self).has_domain == old(self).has_domain,
            old(self).awaiting != Action::Finish && old(self).awaiting != Action::UnloadDomain
                && old(self).awaiting != Action::StopRuntime && event_fits(old(self).awaiting, ev)
                ==> r == success_next(
                old(self).awaiting,
                ev,
                old(self).patch_exit,
                old(self).redirect_output,
            ) && final(self).error == old(self).error && final(self).has_domain == (
            old(self).has_domain || old(self).awaiting == Action::CreateDomain)
                && final(self).has_host == (old(self).has_host || old(self).awaiting
                == Action::GetCorRuntimeHost) && (ev matches Event::Identity(s)
                ==> final(self).identity_assembly == s) && (ev matches Event::Output(s)
                ==> final(self).output == s),
            old(self).awaiting != Action::Finish && old(self).awaiting != Action::UnloadDomain
                && old(self).awaiting != Action::StopRuntime && !event_fits(old(self).awaiting, ev)
                ==> final(self).error == Some(failure_of(ev)) && r == teardown_spec(
                old(self).has_domain,
                old(self).has_host,
            ) && final(self).has_domain == old(self).has_domain && final(self).has_host
                == old(self).has_host,
    {
        let a = self.awaiting;
        let next = match a {
            Action::Finish => Action::Finish,
            Action::UnloadDomain => {
                self.has_domain = false;
                match ev {
                    Event::Failed(e) => {
                        if self.error.is_none() {
                            self.error = Some(e);
                        }
                    },
                    _ => {},
                }
                if self.has_host {
                    Action::StopRuntime
                } else {
                    Action::Finish
                }
            },
            Action::StopRuntime => {
                self.has_host = false;
                Action::Finish
            },
            _ => match ev {
                Event::Done => {
                    if a == Action::ExtractIdentity || a == Action::CheckStarted || a
                        == Action::CaptureOutput {
                        self.error = Some(ClrError::GenericError("unexpected event"));
                        self.teardown_action()
                    } else {
                        if a == Action::CreateDomain {
                            self.has_domain = true;
                        }
                        if a == Action::GetCorRuntimeHost {
                            self.has_host = true;
                        }
                        self.after_done(a)
                    }
                },
                Event::Identity(s) => {
                    if a == Action::ExtractIdentity {
                        self.identity_assembly = s;
                        Action::GetRuntimeHost
                    } else {
                        self.error = Some(ClrError::GenericError("unexpected event"));
                        self.teardown_action()
                    }
                },
                Event::Startable(b) => {
                    if a == Action::CheckStarted {
                        if b {
                            Action::RegisterInterceptor
                        } else {
                            Action::GetCorRuntimeHost
                        }
                    } else {
                        self.error = Some(ClrError::GenericError("unexpected event"));
                        self.teardown_action()
                    }
                },
                Event::Output(s) => {
                    if a == Action::CaptureOutput {
                        self.output = s;
                        Action::UnloadDomain
                    } else {
                        self.error = Some(ClrError::GenericError("unexpected event"));
                        self.teardown_action()
                    }
                },
                Event::Failed(e) => {
                    self.error = Some(e);
                    self.teardown_action()
                },
            },
        };
        self.awaiting = next;
        next
    }

    /// The action after `a` succeeded with `Event::Done`.
    fn after_done(&self, a: Action) -> (r: Action)
        requires
            event_fits(a, Event::Done),
            a != Action::UnloadDomain,
            a != Action::StopRuntime,
            a != Action::Finish,
        ensures
            r == success_next(a, Event::Done, self.patch_exit, self.redirect_output),
    {
        match a {
            Action::CreateMetaHost => Action::GetRuntime,
            Action::GetRuntime => Action::ExtractIdentity,
            Action::GetRuntimeHost => Action::CheckStarted,
            Action::RegisterInterceptor => Action::StartRuntime,
            Action::StartRuntime => Action::GetCorRuntimeHost,
            Action::GetCorRuntimeHost => Action::CreateDomain,
            Action::CreateDomain => Action::LoadAssembly,
            Action::LoadAssembly => Action::ResolveMscorlib,
            Action::ResolveMscorlib => if self.patch_exit {
                Action::NeutralizeExit
            } else if self.redirect_output {
                Action::ArmOutput
            } else {
                Action::InvokeEntry
            },
            Action::NeutralizeExit => if self.redirect_output {
                Action::ArmOutput
            } else {
                Action::InvokeEntry
            },
            Action::ArmOutput => Action::InvokeEntry,
            Action::InvokeEntry => if self.redirect_output {
                Action::CaptureOutput
            } else {
                Action::UnloadDomain
            },
            _ => Action::UnloadDomain,
        }
    }

    /// The first teardown action for what this run holds.
    fn teardown_action(&self) -> (r: Action)
        ensures
            r == teardown_spec(self.has_domain, self.has_host),
    {
        if self.has_domain && self.has_host {
            Action::UnloadDomain
        } else if self.has_host {
            Action::StopRuntime
        } else {
            Action::Finish
        }
    }

    /// Starts the teardown from wherever the run stands, keeping any pending
    /// error: unload only a domain that exists, stop only a runtime that was
    /// obtained. Without a domain nothing is unloaded and no error arises.
    pub fn teardown(&mut self) -> (r: Action)
        ensures
            r == teardown_spec(old(self).has_domain, old(self).has_host),
            final(self).awaiting == r,
            final(self).error == old(self).error,
            final(self).has_domain == old(self).has_domain,
            final(self).has_host == old(self).has_host,
            final(self).same_settings(old(self)),
            final(self).identity_assembly == old(self).identity_assembly,
    {
        let next = self.teardown_action();
        self.awaiting = next;
        next
    }

    /// The outcome of the run: the first error, else the captured output
    /// (empty when output was not captured).
    pub fn into_outcome(self) -> (r: Result<String, ClrError>)
        ensures
            r == (match self.error {
                Some(e) => Err::<String, ClrError>(e),
                None => Ok(self.output),
            }),
    {
        match self.error {
            Some(e) => Err(e),
            None => Ok(self.output),
        }
    }
}

/// The next step in setting up a bare environment (a started runtime with
/// one fresh domain and no image): meta-host, runtime info, the
/// domain-creating host, start, domain, then done. A failed domain creation
/// means no domain is available; any other failure is passed on.
pub open spec fn environment_next(a: Action, ev: Event) -> Result<Action, ClrError> {
    match ev {
        Event::Done => match a {
            Action::CreateMetaHost => Ok(Action::GetRuntime),
            Action::GetRuntime => Ok(Action::GetCorRuntimeHost),
            Action::GetCorRuntimeHost => Ok(Action::StartRuntime),
            Action::StartRuntime => Ok(Action::CreateDomain),
            Action::CreateDomain => Ok(Action::Finish),
            _ => Err(ClrError::GenericError("unexpected event")),
        },
        Event::Failed(e) => if a == Action::CreateDomain {
            Err(ClrError::NoDomainAvailable)
        } else {
            Err(e)
        },
        _ => Err(ClrError::GenericError("unexpected event")),
    }
}

/// Decides the next step in setting up a bare environment.
pub fn environment_step(a: Action, ev: Event) -> (r: Result<Action, ClrError>)
    ensures
        r == environment_next(a, ev),
{
    match ev {
        Event::Done => match a {
            Action::CreateMetaHost => Ok(Action::GetRuntime),
            Action::GetRuntime => Ok(Action::GetCorRuntimeHost),
            Action::GetCorRuntimeHost => Ok(Action::StartRuntime),
            Action::StartRuntime => Ok(Action::CreateDomain),
            Action::CreateDomain => Ok(Action::Finish),
            _ => Err(ClrError::GenericError("unexpected event")),
        },
        Event::Failed(e) => if a == Action::CreateDomain {
            Err(ClrError::NoDomainAvailable)
        } else {
            Err(e)
        },
        _ => Err(ClrError::GenericError("unexpected event")),
    }
}

/// In a run, the runtime is started only right after the bind interceptor
/// was registered: no other success and no teardown leads to a start.
pub proof fn lemma_interceptor_before_start(
    a: Action,
    ev: Event,
    patch: bool,
    redirect: bool,
    has_domain: bool,
    has_host: bool,
)
    ensures
        success_next(a, ev, patch, redirect) == Action::StartRuntime ==> a
            == Action::RegisterInterceptor,
        teardown_spec(has_domain, has_host) != Action::StartRuntime,
{
}

/// Unloading is idempotent: with no domain, teardown never asks for an
/// unload. As `step` clears the domain once an unload is answered, however it
/// went, a second teardown asks for none either.
pub proof fn lemma_unload_only_with_domain(has_host: bool)
    ensures
        teardown_spec(false, has_host) != Action::UnloadDomain,
{
}

} // verus!
