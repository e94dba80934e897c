//! Resolution of the external size-optimization tool.
//!
//! The resolver decides, step by step, where the post-processing tool comes
//! from: first a probe of the tool by name on the executable search path;
//! if the probe says the tool does not exist, a lookup in the durable cache
//! for the pinned version, platform and architecture; if the cache misses,
//! a download into the cache, but only with consent, asked interactively
//! unless installation is disabled for unattended builds. Withheld consent
//! resolves to an absent handle: the build then degrades gracefully. A
//! launch failure other than "not found", end of input at the prompt, and a
//! consented-but-failed installation are fatal.
//!
//! The resolver itself performs no process, file or network work: it is a
//! state machine from events to actions. The surrounding program performs
//! each action and hands the outcome back as the next event.

use vstd::prelude::*;
use vstd::string::StringExecFns;
use crate::prompt::{Answer, answer_of, parse_answer};

verus! {

broadcast use vstd::string::group_string_axioms;

/// A host platform the tool is released for.
#[derive(Clone, Copy, Debug, PartialEq, Eq, Structural)]
pub enum Platform {
    Windows,
    Linux,
    Macos,
}

/// A host CPU architecture the tool is released for.
#[derive(Clone, Copy, Debug, PartialEq, Eq, Structural)]
pub enum Arch {
    X86_64,
    Arm64,
}

/// The platform's name as it stands in the release archive's name.
pub open spec fn platform_name(p: Platform) -> Seq<char> {
    match p {
        Platform::Windows => "windows"@,
        Platform::Linux => "linux"@,
        Platform::Macos => "macos"@,
    }
}

/// The architecture's name as it stands in the release archive's name.
pub open spec fn arch_name(a: Arch) -> Seq<char> {
    match a {
        Arch::X86_64 => "x86_64"@,
        Arch::Arm64 => "arm64"@,
    }
}

/// The host platform for an operating-system name, if the combination is
/// supported; any other name is an unsupported host, rejected before any
/// network attempt.
pub fn platform_of(os: &str) -> (r: Option<Platform>)
    ensures
        r == Some(Platform::Windows) <==> os@ == "windows"@,
        r == Some(Platform::Linux) <==> os@ == "linux"@,
        r == Some(Platform::Macos) <==> os@ == "macos"@,
        r is None <==> (os@ != "windows"@ && os@ != "linux"@ && os@ != "macos"@),
{
    proof {
        reveal_strlit("windows");
        reveal_strlit("linux");
        reveal_strlit("macos");
        assert("windows"@.len() == 7 && "linux"@.len() == 5 && "macos"@.len() == 5);
        assert("linux"@[0] == 'l' && "macos"@[0] == 'm');
    }
    if crate::text::str_eq(os, "windows") {
        Some(Platform::Windows)
    } else if crate::text::str_eq(os, "linux") {
        Some(Platform::Linux)
    } else if crate::text::str_eq(os, "macos") {
        Some(Platform::Macos)
    } else {
        None
    }
}

/// The host architecture for an architecture name, if supported. The tool's
/// releases name the 64-bit Arm architecture `arm64`.
pub fn arch_of(arch: &str) -> (r: Option<Arch>)
    ensures
        r == Some(Arch::X86_64) <==> arch@ == "x86_64"@,
        r == Some(Arch::Arm64) <==> arch@ == "aarch64"@,
        r is None <==> (arch@ != "x86_64"@ && arch@ != "aarch64"@),
{
    proof {
        reveal_strlit("x86_64");
        reveal_strlit("aarch64");
        assert("x86_64"@.len() == 6 && "aarch64"@.len() == 7);
    }
    if crate::text::str_eq(arch, "x86_64") {
        Some(Arch::X86_64)
    } else if crate::text::str_eq(arch, "aarch64") {
        Some(Arch::Arm64)
    } else {
        None
    }
}

/// The pinned tool version used when the environment does not override it.
pub fn default_version() -> (r: String)
    ensures
        r@ == "version_105"@,
{
    String::from_str("version_105")
}

/// The tool version to resolve: the environment's override when one is set,
/// else the pinned default.
pub fn effective_version(requested: Option<String>) -> (r: String)
    ensures
        r@ == match requested {
            Some(v) => v@,
            None => "version_105"@,
        },
{
    match requested {
        Some(v) => v,
        None => default_version(),
    }
}

/// The fixed, versioned release URL the tool's archive is downloaded from.
pub open spec fn download_url_spec(version: Seq<char>, arch: Arch, platform: Platform) -> Seq<
    char,
> {
    "https://github.com/WebAssembly/binaryen/releases/download/"@ + version + "/binaryen-"@
        + version + "-"@ + arch_name(arch) + "-"@ + platform_name(platform) + ".tar.gz"@
}

/// Builds the release URL for a version, architecture and platform.
pub fn download_url(version: &str, arch: Arch, platform: Platform) -> (r: String)
    ensures
        r@ == download_url_spec(version@, arch, platform),
{
    let mut r = String::from_str("https://github.com/WebAssembly/binaryen/releases/download/");
    r.append(version);
    r.append("/binaryen-");
    r.append(version);
    r.append("-");
    match arch {
        Arch::X86_64 => r.append("x86_64"),
        Arch::Arm64 => r.append("arm64"),
    }
    r.append("-");
    match platform {
        Platform::Windows => r.append("windows"),
        Platform::Linux => r.append("linux"),
        Platform::Macos => r.append("macos"),
    }
    r.append(".tar.gz");
    r
}

/// The name the tool is probed under on the executable search path.
pub fn tool_name() -> (r: String)
    ensures
        r@ == "wasm-opt"@,
{
    String::from_str("wasm-opt")
}

/// Either an absent tool or the path of an executable satisfying the tool's
/// invocation contract. Resolved once per build and then read-only.
#[derive(Debug)]
pub enum ToolHandle {
    Absent,
    Present(String),
}

impl View for ToolHandle {
    type V = Option<Seq<char>>;

    open spec fn view(&self) -> Option<Seq<char>> {
        match self {
            ToolHandle::Absent => None,
            ToolHandle::Present(p) => Some(p@),
        }
    }
}

/// How probing the tool on the search path went. The probe counts as found
/// whenever the process could be started, whatever it printed or returned:
/// only "the executable does not exist" continues to the cache, and any
/// other launch failure is fatal.
#[derive(Clone, Copy, Debug, PartialEq, Eq, Structural)]
pub enum ProbeOutcome {
    /// The process started; the tool is on the search path.
    Launched,
    /// The executable does not exist on the search path.
    NotFound,
    /// The launch failed for another reason, a permission error for one.
    LaunchFailed,
}

/// Why resolution failed. Each of these aborts the whole build.
#[derive(Clone, Copy, Debug, PartialEq, Eq, Structural)]
pub enum ResolverError {
    /// Probing the tool failed otherwise than "not found".
    LaunchFailed,
    /// Standard input ended before a recognized answer.
    PromptClosed,
    /// Installation was consented to and then failed.
    InstallFailed,
    /// An event arrived that the resolver's state does not expect.
    UnexpectedEvent,
}

/// What the surrounding program observed, handed to the resolver as the
/// answer to its last action.
#[derive(Debug)]
pub enum ResolverEvent {
    /// The probe on the search path finished.
    ProbeFinished(ProbeOutcome),
    /// The cache lookup finished: the cached binary's path, or a miss.
    CacheChecked(Option<String>),
    /// One line was read at the consent prompt; `None` is end of input.
    AnswerRead(Option<String>),
    /// The download finished: the installed binary's path, or a failure.
    DownloadFinished(Option<String>),
}

/// The mathematical value of a resolver event.
pub enum ResolverEventModel {
    ProbeFinished(ProbeOutcome),
    CacheChecked(Option<Seq<char>>),
    AnswerRead(Option<Seq<char>>),
    DownloadFinished(Option<Seq<char>>),
}

impl View for ResolverEvent {
    type V = ResolverEventModel;

    open spec fn view(&self) -> ResolverEventModel {
        match self {
            ResolverEvent::ProbeFinished(o) => ResolverEventModel::ProbeFinished(*o),
            ResolverEvent::CacheChecked(p) => ResolverEventModel::CacheChecked(
                match p {
                    Some(s) => Some(s@),
                    None => None,
                },
            ),
            ResolverEvent::AnswerRead(l) => ResolverEventModel::AnswerRead(
                match l {
                    Some(s) => Some(s@),
                    None => None,
                },
            ),
            ResolverEvent::DownloadFinished(p) => ResolverEventModel::DownloadFinished(
                match p {
                    Some(s) => Some(s@),
                    None => None,
                },
            ),
        }
    }
}

/// What the surrounding program must do next for the resolver.
#[derive(Debug)]
pub enum ResolverAction {
    /// Run the tool by name with its version-query flag.
    Probe,
    /// Look the version up in the durable cache, without network access;
    /// `url` only names the archive the entry would have come from.
    CheckCache { version: String, url: String },
    /// Write the consent question and read one line of standard input.
    AskConsent,
    /// Download the archive at `url` and install it into the cache under
    /// `version`.
    Download { url: String, version: String },
    /// Resolution is finished; the outcome stands in the resolver's state.
    Settled,
}

/// The mathematical value of a resolver action.
pub enum ResolverActionModel {
    Probe,
    CheckCache { version: Seq<char>, url: Seq<char> },
    AskConsent,
    Download { url: Seq<char>, version: Seq<char> },
    Settled,
}

impl View for ResolverAction {
    type V = ResolverActionModel;

    open spec fn view(&self) -> ResolverActionModel {
        match self {
            ResolverAction::Probe => ResolverActionModel::Probe,
            ResolverAction::CheckCache { version, url } => ResolverActionModel::CheckCache {
                version: version@,
                url: url@,
            },
            ResolverAction::AskConsent => ResolverActionModel::AskConsent,
            ResolverAction::Download { url, version } => ResolverActionModel::Download {
                url: url@,
                version: version@,
            },
            ResolverAction::Settled => ResolverActionModel::Settled,
        }
    }
}

/// Where the resolution stands.
#[derive(Debug)]
pub enum ResolverState {
    /// Not started; `resolve` issues the probe.
    Start,
    /// The probe on the search path is underway.
    Probing,
    /// The cache lookup is underway.
    CheckingCache,
    /// The consent prompt is underway.
    AwaitingConsent,
    /// The consented download is underway.
    Downloading,
    /// Resolution finished with this handle.
    Resolved(ToolHandle),
    /// Resolution failed; the build aborts.
    Failed(ResolverError),
}

/// The mathematical value of a resolver state; a resolved handle is the
/// optional path of the tool.
pub enum ResolverStateModel {
    Start,
    Probing,
    CheckingCache,
    AwaitingConsent,
    Downloading,
    Resolved(Option<Seq<char>>),
    Failed(ResolverError),
}

impl View for ResolverState {
    type V = ResolverStateModel;

    open spec fn view(&self) -> ResolverStateModel {
        match self {
            ResolverState::Start => ResolverStateModel::Start,
            ResolverState::Probing => ResolverStateModel::Probing,
            ResolverState::CheckingCache => ResolverStateModel::CheckingCache,
            ResolverState::AwaitingConsent => ResolverStateModel::AwaitingConsent,
            ResolverState::Downloading => ResolverStateModel::Downloading,
            ResolverState::Resolved(h) => ResolverStateModel::Resolved(h@),
            ResolverState::Failed(e) => ResolverStateModel::Failed(*e),
        }
    }
}

/// The resolver: its state and the fixed facts resolution depends on — the
/// tool version to look for, whether installation is disabled for unattended
/// builds, and the host the archive must match.
pub struct ToolResolver {
    state: ResolverState,
    version: String,
    no_install: bool,
    arch: Arch,
    platform: Platform,
}

/// The mathematical value of a resolver.
pub struct ResolverModel {
    pub state: ResolverStateModel,
    pub version: Seq<char>,
    pub no_install: bool,
    pub arch: Arch,
    pub platform: Platform,
}

impl View for ToolResolver {
    type V = ResolverModel;

    closed spec fn view(&self) -> ResolverModel {
        ResolverModel {
            state: self.state@,
            version: self.version@,
            no_install: self.no_install,
            arch: self.arch,
            platform: self.platform,
        }
    }
}

/// One step of the resolution: from a state and the event answering its last
/// action to the next state and the next action.
///
/// A probe that launched resolves to the tool's bare name (the search path
/// finds it again at each use); "not found" turns to the cache; any other
/// launch failure is fatal. A cache hit resolves to the cached path; a miss
/// resolves to an absent handle when installation is disabled, else asks for
/// consent. Consent starts the download; refusal resolves to an absent
/// handle; an unrecognized line asks again; end of input is fatal. A
/// finished download resolves to the installed path; a failed one is fatal.
pub open spec fn resolver_step(m: ResolverModel, ev: ResolverEventModel) -> (ResolverModel, ResolverActionModel) {
    let stay = m;
    match (m.state, ev) {
        (ResolverStateModel::Probing, ResolverEventModel::ProbeFinished(o)) => match o {
            ProbeOutcome::Launched => (
                ResolverModel { state: ResolverStateModel::Resolved(Some("wasm-opt"@)), ..stay },
                ResolverActionModel::Settled,
            ),
            ProbeOutcome::NotFound => (
                ResolverModel { state: ResolverStateModel::CheckingCache, ..stay },
                ResolverActionModel::CheckCache {
                    version: m.version,
                    url: download_url_spec(m.version, m.arch, m.platform),
                },
            ),
            ProbeOutcome::LaunchFailed => (
                ResolverModel {
                    state: ResolverStateModel::Failed(ResolverError::LaunchFailed),
                    ..stay
                },
                ResolverActionModel::Settled,
            ),
        },
        (ResolverStateModel::CheckingCache, ResolverEventModel::CacheChecked(hit)) => match hit {
            Some(p) => (
                ResolverModel { state: ResolverStateModel::Resolved(Some(p)), ..stay },
                ResolverActionModel::Settled,
            ),
            None => if m.no_install {
                (
                    ResolverModel { state: ResolverStateModel::Resolved(None), ..stay },
                    ResolverActionModel::Settled,
                )
            } else {
                (
                    ResolverModel { state: ResolverStateModel::AwaitingConsent, ..stay },
                    ResolverActionModel::AskConsent,
                )
            },
        },
        (ResolverStateModel::AwaitingConsent, ResolverEventModel::AnswerRead(line)) => match line {
            None => (
                ResolverModel {
                    state: ResolverStateModel::Failed(ResolverError::PromptClosed),
                    ..stay
                },
                ResolverActionModel::Settled,
            ),
            Some(l) => match answer_of(l) {
                Answer::Yes => (
                    ResolverModel { state: ResolverStateModel::Downloading, ..stay },
                    ResolverActionModel::Download {
                        url: download_url_spec(m.version, m.arch, m.platform),
                        version: m.version,
                    },
                ),
                Answer::No => (
                    ResolverModel { state: ResolverStateModel::Resolved(None), ..stay },
                    ResolverActionModel::Settled,
                ),
                Answer::Retry => (
                    ResolverModel { state: ResolverStateModel::AwaitingConsent, ..stay },
                    ResolverActionModel::AskConsent,
                ),
            },
        },
        (ResolverStateModel::Downloading, ResolverEventModel::DownloadFinished(got)) => match got {
            Some(p) => (
                ResolverModel { state: ResolverStateModel::Resolved(Some(p)), ..stay },
                ResolverActionModel::Settled,
            ),
            None => (
                ResolverModel {
                    state: ResolverStateModel::Failed(ResolverError::InstallFailed),
                    ..stay
                },
                ResolverActionModel::Settled,
            ),
        },
        _ => (
            ResolverModel {
                state: ResolverStateModel::Failed(ResolverError::UnexpectedEvent),
                ..stay
            },
            ResolverActionModel::Settled,
        ),
    }
}

impl ToolResolver {
    /// A resolver that has not started.
    pub fn new(version: String, no_install: bool, arch: Arch, platform: Platform) -> (r:
        ToolResolver)
        ensures
            r@ == (ResolverModel {
                state: ResolverStateModel::Start,
                version: version@,
                no_install,
                arch,
                platform,
            }),
    {
        ToolResolver { state: ResolverState::Start, version, no_install, arch, platform }
    }

    /// The resolver's state, read-only.
    pub fn state(&self) -> (r: &ResolverState)
        ensures
            r@ == self@.state,
    {
        &self.state
    }

    /// Begins resolution: issues the probe of the tool on the search path.
    /// A build run calls this at most once, before any module's
    /// post-processing, and shares the resolved handle across all of them.
    pub fn resolve(&mut self) -> (a: ResolverAction)
        ensures
            final(self)@ == (ResolverModel { state: ResolverStateModel::Probing, ..old(self)@ }),
            a@ is Probe,
    {
        self.state = ResolverState::Probing;
        ResolverAction::Probe
    }

    /// One step of the resolution, as `resolver_step` states it.
    pub fn step(&mut self, ev: ResolverEvent) -> (a: ResolverAction)
        ensures
            (final(self)@, a@) == resolver_step(old(self)@, ev@),
    {
        let ghost pre = self@;
        let ghost evm = ev@;
        match (&self.state, ev) {
            (ResolverState::Probing, ResolverEvent::ProbeFinished(o)) => match o {
                ProbeOutcome::Launched => {
                    self.state = ResolverState::Resolved(ToolHandle::Present(tool_name()));
                    ResolverAction::Settled
                },
                ProbeOutcome::NotFound => {
                    self.state = ResolverState::CheckingCache;
                    ResolverAction::CheckCache {
                        version: self.version.clone(),
                        url: download_url(self.version.as_str(), self.arch, self.platform),
                    }
                },
                ProbeOutcome::LaunchFailed => {
                    self.state = ResolverState::Failed(ResolverError::LaunchFailed);
                    ResolverAction::Settled
                },
            },
            (ResolverState::CheckingCache, ResolverEvent::CacheChecked(hit)) => match hit {
                Some(p) => {
                    self.state = ResolverState::Resolved(ToolHandle::Present(p));
                    ResolverAction::Settled
                },
                None => if self.no_install {
                    self.state = ResolverState::Resolved(ToolHandle::Absent);
                    ResolverAction::Settled
                } else {
                    self.state = ResolverState::AwaitingConsent;
                    ResolverAction::AskConsent
                },
            },
            (ResolverState::AwaitingConsent, ResolverEvent::AnswerRead(line)) => match line {
                None => {
                    self.state = ResolverState::Failed(ResolverError::PromptClosed);
                    ResolverAction::Settled
                },
                Some(l) => match parse_answer(l.as_str()) {
                    Answer::Yes => {
                        self.state = ResolverState::Downloading;
                        ResolverAction::Download {
                            url: download_url(self.version.as_str(), self.arch, self.platform),
                            version: self.version.clone(),
                        }
                    },
                    Answer::No => {
                        self.state = ResolverState::Resolved(ToolHandle::Absent);
                        ResolverAction::Settled
                    },
                    Answer::Retry => {
                        self.state = ResolverState::AwaitingConsent;
                        ResolverAction::AskConsent
                    },
                },
            },
            (ResolverState::Downloading, ResolverEvent::DownloadFinished(got)) => match got {
                Some(p) => {
                    self.state = ResolverState::Resolved(ToolHandle::Present(p));
                    ResolverAction::Settled
                },
                None => {
                    self.state = ResolverState::Failed(ResolverError::InstallFailed);
                    ResolverAction::Settled
                },
            },
            _ => {
                self.state = ResolverState::Failed(ResolverError::UnexpectedEvent);
                ResolverAction::Settled
            },
        }
    }
}

} // verus!
