//! Supervising one mount, from the probe to the teardown.
//!
//! A mount goes through a fixed course. A throwaway filesystem is mounted
//! first, to find out cheaply whether the mount point can be used at all, and
//! released at once. Only then is the real filesystem built, which may be
//! costly, and mounted. With the mount in place an interrupt handler is
//! installed, and the supervisor polls the shutdown flag until it is told to
//! stop. The supervisor decides each next step; the caller performs it and
//! reports how it went.

use crate::configuration::Configuration;
use crate::options::{mount_arguments, paired, texts};
use vstd::prelude::*;

verus! {

/// Time to sleep between two looks at the shutdown flag, in milliseconds.
pub const POLL_INTERVAL_MILLIS: u64 = 50;

/// The stage that a mount is in, named by the request that is pending.
#[derive(Clone, Copy, Debug, PartialEq, Eq, Structural)]
pub enum Phase {
    /// The probe mount was asked for.
    Probing,
    /// The probe is mounted and its release was asked for.
    ReleasingProbe,
    /// The real filesystem is being built.
    Building,
    /// The mount of the real filesystem was asked for.
    Mounting,
    /// The filesystem is mounted and the interrupt handler was asked for.
    Arming,
    /// The filesystem is served and the shutdown flag is being read.
    Polling,
    /// The filesystem is served and the caller sleeps before the next poll.
    Sleeping,
}

/// What the supervisor asks its caller to do.
#[derive(Clone, Copy, Debug, PartialEq, Eq, Structural)]
pub enum MountRequest {
    /// Mount a filesystem that serves nothing at the mount point.
    MountProbe,
    /// Tear the probe mount down.
    ReleaseProbe,
    /// Build the real filesystem from the configuration.
    BuildFilesystem,
    /// Mount the real filesystem at the mount point.
    MountFilesystem,
    /// Install the interrupt handler, bound to a fresh shutdown flag.
    InstallHandler,
    /// Read the shutdown flag.
    PollFlag,
    /// Sleep for `millis` milliseconds.
    Sleep { millis: u64 },
}

/// What the caller reports back.
#[derive(Clone, Copy, Debug, PartialEq, Eq, Structural)]
pub enum MountReply {
    /// The probe is mounted.
    ProbeMounted,
    /// The probe could not be mounted.
    ProbeFailed,
    /// The probe mount is gone.
    ProbeReleased,
    /// The real filesystem is built.
    FilesystemBuilt,
    /// The real filesystem is mounted.
    Mounted,
    /// The real filesystem could not be mounted.
    MountFailed,
    /// The interrupt handler is installed.
    HandlerInstalled,
    /// The interrupt handler could not be installed.
    HandlerFailed,
    /// The value read from the shutdown flag.
    Flag { running: bool },
    /// The sleep is over.
    Slept,
}

/// How a mount ended.
#[derive(Clone, Copy, Debug, PartialEq, Eq, Structural)]
pub enum Outcome {
    /// The probe mount could not be established. Nothing was built or mounted.
    ProbeMountFailure,
    /// The real mount could not be established after a successful probe.
    RealMountFailure,
    /// The interrupt handler could not be installed, so the mount could not be
    /// stopped cleanly and must not be served.
    SignalSetupError,
    /// The shutdown flag was lowered and the mount is to be torn down.
    Stopped,
}

impl Outcome {
    /// Whether the process must not go on after this outcome. Only a handler
    /// that could not be installed is fatal: the mount is in place by then and
    /// there would be no clean way to stop it. A failed mount just ends the
    /// command.
    pub fn is_fatal(&self) -> (fatal: bool)
        ensures
            fatal == (*self == Outcome::SignalSetupError),
    {
        match self {
            Outcome::SignalSetupError => true,
            _ => false,
        }
    }
}

/// A step of the course: the next phase with its request, or the end.
pub enum Transition {
    Next { phase: Phase, request: MountRequest },
    Done { outcome: Outcome },
}

/// The request that is pending in `phase`.
pub open spec fn pending(phase: Phase) -> MountRequest {
    match phase {
        Phase::Probing => MountRequest::MountProbe,
        Phase::ReleasingProbe => MountRequest::ReleaseProbe,
        Phase::Building => MountRequest::BuildFilesystem,
        Phase::Mounting => MountRequest::MountFilesystem,
        Phase::Arming => MountRequest::InstallHandler,
        Phase::Polling => MountRequest::PollFlag,
        Phase::Sleeping => MountRequest::Sleep { millis: POLL_INTERVAL_MILLIS },
    }
}

/// The phase that follows `phase` when its request went well. Polling and
/// sleeping follow each other for as long as the flag stays up.
pub open spec fn successor(phase: Phase) -> Phase {
    match phase {
        Phase::Probing => Phase::ReleasingProbe,
        Phase::ReleasingProbe => Phase::Building,
        Phase::Building => Phase::Mounting,
        Phase::Mounting => Phase::Arming,
        Phase::Arming => Phase::Polling,
        Phase::Polling => Phase::Sleeping,
        Phase::Sleeping => Phase::Polling,
    }
}

/// The reply that lets the course go on from `phase`.
pub open spec fn welcome(phase: Phase) -> MountReply {
    match phase {
        Phase::Probing => MountReply::ProbeMounted,
        Phase::ReleasingProbe => MountReply::ProbeReleased,
        Phase::Building => MountReply::FilesystemBuilt,
        Phase::Mounting => MountReply::Mounted,
        Phase::Arming => MountReply::HandlerInstalled,
        Phase::Polling => MountReply::Flag { running: true },
        Phase::Sleeping => MountReply::Slept,
    }
}

/// How a mount ends when, in `phase`, any other reply than the welcome one
/// arrives: with the failure of the part of the course that the phase belongs
/// to, and, once the filesystem is served, with its teardown.
pub open spec fn ending(phase: Phase) -> Outcome {
    match phase {
        Phase::Probing | Phase::ReleasingProbe => Outcome::ProbeMountFailure,
        Phase::Building | Phase::Mounting => Outcome::RealMountFailure,
        Phase::Arming => Outcome::SignalSetupError,
        Phase::Polling | Phase::Sleeping => Outcome::Stopped,
    }
}

/// How the course goes on from `phase` after `reply`.
pub open spec fn step_spec(phase: Phase, reply: MountReply) -> Transition {
    if reply == welcome(phase) {
        Transition::Next { phase: successor(phase), request: pending(successor(phase)) }
    } else {
        Transition::Done { outcome: ending(phase) }
    }
}

/// The number of mounts that are in place while `phase` waits for its reply.
pub open spec fn live_sessions(phase: Phase) -> nat {
    match phase {
        Phase::Probing | Phase::Building | Phase::Mounting => 0,
        Phase::ReleasingProbe | Phase::Arming | Phase::Polling | Phase::Sleeping => 1,
    }
}

/// Whether `request` puts a mount in place.
pub open spec fn mounts(request: MountRequest) -> bool {
    request == MountRequest::MountProbe || request == MountRequest::MountFilesystem
}

/// By how many the mounts in place change when `request` goes well.
pub open spec fn session_change(request: MountRequest) -> int {
    if mounts(request) {
        1
    } else if request == MountRequest::ReleaseProbe {
        -1
    } else {
        0
    }
}

/// A mount under supervision.
#[derive(Debug)]
pub struct Supervisor {
    phase: Phase,
    mountpoint: String,
    arguments: Vec<String>,
}

/// A supervisor as a mathematical value.
pub struct SupervisorView {
    pub phase: Phase,
    pub mountpoint: Seq<char>,
    pub arguments: Seq<Seq<char>>,
}

/// How the supervisor goes on after a reply.
#[derive(Debug)]
pub enum MountProgress {
    /// The supervisor needs `request` carried out.
    Next { supervisor: Supervisor, request: MountRequest },
    /// The mount has ended.
    Done { outcome: Outcome },
}

impl View for Supervisor {
    type V = SupervisorView;

    closed spec fn view(&self) -> SupervisorView {
        SupervisorView {
            phase: self.phase,
            mountpoint: self.mountpoint@,
            arguments: texts(self.arguments@),
        }
    }
}

impl Supervisor {
    /// Takes a mount under supervision. The first thing to be done is the
    /// probe mount.
    ///
    /// A configuration without a credential path cannot be mounted: for such
    /// a configuration there is no supervisor.
    pub fn begin(config: &Configuration, mountpoint: String) -> (opening: Option<
        (Supervisor, MountRequest),
    >)
        ensures
            opening is Some <==> config@.is_mountable(),
            opening matches Some((supervisor, request)) ==> {
                &&& supervisor@.phase == Phase::Probing
                &&& supervisor@.mountpoint == mountpoint@
                &&& supervisor@.arguments == paired(config@.mount_options)
                &&& request == MountRequest::MountProbe
            },
    {
        if config.is_mountable() {
            let arguments = mount_arguments(config.mount_options());
            Some((Supervisor { phase: Phase::Probing, mountpoint, arguments }, MountRequest::MountProbe))
        } else {
            None
        }
    }

    /// The phase that the mount is in.
    pub fn phase(&self) -> (phase: Phase)
        ensures
            phase == self@.phase,
    {
        self.phase
    }

    /// The directory at which to mount.
    pub fn mountpoint(&self) -> (mountpoint: &String)
        ensures
            mountpoint@ == self@.mountpoint,
    {
        &self.mountpoint
    }

    /// The argument list for both mounts, the probe and the real one.
    pub fn arguments(&self) -> (arguments: &Vec<String>)
        ensures
            texts(arguments@) == self@.arguments,
    {
        &self.arguments
    }

    /// Takes the reply to the pending request and says how the mount goes on.
    ///
    /// The mount point and the argument list stay as they were at the
    /// beginning.
    pub fn step(self, reply: MountReply) -> (progress: MountProgress)
        ensures
            match progress {
                MountProgress::Next { supervisor, request } => {
                    &&& step_spec(self@.phase, reply) == Transition::Next {
                        phase: supervisor@.phase,
                        request,
                    }
                    &&& supervisor@.mountpoint == self@.mountpoint
                    &&& supervisor@.arguments == self@.arguments
                },
                MountProgress::Done { outcome } => step_spec(self@.phase, reply)
                    == Transition::Done { outcome },
            },
    {
        let next = match (self.phase, reply) {
            (Phase::Probing, MountReply::ProbeMounted) => Some(
                (Phase::ReleasingProbe, MountRequest::ReleaseProbe),
            ),
            (Phase::ReleasingProbe, MountReply::ProbeReleased) => Some(
                (Phase::Building, MountRequest::BuildFilesystem),
            ),
            (Phase::Building, MountReply::FilesystemBuilt) => Some(
                (Phase::Mounting, MountRequest::MountFilesystem),
            ),
            (Phase::Mounting, MountReply::Mounted) => Some(
                (Phase::Arming, MountRequest::InstallHandler),
            ),
            (Phase::Arming, MountReply::HandlerInstalled) => Some(
                (Phase::Polling, MountRequest::PollFlag),
            ),
            (Phase::Polling, MountReply::Flag { running: true }) => Some(
                (Phase::Sleeping, MountRequest::Sleep { millis: POLL_INTERVAL_MILLIS }),
            ),
            (Phase::Sleeping, MountReply::Slept) => Some((Phase::Polling, MountRequest::PollFlag)),
            _ => None,
        };
        match next {
            Some((phase, request)) => MountProgress::Next {
                supervisor: Supervisor {
                    phase,
                    mountpoint: self.mountpoint,
                    arguments: self.arguments,
                },
                request,
            },
            None => {
                let outcome = match self.phase {
                    Phase::Probing | Phase::ReleasingProbe => Outcome::ProbeMountFailure,
                    Phase::Building | Phase::Mounting => Outcome::RealMountFailure,
                    Phase::Arming => Outcome::SignalSetupError,
                    Phase::Polling | Phase::Sleeping => Outcome::Stopped,
                };
                MountProgress::Done { outcome }
            },
        }
    }
}

/// The requests that the supervisor makes in answer to `replies`, taken one
/// after the other from `phase` on. The first reply that ends the mount ends
/// the list: what is reported after it is answered by nothing.
pub open spec fn requests_after(phase: Phase, replies: Seq<MountReply>) -> Seq<MountRequest>
    decreases replies.len(),
{
    if replies.len() == 0 {
        Seq::empty()
    } else {
        match step_spec(phase, replies[0]) {
            Transition::Next { phase: next, request } => seq![request] + requests_after(
                next,
                replies.skip(1),
            ),
            Transition::Done { outcome } => Seq::empty(),
        }
    }
}

/// The phase reached from `phase` after `steps` requests that went well.
pub open spec fn phase_after(phase: Phase, steps: nat) -> Phase
    decreases steps,
{
    if steps == 0 {
        phase
    } else {
        phase_after(successor(phase), (steps - 1) as nat)
    }
}

/// No step of the course is skipped, repeated or taken out of turn: a request
/// is made only in answer to the reply that lets the course go on, and it is
/// the request of the phase that comes next.
pub proof fn lemma_requests_follow_the_course(phase: Phase, replies: Seq<MountReply>, i: int)
    requires
        0 <= i < requests_after(phase, replies).len(),
    ensures
        i < replies.len(),
        replies[i] == welcome(phase_after(phase, i as nat)),
        requests_after(phase, replies)[i] == pending(phase_after(phase, (i + 1) as nat)),
    decreases replies.len(),
{
    reveal_with_fuel(phase_after, 2);
    if i > 0 {
        let rest = replies.skip(1);
        lemma_requests_follow_the_course(successor(phase), rest, i - 1);
        assert(rest[i - 1] == replies[i]);
        assert(phase_after(phase, i as nat) == phase_after(successor(phase), (i - 1) as nat));
        assert(phase_after(phase, (i + 1) as nat) == phase_after(successor(phase), i as nat));
    }
}

/// Once the filesystem is served, the course only polls and sleeps.
proof fn lemma_serving_goes_on(steps: nat)
    requires
        steps >= 5,
    ensures
        phase_after(Phase::Probing, steps) == Phase::Polling || phase_after(Phase::Probing, steps)
            == Phase::Sleeping,
    decreases steps,
{
    reveal_with_fuel(phase_after, 6);
    if steps > 5 {
        lemma_serving_goes_on((steps - 1) as nat);
        lemma_phase_after_last(Phase::Probing, (steps - 1) as nat);
    }
}

/// One more step leads to the successor of the phase reached so far.
proof fn lemma_phase_after_last(phase: Phase, steps: nat)
    ensures
        phase_after(phase, steps + 1) == successor(phase_after(phase, steps)),
    decreases steps,
{
    reveal_with_fuel(phase_after, 2);
    if steps > 0 {
        lemma_phase_after_last(successor(phase), (steps - 1) as nat);
        assert(phase_after(phase, steps + 1) == phase_after(successor(phase), steps));
    }
}

/// When the probe mount fails, nothing more is asked for: the real
/// filesystem is neither built nor mounted.
pub proof fn lemma_failed_probe_builds_nothing(replies: Seq<MountReply>)
    requires
        replies.len() > 0,
        replies[0] != MountReply::ProbeMounted,
    ensures
        requests_after(Phase::Probing, replies) == Seq::<MountRequest>::empty(),
        !requests_after(Phase::Probing, replies).contains(MountRequest::BuildFilesystem),
        !requests_after(Phase::Probing, replies).contains(MountRequest::MountFilesystem),
{
}

/// The real filesystem is built at most once, and only after the probe was
/// mounted and released again.
pub proof fn lemma_build_follows_probe(replies: Seq<MountReply>, i: int)
    requires
        0 <= i < requests_after(Phase::Probing, replies).len(),
        requests_after(Phase::Probing, replies)[i] == MountRequest::BuildFilesystem,
    ensures
        i == 1,
        replies.len() >= 2,
        replies[0] == MountReply::ProbeMounted,
        replies[1] == MountReply::ProbeReleased,
{
    reveal_with_fuel(phase_after, 6);
    lemma_requests_follow_the_course(Phase::Probing, replies, i);
    if i + 1 >= 5 {
        lemma_serving_goes_on((i + 1) as nat);
    }
    lemma_requests_follow_the_course(Phase::Probing, replies, 0);
    lemma_requests_follow_the_course(Phase::Probing, replies, 1);
}

/// At most one mount is in place at any time, and a mount is asked for only
/// while none is in place: the probe is gone before the real filesystem is
/// mounted.
pub proof fn lemma_one_session_at_a_time(phase: Phase)
    ensures
        live_sessions(phase) <= 1,
        mounts(pending(phase)) ==> live_sessions(phase) == 0,
        live_sessions(successor(phase)) == live_sessions(phase) + session_change(pending(phase)),
{
}

} // verus!
