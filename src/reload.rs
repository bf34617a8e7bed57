use vstd::prelude::*;

verus! {

/// Program name of the supervised proxy.
pub const NGINX_PROGRAM: &'static str = "nginx";

/// File whose existence tells that the supervised proxy is ready to serve.
pub const READINESS_MARKER: &'static str = "/run/nginx.pid";

/// Interval between two looks for the readiness marker, in milliseconds.
pub const STARTUP_POLL_INTERVAL_MS: u64 = 125;

/// Time the supervised proxy has to become ready, in milliseconds.
pub const STARTUP_TIMEOUT_MS: u64 = 30000;

/// The three ways the supervised proxy is invoked.
#[derive(Clone, Copy, Debug, PartialEq, Eq, Structural)]
pub enum Verb {
    /// Run in the foreground with the canonical configuration.
    Start,
    /// Test the configuration; the exit status tells whether it is valid.
    TestConfig,
    /// Make the running proxy reload its configuration.
    Reload,
}

/// Arguments shared by every invocation: the canonical configuration and
/// diagnostics on standard error.
pub open spec fn common_args() -> Seq<Seq<char>> {
    seq!["-c"@, "/etc/nginx/nginx.conf"@, "-e"@, "/dev/stderr"@]
}

/// The full argument list of an invocation.
pub open spec fn args_of(v: Verb) -> Seq<Seq<char>> {
    match v {
        Verb::Start => common_args() + seq!["-g"@, "daemon off;"@],
        Verb::TestConfig => common_args() + seq!["-t"@],
        Verb::Reload => common_args() + seq!["-s"@, "reload"@],
    }
}

impl Verb {
    /// The arguments the proxy is run with for this verb.
    pub fn args(&self) -> (r: Vec<&'static str>)
        ensures
            r@.map_values(|a: &str| a@) == args_of(*self),
    {
        let mut r: Vec<&'static str> = vec!["-c", "/etc/nginx/nginx.conf", "-e", "/dev/stderr"];
        match self {
            Verb::Start => {
                r.push("-g");
                r.push("daemon off;");
            },
            Verb::TestConfig => {
                r.push("-t");
            },
            Verb::Reload => {
                r.push("-s");
                r.push("reload");
            },
        }
        assert(r@.map_values(|a: &str| a@) =~= args_of(*self));
        r
    }
}

/// How one reload attempt ended.
#[derive(Clone, Copy, Debug, PartialEq, Eq, Structural)]
pub enum ReloadOutcome {
    /// Mirroring the change failed: the proxy was not asked to do anything.
    NotMirrored,
    /// The new configuration did not pass the test; the running one stays.
    TestFailed,
    /// The proxy reloaded the new configuration.
    Reloaded,
    /// The test passed but the reload failed; the proxy stays up.
    ReloadFailed,
}

/// The next thing the reload protocol does.
#[derive(Clone, Copy, Debug, PartialEq, Eq, Structural)]
pub enum ReloadAction {
    /// Invoke the proxy with this verb and report whether it exited with
    /// success.
    Run(Verb),
    /// The attempt is over.
    Finish(ReloadOutcome),
}

/// The protocol's step once mirroring a change succeeded or failed.
pub open spec fn step_after_mirror(mirrored: bool) -> ReloadAction {
    if mirrored {
        ReloadAction::Run(Verb::TestConfig)
    } else {
        ReloadAction::Finish(ReloadOutcome::NotMirrored)
    }
}

/// The protocol's step once the configuration test passed or failed.
pub open spec fn step_after_test(passed: bool) -> ReloadAction {
    if passed {
        ReloadAction::Run(Verb::Reload)
    } else {
        ReloadAction::Finish(ReloadOutcome::TestFailed)
    }
}

/// Starts a reload attempt: only a successfully mirrored change is tested.
pub fn after_mirror(mirrored: bool) -> (r: ReloadAction)
    ensures
        r == step_after_mirror(mirrored),
{
    if mirrored {
        ReloadAction::Run(Verb::TestConfig)
    } else {
        ReloadAction::Finish(ReloadOutcome::NotMirrored)
    }
}

/// Continues after the configuration test: only a passed test leads to a
/// reload.
pub fn after_test(passed: bool) -> (r: ReloadAction)
    ensures
        r == step_after_test(passed),
        !passed ==> r == ReloadAction::Finish(ReloadOutcome::TestFailed),
{
    if passed {
        ReloadAction::Run(Verb::Reload)
    } else {
        ReloadAction::Finish(ReloadOutcome::TestFailed)
    }
}

/// Ends the attempt after the reload verb ran.
pub fn after_reload(succeeded: bool) -> (r: ReloadOutcome)
    ensures
        r == (if succeeded { ReloadOutcome::Reloaded } else { ReloadOutcome::ReloadFailed }),
{
    if succeeded {
        ReloadOutcome::Reloaded
    } else {
        ReloadOutcome::ReloadFailed
    }
}

/// The verbs one reload attempt invokes, in order, given whether mirroring
/// succeeded and whether the configuration test passed.
pub open spec fn protocol_trace(mirrored: bool, passed: bool) -> Seq<Verb> {
    match step_after_mirror(mirrored) {
        ReloadAction::Run(first) => seq![first] + match step_after_test(passed) {
            ReloadAction::Run(second) => seq![second],
            ReloadAction::Finish(_) => Seq::<Verb>::empty(),
        },
        ReloadAction::Finish(_) => Seq::<Verb>::empty(),
    }
}

/// The reload verb runs only after a configuration test that passed, on a
/// change that was mirrored: a failed test or a failed mirror never leads to
/// a reload, and a successful test always does.
pub proof fn lemma_reload_only_after_passed_test(mirrored: bool, passed: bool)
    ensures
        protocol_trace(mirrored, passed).contains(Verb::Reload) <==> (mirrored && passed),
        mirrored ==> protocol_trace(mirrored, passed)[0] == Verb::TestConfig,
        mirrored && passed ==> protocol_trace(mirrored, passed) == seq![Verb::TestConfig, Verb::Reload],
        !mirrored ==> protocol_trace(mirrored, passed).len() == 0,
{
    let t = protocol_trace(mirrored, passed);
    if mirrored && passed {
        assert(t =~= seq![Verb::TestConfig, Verb::Reload]);
        assert(t[1] == Verb::Reload);
    } else if mirrored {
        assert(t =~= seq![Verb::TestConfig]);
    } else {
        assert(t =~= Seq::<Verb>::empty());
    }
}

/// What startup does after one look for the readiness marker.
#[derive(Clone, Copy, Debug, PartialEq, Eq, Structural)]
pub enum Readiness {
    /// The marker exists: the proxy is ready.
    Ready,
    /// Sleep for the poll interval, then look again.
    Poll,
    /// The timeout elapsed without the marker appearing; startup fails.
    TimedOut,
}

/// Decides the startup step from the time since the proxy was spawned and
/// whether the readiness marker exists.
pub fn readiness_step(elapsed_ms: u64, marker_present: bool) -> (r: Readiness)
    ensures
        marker_present ==> r == Readiness::Ready,
        !marker_present && elapsed_ms <= STARTUP_TIMEOUT_MS ==> r == Readiness::Poll,
        !marker_present && elapsed_ms > STARTUP_TIMEOUT_MS ==> r == Readiness::TimedOut,
{
    if marker_present {
        Readiness::Ready
    } else if elapsed_ms <= STARTUP_TIMEOUT_MS {
        Readiness::Poll
    } else {
        Readiness::TimedOut
    }
}

} // verus!
