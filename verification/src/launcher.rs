//! Making sure the hub server is reachable: probe it, and otherwise start it from the first
//! place where it can be found, until a connection succeeds or every place was tried.
use vstd::prelude::*;

verus! {

/// The number of ways of starting the server, tried in order.
pub open spec fn attempt_count() -> int {
    4
}

/// One way of starting the server: the path that must exist, the program and its arguments,
/// the working directory, and how long to wait before connecting.
pub struct AttemptModel {
    pub required_path: Seq<char>,
    pub program: Seq<char>,
    pub args: Seq<Seq<char>>,
    pub dir: Seq<char>,
    pub wait_ms: u64,
}

/// The ways of starting the server: a built binary next to the working directory or one level
/// up, then `go run .` in the source directory there.
pub open spec fn attempt(i: int) -> AttemptModel {
    if i == 0 {
        AttemptModel {
            required_path: "server/nexustui-server"@,
            program: "server/nexustui-server"@,
            args: Seq::empty(),
            dir: "server"@,
            wait_ms: 600,
        }
    } else if i == 1 {
        AttemptModel {
            required_path: "../server/nexustui-server"@,
            program: "../server/nexustui-server"@,
            args: Seq::empty(),
            dir: "../server"@,
            wait_ms: 600,
        }
    } else if i == 2 {
        AttemptModel {
            required_path: "server"@,
            program: "go"@,
            args: seq!["run"@, "."@],
            dir: "server"@,
            wait_ms: 1000,
        }
    } else {
        AttemptModel {
            required_path: "../server"@,
            program: "go"@,
            args: seq!["run"@, "."@],
            dir: "../server"@,
            wait_ms: 1000,
        }
    }
}

/// Where the launcher stands.
#[derive(Clone, Copy, PartialEq, Eq, Structural, Debug)]
pub enum LaunchStage {
    /// Waiting for the result of the first connection attempt.
    Probing,
    /// Waiting to hear whether the required path of attempt `i` exists.
    Checking(usize),
    /// Waiting for the connection attempt after starting attempt `i`.
    Starting(usize),
    Finished,
}

/// What the caller must do next.
pub enum LaunchAction {
    /// Try to connect to the server; report whether it worked.
    Connect,
    /// Report whether this path exists.
    CheckPath(String),
    /// Start this program in this directory, discard its output, wait, then try to connect
    /// and report whether it worked.
    Start { program: String, args: Vec<String>, dir: String, wait_ms: u64 },
    /// Nothing more to do.
    Done,
}

/// A `LaunchAction` as plain values.
pub enum LaunchActionModel {
    Connect,
    CheckPath(Seq<char>),
    Start { program: Seq<char>, args: Seq<Seq<char>>, dir: Seq<char>, wait_ms: u64 },
    Done,
}

impl View for LaunchAction {
    type V = LaunchActionModel;

    open spec fn view(&self) -> LaunchActionModel {
        match self {
            LaunchAction::Connect => LaunchActionModel::Connect,
            LaunchAction::CheckPath(p) => LaunchActionModel::CheckPath(p@),
            LaunchAction::Start { program, args, dir, wait_ms } => LaunchActionModel::Start {
                program: program@,
                args: args.deep_view(),
                dir: dir@,
                wait_ms: *wait_ms,
            },
            LaunchAction::Done => LaunchActionModel::Done,
        }
    }
}

/// Starting the server by attempt `i`.
pub open spec fn start_of(i: int) -> LaunchActionModel {
    LaunchActionModel::Start {
        program: attempt(i).program,
        args: attempt(i).args,
        dir: attempt(i).dir,
        wait_ms: attempt(i).wait_ms,
    }
}

/// Moving on to the attempt after `i`, or stopping after the last one.
pub open spec fn next_attempt(i: int) -> (LaunchStage, LaunchActionModel) {
    if i + 1 < attempt_count() {
        (LaunchStage::Checking((i + 1) as usize), LaunchActionModel::CheckPath(attempt(i + 1).required_path))
    } else {
        (LaunchStage::Finished, LaunchActionModel::Done)
    }
}

/// What the launcher does with the report `ok` on its last action.
pub open spec fn launch_step(stage: LaunchStage, ok: bool) -> (LaunchStage, LaunchActionModel) {
    match stage {
        LaunchStage::Probing => if ok {
            (LaunchStage::Finished, LaunchActionModel::Done)
        } else {
            (LaunchStage::Checking(0), LaunchActionModel::CheckPath(attempt(0).required_path))
        },
        LaunchStage::Checking(i) => if ok {
            (LaunchStage::Starting(i), start_of(i as int))
        } else {
            next_attempt(i as int)
        },
        LaunchStage::Starting(i) => if ok {
            (LaunchStage::Finished, LaunchActionModel::Done)
        } else {
            next_attempt(i as int)
        },
        LaunchStage::Finished => (LaunchStage::Finished, LaunchActionModel::Done),
    }
}

/// The stage names an attempt that exists.
pub open spec fn stage_wf(stage: LaunchStage) -> bool {
    match stage {
        LaunchStage::Checking(i) => i < attempt_count(),
        LaunchStage::Starting(i) => i < attempt_count(),
        _ => true,
    }
}

/// How many more reports the launcher can take before it is finished.
pub open spec fn steps_left(stage: LaunchStage) -> int {
    match stage {
        LaunchStage::Probing => 2 * attempt_count() + 1,
        LaunchStage::Checking(i) => 2 * (attempt_count() - i),
        LaunchStage::Starting(i) => 2 * (attempt_count() - i) - 1,
        LaunchStage::Finished => 0,
    }
}

/// The decisions of the server launcher.
pub struct ServerLauncher {
    stage: LaunchStage,
}

fn text(s: &str) -> (r: String)
    ensures
        r@ == s@,
{
    String::from_str(s)
}

fn start_action(i: usize) -> (a: LaunchAction)
    requires
        i < 4,
    ensures
        a@ == start_of(i as int),
{
    let a = if i == 0 {
        LaunchAction::Start {
            program: text("server/nexustui-server"),
            args: Vec::new(),
            dir: text("server"),
            wait_ms: 600,
        }
    } else if i == 1 {
        LaunchAction::Start {
            program: text("../server/nexustui-server"),
            args: Vec::new(),
            dir: text("../server"),
            wait_ms: 600,
        }
    } else {
        let mut args: Vec<String> = Vec::new();
        args.push(text("run"));
        args.push(text("."));
        LaunchAction::Start {
            program: text("go"),
            args,
            dir: if i == 2 { text("server") } else { text("../server") },
            wait_ms: 1000,
        }
    };
    proof {
        if let LaunchAction::Start { args, .. } = &a {
            assert(args.deep_view() =~= attempt(i as int).args);
        }
    }
    a
}

fn check_action(i: usize) -> (a: LaunchAction)
    requires
        i < 4,
    ensures
        a@ == LaunchActionModel::CheckPath(attempt(i as int).required_path),
{
    if i == 0 {
        LaunchAction::CheckPath(text("server/nexustui-server"))
    } else if i == 1 {
        LaunchAction::CheckPath(text("../server/nexustui-server"))
    } else if i == 2 {
        LaunchAction::CheckPath(text("server"))
    } else {
        LaunchAction::CheckPath(text("../server"))
    }
}

impl ServerLauncher {
    #[verifier::type_invariant]
    spec fn stage_is_valid(self) -> bool {
        stage_wf(self.stage)
    }

    /// Where the launcher stands.
    pub closed spec fn spec_stage(self) -> LaunchStage {
        self.stage
    }

    /// Where the launcher stands.
    pub fn stage(&self) -> (s: LaunchStage)
        ensures
            s == self.spec_stage(),
            stage_wf(s),
    {
        proof {
            use_type_invariant(self);
        }
        self.stage
    }

    /// A launcher that first asks for a connection attempt.
    pub fn new() -> (r: (ServerLauncher, LaunchAction))
        ensures
            r.0.spec_stage() == LaunchStage::Probing,
            r.1@ == LaunchActionModel::Connect,
    {
        (ServerLauncher { stage: LaunchStage::Probing }, LaunchAction::Connect)
    }

    fn advance(i: usize) -> (r: (LaunchStage, LaunchAction))
        requires
            i < 4,
        ensures
            (r.0, r.1@) == next_attempt(i as int),
    {
        if i + 1 < 4 {
            (LaunchStage::Checking(i + 1), check_action(i + 1))
        } else {
            (LaunchStage::Finished, LaunchAction::Done)
        }
    }

    /// Takes the report `ok` on the last action and says what to do next.
    pub fn step(&mut self, ok: bool) -> (a: LaunchAction)
        ensures
            (final(self).spec_stage(), a@) == launch_step(old(self).spec_stage(), ok),
    {
        proof {
            use_type_invariant(&*self);
        }
        let (stage, a) = match self.stage {
            LaunchStage::Probing => if ok {
                (LaunchStage::Finished, LaunchAction::Done)
            } else {
                (LaunchStage::Checking(0), check_action(0))
            },
            LaunchStage::Checking(i) => if ok {
                (LaunchStage::Starting(i), start_action(i))
            } else {
                Self::advance(i)
            },
            LaunchStage::Starting(i) => if ok {
                (LaunchStage::Finished, LaunchAction::Done)
            } else {
                Self::advance(i)
            },
            LaunchStage::Finished => (LaunchStage::Finished, LaunchAction::Done),
        };
        self.stage = stage;
        a
    }
}


/// Every report brings the launcher closer to the end: it is finished after at most nine
/// reports (one probe, then a path check and a start for each of the four ways).
pub proof fn law_launch_terminates(stage: LaunchStage, ok: bool)
    requires
        stage_wf(stage),
    ensures
        stage_wf(launch_step(stage, ok).0),
        0 <= steps_left(launch_step(stage, ok).0),
        stage != LaunchStage::Finished ==> steps_left(launch_step(stage, ok).0) < steps_left(stage),
        steps_left(LaunchStage::Probing) == 9,
{
}

/// A server is only started right after its required path was reported to exist, and it is
/// the way of starting that goes with that path.
pub proof fn law_start_needs_path(stage: LaunchStage, ok: bool)
    requires
        stage_wf(stage),
        launch_step(stage, ok).1 is Start,
    ensures
        stage matches LaunchStage::Checking(i) && ok && launch_step(stage, ok).1 == start_of(i as int),
{
}

/// The launcher stops right after a successful connection, and otherwise only once every way
/// of starting the server has been tried.
pub proof fn law_done_when_connected_or_exhausted(stage: LaunchStage, ok: bool)
    requires
        stage_wf(stage),
        launch_step(stage, ok).1 == LaunchActionModel::Done,
    ensures
        ok && (stage == LaunchStage::Probing || stage is Starting)
            || stage == LaunchStage::Checking(3) || stage == LaunchStage::Starting(3)
            || stage == LaunchStage::Finished,
{
}

/// A successful first connection starts nothing.
pub proof fn law_running_server_is_left_alone()
    ensures
        launch_step(LaunchStage::Probing, true) == (LaunchStage::Finished, LaunchActionModel::Done),
{
}

} // verus!
