//! The node that refreshes a repository's state file with `mev emit-state`.
use vstd::prelude::*;

use crate::contract::{get_result, put_result, TaskContext};
use crate::json::{Json, JsonView};
use crate::node::NodeError;
use crate::text;
use crate::text::{concat2, join_from, lines_of, owned};

verus! {

/// What a node reads of a finished command.
pub trait CommandOutputLike {
    /// The exit status.
    spec fn exit(&self) -> i32;

    /// What the command wrote to its standard output.
    spec fn out(&self) -> Seq<char>;

    /// What the command wrote to its standard error.
    spec fn err(&self) -> Seq<char>;

    /// The exit status; nought is success.
    fn status(&self) -> (r: i32)
        ensures
            r == self.exit(),
    ;

    /// What the command wrote to its standard output.
    fn stdout(&self) -> (r: &str)
        ensures
            r@ == self.out(),
    ;

    /// What the command wrote to its standard error.
    fn stderr(&self) -> (r: &str)
        ensures
            r@ == self.err(),
    ;
}

/// A finished command.
#[derive(Debug, PartialEq, Eq)]
pub struct CommandOutput {
    pub status: i32,
    pub stdout: String,
    pub stderr: String,
}

impl CommandOutputLike for CommandOutput {
    open spec fn exit(&self) -> i32 {
        self.status
    }

    open spec fn out(&self) -> Seq<char> {
        self.stdout@
    }

    open spec fn err(&self) -> Seq<char> {
        self.stderr@
    }

    fn status(&self) -> (r: i32) {
        self.status
    }

    fn stdout(&self) -> (r: &str) {
        self.stdout.as_str()
    }

    fn stderr(&self) -> (r: &str) {
        self.stderr.as_str()
    }
}

/// How many lines of the output are kept.
pub const TAIL_LINES: usize = 5;

/// The directory the command runs in: the worktree, if one was set up, else
/// the current one.
pub open spec fn worktree_of(ctx: TaskContext) -> Seq<char> {
    match ctx.result_of("SetupWorktreeNode"@) {
        Some(setup) => match setup.get_str("worktree_path"@) {
            Some(path) => path,
            None => "."@,
        },
        None => "."@,
    }
}

/// The directory the command runs in.
pub fn worktree_path(ctx: &TaskContext) -> (r: String)
    ensures
        r@ == worktree_of(*ctx),
{
    match get_result(ctx, "SetupWorktreeNode") {
        Some(setup) => match setup.get_str("worktree_path") {
            Some(path) => owned(path),
            None => owned("."),
        },
        None => owned("."),
    }
}

/// The command's arguments.
pub open spec fn argv(agent: Option<Seq<char>>) -> Seq<Seq<char>> {
    match agent {
        Some(id) => seq!["emit-state"@, "--write"@, "--agent"@, id],
        None => seq!["emit-state"@, "--write"@],
    }
}

/// The texts of a list of words.
pub open spec fn words(v: Seq<&str>) -> Seq<Seq<char>> {
    v.map_values(|s: &str| s@)
}

/// The last lines of an output.
pub open spec fn tail(out: Seq<char>) -> Seq<char> {
    let all = text::lines(out);
    let from = if all.len() > TAIL_LINES {
        all.len() - TAIL_LINES
    } else {
        0
    };
    text::join(all.skip(from), "\n"@)
}

/// What the node stamps for a finished command: its standard error only where
/// the command failed.
pub open spec fn report(exit: i32, out: Seq<char>, err: Seq<char>) -> JsonView {
    let base = Map::empty().insert("emitted"@, JsonView::Bool(exit == 0)).insert(
        "stdout_tail"@,
        JsonView::Text(tail(out)),
    );
    JsonView::Object(
        if exit == 0 {
            base
        } else {
            base.insert("stderr"@, JsonView::Text(err))
        },
    )
}

/// Whether `r` is what the node returns when its command ended as `ran`.
pub open spec fn outcome<O: CommandOutputLike>(
    ctx: TaskContext,
    ran: Result<O, String>,
    r: Result<TaskContext, NodeError>,
) -> bool {
    match ran {
        Err(why) => r matches Err(e) && e.message@ == "mev emit-state failed to spawn: "@ + why@,
        Ok(output) => r matches Ok(done) && done.stamped(
            ctx,
            "EmitStateNode"@,
            report(output.exit(), output.out(), output.err()),
        ),
    }
}

/// A node that runs `mev emit-state --write` through the runner it was given.
/// The runner takes a program, its arguments and a directory, and returns the
/// finished command or why it could not be started.
pub struct EmitStateNode<R> {
    runner: R,
    agent: Option<String>,
}

impl<R> EmitStateNode<R> {
    /// The runner.
    pub closed spec fn runs(&self) -> R {
        self.runner
    }

    /// The agent the command runs for.
    pub closed spec fn runs_for(&self) -> Option<Seq<char>> {
        text::opt_text(self.agent)
    }

    /// A node with the given runner, and no agent.
    pub fn new(runner: R) -> (r: Self)
        ensures
            r.runs() == runner,
            r.runs_for() is None,
    {
        EmitStateNode { runner, agent: None }
    }

    /// The same node with another runner.
    pub fn with_runner<S>(self, runner: S) -> (r: EmitStateNode<S>)
        ensures
            r.runs() == runner,
            r.runs_for() == self.runs_for(),
    {
        EmitStateNode { runner, agent: self.agent }
    }

    /// The same node, running for `agent`.
    pub fn with_agent(self, agent: &str) -> (r: Self)
        ensures
            r.runs() == self.runs(),
            r.runs_for() == Some(agent@),
    {
        EmitStateNode { runner: self.runner, agent: Some(owned(agent)) }
    }

    /// The node's name.
    pub fn name(&self) -> (r: &'static str)
        ensures
            r@ == "EmitStateNode"@,
    {
        "EmitStateNode"
    }

    /// Stamp what a command came to.
    pub fn finish<O: CommandOutputLike>(ctx: TaskContext, ran: Result<O, String>) -> (r: Result<
        TaskContext,
        NodeError,
    >)
        ensures
            outcome(ctx, ran, r),
    {
        let output = match ran {
            Ok(output) => output,
            Err(why) => {
                return Err(
                    NodeError::new(concat2("mev emit-state failed to spawn: ", why.as_str())),
                );
            },
        };
        let emitted = output.status() == 0;
        let lines = lines_of(output.stdout());
        let from: usize = if lines.len() > TAIL_LINES {
            lines.len() - TAIL_LINES
        } else {
            0
        };
        let stdout_tail = join_from(&lines, from, "\n");
        let mut doc = Json::object().with("emitted", Json::Bool(emitted)).with(
            "stdout_tail",
            Json::text(stdout_tail.as_str()),
        );
        if !emitted {
            doc = doc.with("stderr", Json::text(output.stderr()));
        }
        Ok(put_result(ctx, "EmitStateNode", doc))
    }

    /// Run the command and stamp what it came to.
    pub fn process<O: CommandOutputLike>(&self, ctx: TaskContext) -> (r: Result<
        TaskContext,
        NodeError,
    >) where R: Fn(&str, &[&str], &str) -> Result<O, String>
        requires
            forall|program: &str, args: &[&str], cwd: &str|
                self.runs().requires((program, args, cwd)),
        ensures
            exists|program: &str, args: &[&str], cwd: &str, ran: Result<O, String>| #[trigger]
                self.runs().ensures((program, args, cwd), ran) && program@ == "mev"@ && words(args@)
                    == argv(self.runs_for()) && cwd@ == worktree_of(ctx) && outcome(ctx, ran, r),
    {
        let cwd = worktree_path(&ctx);
        let mut args: Vec<&str> = Vec::new();
        args.push("emit-state");
        args.push("--write");
        match &self.agent {
            Some(agent) => {
                args.push("--agent");
                args.push(agent.as_str());
            },
            None => {},
        }
        assert(words(args@) =~= argv(self.runs_for()));
        assert(self.runs() == self.runner);
        let ran = (self.runner)("mev", args.as_slice(), cwd.as_str());
        EmitStateNode::<R>::finish(ctx, ran)
    }
}

/// The command runs in the worktree that was set up, and where none was, in the
/// current directory.
pub proof fn law_command_runs_in_the_worktree(ctx: &TaskContext, r: String)
    requires
        worktree_path.ensures((ctx,), r),
    ensures
        match ctx.result_of("SetupWorktreeNode"@) {
            Some(doc) => match doc.get("worktree_path"@) {
                Some(JsonView::Text(path)) => r@ == path,
                _ => r@ == "."@,
            },
            None => r@ == "."@,
        },
{
}

/// A command that could not be started fails the node, with the reason. One
/// that ended is recorded: whether it succeeded, the last five lines of what it
/// wrote, and its complaints where it failed. Nothing else changes.
pub proof fn law_command_is_recorded<R, O: CommandOutputLike>(
    ctx: TaskContext,
    ran: Result<O, String>,
    out: &str,
    feed: &str,
    lines: Vec<String>,
    from: usize,
    last: String,
    r: Result<TaskContext, NodeError>,
)
    requires
        ran is Ok ==> out@ == ran->Ok_0.out(),
        feed@ == "\n"@,
        lines_of.ensures((out,), lines),
        lines@.len() <= 5 ==> from == 0,
        lines@.len() > 5 ==> from == lines@.len() - 5,
        join_from.ensures((&lines, from, feed), last),
        EmitStateNode::<R>::finish::<O>.ensures((ctx, ran), r),
    ensures
        ran is Err ==> r is Err && r->Err_0.message@ == "mev emit-state failed to spawn: "@
            + ran->Err_0@,
        ran is Ok ==> r is Ok && {
            let done = r->Ok_0;
            &&& done.result_of("EmitStateNode"@) matches Some(doc) && {
                &&& doc.get("emitted"@) == Some(JsonView::Bool(ran->Ok_0.exit() == 0))
                &&& doc.get_str("stdout_tail"@) == Some(last@)
                &&& ran->Ok_0.exit() == 0 ==> doc.get("stderr"@) is None
                &&& ran->Ok_0.exit() != 0 ==> doc.get_str("stderr"@) == Some(ran->Ok_0.err())
            }
            &&& forall|key: Seq<char>| key != "EmitStateNode"@ ==> #[trigger] done.result_of(key)
                == ctx.result_of(key)
            &&& done.event == ctx.event
            &&& done.metadata == ctx.metadata
            &&& done.node_runs == ctx.node_runs
        },
{
    reveal_strlit("emitted");
    reveal_strlit("stdout_tail");
    reveal_strlit("stderr");
    assert("emitted"@.len() == 7);
    assert("stdout_tail"@.len() == 11);
    assert("stderr"@.len() == 6);
    if ran is Ok {
        let doc = report(ran->Ok_0.exit(), ran->Ok_0.out(), ran->Ok_0.err());
        let done = r->Ok_0;
        assert(done.stamped(ctx, "EmitStateNode"@, doc));
        assert(done.results() == ctx.results().insert("EmitStateNode"@, doc));
        assert(text::texts(lines@).len() == lines@.len());
    }
}

/// The runner is asked for one command: the state is emitted and written, for
/// the node's agent where it has one, in the worktree.
pub proof fn law_one_command_is_run<R, O>(
    node: &EmitStateNode<R>,
    ctx: TaskContext,
    cwd: String,
    r: Result<TaskContext, NodeError>,
) where O: CommandOutputLike, R: Fn(&str, &[&str], &str) -> Result<O, String>
    requires
        worktree_path.ensures((&ctx,), cwd),
        EmitStateNode::<R>::process::<O>.ensures((node, ctx), r),
    ensures
        exists|program: &str, args: &[&str], dir: &str, ran: Result<O, String>|
            {
                &&& #[trigger] node.runs().ensures((program, args, dir), ran)
                &&& program@ == "mev"@
                &&& dir@ == cwd@
                &&& args@[0]@ == "emit-state"@
                &&& args@[1]@ == "--write"@
                &&& node.runs_for() is None ==> args@.len() == 2
                &&& node.runs_for() is Some ==> args@.len() == 4 && args@[2]@ == "--agent"@
                    && args@[3]@ == node.runs_for()->0
                &&& ran is Err <==> r is Err
            },
{
    let (program, args, dir, ran) = choose|
        program: &str,
        args: &[&str],
        dir: &str,
        ran: Result<O, String>,
    | #[trigger]
        node.runs().ensures((program, args, dir), ran) && program@ == "mev"@ && words(args@)
            == argv(node.runs_for()) && dir@ == worktree_of(ctx) && outcome(ctx, ran, r);
    let w = words(args@);
    assert(w.len() == args@.len());
    assert(w[0] == args@[0]@ && w[1] == args@[1]@);
    if node.runs_for() is Some {
        assert(w[2] == args@[2]@ && w[3] == args@[3]@);
    }
    assert(node.runs().ensures((program, args, dir), ran));
}

} // verus!
