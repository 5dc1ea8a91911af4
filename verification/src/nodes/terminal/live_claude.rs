//! The node that starts an interactive agent in a held session, by typing the
//! command line into it.
use vstd::prelude::*;

use crate::config::Config;
use crate::contract;
use crate::contract::{put_result, read_run_id, TaskContext};
use crate::json;
use crate::json::{Json, JsonView};
use crate::node::InputBinding;
use crate::nodes::terminal::driver::{
    failed, CallView, DriverCall, DriverFault, GuardedSendRequest, Reply, SendView, Step,
};
use crate::nodes::terminal::held_session;
use crate::nodes::terminal::identity::HasSessionInput;
use crate::nodes::terminal::send::LEASE_TTL_MS;
use crate::nodes::terminal::upstream;
use crate::nodes::terminal::upstream::read_leased_session;
use crate::text;
use crate::text::{chars_of, concat2, concat3, concat4, concat5, join_from, owned};

verus! {

/// The identity this node runs and stamps its result under.
pub const NODE_NAME: &'static str = "LiveClaudeSessionNode";

/// The program to start: the one that was named, else the agent's own.
pub fn binary_name(named: Option<String>, agent: &str) -> (r: String)
    ensures
        r@ == (match named {
            Some(name) => name@,
            None => agent@,
        }),
{
    match named {
        Some(name) => name,
        None => owned(agent),
    }
}

/// Whether a shell takes `c` as it stands wherever it comes in a word.
pub open spec fn is_plain(c: char) -> bool {
    ||| '0' <= c <= '9'
    ||| 'A' <= c <= 'Z'
    ||| 'a' <= c <= 'z'
    ||| c == '-'
    ||| c == '_'
    ||| c == '.'
    ||| c == '/'
}

fn plain(c: char) -> (r: bool)
    ensures
        r == is_plain(c),
{
    (c >= '0' && c <= '9') || (c >= 'A' && c <= 'Z') || (c >= 'a' && c <= 'z') || c == '-' || c
        == '_' || c == '.' || c == '/'
}

/// Whether a text needs no quoting.
pub open spec fn is_simple(s: Seq<char>) -> bool {
    s.len() > 0 && forall|i: int| 0 <= i < s.len() ==> is_plain(#[trigger] s[i])
}

/// What stands for `c` between single quotes: a quote closes them, comes
/// escaped, and opens them again.
pub open spec fn escaped_char(c: char) -> Seq<char> {
    if c == '\'' {
        seq!['\'', '\\', '\'', '\'']
    } else {
        seq![c]
    }
}

/// What stands for a text between single quotes.
pub open spec fn escaped(s: Seq<char>) -> Seq<char>
    decreases s.len(),
{
    if s.len() == 0 {
        Seq::empty()
    } else {
        escaped(s.drop_last()) + escaped_char(s.last())
    }
}

/// A text quoted for a shell.
pub open spec fn shell_quoted(s: Seq<char>) -> Seq<char> {
    if is_simple(s) {
        s
    } else {
        seq!['\''] + escaped(s) + seq!['\'']
    }
}

/// A text quoted for a shell.
pub fn shell_quote(s: &str) -> (r: String)
    ensures
        r@ == shell_quoted(s@),
{
    let chars = chars_of(s);
    let mut simple = chars.len() > 0;
    let mut out = String::new();
    out.push('\'');
    let mut i: usize = 0;
    assert(out@ =~= seq!['\''] + escaped(s@.take(0)));
    while i < chars.len()
        invariant
            i <= chars@.len(),
            chars@ == s@,
            simple == (s@.len() > 0 && forall|j: int| 0 <= j < i ==> is_plain(#[trigger] s@[j])),
            out@ == seq!['\''] + escaped(s@.take(i as int)),
        decreases chars@.len() - i,
    {
        let c = chars[i];
        let ghost before = out@;
        if !plain(c) {
            simple = false;
        }
        if c == '\'' {
            out.push('\'');
            out.push('\\');
            out.push('\'');
            out.push('\'');
        } else {
            out.push(c);
        }
        assert(out@ =~= before + escaped_char(c));
        assert(s@.take(i + 1).drop_last() =~= s@.take(i as int));
        assert(s@.take(i + 1).last() == c);
        i += 1;
        assert(out@ =~= seq!['\''] + escaped(s@.take(i as int)));
    }
    assert(s@.take(i as int) =~= s@);
    if simple {
        owned(s)
    } else {
        out.push('\'');
        assert(out@ =~= seq!['\''] + escaped(s@) + seq!['\'']);
        out
    }
}

/// What a shell makes of the rest of a word: the text it stands for, or none
/// where a character ends the word or means something else to the shell, or a
/// quote is left open. `quoted` tells whether the rest starts between single
/// quotes.
pub open spec fn word(s: Seq<char>, quoted: bool) -> Option<Seq<char>>
    decreases s.len(),
{
    if s.len() == 0 {
        if quoted {
            None
        } else {
            Some(Seq::empty())
        }
    } else if s[0] == '\'' {
        word(s.drop_first(), !quoted)
    } else if quoted || is_plain(s[0]) {
        prefixed(s[0], word(s.drop_first(), quoted))
    } else if s[0] == '\\' && s.len() > 1 {
        prefixed(s[1], word(s.skip(2), quoted))
    } else {
        None
    }
}

/// A word with one more character before it.
pub open spec fn prefixed(c: char, rest: Option<Seq<char>>) -> Option<Seq<char>> {
    match rest {
        Some(w) => Some(seq![c] + w),
        None => None,
    }
}

proof fn lemma_plain_word(s: Seq<char>)
    requires
        forall|i: int| 0 <= i < s.len() ==> is_plain(#[trigger] s[i]),
    ensures
        word(s, false) == Some(s),
    decreases s.len(),
{
    if s.len() > 0 {
        assert(is_plain(s[0]));
        assert forall|i: int| 0 <= i < s.drop_first().len() implies is_plain(
            #[trigger] s.drop_first()[i],
        ) by {
            assert(is_plain(s[i + 1]));
        }
        lemma_plain_word(s.drop_first());
        assert(seq![s[0]] + s.drop_first() =~= s);
    } else {
        assert(s =~= Seq::<char>::empty());
    }
}

proof fn lemma_quoted_word(s: Seq<char>, rest: Seq<char>, tail: Seq<char>)
    requires
        word(rest, true) == Some(tail),
    ensures
        word(escaped(s) + rest, true) == Some(s + tail),
    decreases s.len(),
{
    if s.len() == 0 {
        assert(escaped(s) + rest =~= rest);
        assert(s + tail =~= tail);
    } else {
        let c = s.last();
        let more = escaped_char(c) + rest;
        if c == '\'' {
            let s1 = more.drop_first();
            let s2 = s1.skip(2);
            assert(more[0] == '\'');
            assert(s1[0] == '\\' && s1[1] == '\'');
            assert(s2[0] == '\'');
            assert(s2.drop_first() =~= rest);
            assert(word(s2, false) == word(rest, true));
            assert(word(s1, false) == prefixed('\'', word(s2, false)));
            assert(word(more, true) == word(s1, false));
        } else {
            assert(more[0] == c);
            assert(more.drop_first() =~= rest);
        }
        assert(word(more, true) == Some(seq![c] + tail));
        lemma_quoted_word(s.drop_last(), more, seq![c] + tail);
        assert(escaped(s.drop_last()) + more =~= escaped(s) + rest);
        assert(s.drop_last() + (seq![c] + tail) =~= s + tail);
    }
}

/// A quoted text is one word to the shell, and that word is the text: nothing
/// in it ends the word or means anything else.
pub proof fn law_quoting_is_read_back(s: Seq<char>)
    ensures
        word(shell_quoted(s), false) == Some(s),
{
    if is_simple(s) {
        lemma_plain_word(s);
    } else {
        let end = seq!['\''];
        assert(end.drop_first() =~= Seq::<char>::empty());
        assert(word(Seq::empty(), false) == Some(Seq::<char>::empty()));
        assert(word(end, true) == Some(Seq::<char>::empty()));
        lemma_quoted_word(s, end, Seq::empty());
        assert(s + Seq::<char>::empty() =~= s);
        let q = shell_quoted(s);
        assert(q[0] == '\'');
        assert(q.drop_first() =~= escaped(s) + end);
    }
}

/// The arguments of an interactive start.
pub open spec fn argv(config: Config) -> Seq<Seq<char>> {
    let model = match config.model {
        Some(m) => seq!["--model"@, m@],
        None => Seq::empty(),
    };
    let go_on = if config.continue_session {
        seq!["--continue"@]
    } else {
        Seq::empty()
    };
    let resume = match config.resume {
        Some(id) => seq!["--resume"@, id@],
        None => Seq::empty(),
    };
    model + go_on + resume
}

/// The arguments of an interactive start: those of the configuration that an
/// attended session has a use for.
pub fn interactive_argv(config: &Config) -> (r: Vec<String>)
    ensures
        text::texts(r@) == argv(*config),
{
    let mut args: Vec<String> = Vec::new();
    match &config.model {
        Some(model) => {
            args.push(owned("--model"));
            args.push(model.clone());
        },
        None => {},
    }
    if config.continue_session {
        args.push(owned("--continue"));
    }
    match &config.resume {
        Some(resume) => {
            args.push(owned("--resume"));
            args.push(resume.clone());
        },
        None => {},
    }
    assert(text::texts(args@) =~= argv(*config));
    args
}

/// A variable set for one command; the sign that sets it stays unquoted.
pub open spec fn assignment(var: Seq<char>, value: Seq<char>) -> Seq<char> {
    var + "="@ + shell_quoted(value)
}

/// A variable set for one command.
pub fn env_assignment(var: &str, value: &str) -> (r: String)
    ensures
        r@ == assignment(var@, value@),
{
    concat3(var, "=", shell_quote(value).as_str())
}

/// What the telemetry of the started program is marked with.
pub open spec fn attributes(run_id: Seq<char>, node_identity: Seq<char>) -> Seq<char> {
    "run_id="@ + run_id + ",node.identity="@ + node_identity
}

/// The parts of the command line.
pub open spec fn line_parts(
    config: Config,
    run_id: Seq<char>,
    node_identity: Seq<char>,
    binary: Seq<char>,
) -> Seq<Seq<char>> {
    seq![
        assignment("CLAUDE_CODE_ENABLE_TELEMETRY"@, "1"@),
        assignment("OTEL_METRICS_EXPORTER"@, "otlp"@),
        assignment("OTEL_RESOURCE_ATTRIBUTES"@, attributes(run_id, node_identity)),
        shell_quoted(binary),
    ] + argv(config).map_values(|a: Seq<char>| shell_quoted(a))
}

/// The command line.
pub open spec fn command_line(
    config: Config,
    run_id: Seq<char>,
    node_identity: Seq<char>,
    binary: Seq<char>,
) -> Seq<char> {
    text::join(line_parts(config, run_id, node_identity, binary), " "@)
}

/// The command line: telemetry switched on and marked with the run, then the
/// program and its arguments, each quoted.
pub fn build_command_line(config: &Config, run_id: &str, node_identity: &str, binary: &str) -> (r:
    String)
    ensures
        r@ == command_line(*config, run_id@, node_identity@, binary@),
{
    let marks = concat4("run_id=", run_id, ",node.identity=", node_identity);
    let mut parts: Vec<String> = Vec::new();
    parts.push(env_assignment("CLAUDE_CODE_ENABLE_TELEMETRY", "1"));
    parts.push(env_assignment("OTEL_METRICS_EXPORTER", "otlp"));
    parts.push(env_assignment("OTEL_RESOURCE_ATTRIBUTES", marks.as_str()));
    parts.push(shell_quote(binary));
    let args = interactive_argv(config);
    let ghost head = text::texts(parts@);
    let ghost quoted = |a: Seq<char>| shell_quoted(a);
    let mut i: usize = 0;
    assert(text::texts(parts@) =~= head + argv(*config).take(0).map_values(quoted));
    while i < args.len()
        invariant
            i <= args@.len(),
            text::texts(args@) == argv(*config),
            quoted == (|a: Seq<char>| shell_quoted(a)),
            text::texts(parts@) == head + argv(*config).take(i as int).map_values(quoted),
        decreases args@.len() - i,
    {
        let ghost before = parts@;
        let part = shell_quote(args[i].as_str());
        parts.push(part);
        i += 1;
        proof {
            assert(text::texts(args@)[i - 1] == args@[i - 1]@);
            assert(text::texts(parts@) =~= text::texts(before).push(part@));
            assert(text::texts(parts@) =~= head + argv(*config).take(i as int).map_values(quoted));
        }
    }
    assert(argv(*config).take(i as int) =~= argv(*config));
    assert(text::texts(parts@) =~= line_parts(*config, run_id@, node_identity@, binary@));
    assert(text::texts(parts@).skip(0) =~= text::texts(parts@));
    join_from(&parts, 0, " ")
}

/// The node.
#[derive(Debug, PartialEq, Eq)]
pub struct LiveClaudeSessionNode {
    config: Config,
    session_input: InputBinding,
}

/// A run of the node, waiting for the line to be typed.
#[derive(Debug, PartialEq, Eq)]
pub struct LaunchRun {
    pub ctx: TaskContext,
    pub session_name: String,
    pub command: String,
}

/// What the node stamps.
pub open spec fn stamp(session: Seq<char>, command: Seq<char>) -> JsonView {
    JsonView::Object(
        json::json_object().insert("session_name"@, json::json_str(session)).insert(
            "launched"@,
            JsonView::Bool(true),
        ).insert("command"@, json::json_str(command)),
    )
}

/// How the node begins to say that the agent was not started.
pub open spec fn not_launched(agent: Seq<char>) -> Seq<char> {
    NODE_NAME@ + ": failed to launch interactive "@ + agent + " session in '"@
}

/// What the node says when the terminal refuses the line.
pub open spec fn refusal(agent: Seq<char>, session: Seq<char>, fault: DriverFault) -> Seq<char> {
    match fault {
        DriverFault::Lease(why) => not_launched(agent)
            + session + "' — lease is no longer ours: "@ + why@,
        DriverFault::Hold(why) => NODE_NAME@ + ": launch refused by operator hold on '"@ + session
            + "': "@ + why@,
        DriverFault::Other(why) => not_launched(agent)
            + session + "': "@ + why@,
    }
}

impl LiveClaudeSessionNode {
    /// What is started.
    pub closed spec fn configured(self) -> Config {
        self.config
    }

    /// Whose session the program is started in.
    pub open spec fn input(self) -> InputBinding {
        self.session_input()
    }

    /// The node named as the session's owner.
    pub open spec fn bound(self) -> Seq<char> {
        self.input().resolved(held_session::NODE_NAME@)
    }

    /// A node with the default configuration, for the default held session.
    pub fn new() -> (r: Self)
        ensures
            r.configured() == crate::config::default_config(),
            r.input().bound_to() is None,
    {
        LiveClaudeSessionNode { config: Config::default(), session_input: InputBinding::unbound() }
    }

    /// The node with another configuration.
    pub fn with_config(self, config: Config) -> (r: Self)
        ensures
            r.configured() == config,
            r.input() == self.input(),
    {
        LiveClaudeSessionNode { config, session_input: self.session_input }
    }

    /// The identity this node runs and stamps its result under.
    pub fn name(&self) -> (r: &'static str)
        ensures
            r@ == NODE_NAME@,
    {
        NODE_NAME
    }

    /// Whether nothing is missing that the node needs to type the line.
    pub open spec fn launches(self, ctx: TaskContext) -> bool {
        upstream::leased_session_of(
            NODE_NAME@,
            held_session::NODE_NAME@,
            ctx,
            self.bound(),
        ) is Ok && contract::run_id_of(ctx.metadata@) is Some
    }

    /// Whether `step` is how the node starts on `ctx`: with the line to type.
    pub open spec fn starts(
        self,
        ctx: TaskContext,
        binary: Seq<char>,
        now_ms: u64,
        step: Step<LaunchRun>,
    ) -> bool {
        match upstream::leased_session_of(
            NODE_NAME@,
            held_session::NODE_NAME@,
            ctx,
            self.bound(),
        ) {
            Err(why) => step.fails(why),
            Ok(leased) => match contract::run_id_of(ctx.metadata@) {
                None => step.fails(
                    NODE_NAME@
                        + ": no run_id stamped on ctx.metadata — cannot derive OTel resource attributes"@,
                ),
                Some(run_id) => {
                    let command = command_line(self.configured(), run_id, self.bound(), binary);
                    step matches Step::Call { state, call } && {
                        &&& state.ctx == ctx
                        &&& state.session_name@ == leased.0
                        &&& state.command@ == command
                        &&& call@ == CallView::SendKeys(
                            SendView {
                                session_name: leased.0,
                                keys: command,
                                run_id,
                                nonce: leased.1,
                                identity: NODE_NAME@,
                                lease_expires_at_ms: (now_ms + LEASE_TTL_MS) as u64,
                                now_ms,
                            },
                        )
                    }
                },
            },
        }
    }

    /// Start on `ctx`, with the name of the program and the present time in
    /// milliseconds.
    pub fn start(&self, ctx: TaskContext, binary: &str, now_ms: u64) -> (r: Step<LaunchRun>)
        requires
            self.launches(ctx) ==> now_ms + LEASE_TTL_MS <= u64::MAX,
        ensures
            self.starts(ctx, binary@, now_ms, r),
    {
        let bound = self.session_input.resolve(held_session::NODE_NAME);
        let (session_name, lease_nonce) = match read_leased_session(
            NODE_NAME,
            held_session::NODE_NAME,
            &ctx,
            bound,
        ) {
            Ok(leased) => leased,
            Err(e) => {
                return Step::Finished(Err(e));
            },
        };
        let run_id = match read_run_id(&ctx.metadata) {
            Some(run_id) => run_id,
            None => {
                return failed(
                    concat2(
                        NODE_NAME,
                        ": no run_id stamped on ctx.metadata — cannot derive OTel resource attributes",
                    ),
                );
            },
        };
        let command = build_command_line(&self.config, run_id.as_str(), bound, binary);
        let call = DriverCall::SendKeys(
            GuardedSendRequest {
                session_name: session_name.clone(),
                keys: command.clone(),
                run_id,
                nonce: lease_nonce,
                identity: owned(NODE_NAME),
                lease_expires_at_ms: now_ms + LEASE_TTL_MS,
                now_ms,
            },
        );
        Step::Call { state: LaunchRun { ctx, session_name, command }, call }
    }

    /// Whether `step` is how the node ends, given the reply.
    pub open spec fn resumes(
        run: LaunchRun,
        reply: Reply,
        agent: Seq<char>,
        step: Step<LaunchRun>,
    ) -> bool {
        match reply {
            Err(f) => step.fails(refusal(agent, run.session_name@, f)),
            Ok(_) => step matches Step::Finished(Ok(done)) && done.stamped(
                run.ctx,
                NODE_NAME@,
                stamp(run.session_name@, run.command@),
            ),
        }
    }

    /// End, given the reply to the line and the name the agent goes by.
    pub fn resume(&self, run: LaunchRun, reply: Reply, agent: &str) -> (r: Step<LaunchRun>)
        ensures
            LiveClaudeSessionNode::resumes(run, reply, agent@, r),
    {
        let head = concat4(NODE_NAME, ": failed to launch interactive ", agent, " session in '");
        match reply {
            Err(DriverFault::Lease(why)) => failed(
                concat4(
                    head.as_str(),
                    run.session_name.as_str(),
                    "' — lease is no longer ours: ",
                    why.as_str(),
                ),
            ),
            Err(DriverFault::Hold(why)) => failed(
                concat5(
                    NODE_NAME,
                    ": launch refused by operator hold on '",
                    run.session_name.as_str(),
                    "': ",
                    why.as_str(),
                ),
            ),
            Err(DriverFault::Other(why)) => failed(
                concat4(
                    head.as_str(),
                    run.session_name.as_str(),
                    "': ",
                    why.as_str(),
                ),
            ),
            Ok(_) => {
                let doc = Json::object().with(
                    "session_name",
                    Json::text(run.session_name.as_str()),
                ).with("launched", Json::Bool(true)).with(
                    "command",
                    Json::text(run.command.as_str()),
                );
                Step::Finished(Ok(put_result(run.ctx, NODE_NAME, doc)))
            },
        }
    }
}

impl Default for LiveClaudeSessionNode {
    fn default() -> (r: Self)
        ensures
            r.configured() == crate::config::default_config(),
            r.input().bound_to() is None,
    {
        LiveClaudeSessionNode::new()
    }
}

impl HasSessionInput for LiveClaudeSessionNode {
    closed spec fn session_input(&self) -> InputBinding {
        self.session_input
    }

    open spec fn differs_in_session_alone(&self, other: &Self) -> bool {
        self.configured() == other.configured()
    }

    fn session_input_mut(&mut self) -> (r: &mut InputBinding) {
        &mut self.session_input
    }
}

/// A text comes back bare where it consists of characters that no shell takes
/// for anything else, and else between quotes; either way a shell reads the
/// text back as one word.
pub proof fn law_only_harmless_texts_stay_bare(s: &str, i: int, r: String)
    requires
        shell_quote.ensures((s,), r),
    ensures
        word(r@, false) == Some(s@),
        r@ == s@ ==> s@.len() > 0,
        0 <= i < s@.len() && !('a' <= s@[i] <= 'z') && !('A' <= s@[i] <= 'Z') && !('0' <= s@[i]
            <= '9') && s@[i] != '-' && s@[i] != '_' && s@[i] != '.' && s@[i] != '/' ==> r@.len()
            >= 2 && r@[0] == '\'' && r@.last() == '\'',
        s@.len() == 0 ==> r@ == seq!['\'', '\''],
{
    law_quoting_is_read_back(s@);
    if 0 <= i < s@.len() && !is_plain(s@[i]) {
        assert(!is_simple(s@));
    }
    if s@.len() == 0 {
        assert(r@ =~= seq!['\'', '\'']);
    }
    if r@ == s@ && s@.len() == 0 {
        assert(r@.len() == 2);
    }
}

/// A text of letters, digits and the four harmless signs is not quoted.
pub proof fn law_harmless_text_is_not_quoted(s: &str, r: String)
    requires
        shell_quote.ensures((s,), r),
        s@.len() > 0,
        forall|i: int|
            0 <= i < s@.len() ==> ('a' <= #[trigger] s@[i] <= 'z') || ('A' <= s@[i] <= 'Z') || ('0'
                <= s@[i] <= '9') || s@[i] == '-' || s@[i] == '_' || s@[i] == '.' || s@[i] == '/',
    ensures
        r@ == s@,
{
    assert(is_simple(s@));
}

/// The arguments are the model, the wish to go on and the session to resume,
/// each where the configuration has it, in this order, and nothing else of it.
pub proof fn law_arguments_are_those_configured(config: &Config, r: Vec<String>)
    requires
        interactive_argv.ensures((config,), r),
    ensures
        ({
            let m: int = if config.model is Some {
                2
            } else {
                0
            };
            let c: int = if config.continue_session {
                1
            } else {
                0
            };
            let s: int = if config.resume is Some {
                2
            } else {
                0
            };
            &&& r@.len() == m + c + s
            &&& config.model is Some ==> r@[0]@ == "--model"@ && r@[1]@ == config.model->0@
            &&& config.continue_session ==> r@[m]@ == "--continue"@
            &&& config.resume is Some ==> r@[m + c]@ == "--resume"@ && r@[m + c + 1]@
                == config.resume->0@
        }),
{
    let t = text::texts(r@);
    assert(t.len() == r@.len());
    assert(forall|i: int| 0 <= i < r@.len() ==> t[i] == (#[trigger] r@[i])@);
    let m: int = if config.model is Some {
        2
    } else {
        0
    };
    let c: int = if config.continue_session {
        1
    } else {
        0
    };
    if config.model is Some {
        assert(t[0] == r@[0]@ && t[1] == r@[1]@);
    }
    if config.continue_session {
        assert(t[m] == r@[m]@);
    }
    if config.resume is Some {
        assert(t[m + c] == r@[m + c]@ && t[m + c + 1] == r@[m + c + 1]@);
    }
}

/// Each of the texts behind a space.
pub open spec fn spaced(parts: Seq<Seq<char>>) -> Seq<char>
    decreases parts.len(),
{
    if parts.len() == 0 {
        Seq::empty()
    } else {
        spaced(parts.drop_last()) + " "@ + parts.last()
    }
}

proof fn lemma_join_spaced(head: Seq<Seq<char>>, tail: Seq<Seq<char>>)
    requires
        head.len() > 0,
    ensures
        text::join(head + tail, " "@) == text::join(head, " "@) + spaced(tail),
    decreases tail.len(),
{
    if tail.len() == 0 {
        assert(head + tail =~= head);
        assert(text::join(head, " "@) + spaced(tail) =~= text::join(head, " "@));
    } else {
        lemma_join_spaced(head, tail.drop_last());
        assert((head + tail).drop_last() =~= head + tail.drop_last());
        assert((head + tail).last() == tail.last());
        assert(text::join(head + tail, " "@) =~= text::join(head, " "@) + spaced(tail));
    }
}

/// The command line switches telemetry on, marks it with the run and the node,
/// and starts the program with its arguments; the values, the program and each
/// argument are quoted.
pub proof fn law_command_line_is_marked_and_quoted(
    config: &Config,
    run_id: &str,
    node_identity: &str,
    binary: &str,
    marks: &str,
    quoted_marks: String,
    quoted_binary: String,
    args: Vec<String>,
    r: String,
)
    requires
        marks@ == "run_id="@ + run_id@ + ",node.identity="@ + node_identity@,
        shell_quote.ensures((marks,), quoted_marks),
        shell_quote.ensures((binary,), quoted_binary),
        interactive_argv.ensures((config,), args),
        build_command_line.ensures((config, run_id, node_identity, binary), r),
    ensures
        r@ == "CLAUDE_CODE_ENABLE_TELEMETRY=1"@ + " "@ + "OTEL_METRICS_EXPORTER=otlp"@ + " "@
            + "OTEL_RESOURCE_ATTRIBUTES="@ + quoted_marks@ + " "@ + quoted_binary@ + spaced(
            text::texts(args@).map_values(|a: Seq<char>| shell_quoted(a)),
        ),
{
    reveal_strlit("CLAUDE_CODE_ENABLE_TELEMETRY=1");
    reveal_strlit("CLAUDE_CODE_ENABLE_TELEMETRY");
    reveal_strlit("OTEL_METRICS_EXPORTER=otlp");
    reveal_strlit("OTEL_METRICS_EXPORTER");
    reveal_strlit("OTEL_RESOURCE_ATTRIBUTES=");
    reveal_strlit("OTEL_RESOURCE_ATTRIBUTES");
    reveal_strlit("=");
    reveal_strlit("1");
    reveal_strlit("otlp");
    reveal_strlit(" ");
    let parts = line_parts(*config, run_id@, node_identity@, binary@);
    let tail = argv(*config).map_values(|a: Seq<char>| shell_quoted(a));
    let head = parts.take(4);
    assert(parts =~= head + tail);
    lemma_join_spaced(head, tail);
    assert(is_simple("1"@));
    assert(is_simple("otlp"@));
    assert(marks@ =~= attributes(run_id@, node_identity@));
    assert(head[0] =~= "CLAUDE_CODE_ENABLE_TELEMETRY=1"@);
    assert(head[1] =~= "OTEL_METRICS_EXPORTER=otlp"@);
    assert(head[2] =~= "OTEL_RESOURCE_ATTRIBUTES="@ + quoted_marks@);
    assert(head[3] == quoted_binary@);
    assert(head.drop_last().drop_last().drop_last() =~= seq![head[0]]);
    assert(text::join(head.drop_last().drop_last().drop_last(), " "@) == head[0]);
    assert(text::join(head.drop_last().drop_last(), " "@) == head[0] + " "@ + head[1]);
    assert(text::join(head.drop_last(), " "@) == head[0] + " "@ + head[1] + " "@ + head[2]);
    assert(text::join(head, " "@) == head[0] + " "@ + head[1] + " "@ + head[2] + " "@ + head[3]);
    assert(r@ =~= "CLAUDE_CODE_ENABLE_TELEMETRY=1"@ + " "@ + "OTEL_METRICS_EXPORTER=otlp"@ + " "@
        + "OTEL_RESOURCE_ATTRIBUTES="@ + quoted_marks@ + " "@ + quoted_binary@ + spaced(
        text::texts(args@).map_values(|a: Seq<char>| shell_quoted(a)),
    ));
}

/// The program is started in the session that the bound node holds, under its
/// lease, by the command line for the run, the bound node and the program.
pub proof fn law_agent_is_started_in_the_held_session(
    node: &LiveClaudeSessionNode,
    ctx: TaskContext,
    binary: &str,
    now_ms: u64,
    bound: &str,
    run_id: &str,
    config: &Config,
    command: String,
    step: Step<LaunchRun>,
)
    requires
        node.input().bound_to() is Some ==> bound@ == node.input().bound_to()->0,
        node.input().bound_to() is None ==> bound@ == held_session::NODE_NAME@,
        *config == node.configured(),
        build_command_line.ensures((config, run_id, bound, binary), command),
        node.launches(ctx) ==> now_ms + 300_000 <= u64::MAX,
        LiveClaudeSessionNode::start.ensures((node, ctx, binary, now_ms), step),
    ensures
        step is Call <==> ctx.metadata@.get_str("run_id"@) is Some && (ctx.result_of(
            bound@,
        ) matches Some(doc) && doc.get_str("session_name"@) is Some && doc.get_str("lease_nonce"@)
            is Some),
        step is Finished ==> step->Finished_0 is Err,
        step is Call && ctx.metadata@.get_str("run_id"@) == Some(run_id@) ==> {
            let doc = ctx.result_of(bound@)->0;
            &&& step->state.ctx == ctx
            &&& step->state.command@ == command@
            &&& Some(step->state.session_name@) == doc.get_str("session_name"@)
            &&& step->call@ matches CallView::SendKeys(q) && {
                &&& Some(q.session_name) == doc.get_str("session_name"@)
                &&& Some(q.nonce) == doc.get_str("lease_nonce"@)
                &&& q.keys == command@
                &&& q.run_id == run_id@
                &&& q.identity == NODE_NAME@
                &&& q.now_ms == now_ms
                &&& q.lease_expires_at_ms == now_ms + 300_000
            }
        },
{
}

/// A line that was typed is recorded with its session; one that was refused
/// fails the node, with the session and the reason.
pub proof fn law_launch_is_recorded(
    node: &LiveClaudeSessionNode,
    run: LaunchRun,
    reply: Reply,
    agent: &str,
    step: Step<LaunchRun>,
)
    requires
        LiveClaudeSessionNode::resume.ensures((node, run, reply, agent), step),
    ensures
        step is Finished,
        step->Finished_0 is Ok <==> reply is Ok,
        reply is Ok ==> {
            let done = step->Finished_0->Ok_0;
            &&& done.result_of(NODE_NAME@) matches Some(doc) && {
                &&& doc.get_str("session_name"@) == Some(run.session_name@)
                &&& doc.get("launched"@) == Some(JsonView::Bool(true))
                &&& doc.get_str("command"@) == Some(run.command@)
            }
            &&& forall|key: Seq<char>| key != NODE_NAME@ ==> #[trigger] done.result_of(key)
                == run.ctx.result_of(key)
            &&& done.event == run.ctx.event
            &&& done.metadata == run.ctx.metadata
            &&& done.node_runs == run.ctx.node_runs
        },
        reply is Err ==> step->Finished_0->Err_0.message@ == match reply->Err_0 {
            DriverFault::Lease(why) => NODE_NAME@ + ": failed to launch interactive "@ + agent@
                + " session in '"@ + run.session_name@ + "' — lease is no longer ours: "@ + why@,
            DriverFault::Hold(why) => NODE_NAME@ + ": launch refused by operator hold on '"@
                + run.session_name@ + "': "@ + why@,
            DriverFault::Other(why) => NODE_NAME@ + ": failed to launch interactive "@ + agent@
                + " session in '"@ + run.session_name@ + "': "@ + why@,
        },
{
    reveal_strlit("session_name");
    reveal_strlit("launched");
    reveal_strlit("command");
    assert("session_name"@.len() == 12);
    assert("launched"@.len() == 8);
    assert("command"@.len() == 7);
    if reply is Ok {
        let done = step->Finished_0->Ok_0;
        let doc = stamp(run.session_name@, run.command@);
        assert(done.stamped(run.ctx, NODE_NAME@, doc));
        assert(done.results() == run.ctx.results().insert(NODE_NAME@, doc));
    }
}

/// A variable is set for one command by its name, the sign and its quoted value.
pub proof fn law_assignment_quotes_its_value(var: &str, value: &str, quoted: String, r: String)
    requires
        shell_quote.ensures((value,), quoted),
        env_assignment.ensures((var, value), r),
    ensures
        r@ == var@ + "="@ + quoted@,
{
}

/// A program that is named is started, and else the agent's own.
pub proof fn law_named_program_is_started(named: Option<String>, agent: &str, r: String)
    requires
        binary_name.ensures((named, agent), r),
    ensures
        named is Some ==> r@ == named->0@,
        named is None ==> r@ == agent@,
{
}

/// Telling the node whose session it uses, or what to start, changes nothing
/// else of it.
pub proof fn law_session_is_rebound_alone(
    node: LiveClaudeSessionNode,
    upstream: &str,
    config: Config,
    rebound: LiveClaudeSessionNode,
    configured: LiveClaudeSessionNode,
)
    requires
        <LiveClaudeSessionNode as crate::nodes::terminal::identity::WithSessionInput>::with_session_input_from.ensures(
            (node, upstream),
            rebound,
        ),
        LiveClaudeSessionNode::with_config.ensures((node, config), configured),
    ensures
        rebound.input().bound_to() == Some(upstream@),
        rebound.configured() == node.configured(),
        configured.configured() == config,
        configured.input() == node.input(),
{
}

} // verus!
