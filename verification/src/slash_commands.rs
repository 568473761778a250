//! Slash commands (`/clear`, `/compact`, `/learn`, `/quit`, `/exit`): how
//! input is routed to a command, and what each command answers.
use vstd::prelude::*;

use crate::text::{
    chars_of, first_pos, has_prefix, int_text, nat_to_text, owned, push_str, str_eq, string_of_range,
    trim, trimmed, vec_first_pos,
};

verus! {

/// Where a command came from.
#[derive(Debug, Clone)]
pub struct CommandSource {
    /// Channel kind: "cli", "ws", "telegram", ...
    pub channel: String,
    /// Chat (session) identifier.
    pub chat_id: String,
    /// Sender, when known.
    pub sender_id: Option<String>,
}

impl CommandSource {
    /// A command typed in the interactive CLI.
    pub fn cli(chat_id: String) -> (r: CommandSource)
        ensures
            r.channel@ == "cli"@,
            r.chat_id == chat_id,
            r.sender_id is None,
    {
        CommandSource { channel: owned("cli"), chat_id, sender_id: None }
    }

    /// A command sent over the WebSocket gateway.
    pub fn websocket(chat_id: String) -> (r: CommandSource)
        ensures
            r.channel@ == "ws"@,
            r.chat_id == chat_id,
            r.sender_id is None,
    {
        CommandSource { channel: owned("ws"), chat_id, sender_id: None }
    }
}

/// A command's answer.
#[derive(Debug, Clone)]
pub struct CommandResponse {
    /// Answer text.
    pub content: String,
    /// The text is Markdown.
    pub is_markdown: bool,
}

impl CommandResponse {
    /// A plain text answer.
    pub fn text(content: String) -> (r: CommandResponse)
        ensures
            r.content == content,
            !r.is_markdown,
    {
        CommandResponse { content, is_markdown: false }
    }

    /// A Markdown answer.
    pub fn markdown(content: String) -> (r: CommandResponse)
        ensures
            r.content == content,
            r.is_markdown,
    {
        CommandResponse { content, is_markdown: true }
    }
}

/// The outcome of handling input.
#[derive(Debug)]
pub enum CommandResult {
    /// The command was handled; this is its answer.
    Handled(CommandResponse),
    /// The input is not a slash command.
    NotACommand,
    /// The command needs a permission that is missing.
    PermissionDenied(String),
    /// The command failed.
    Error(String),
    /// Leave interactive mode.
    ExitRequested,
    /// Hand this content to the agent runtime in place of the command.
    ForwardToRuntime { transformed_content: String, original_command: String },
}

/// `/clear`: clears the session's history.
#[derive(Debug, Clone, Copy, PartialEq, Eq, Structural)]
pub struct ClearCommand;

/// `/compact`: compresses the conversation history.
#[derive(Debug, Clone, Copy, PartialEq, Eq, Structural)]
pub struct CompactCommand;

/// `/learn`: learns a skill from a description.
#[derive(Debug, Clone, Copy, PartialEq, Eq, Structural)]
pub struct LearnCommand;

/// `/quit`: leaves interactive mode (CLI only).
#[derive(Debug, Clone, Copy, PartialEq, Eq, Structural)]
pub struct QuitCommand;

/// `/exit`: same as `/quit`.
#[derive(Debug, Clone, Copy, PartialEq, Eq, Structural)]
pub struct ExitCommand;

/// What the steps of `/clear` reported.
#[derive(Debug)]
pub struct ClearOutcome {
    /// The in-memory clear callback's result; `None` without a callback.
    pub memory_cleared: Option<bool>,
    /// Whether the session history file existed and was deleted, or the
    /// deletion's error.
    pub history: Result<bool, String>,
    /// Path of the session memory file.
    pub memory_file_path: String,
    /// The session memory file's deletion (`None` when there was none).
    pub memory_file: Option<Result<(), String>>,
    /// Path of the tool results directory.
    pub tool_results_path: String,
    /// The tool results directory's deletion (`None` when there was none).
    pub tool_results: Option<Result<(), String>>,
}

/// The report lines of `/clear`, in order.
pub open spec fn clear_lines(key: Seq<char>, o: ClearOutcome) -> Seq<Seq<char>> {
    seq![
        match o.memory_cleared {
            Some(true) => "✅ 会话内存状态已清除"@,
            Some(false) => "⚠️ 会话内存清除失败"@,
            None => "ℹ️ 无内存清除回调（可能是 Gateway 模式）"@,
        },
        match o.history {
            Ok(true) => "✅ 会话历史文件已删除"@,
            Ok(false) => "ℹ️ 无会话历史文件（可能从未对话过）"@,
            Err(e) => "⚠️ 会话历史文件删除失败 (session: "@ + key + "): "@ + e@,
        },
    ] + match o.memory_file {
        Some(Ok(())) => seq!["✅ Session Memory 文件已删除"@],
        Some(Err(e)) => seq![
            "⚠️ Session Memory 删除失败 (session: "@ + key + ", path: "@ + o.memory_file_path@
                + "): "@ + e@,
        ],
        None => Seq::empty(),
    } + match o.tool_results {
        Some(Ok(())) => seq!["✅ 工具结果文件已删除"@],
        Some(Err(e)) => seq![
            "⚠️ 工具结果目录删除失败 (session: "@ + key + ", path: "@ + o.tool_results_path@
                + "): "@ + e@,
        ],
        None => Seq::empty(),
    }
}

/// The report lines as a Markdown list, one `- ` item per line.
pub open spec fn list_items(lines: Seq<Seq<char>>, n: nat) -> Seq<char>
    decreases n,
{
    if n == 0 {
        Seq::empty()
    } else if n == 1 {
        "- "@ + lines[0]
    } else {
        list_items(lines, (n - 1) as nat) + "\n"@ + "- "@ + lines[n - 1]
    }
}

/// The `/clear` report.
pub open spec fn clear_report(lines: Seq<Seq<char>>) -> Seq<char> {
    if lines.len() == 0 {
        "✅ 会话历史已清除 (无持久化数据)\n"@
    } else {
        "📋 会话清除结果:\n"@ + list_items(lines, lines.len()) + "\n"@
    }
}

fn push_line(lines: &mut Vec<String>, line: String)
    ensures
        final(lines)@.len() == old(lines)@.len() + 1,
        forall|i: int| 0 <= i < old(lines)@.len() ==> final(lines)@[i] == old(lines)@[i],
        final(lines)@[old(lines)@.len() as int] == line,
{
    lines.push(line);
}

impl ClearCommand {
    /// Command name.
    pub fn name(&self) -> (r: &'static str)
        ensures
            r@ == "clear"@,
    {
        "clear"
    }

    /// Command description.
    pub fn description(&self) -> (r: &'static str)
        ensures
            r@ == "Clear current session history"@,
    {
        "Clear current session history"
    }

    /// The session a command clears: `<channel>:<chat id>`.
    pub fn session_key(source: &CommandSource) -> (r: String)
        ensures
            r@ == source.channel@ + ":"@ + source.chat_id@,
    {
        let mut k = owned(source.channel.as_str());
        push_str(&mut k, ":");
        push_str(&mut k, source.chat_id.as_str());
        k
    }

    /// The answer of `/clear` after its steps reported (see `clear_lines`,
    /// `clear_report`): a Markdown list of what was cleared.
    pub fn report(session_key: &str, outcome: &ClearOutcome) -> (r: CommandResult)
        ensures
            r matches CommandResult::Handled(resp) && resp.is_markdown && resp.content@
                == clear_report(clear_lines(session_key@, *outcome)),
    {
        let mut results: Vec<String> = Vec::new();
        match outcome.memory_cleared {
            Some(true) => push_line(&mut results, owned("✅ 会话内存状态已清除")),
            Some(false) => push_line(&mut results, owned("⚠️ 会话内存清除失败")),
            None => push_line(&mut results, owned("ℹ️ 无内存清除回调（可能是 Gateway 模式）")),
        }
        match &outcome.history {
            Ok(true) => push_line(&mut results, owned("✅ 会话历史文件已删除")),
            Ok(false) => push_line(&mut results, owned("ℹ️ 无会话历史文件（可能从未对话过）")),
            Err(e) => {
                let mut m = owned("⚠️ 会话历史文件删除失败 (session: ");
                push_str(&mut m, session_key);
                push_str(&mut m, "): ");
                push_str(&mut m, e.as_str());
                push_line(&mut results, m);
            },
        }
        match &outcome.memory_file {
            Some(Ok(())) => push_line(&mut results, owned("✅ Session Memory 文件已删除")),
            Some(Err(e)) => {
                let mut m = owned("⚠️ Session Memory 删除失败 (session: ");
                push_str(&mut m, session_key);
                push_str(&mut m, ", path: ");
                push_str(&mut m, outcome.memory_file_path.as_str());
                push_str(&mut m, "): ");
                push_str(&mut m, e.as_str());
                push_line(&mut results, m);
            },
            None => {},
        }
        match &outcome.tool_results {
            Some(Ok(())) => push_line(&mut results, owned("✅ 工具结果文件已删除")),
            Some(Err(e)) => {
                let mut m = owned("⚠️ 工具结果目录删除失败 (session: ");
                push_str(&mut m, session_key);
                push_str(&mut m, ", path: ");
                push_str(&mut m, outcome.tool_results_path.as_str());
                push_str(&mut m, "): ");
                push_str(&mut m, e.as_str());
                push_line(&mut results, m);
            },
            None => {},
        }
        let ghost lines = clear_lines(session_key@, *outcome);
        assert(results@.len() == lines.len());
        assert(forall|i: int| 0 <= i < lines.len() ==> #[trigger] results@[i]@ == lines[i]);
        let content = if results.len() == 0 {
            owned("✅ 会话历史已清除 (无持久化数据)\n")
        } else {
            let mut c = owned("📋 会话清除结果:\n");
            let ghost start = c@;
            let mut i: usize = 0;
            while i < results.len()
                invariant
                    i <= results@.len(),
                    results@.len() == lines.len(),
                    forall|j: int| 0 <= j < lines.len() ==> #[trigger] results@[j]@ == lines[j],
                    c@ == start + list_items(lines, i as nat),
                decreases results.len() - i,
            {
                let ghost before = c@;
                if i > 0 {
                    push_str(&mut c, "\n");
                }
                push_str(&mut c, "- ");
                push_str(&mut c, results[i].as_str());
                proof {
                    if i > 0 {
                        assert(c@ =~= start + (list_items(lines, i as nat) + "\n"@ + "- "@ + lines[i as int]));
                    } else {
                        assert(c@ =~= start + ("- "@ + lines[0]));
                    }
                }
                i += 1;
            }
            push_str(&mut c, "\n");
            c
        };
        CommandResult::Handled(CommandResponse::markdown(content))
    }
}

impl CompactCommand {
    /// Command name.
    pub fn name(&self) -> (r: &'static str)
        ensures
            r@ == "compact"@,
    {
        "compact"
    }

    /// Command description.
    pub fn description(&self) -> (r: &'static str)
        ensures
            r@ == "Manually trigger conversation history compression"@,
    {
        "Manually trigger conversation history compression"
    }

    /// Forwards a compression request to the runtime; arguments are
    /// ignored.
    pub fn execute(&self, _args: &str) -> (r: CommandResult)
        ensures
            r matches CommandResult::ForwardToRuntime { transformed_content, original_command }
                && transformed_content@ == "__COMPACT_REQUEST__"@ && original_command@
                == "/compact"@,
    {
        CommandResult::ForwardToRuntime {
            transformed_content: owned("__COMPACT_REQUEST__"),
            original_command: owned("/compact"),
        }
    }
}

/// The message that asks the runtime to learn a skill.
pub open spec fn learn_request(d: Seq<char>) -> Seq<char> {
    "Please learn the following skill: "@ + d
        + "\n\nIf this skill is already learned (has a record in list_skills query=learned), just tell me it's done.\nOtherwise, start learning this skill and report progress."@
}

impl LearnCommand {
    /// Command name.
    pub fn name(&self) -> (r: &'static str)
        ensures
            r@ == "learn"@,
    {
        "learn"
    }

    /// Command description.
    pub fn description(&self) -> (r: &'static str)
        ensures
            r@ == "Learn a new skill by description (uses LLM)"@,
    {
        "Learn a new skill by description (uses LLM)"
    }

    /// The command takes arguments.
    pub fn accepts_args(&self) -> (r: bool)
        ensures
            r,
    {
        true
    }

    /// Learning may take long: 120 s.
    pub fn timeout_secs(&self) -> (r: u64)
        ensures
            r == 120,
    {
        120
    }

    /// Without a description, the usage text; else forwards a learning
    /// request (see `learn_request`) for the trimmed description.
    pub fn execute(&self, args: &str) -> (r: CommandResult)
        ensures
            trim(args@).len() == 0 ==> (r matches CommandResult::Handled(resp) && !resp.is_markdown
                && resp.content@ == "  Usage: /learn <skill description>\n"@),
            trim(args@).len() > 0 ==> (r matches CommandResult::ForwardToRuntime {
                transformed_content,
                original_command,
            } && transformed_content@ == learn_request(trim(args@)) && original_command@ == "/learn "@
                + trim(args@)),
    {
        let description = trimmed(args);
        if description.as_str().unicode_len() == 0 {
            return CommandResult::Handled(
                CommandResponse::text(owned("  Usage: /learn <skill description>\n")),
            );
        }
        let mut t = owned("Please learn the following skill: ");
        push_str(&mut t, description.as_str());
        push_str(
            &mut t,
            "\n\nIf this skill is already learned (has a record in list_skills query=learned), just tell me it's done.\nOtherwise, start learning this skill and report progress.",
        );
        let mut o = owned("/learn ");
        push_str(&mut o, description.as_str());
        CommandResult::ForwardToRuntime { transformed_content: t, original_command: o }
    }
}

impl QuitCommand {
    /// Command name.
    pub fn name(&self) -> (r: &'static str)
        ensures
            r@ == "quit"@,
    {
        "quit"
    }

    /// Command description.
    pub fn description(&self) -> (r: &'static str)
        ensures
            r@ == "Exit interactive mode (CLI only)"@,
    {
        "Exit interactive mode (CLI only)"
    }

    /// Only the CLI offers the command.
    pub fn available_channels(&self) -> (r: Option<Vec<&'static str>>)
        ensures
            r matches Some(v) && v@.len() == 1 && v@[0]@ == "cli"@,
    {
        let mut v: Vec<&'static str> = Vec::new();
        v.push("cli");
        Some(v)
    }

    /// Asks to leave interactive mode.
    pub fn execute(&self, _args: &str) -> (r: CommandResult)
        ensures
            r is ExitRequested,
    {
        CommandResult::ExitRequested
    }
}

impl ExitCommand {
    /// Command name.
    pub fn name(&self) -> (r: &'static str)
        ensures
            r@ == "exit"@,
    {
        "exit"
    }

    /// Command description.
    pub fn description(&self) -> (r: &'static str)
        ensures
            r@ == "Exit interactive mode (CLI only)"@,
    {
        "Exit interactive mode (CLI only)"
    }

    /// Only the CLI offers the command.
    pub fn available_channels(&self) -> (r: Option<Vec<&'static str>>)
        ensures
            r matches Some(v) && v@.len() == 1 && v@[0]@ == "cli"@,
    {
        QuitCommand.available_channels()
    }

    /// Does what `/quit` does.
    pub fn execute(&self, args: &str) -> (r: CommandResult)
        ensures
            r is ExitRequested,
    {
        QuitCommand.execute(args)
    }
}

/// A registered command.
#[derive(Debug, Clone, Copy, PartialEq, Eq, Structural)]
pub enum SlashCommandKind {
    Clear(ClearCommand),
    Compact(CompactCommand),
    Learn(LearnCommand),
    Quit(QuitCommand),
    Exit(ExitCommand),
}

/// A command's name.
pub open spec fn command_name(k: SlashCommandKind) -> Seq<char> {
    match k {
        SlashCommandKind::Clear(_) => "clear"@,
        SlashCommandKind::Compact(_) => "compact"@,
        SlashCommandKind::Learn(_) => "learn"@,
        SlashCommandKind::Quit(_) => "quit"@,
        SlashCommandKind::Exit(_) => "exit"@,
    }
}

/// The channels that offer a command (`None`: all).
pub open spec fn command_channels(k: SlashCommandKind) -> Option<Seq<Seq<char>>> {
    match k {
        SlashCommandKind::Quit(_) | SlashCommandKind::Exit(_) => Some(seq!["cli"@]),
        _ => None,
    }
}

/// A command's time limit in seconds.
pub open spec fn command_timeout(k: SlashCommandKind) -> u64 {
    match k {
        SlashCommandKind::Learn(_) => 120,
        _ => 10,
    }
}

impl SlashCommandKind {
    /// Command name.
    pub fn name(&self) -> (r: &'static str)
        ensures
            r@ == command_name(*self),
    {
        match self {
            SlashCommandKind::Clear(c) => c.name(),
            SlashCommandKind::Compact(c) => c.name(),
            SlashCommandKind::Learn(c) => c.name(),
            SlashCommandKind::Quit(c) => c.name(),
            SlashCommandKind::Exit(c) => c.name(),
        }
    }

    /// The channels that offer the command (`None`: all).
    pub fn available_channels(&self) -> (r: Option<Vec<&'static str>>)
        ensures
            match command_channels(*self) {
                Some(cs) => r matches Some(v) && v@.len() == cs.len() && forall|i: int|
                    0 <= i < cs.len() ==> (#[trigger] v@[i])@ == cs[i],
                None => r is None,
            },
    {
        match self {
            SlashCommandKind::Quit(c) => c.available_channels(),
            SlashCommandKind::Exit(c) => c.available_channels(),
            _ => None,
        }
    }

    /// The command's time limit in seconds (10 unless it says otherwise).
    pub fn timeout_secs(&self) -> (r: u64)
        ensures
            r == command_timeout(*self),
    {
        match self {
            SlashCommandKind::Learn(c) => c.timeout_secs(),
            _ => 10,
        }
    }
}

/// The first `n` channel names joined by ", ".
pub open spec fn joined_channels(cs: Seq<Seq<char>>, n: nat) -> Seq<char>
    decreases n,
{
    if n == 0 {
        Seq::empty()
    } else if n == 1 {
        cs[0]
    } else {
        joined_channels(cs, (n - 1) as nat) + ", "@ + cs[n - 1]
    }
}

/// The position of the first command with the name (`len` when none).
pub open spec fn command_pos(cmds: Seq<SlashCommandKind>, name: Seq<char>) -> int
    decreases cmds.len(),
{
    if cmds.len() == 0 {
        0
    } else if command_name(cmds[0]) == name {
        0
    } else {
        1 + command_pos(cmds.drop_first(), name)
    }
}

/// What handling input does first.
#[derive(Debug)]
pub enum HandleStep {
    /// The input is not a slash command.
    NotACommand,
    /// Answer without running a command.
    Respond(CommandResult),
    /// Run the command with the arguments, within its time limit.
    Run { command: SlashCommandKind, name: String, args: String },
}

/// The name of a slash command line: after '/', up to the first space.
pub open spec fn typed_name(t: Seq<char>) -> Seq<char> {
    t.subrange(1, first_pos(t, ' '))
}

/// The arguments of a slash command line: after the first space.
pub open spec fn typed_args(t: Seq<char>) -> Seq<char> {
    if first_pos(t, ' ') < t.len() {
        t.skip(first_pos(t, ' ') + 1)
    } else {
        Seq::empty()
    }
}

/// How input from a channel is handled: after trimming, input without a
/// leading '/' is no command; an unknown name is answered "未知命令"; a
/// command the channel does not offer is answered "命令 /<name> 仅在
/// <channels> 模式可用"; else the first command of that name runs with
/// what follows the first space.
pub open spec fn step_fits(r: HandleStep, cmds: Seq<SlashCommandKind>, input: Seq<char>, channel: Seq<char>) -> bool {
    let t = trim(input);
    if !has_prefix(t, "/"@) {
        r is NotACommand
    } else {
        let name = typed_name(t);
        let p = command_pos(cmds, name);
        if p >= cmds.len() {
            r matches HandleStep::Respond(CommandResult::Handled(resp)) && !resp.is_markdown
                && resp.content@ == "未知命令: /"@ + name + "。输入 /help 查看可用命令。"@
        } else {
            match command_channels(cmds[p]) {
                Some(cs) if !cs.contains(channel) => r matches HandleStep::Respond(
                    CommandResult::Handled(resp),
                ) && !resp.is_markdown && resp.content@ == "命令 /"@ + name + " 仅在 "@
                    + joined_channels(cs, cs.len()) + " 模式可用"@,
                _ => r matches HandleStep::Run { command, name: n, args } && command == cmds[p]
                    && n@ == name && args@ == typed_args(t),
            }
        }
    }
}

proof fn lemma_command_pos(cmds: Seq<SlashCommandKind>, name: Seq<char>)
    ensures
        0 <= command_pos(cmds, name) <= cmds.len(),
        command_pos(cmds, name) < cmds.len() ==> command_name(cmds[command_pos(cmds, name)]) == name,
        forall|j: int| 0 <= j < command_pos(cmds, name) ==> command_name(#[trigger] cmds[j]) != name,
    decreases cmds.len(),
{
    if cmds.len() > 0 && command_name(cmds[0]) != name {
        lemma_command_pos(cmds.drop_first(), name);
        assert forall|j: int| 0 <= j < command_pos(cmds, name) implies command_name(
            #[trigger] cmds[j],
        ) != name by {
            if j > 0 {
                assert(cmds[j] == cmds.drop_first()[j - 1]);
            }
        }
    }
}

/// The error of a command that ran out of time.
pub fn timeout_result(name: &str, secs: u64) -> (r: CommandResult)
    ensures
        r matches CommandResult::Error(m) && m@ == "命令 /"@ + name@ + " 执行超时 ("@ + int_text(
            secs as int,
        ) + "秒)"@,
{
    let mut m = owned("命令 /");
    push_str(&mut m, name);
    push_str(&mut m, " 执行超时 (");
    let n = nat_to_text(secs as u128);
    push_str(&mut m, n.as_str());
    push_str(&mut m, "秒)");
    CommandResult::Error(m)
}

/// The registered slash commands.
pub struct SlashCommandHandler {
    commands: Vec<SlashCommandKind>,
}

impl SlashCommandHandler {
    /// The commands, in registration order.
    pub closed spec fn registered(&self) -> Seq<SlashCommandKind> {
        self.commands@
    }

    /// A handler without commands.
    pub fn new() -> (r: SlashCommandHandler)
        ensures
            r.registered() == Seq::<SlashCommandKind>::empty(),
    {
        SlashCommandHandler { commands: Vec::new() }
    }

    /// Registers a command after the others.
    pub fn register(&mut self, command: SlashCommandKind)
        ensures
            final(self).registered() == old(self).registered().push(command),
    {
        self.commands.push(command);
    }

    /// The first step of handling input from a channel (see `step_fits`).
    #[verifier::loop_isolation(false)]
    pub fn step(&self, input: &str, channel: &str) -> (r: HandleStep)
        ensures
            step_fits(r, self.registered(), input@, channel@),
    {
        proof {
            reveal_strlit("/");
        }
        let t = trimmed(input);
        if !crate::text::starts_with(t.as_str(), "/") {
            return HandleStep::NotACommand;
        }
        let v = chars_of(t.as_str());
        let sp = vec_first_pos(&v, ' ');
        proof {
            crate::text::lemma_first_pos(v@, ' ');
            assert(v@.take(1) == "/"@);
            assert(v@[0] == v@.take(1)[0]);
        }
        let name = string_of_range(&v, 1, sp);
        let args = if sp < v.len() {
            string_of_range(&v, sp + 1, v.len())
        } else {
            String::new()
        };
        assert(sp < v@.len() ==> v@.subrange(sp + 1, v@.len() as int) =~= v@.skip(sp + 1));
        proof {
            lemma_command_pos(self.commands@, name@);
        }
        let mut p: usize = 0;
        while p < self.commands.len()
            invariant
                p <= self.commands@.len(),
                forall|j: int| 0 <= j < p ==> command_name(#[trigger] self.commands@[j]) != name@,
            decreases self.commands.len() - p,
        {
            if str_eq(self.commands[p].name(), name.as_str()) {
                break;
            }
            p += 1;
        }
        if p >= self.commands.len() {
            assert(command_pos(self.commands@, name@) == self.commands@.len());
            let mut m = owned("未知命令: /");
            push_str(&mut m, name.as_str());
            push_str(&mut m, "。输入 /help 查看可用命令。");
            return HandleStep::Respond(CommandResult::Handled(CommandResponse::text(m)));
        }
        let command = self.commands[p];
        assert(command_pos(self.commands@, name@) == p);
        match command.available_channels() {
            Some(channels) => {
                let mut k: usize = 0;
                let mut offered = false;
                while k < channels.len()
                    invariant
                        k <= channels@.len(),
                        offered <==> exists|j: int| 0 <= j < k && (#[trigger] channels@[j])@ == channel@,
                    decreases channels.len() - k,
                {
                    if str_eq(channels[k], channel) {
                        offered = true;
                    }
                    k += 1;
                }
                if !offered {
                    let ghost cs = command_channels(command).unwrap();
                    assert(!cs.contains(channel@)) by {
                        if cs.contains(channel@) {
                            let j = choose|j: int| 0 <= j < cs.len() && cs[j] == channel@;
                            assert(channels@[j]@ == channel@);
                        }
                    }
                    let mut m = owned("命令 /");
                    push_str(&mut m, name.as_str());
                    push_str(&mut m, " 仅在 ");
                    let ghost start = m@;
                    let mut q: usize = 0;
                    while q < channels.len()
                        invariant
                            q <= channels@.len(),
                            channels@.len() == cs.len(),
                            forall|j: int| 0 <= j < cs.len() ==> (#[trigger] channels@[j])@ == cs[j],
                            m@ == start + joined_channels(cs, q as nat),
                        decreases channels.len() - q,
                    {
                        if q > 0 {
                            push_str(&mut m, ", ");
                        }
                        push_str(&mut m, channels[q]);
                        q += 1;
                    }
                    push_str(&mut m, " 模式可用");
                    return HandleStep::Respond(CommandResult::Handled(CommandResponse::text(m)));
                }
                proof {
                    let cs = command_channels(command).unwrap();
                    let j = choose|j: int| 0 <= j < channels@.len() && (#[trigger] channels@[j])@ == channel@;
                    assert(cs[j] == channel@);
                    assert(cs.contains(channel@));
                }
            },
            None => {},
        }
        HandleStep::Run { command, name, args }
    }
}

/// `/quit` and `/exit` run only from the CLI: from the CLI the handler runs
/// the command (which asks to leave interactive mode); from any other
/// channel it runs nothing and answers that the command is CLI-only.
pub proof fn law_exit_commands_cli_only(
    cmds: Seq<SlashCommandKind>,
    input: Seq<char>,
    channel: Seq<char>,
    r: HandleStep,
)
    requires
        step_fits(r, cmds, input, channel),
        has_prefix(trim(input), "/"@),
        command_pos(cmds, typed_name(trim(input))) < cmds.len(),
        cmds[command_pos(cmds, typed_name(trim(input)))] is Quit
            || cmds[command_pos(cmds, typed_name(trim(input)))] is Exit,
    ensures
        channel == "cli"@ ==> (r matches HandleStep::Run { command, .. } && command == cmds[command_pos(
            cmds,
            typed_name(trim(input)),
        )]),
        channel != "cli"@ ==> (r matches HandleStep::Respond(CommandResult::Handled(resp))
            && resp.content@ == "命令 /"@ + typed_name(trim(input)) + " 仅在 "@ + "cli"@
            + " 模式可用"@),
{
    let cs = seq!["cli"@];
    assert(joined_channels(cs, 1) == "cli"@);
    if channel == "cli"@ {
        assert(cs[0] == channel);
        assert(cs.contains(channel));
    } else {
        assert(!cs.contains(channel));
    }
}

} // verus!
