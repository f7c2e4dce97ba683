//! Programs of the machine: running one, finding one, killing one.
use vstd::pervasive::unreached;
use vstd::prelude::*;
use vstd::string::*;
use vstd::utf8::*;
use crate::action::{Action, Reply, Request};
use crate::error::{other_error, BenchmarkError, BenchmarkResult};
use crate::flow::Flow;
use crate::query::ProcessOutput;
use crate::text;

verus! {

// ---------------------------------------------------------------------------
// Running a program

/// Runs a program that must succeed.
pub enum SpawnCommand {
    Running { command: String, args: Vec<String> },
    Unsuccessful { command: String, args: Vec<String>, stderr: Vec<u8> },
    Ended(BenchmarkResult<ProcessOutput>),
}

/// What is said of a program that did not succeed.
pub open spec fn spawn_failure(
    command: Seq<char>,
    args: Seq<Seq<char>>,
    stderr: Seq<u8>,
) -> Seq<char> {
    "Failed to spawn Neo4j process, path: "@ + command + " with args: "@ + text::joined(args, " "@)
        + ", Error: "@ + text::lossy_text(stderr)
}

/// Runs `command` with `args`; it must succeed.
pub fn spawn_command(command: &str, args: Vec<String>) -> (flow: SpawnCommand)
    ensures
        flow matches SpawnCommand::Running { command: c, args: a } && c@ == command@ && a == args,
{
    SpawnCommand::Running { command: command.to_string(), args }
}

/// A copy of a vector of strings.
pub(crate) fn copied(v: &Vec<String>) -> (r: Vec<String>)
    ensures
        r@ == v@,
{
    let mut r: Vec<String> = Vec::new();
    let mut i: usize = 0;
    while i < v.len()
        invariant
            i <= v@.len(),
            r@ == v@.take(i as int),
        decreases v@.len() - i,
    {
        r.push(v[i].clone());
        i = i + 1;
    }
    proof {
        assert(v@.take(v@.len() as int) =~= v@);
    }
    r
}

impl Flow for SpawnCommand {
    type Output = ProcessOutput;

    open spec fn request(&self) -> Option<Request> {
        match self {
            SpawnCommand::Running { command, args } => Some(
                Request::RunProcess { command: command@, args: text::texts(args@) },
            ),
            _ => None,
        }
    }

    open spec fn after(self, reply: Reply) -> Self {
        match (self, reply) {
            (SpawnCommand::Running { command, args }, Reply::Process(output)) => if output.success {
                SpawnCommand::Ended(Ok(output))
            } else {
                SpawnCommand::Unsuccessful { command, args, stderr: output.stderr }
            },
            (SpawnCommand::Running { command, args }, Reply::Failed(e)) => SpawnCommand::Ended(
                Err(e),
            ),
            (state, _) => state,
        }
    }

    open spec fn gives(&self, result: BenchmarkResult<ProcessOutput>) -> bool {
        match self {
            SpawnCommand::Running { command, args } => false,
            SpawnCommand::Unsuccessful { command, args, stderr } => {
                &&& result matches Err(BenchmarkError::FailedToSpawnProcessError(e, context))
                &&& e@ == "Process failed"@
                &&& context@ == spawn_failure(command@, text::texts(args@), stderr@)
            },
            SpawnCommand::Ended(r) => result == *r,
        }
    }

    proof fn goes_on(self, reply: Reply) {
    }

    fn action(&self) -> (action: Option<Action>) {
        match self {
            SpawnCommand::Running { command, args } => Some(
                Action::RunProcess { command: command.clone(), args: copied(args) },
            ),
            _ => None,
        }
    }

    fn next(self, reply: Reply) -> (state: Self) {
        match (self, reply) {
            (SpawnCommand::Running { command, args }, Reply::Process(output)) => {
                if output.success {
                    SpawnCommand::Ended(Ok(output))
                } else {
                    SpawnCommand::Unsuccessful { command, args, stderr: output.stderr }
                }
            },
            (SpawnCommand::Running { command, args }, Reply::Failed(e)) => SpawnCommand::Ended(
                Err(e),
            ),
            (state, _) => state,
        }
    }

    fn finish(self) -> (result: BenchmarkResult<ProcessOutput>) {
        match self {
            SpawnCommand::Ended(r) => r,
            SpawnCommand::Unsuccessful { command, args, stderr } => {
                let line = text::join(&args, " ");
                let said = text::utf8_lossy(&stderr);
                let context = "Failed to spawn Neo4j process, path: ".to_string().concat(
                    command.as_str(),
                ).concat(" with args: ").concat(line.as_str()).concat(", Error: ").concat(
                    said.as_str(),
                );
                Err(
                    BenchmarkError::FailedToSpawnProcessError(
                        "Process failed".to_string(),
                        context,
                    ),
                )
            },
            SpawnCommand::Running { command, args } => unreached(),
        }
    }
}

// ---------------------------------------------------------------------------
// Finding a process

/// Whether the third column of the process table says that the process is dead.
pub open spec fn is_dead(stat: Seq<char>) -> bool {
    text::begins_with(stat, "Z"@) || text::occurs_in("<defunct>"@, stat)
}

/// Whether a line of the process table shows a live process whose command holds `cmd`.
/// Lines that mention grep do not count.
pub open spec fn shows_process(line: Seq<char>, cmd: Seq<char>) -> bool {
    let columns = text::words(line);
    &&& !text::occurs_in("grep"@, line)
    &&& columns.len() >= 3
    &&& text::occurs_in(cmd, columns[1])
    &&& !is_dead(columns[2])
}

/// The first column of the first line, from line `from` on, that shows the process.
pub open spec fn pid_column(lines: Seq<Seq<char>>, cmd: Seq<char>, from: int) -> Option<Seq<char>>
    decreases lines.len() - from,
{
    if from < 0 || from >= lines.len() {
        None
    } else if shows_process(lines[from], cmd) {
        Some(text::words(lines[from])[0])
    } else {
        pid_column(lines, cmd, from + 1)
    }
}

/// An optional exit code as it is written in messages.
pub open spec fn shown_code(code: Option<i32>) -> Seq<char> {
    match code {
        Some(n) => "Some("@ + text::signed_decimal(n as int) + ")"@,
        None => "None"@,
    }
}

/// What a process table says of the process with the command `cmd`. The first line is
/// the header.
pub open spec fn process_found(
    cmd: Seq<char>,
    table: ProcessOutput,
    result: BenchmarkResult<u32>,
) -> bool {
    if !table.success {
        result matches Err(e) && e.is_other(
            "ps command failed with exit code: "@ + shown_code(table.code),
        )
    } else if !valid_utf8(table.stdout@) {
        result matches Err(e) && e.is_other(
            "UTF-8 conversion error: "@ + text::utf8_error_text(table.stdout@),
        )
    } else {
        match pid_column(text::lines(decode_utf8(table.stdout@)), cmd, 1) {
            Some(pid) => if text::is_number(pid) && text::digits_value(text::unsigned_part(pid))
                <= u32::MAX {
                result matches Ok(n) && n == text::digits_value(text::unsigned_part(pid))
            } else {
                result matches Err(e) && e.is_other(
                    "Failed to parse PID: "@ + text::parse_u32_error_text(pid),
                )
            },
            None => result matches Err(BenchmarkError::ProcessNofFoundError(name)) && name@ == cmd,
        }
    }
}

/// The first column of a line that shows a live process whose command holds `cmd`.
fn shown_pid(line: &Vec<char>, cmd: &Vec<char>) -> (r: Option<String>)
    ensures
        match r {
            Some(pid) => shows_process(line@, cmd@) && pid@ == text::words(line@)[0],
            None => !shows_process(line@, cmd@),
        },
{
    let grep = text::chars_of("grep");
    if text::contains(line, &grep) {
        return None;
    }
    let columns = text::split_whitespace(line);
    proof {
        assert(text::char_seqs(columns@).len() == columns@.len());
        assert forall|i: int| 0 <= i < columns@.len() implies text::words(line@)[i]
            == #[trigger] columns@[i]@ by {
            assert(text::char_seqs(columns@)[i] == columns@[i]@);
        }
    }
    if !text::contains(line, cmd) {
        proof {
            if columns@.len() >= 3 && text::occurs_in(cmd@, columns@[1]@) {
                text::words_occur(line@, 1);
                text::occurs_in_transitive(cmd@, columns@[1]@, line@);
            }
        }
        return None;
    }
    if columns.len() < 3 || !text::contains(&columns[1], cmd) {
        return None;
    }
    let zombie = text::chars_of("Z");
    let defunct = text::chars_of("<defunct>");
    if text::starts_with(&columns[2], &zombie) || text::contains(&columns[2], &defunct) {
        return None;
    }
    let pid = text::string_of(&columns[0], 0, columns[0].len());
    proof {
        assert(columns@[0]@.subrange(0, columns@[0]@.len() as int) =~= columns@[0]@);
    }
    Some(pid)
}

/// What a process table says of the process with the command `cmd`.
pub fn find_process(cmd: &str, table: &ProcessOutput) -> (result: BenchmarkResult<u32>)
    ensures
        process_found(cmd@, *table, result),
{
    if !table.success {
        let code = match table.code {
            Some(n) => {
                let digits = text::signed_decimal_text(n);
                "Some(".to_string().concat(digits.as_str()).concat(")")
            },
            None => "None".to_string(),
        };
        let said = "ps command failed with exit code: ".to_string().concat(code.as_str());
        return Err(other_error(said.as_str()));
    }
    let stdout = match text::utf8_text(&table.stdout) {
        Ok(s) => s,
        Err(e) => {
            let said = "UTF-8 conversion error: ".to_string().concat(e.as_str());
            return Err(other_error(said.as_str()));
        },
    };
    let content = text::chars_of(stdout.as_str());
    let lines = text::split_lines(&content);
    let wanted = text::chars_of(cmd);
    let ghost all = text::lines(content@);
    proof {
        assert(all.len() == text::char_seqs(lines@).len());
    }
    let mut i: usize = 1;
    while i < lines.len()
        invariant
            1 <= i,
            wanted@ == cmd@,
            all == text::char_seqs(lines@),
            all.len() == lines@.len(),
            pid_column(all, cmd@, 1) == pid_column(all, cmd@, i as int),
            all == text::lines(decode_utf8(table.stdout@)),
            table.success,
            valid_utf8(table.stdout@),
        decreases lines@.len() - i,
    {
        proof {
            assert(all[i as int] == lines@[i as int]@);
        }
        if let Some(pid) = shown_pid(&lines[i], &wanted) {
            return match text::parse_u32(pid.as_str()) {
                Ok(n) => Ok(n),
                Err(e) => {
                    let said = "Failed to parse PID: ".to_string().concat(e.as_str());
                    Err(other_error(said.as_str()))
                },
            };
        }
        i = i + 1;
    }
    Err(BenchmarkError::ProcessNofFoundError(cmd.to_string()))
}

/// Finds a running process by its command.
pub enum GetCommandPid {
    Listing { cmd: String },
    Listed { cmd: String, table: ProcessOutput },
    Ended(BenchmarkResult<u32>),
}

/// Finds the id of the first live process whose command holds `cmd`.
pub fn get_command_pid(cmd: &str) -> (flow: GetCommandPid)
    ensures
        flow matches GetCommandPid::Listing { cmd: c } && c@ == cmd@,
{
    GetCommandPid::Listing { cmd: cmd.to_string() }
}

impl Flow for GetCommandPid {
    type Output = u32;

    open spec fn request(&self) -> Option<Request> {
        match self {
            GetCommandPid::Listing { cmd } => Some(
                Request::RunProcess { command: "ps"@, args: seq!["-eo"@, "pid,command,stat"@] },
            ),
            _ => None,
        }
    }

    open spec fn after(self, reply: Reply) -> Self {
        match (self, reply) {
            (GetCommandPid::Listing { cmd }, Reply::Process(table)) => GetCommandPid::Listed {
                cmd,
                table,
            },
            (GetCommandPid::Listing { cmd }, Reply::Failed(e)) => GetCommandPid::Ended(Err(e)),
            (state, _) => state,
        }
    }

    open spec fn gives(&self, result: BenchmarkResult<u32>) -> bool {
        match self {
            GetCommandPid::Listing { cmd } => false,
            GetCommandPid::Listed { cmd, table } => process_found(cmd@, *table, result),
            GetCommandPid::Ended(r) => result == *r,
        }
    }

    proof fn goes_on(self, reply: Reply) {
    }

    fn action(&self) -> (action: Option<Action>) {
        match self {
            GetCommandPid::Listing { cmd } => {
                let args = vec!["-eo".to_string(), "pid,command,stat".to_string()];
                proof {
                    assert(text::texts(args@) =~= seq!["-eo"@, "pid,command,stat"@]);
                }
                Some(Action::RunProcess { command: "ps".to_string(), args })
            },
            _ => None,
        }
    }

    fn next(self, reply: Reply) -> (state: Self) {
        match (self, reply) {
            (GetCommandPid::Listing { cmd }, Reply::Process(table)) => GetCommandPid::Listed {
                cmd,
                table,
            },
            (GetCommandPid::Listing { cmd }, Reply::Failed(e)) => GetCommandPid::Ended(Err(e)),
            (state, _) => state,
        }
    }

    fn finish(self) -> (result: BenchmarkResult<u32>) {
        match self {
            GetCommandPid::Listed { cmd, table } => find_process(cmd.as_str(), &table),
            GetCommandPid::Ended(r) => r,
            GetCommandPid::Listing { cmd } => unreached(),
        }
    }
}

// ---------------------------------------------------------------------------
// Killing a process

/// Kills a process.
pub enum KillProcess {
    Signalling { pid: i32 },
    NotFound { pid: i32 },
    Refused { pid: i32, reason: String },
    Ended(BenchmarkResult<()>),
}

/// Kills the process with this id. The system takes ids as signed numbers.
pub fn kill_process(pid: u32) -> (flow: KillProcess)
    ensures
        flow == (KillProcess::Signalling { pid: pid as i32 }),
{
    KillProcess::Signalling { pid: pid as i32 }
}

impl Flow for KillProcess {
    type Output = ();

    open spec fn request(&self) -> Option<Request> {
        match self {
            KillProcess::Signalling { pid } => Some(Request::Kill(*pid)),
            _ => None,
        }
    }

    open spec fn after(self, reply: Reply) -> Self {
        match (self, reply) {
            (KillProcess::Signalling { pid }, Reply::Done) => KillProcess::Ended(Ok(())),
            (KillProcess::Signalling { pid }, Reply::NoSuchProcess) => KillProcess::NotFound {
                pid,
            },
            (KillProcess::Signalling { pid }, Reply::KillFailed(reason)) => KillProcess::Refused {
                pid,
                reason,
            },
            (state, _) => state,
        }
    }

    open spec fn gives(&self, result: BenchmarkResult<()>) -> bool {
        match self {
            KillProcess::Signalling { pid } => false,
            KillProcess::NotFound { pid } => result matches Err(e) && e.is_other(
                "No process with pid "@ + text::signed_decimal(*pid as int) + " found"@,
            ),
            KillProcess::Refused { pid, reason } => result matches Err(e) && e.is_other(
                "Failed to kill process "@ + text::signed_decimal(*pid as int) + ": "@ + reason@,
            ),
            KillProcess::Ended(r) => result == *r,
        }
    }

    proof fn goes_on(self, reply: Reply) {
    }

    fn action(&self) -> (action: Option<Action>) {
        match self {
            KillProcess::Signalling { pid } => Some(Action::Kill(*pid)),
            _ => None,
        }
    }

    fn next(self, reply: Reply) -> (state: Self) {
        match (self, reply) {
            (KillProcess::Signalling { pid }, Reply::Done) => KillProcess::Ended(Ok(())),
            (KillProcess::Signalling { pid }, Reply::NoSuchProcess) => KillProcess::NotFound {
                pid,
            },
            (KillProcess::Signalling { pid }, Reply::KillFailed(reason)) => KillProcess::Refused {
                pid,
                reason,
            },
            (state, _) => state,
        }
    }

    fn finish(self) -> (result: BenchmarkResult<()>) {
        match self {
            KillProcess::Signalling { pid } => unreached(),
            KillProcess::NotFound { pid } => {
                let digits = text::signed_decimal_text(pid);
                let said = "No process with pid ".to_string().concat(digits.as_str()).concat(
                    " found",
                );
                Err(other_error(said.as_str()))
            },
            KillProcess::Refused { pid, reason } => {
                let digits = text::signed_decimal_text(pid);
                let said = "Failed to kill process ".to_string().concat(digits.as_str()).concat(
                    ": ",
                ).concat(reason.as_str());
                Err(other_error(said.as_str()))
            },
            KillProcess::Ended(r) => r,
        }
    }
}

} // verus!
