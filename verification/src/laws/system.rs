//! Files, processes and Redis.
use vstd::prelude::*;
use vstd::utf8::*;
use crate::action::{Reply, Request};
use crate::error::{BenchmarkError, BenchmarkResult};
use crate::flow;
use crate::flow::Flow;
use crate::query::ProcessOutput;
use crate::text;
use crate::utils::files;
use crate::utils::files::{CreateDirectory, DeleteFile, DownloadFile, WriteFile};
use crate::utils::processes;
use crate::utils::processes::{GetCommandPid, KillProcess, SpawnCommand};
use crate::utils::redis::{Attempt, Exchange, RedisExchange, RedisShutdown, WaitForRedis};

verus! {

// ---------------------------------------------------------------------------
// Files

/// A file is removed where it is there, and left alone where it is not.
pub proof fn only_a_file_that_is_there_is_removed(path: String, e: BenchmarkError)
    ensures
        ({
            let delete = DeleteFile::Probing { path };
            let probe = Request::FileExists(path@);
            let remove = Request::RemoveFile(path@);
            &&& flow::ends(delete, seq![(probe, Reply::Flag(false))], Ok(()))
            &&& flow::ends(
                delete,
                seq![(probe, Reply::Flag(true)), (remove, Reply::Done)],
                Ok(()),
            )
            &&& flow::ends(
                delete,
                seq![(probe, Reply::Flag(true)), (remove, Reply::Failed(e))],
                Err(e),
            )
        }),
{
    reveal_with_fuel(flow::follows_from, 4);
    reveal_with_fuel(flow::played_from, 4);
}

/// A directory is created where it is not there, and left alone where it is.
pub proof fn only_a_missing_directory_is_created(path: String, e: BenchmarkError)
    ensures
        ({
            let ensure = CreateDirectory::Probing { path };
            let probe = Request::FileExists(path@);
            let create = Request::CreateDirectories(path@);
            &&& flow::ends(ensure, seq![(probe, Reply::Flag(true))], Ok(()))
            &&& flow::ends(
                ensure,
                seq![(probe, Reply::Flag(false)), (create, Reply::Done)],
                Ok(()),
            )
            &&& flow::ends(
                ensure,
                seq![(probe, Reply::Flag(false)), (create, Reply::Failed(e))],
                Err(e),
            )
        }),
{
    reveal_with_fuel(flow::follows_from, 4);
    reveal_with_fuel(flow::played_from, 4);
}

/// A page that is served is written to the file; one that is refused is not, and the error
/// names the file, the status and the page.
pub proof fn served_page_is_written(
    url: String,
    file: String,
    status: String,
    e: BenchmarkError,
)
    ensures
        ({
            let download = DownloadFile::Requesting { url, file };
            let get = Request::HttpGet(url@);
            let save = Request::SaveBody(file@);
            let served = (get, Reply::Status { success: true, status });
            let script = seq![(get, Reply::Status { success: false, status })];
            let refused = flow::played_from(download, script, 0);
            &&& flow::ends(download, seq![served, (save, Reply::Done)], Ok(()))
            &&& flow::ends(download, seq![served, (save, Reply::Failed(e))], Err(e))
            &&& flow::ends(download, seq![(get, Reply::Failed(e))], Err(e))
            &&& flow::follows_from(download, script, 0)
            &&& refused.request() is None
            &&& forall|r: BenchmarkResult<()>| #[trigger]
                refused.gives(r) <==> (r matches Err(BenchmarkError::FailedToDownloadFileError(said))
                    && said@ == "Failed to download a file "@ + file@ + ", http status: "@ + status@
                    + ", request: "@ + url@)
        }),
{
    reveal_with_fuel(flow::follows_from, 4);
    reveal_with_fuel(flow::played_from, 4);
}

/// A text is written to a file that is created first and flushed last; the first step that
/// fails is the last.
pub proof fn text_is_written_to_its_file(path: String, content: String, e: BenchmarkError)
    ensures
        ({
            let write = WriteFile::Creating { path, content };
            let create = Request::CreateFile(path@);
            let put = Request::WriteText(content@);
            &&& flow::ends(
                write,
                seq![(create, Reply::Done), (put, Reply::Done), (Request::FlushFile, Reply::Done)],
                Ok(()),
            )
            &&& flow::ends(write, seq![(create, Reply::Failed(e))], Err(e))
            &&& flow::ends(write, seq![(create, Reply::Done), (put, Reply::Failed(e))], Err(e))
            &&& flow::ends(
                write,
                seq![
                    (create, Reply::Done),
                    (put, Reply::Done),
                    (Request::FlushFile, Reply::Failed(e)),
                ],
                Err(e),
            )
        }),
{
    reveal_with_fuel(flow::follows_from, 5);
    reveal_with_fuel(flow::played_from, 5);
}

/// A file is looked for in the current directory, and where that is not known the error
/// says so.
pub proof fn files_are_in_the_current_directory(
    dir: &str,
    file: Seq<char>,
    result: BenchmarkResult<String>,
)
    ensures
        files::in_current_dir(Some(dir), file, result) <==> (result matches Ok(path) && path@
            == dir@ + file),
        files::in_current_dir(None, file, result) <==> (result matches Err(
            BenchmarkError::OtherError(said),
        ) && said@ == "Failed to get current directory"@),
{
}

// ---------------------------------------------------------------------------
// Processes

/// A program that succeeds gives its output; one that does not gives an error with the
/// command, its arguments and what it wrote about its errors.
pub proof fn program_must_succeed(
    command: String,
    args: Vec<String>,
    output: ProcessOutput,
    e: BenchmarkError,
)
    ensures
        ({
            let spawn = SpawnCommand::Running { command, args };
            let run = Request::RunProcess { command: command@, args: text::texts(args@) };
            let script = seq![(run, Reply::Process(output))];
            let ended = flow::played_from(spawn, script, 0);
            &&& output.success ==> flow::ends(spawn, script, Ok(output))
            &&& !output.success ==> {
                &&& flow::follows_from(spawn, script, 0)
                &&& ended.request() is None
                &&& forall|r: BenchmarkResult<ProcessOutput>| #[trigger]
                    ended.gives(r) <==> (r matches Err(
                        BenchmarkError::FailedToSpawnProcessError(said, context),
                    ) && said@ == "Process failed"@ && context@
                        == "Failed to spawn Neo4j process, path: "@ + command@ + " with args: "@
                        + text::joined(text::texts(args@), " "@) + ", Error: "@ + text::lossy_text(
                        output.stderr@,
                    ))
            }
            &&& flow::ends(spawn, seq![(run, Reply::Failed(e))], Err(e))
        }),
{
    reveal_with_fuel(flow::follows_from, 3);
    reveal_with_fuel(flow::played_from, 3);
}

/// Whether a line of the process table is that of a live process with the command in its
/// second column: the state in the third column neither begins with `Z` nor holds
/// `<defunct>`, and the line does not mention grep.
pub open spec fn is_live(line: Seq<char>, cmd: Seq<char>) -> bool {
    &&& text::words(line).len() >= 3
    &&& text::occurs_in(cmd, text::words(line)[1])
    &&& !text::begins_with(text::words(line)[2], "Z"@)
    &&& !text::occurs_in("<defunct>"@, text::words(line)[2])
    &&& !text::occurs_in("grep"@, line)
}

proof fn lemma_first_live(lines: Seq<Seq<char>>, cmd: Seq<char>, from: int, k: int)
    requires
        0 <= from <= k <= lines.len(),
        forall|j: int| from <= j < k ==> !is_live(#[trigger] lines[j], cmd),
        k < lines.len() ==> is_live(lines[k], cmd),
    ensures
        processes::pid_column(lines, cmd, from) == if k < lines.len() {
            Some(text::words(lines[k])[0])
        } else {
            None
        },
    decreases k - from,
{
    if from < k {
        assert(!is_live(lines[from], cmd));
        lemma_first_live(lines, cmd, from + 1, k);
    }
}

/// Of the lines after the header, the first one of a live process with the command gives
/// the id in its first column. Later lines make no difference, nor do the lines of other
/// processes and of dead ones.
pub proof fn first_live_process_is_found(
    cmd: Seq<char>,
    table: ProcessOutput,
    k: int,
    result: BenchmarkResult<u32>,
)
    requires
        table.success,
        valid_utf8(table.stdout@),
        1 <= k < text::lines(decode_utf8(table.stdout@)).len(),
        is_live(text::lines(decode_utf8(table.stdout@))[k], cmd),
        forall|j: int|
            1 <= j < k ==> !is_live(
                #[trigger] text::lines(decode_utf8(table.stdout@))[j],
                cmd,
            ),
    ensures
        ({
            let pid = text::words(text::lines(decode_utf8(table.stdout@))[k])[0];
            let value = text::digits_value(text::unsigned_part(pid));
            processes::process_found(cmd, table, result) <==> if text::is_number(pid) && value
                <= u32::MAX {
                result == BenchmarkResult::<u32>::Ok(value as u32)
            } else {
                result matches Err(BenchmarkError::OtherError(said)) && said@
                    == "Failed to parse PID: "@ + text::parse_u32_error_text(pid)
            }
        }),
{
    lemma_first_live(text::lines(decode_utf8(table.stdout@)), cmd, 1, k);
}

/// Where no line after the header is that of a live process with the command, there is no
/// such process; and a table that could not be had or read says nothing.
pub proof fn missing_process_is_named(
    cmd: Seq<char>,
    table: ProcessOutput,
    result: BenchmarkResult<u32>,
)
    ensures
        !table.success ==> (processes::process_found(cmd, table, result) <==> (result matches Err(
            BenchmarkError::OtherError(said),
        ) && said@ == "ps command failed with exit code: "@ + match table.code {
            Some(n) => "Some("@ + text::signed_decimal(n as int) + ")"@,
            None => "None"@,
        })),
        table.success && !valid_utf8(table.stdout@) ==> (processes::process_found(
            cmd,
            table,
            result,
        ) <==> (result matches Err(BenchmarkError::OtherError(said)) && said@
            == "UTF-8 conversion error: "@ + text::utf8_error_text(table.stdout@))),
        table.success && valid_utf8(table.stdout@) && (forall|j: int|
            1 <= j < text::lines(decode_utf8(table.stdout@)).len() ==> !is_live(
                #[trigger] text::lines(decode_utf8(table.stdout@))[j],
                cmd,
            )) ==> (processes::process_found(cmd, table, result) <==> (result matches Err(
            BenchmarkError::ProcessNofFoundError(name),
        ) && name@ == cmd)),
{
    let lines = text::lines(decode_utf8(table.stdout@));
    if table.success && valid_utf8(table.stdout@) && (forall|j: int|
        1 <= j < lines.len() ==> !is_live(#[trigger] lines[j], cmd)) && lines.len() >= 1 {
        lemma_first_live(lines, cmd, 1, lines.len() as int);
    }
}

/// A process is found in the table of all processes with their ids, commands and states.
pub proof fn process_is_looked_up(cmd: String, table: ProcessOutput, e: BenchmarkError)
    ensures
        ({
            let find = GetCommandPid::Listing { cmd };
            let list = Request::RunProcess {
                command: "ps"@,
                args: seq!["-eo"@, "pid,command,stat"@],
            };
            let script = seq![(list, Reply::Process(table))];
            let ended = flow::played_from(find, script, 0);
            &&& flow::follows_from(find, script, 0)
            &&& ended.request() is None
            &&& forall|r: BenchmarkResult<u32>| #[trigger]
                ended.gives(r) <==> processes::process_found(cmd@, table, r)
            &&& flow::ends(find, seq![(list, Reply::Failed(e))], Err(e))
        }),
{
    reveal_with_fuel(flow::follows_from, 3);
    reveal_with_fuel(flow::played_from, 3);
}

/// The process with the id is signalled once; where that does not work, the error names the
/// id.
pub proof fn process_is_killed_once(pid: i32, reason: String)
    ensures
        ({
            let kill = KillProcess::Signalling { pid };
            let signal = Request::Kill(pid);
            &&& flow::ends(kill, seq![(signal, Reply::Done)], Ok(()))
            &&& flow::ends_badly(
                kill,
                seq![(signal, Reply::NoSuchProcess)],
                "No process with pid "@ + text::signed_decimal(pid as int) + " found"@,
            )
            &&& flow::ends_badly(
                kill,
                seq![(signal, Reply::KillFailed(reason))],
                "Failed to kill process "@ + text::signed_decimal(pid as int) + ": "@ + reason@,
            )
        }),
{
    reveal_with_fuel(flow::follows_from, 3);
    reveal_with_fuel(flow::played_from, 3);
}

// ---------------------------------------------------------------------------
// Redis

/// A ping succeeds on the answer `PONG` within ten seconds, and on no other.
pub proof fn ping_wants_a_pong(answer: String, e: BenchmarkError)
    ensures
        ({
            let ask = RedisExchange::Asking(Exchange::Ping);
            let command = Request::RedisCommand {
                command: "PING"@,
                timeout_secs: 10,
                timed_connect: false,
            };
            &&& answer@ == "PONG"@ ==> flow::ends(ask, seq![(command, Reply::Text(answer))], Ok(()))
            &&& answer@ != "PONG"@ ==> flow::ends_badly(
                ask,
                seq![(command, Reply::Text(answer))],
                "Unexpected response from Redis: "@ + answer@,
            )
            &&& flow::ends_badly(
                ask,
                seq![(command, Reply::TimedOut)],
                "Ping operation timed out"@,
            )
            &&& flow::ends(ask, seq![(command, Reply::Failed(e))], Err(e))
        }),
{
    reveal_with_fuel(flow::follows_from, 3);
    reveal_with_fuel(flow::played_from, 3);
}

/// A save succeeds on the answer `OK` within thirty seconds, and on no other.
pub proof fn save_wants_an_ok(answer: String, e: BenchmarkError)
    ensures
        ({
            let ask = RedisExchange::Asking(Exchange::Save);
            let command = Request::RedisCommand {
                command: "SAVE"@,
                timeout_secs: 30,
                timed_connect: false,
            };
            &&& answer@ == "OK"@ ==> flow::ends(ask, seq![(command, Reply::Text(answer))], Ok(()))
            &&& answer@ != "OK"@ ==> flow::ends_badly(
                ask,
                seq![(command, Reply::Text(answer))],
                "Unexpected response from Redis: "@ + answer@,
            )
            &&& flow::ends_badly(
                ask,
                seq![(command, Reply::TimedOut)],
                "SAVE operation timed out"@,
            )
            &&& flow::ends(ask, seq![(command, Reply::Failed(e))], Err(e))
        }),
{
    reveal_with_fuel(flow::follows_from, 3);
    reveal_with_fuel(flow::played_from, 3);
}

/// Redis is asked to shut down within twenty seconds. It counts as down where it answers or
/// cannot be reached; where it does not answer in time, the process that is found is
/// killed.
pub proof fn redis_goes_down(answer: String, pid: u32, e: BenchmarkError)
    ensures
        ({
            let shutdown = RedisShutdown::Asking;
            let ask = Request::RedisCommand {
                command: "SHUTDOWN"@,
                timeout_secs: 20,
                timed_connect: true,
            };
            let find = Request::FindProcess("redis-server"@);
            let kill = Request::KillProcess(pid);
            let silent = (ask, Reply::TimedOut);
            let found = (find, Reply::Pid(pid));
            &&& flow::ends(shutdown, seq![(ask, Reply::Text(answer))], Ok(()))
            &&& flow::ends(shutdown, seq![(ask, Reply::Failed(e))], Ok(()))
            &&& flow::ends(shutdown, seq![silent, found, (kill, Reply::Done)], Ok(()))
            &&& flow::ends(shutdown, seq![silent, found, (kill, Reply::Failed(e))], Err(e))
            &&& flow::ends(shutdown, seq![silent, (find, Reply::Failed(e))], Err(e))
        }),
{
    reveal_with_fuel(flow::follows_from, 5);
    reveal_with_fuel(flow::played_from, 5);
}

/// Attempts that fail, each with its error and followed by a pause.
pub open spec fn failed_attempts(
    attempt: Request,
    pause: Request,
    errors: Seq<BenchmarkError>,
) -> Seq<(Request, Reply)>
    decreases errors.len(),
{
    if errors.len() == 0 {
        Seq::empty()
    } else {
        failed_attempts(attempt, pause, errors.drop_last()) + seq![
            (attempt, Reply::Failed(errors.last())),
            (pause, Reply::Done),
        ]
    }
}

proof fn lemma_wait_after_failures(wait: WaitForRedis, errors: Seq<BenchmarkError>)
    requires
        wait.attempt == Attempt::Pinging(1),
        errors.len() < wait.max_attempts,
    ensures
        flow::arrives(
            wait,
            failed_attempts(Request::PingRedis, Request::Sleep(wait.delay_ms), errors),
            (WaitForRedis { attempt: Attempt::Pinging((1 + errors.len()) as u32), ..wait }),
        ),
    decreases errors.len(),
{
    if errors.len() > 0 {
        let before = errors.drop_last();
        let (ping, pause) = (Request::PingRedis, Request::Sleep(wait.delay_ms));
        lemma_wait_after_failures(wait, before);
        let there = WaitForRedis { attempt: Attempt::Pinging((1 + before.len()) as u32), ..wait };
        let last = seq![(ping, Reply::Failed(errors.last())), (pause, Reply::Done)];
        assert(flow::arrives(
            there,
            last,
            (WaitForRedis { attempt: Attempt::Pinging((1 + errors.len()) as u32), ..wait }),
        )) by {
            reveal_with_fuel(flow::follows_from, 4);
            reveal_with_fuel(flow::played_from, 4);
        }
        flow::script_in_parts(wait, failed_attempts(ping, pause, before), last);
    }
}

/// Redis is pinged until it answers, with the given pause after each ping that fails. The
/// first answer ends the wait, however often the ping failed before, and the last of the
/// given number of failures does.
pub proof fn redis_is_pinged_as_often_as_given(
    wait: WaitForRedis,
    errors: Seq<BenchmarkError>,
    e: BenchmarkError,
)
    requires
        wait.attempt == Attempt::Pinging(1),
        errors.len() < wait.max_attempts,
    ensures
        ({
            let ping = Request::PingRedis;
            let failures = failed_attempts(ping, Request::Sleep(wait.delay_ms), errors);
            &&& flow::ends(wait, failures + seq![(ping, Reply::Done)], Ok(()))
            &&& errors.len() + 1 == wait.max_attempts ==> flow::ends_badly(
                wait,
                failures + seq![(ping, Reply::Failed(e))],
                "Redis not ready after "@ + text::decimal(wait.max_attempts as nat)
                    + " attempts"@,
            )
        }),
{
    let ping = Request::PingRedis;
    let failures = failed_attempts(ping, Request::Sleep(wait.delay_ms), errors);
    lemma_wait_after_failures(wait, errors);
    flow::script_in_parts(wait, failures, seq![(ping, Reply::Done)]);
    flow::script_in_parts(wait, failures, seq![(ping, Reply::Failed(e))]);
    reveal_with_fuel(flow::follows_from, 3);
    reveal_with_fuel(flow::played_from, 3);
}

} // verus!
