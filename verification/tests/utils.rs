use benchmark::action::{Action, Reply};
use benchmark::error::{other_error, BenchmarkError, BenchmarkResult};
use benchmark::flow::Flow;
use benchmark::query::ProcessOutput;
use benchmark::utils::files::is_statement;
use benchmark::utils::processes::find_process;
use benchmark::utils::{
    create_directory_if_not_exists, delete_file, download_file, falkor_logs_path,
    falkor_shared_lib_path, format_number, get_command_pid, get_falkor_log_path, kill_process,
    ping_redis, read_lines, redis_save, redis_shutdown, spawn_command, url_file_name,
    wait_for_redis_ready, write_to_file,
};

fn drive<F: Flow>(flow: F, script: Vec<(Action, Reply)>) -> BenchmarkResult<F::Output> {
    let mut flow = flow;
    for (action, reply) in script {
        assert_eq!(flow.action(), Some(action));
        flow = flow.next(reply);
    }
    assert_eq!(flow.action(), None);
    flow.finish()
}

fn failed(text: &str) -> Reply {
    Reply::Failed(other_error(text))
}

fn output(success: bool, code: Option<i32>, stdout: &[u8], stderr: &[u8]) -> ProcessOutput {
    ProcessOutput { success, code, stdout: stdout.to_vec(), stderr: stderr.to_vec() }
}

#[test]
fn numbers_are_grouped_by_thousands() {
    for (n, text) in [
        (0u64, "0"),
        (7, "7"),
        (999, "999"),
        (1000, "1,000"),
        (12345, "12,345"),
        (999999, "999,999"),
        (1000000, "1,000,000"),
        (u64::MAX, "18,446,744,073,709,551,615"),
    ] {
        assert_eq!(format_number(n), text);
        assert_eq!(format_number(n).replace(',', ""), n.to_string());
    }
}

#[test]
fn the_file_name_is_the_last_segment() {
    assert_eq!(url_file_name("https://host/a/b.cypher"), "b.cypher");
    assert_eq!(url_file_name("https://host/a/"), "");
    assert_eq!(url_file_name("plain"), "plain");
    assert_eq!(url_file_name(""), "");
    assert_eq!(url_file_name("/"), "");
}

#[test]
fn falkor_paths_follow_the_environment() {
    let lost = Err(other_error("Failed to get current directory"));
    assert_eq!(falkor_shared_lib_path(Some("/w")), Ok("/w/falkordb.so".to_string()));
    assert_eq!(falkor_shared_lib_path(None), lost);
    assert_eq!(falkor_logs_path(Some("/w")), Ok("/w/falkordb.log".to_string()));
    assert_eq!(falkor_logs_path(None), lost);
    assert_eq!(get_falkor_log_path(Some("/w"), None), Ok("/w/falkordb.log".to_string()));
    assert_eq!(get_falkor_log_path(Some("/w"), Some("/l")), Ok("/l".to_string()));
    assert_eq!(get_falkor_log_path(None, Some("/l")), lost);
}

#[test]
fn lines_without_statements_are_left_out() {
    let line = |s: &str| -> BenchmarkResult<String> { Ok(s.to_string()) };
    let broken = || -> BenchmarkResult<String> { Err(other_error("broken")) };
    let lines = vec![
        line("CREATE (n);"),
        line(""),
        line("  ;\t"),
        broken(),
        line(" MATCH (n) RETURN n "),
        line(";;"),
    ];
    let kept = vec![
        line("CREATE (n);"),
        broken(),
        line(" MATCH (n) RETURN n "),
        line(";;"),
    ];
    let once = read_lines(lines);
    assert_eq!(once, kept);
    assert_eq!(read_lines(once), kept);
    assert!(is_statement("x"));
    assert!(!is_statement(" ; "));
    assert!(!is_statement("\u{3000}"));
}

#[test]
fn reading_in_parts_keeps_the_same_lines() {
    let line = |s: &str| -> BenchmarkResult<String> { Ok(s.to_string()) };
    let all = ["a", "", ";", "b", " ", "c"];
    for cut in 0..=all.len() {
        let mut parts = read_lines(all[..cut].iter().map(|s| line(s)).collect());
        parts.extend(read_lines(all[cut..].iter().map(|s| line(s)).collect()));
        assert_eq!(parts, vec![line("a"), line("b"), line("c")]);
    }
}

#[test]
fn only_a_file_that_is_there_is_deleted() {
    let probe = || Action::FileExists("f".to_string());
    let remove = || Action::RemoveFile("f".to_string());
    assert_eq!(drive(delete_file("f"), vec![(probe(), Reply::Flag(false))]), Ok(()));
    assert_eq!(
        drive(delete_file("f"), vec![(probe(), Reply::Flag(true)), (remove(), Reply::Done)]),
        Ok(())
    );
    assert_eq!(
        drive(delete_file("f"), vec![(probe(), Reply::Flag(true)), (remove(), failed("no"))]),
        Err(other_error("no"))
    );
}

#[test]
fn only_a_directory_that_is_missing_is_created() {
    let probe = || Action::FileExists("d".to_string());
    let create = || Action::CreateDirectories("d".to_string());
    let flow = || create_directory_if_not_exists("d");
    assert_eq!(drive(flow(), vec![(probe(), Reply::Flag(true))]), Ok(()));
    assert_eq!(
        drive(flow(), vec![(probe(), Reply::Flag(false)), (create(), Reply::Done)]),
        Ok(())
    );
    assert_eq!(
        drive(flow(), vec![(probe(), Reply::Flag(false)), (create(), failed("no"))]),
        Err(other_error("no"))
    );
}

#[test]
fn a_download_needs_a_good_status() {
    let get = || Action::HttpGet("u".to_string());
    let save = || Action::SaveBody("f".to_string());
    let status = |success: bool, status: &str| Reply::Status { success, status: status.to_string() };
    assert_eq!(
        drive(
            download_file("u", "f"),
            vec![(get(), status(true, "200 OK")), (save(), Reply::Done)]
        ),
        Ok(())
    );
    assert_eq!(
        drive(download_file("u", "f"), vec![(get(), status(false, "404 Not Found"))]),
        Err(BenchmarkError::FailedToDownloadFileError(
            "Failed to download a file f, http status: 404 Not Found, request: u".to_string()
        ))
    );
    assert_eq!(
        drive(download_file("u", "f"), vec![(get(), failed("no"))]),
        Err(other_error("no"))
    );
    assert_eq!(
        drive(
            download_file("u", "f"),
            vec![(get(), status(true, "200 OK")), (save(), failed("full"))]
        ),
        Err(other_error("full"))
    );
}

#[test]
fn a_program_must_succeed() {
    let args = || vec!["-rf".to_string(), "x".to_string()];
    let run = || Action::RunProcess { command: "rm".to_string(), args: args() };
    let good = || output(true, Some(0), b"out", b"");
    assert_eq!(
        drive(spawn_command("rm", args()), vec![(run(), Reply::Process(good()))]),
        Ok(good())
    );
    assert_eq!(
        drive(
            spawn_command("rm", args()),
            vec![(run(), Reply::Process(output(false, Some(1), b"", b"bad \xff!")))]
        ),
        Err(BenchmarkError::FailedToSpawnProcessError(
            "Process failed".to_string(),
            "Failed to spawn Neo4j process, path: rm with args: -rf x, Error: bad \u{fffd}!"
                .to_string()
        ))
    );
    assert_eq!(
        drive(spawn_command("rm", args()), vec![(run(), failed("no"))]),
        Err(other_error("no"))
    );
}

#[test]
fn a_live_process_is_found_by_its_command() {
    let table = "    PID COMMAND                     STAT\n\
                 1 redis-server Z\n\
                 2 grep redis-server S\n\
                 3 vim redis-server S\n\
                 4 /usr/bin/redis-server Ssl\n\
                 5 redis-server S\n";
    let found = find_process("redis-server", &output(true, Some(0), table.as_bytes(), b""));
    assert_eq!(found, Ok(4));
    let found = find_process("ibexdb", &output(true, Some(0), table.as_bytes(), b""));
    assert_eq!(found, Err(BenchmarkError::ProcessNofFoundError("ibexdb".to_string())));
}

#[test]
fn the_header_and_short_lines_are_passed_over() {
    let find = |table: &str| find_process("redis", &output(true, Some(0), table.as_bytes(), b""));
    let missing = || Err(BenchmarkError::ProcessNofFoundError("redis".to_string()));
    assert_eq!(find("1 redis S\n"), missing());
    assert_eq!(find("header\n7 redis\n"), missing());
    assert_eq!(find("header\n7 redis x<defunct>\n"), missing());
    assert_eq!(find("header\n+7 redis R\n"), Ok(7));
    assert_eq!(find(""), missing());
}

#[test]
fn a_process_id_must_be_a_number() {
    let find = |table: &str| find_process("redis", &output(true, Some(0), table.as_bytes(), b""));
    assert_eq!(
        find("header\nx redis S\n"),
        Err(other_error("Failed to parse PID: invalid digit found in string"))
    );
    assert_eq!(find("header\n4294967295 redis S\n"), Ok(u32::MAX));
    assert_eq!(
        find("header\n4294967296 redis S\n"),
        Err(other_error("Failed to parse PID: number too large to fit in target type"))
    );
}

#[test]
fn a_process_table_must_be_readable() {
    assert_eq!(
        find_process("x", &output(false, Some(3), b"", b"")),
        Err(other_error("ps command failed with exit code: Some(3)"))
    );
    assert_eq!(
        find_process("x", &output(false, Some(-1), b"", b"")),
        Err(other_error("ps command failed with exit code: Some(-1)"))
    );
    assert_eq!(
        find_process("x", &output(false, None, b"", b"")),
        Err(other_error("ps command failed with exit code: None"))
    );
    assert_eq!(
        find_process("x", &output(true, Some(0), b"a\xff", b"")),
        Err(other_error(
            "UTF-8 conversion error: invalid utf-8 sequence of 1 bytes from index 1"
        ))
    );
}

#[test]
fn the_process_table_is_asked_for() {
    let list = || Action::RunProcess {
        command: "ps".to_string(),
        args: vec!["-eo".to_string(), "pid,command,stat".to_string()],
    };
    let table = output(true, Some(0), "header\n9 caf\u{e9} S\n".as_bytes(), b"");
    assert_eq!(
        drive(get_command_pid("caf\u{e9}"), vec![(list(), Reply::Process(table))]),
        Ok(9)
    );
    assert_eq!(
        drive(get_command_pid("x"), vec![(list(), failed("no"))]),
        Err(other_error("no"))
    );
}

#[test]
fn killing_tells_why_it_failed() {
    assert_eq!(drive(kill_process(7), vec![(Action::Kill(7), Reply::Done)]), Ok(()));
    assert_eq!(
        drive(kill_process(7), vec![(Action::Kill(7), Reply::NoSuchProcess)]),
        Err(other_error("No process with pid 7 found"))
    );
    assert_eq!(
        drive(
            kill_process(7),
            vec![(Action::Kill(7), Reply::KillFailed("EPERM: Operation not permitted".to_string()))]
        ),
        Err(other_error("Failed to kill process 7: EPERM: Operation not permitted"))
    );
    assert_eq!(
        drive(kill_process(u32::MAX), vec![(Action::Kill(-1), Reply::NoSuchProcess)]),
        Err(other_error("No process with pid -1 found"))
    );
}

fn redis(command: &str, timeout_secs: u64, timed_connect: bool) -> Action {
    Action::RedisCommand { command: command.to_string(), timeout_secs, timed_connect }
}

fn said(text: &str) -> Reply {
    Reply::Text(text.to_string())
}

#[test]
fn redis_must_answer_a_ping() {
    let ping = || redis("PING", 10, false);
    assert_eq!(drive(ping_redis(), vec![(ping(), said("PONG"))]), Ok(()));
    assert_eq!(
        drive(ping_redis(), vec![(ping(), said("LOADING"))]),
        Err(other_error("Unexpected response from Redis: LOADING"))
    );
    assert_eq!(
        drive(ping_redis(), vec![(ping(), Reply::TimedOut)]),
        Err(other_error("Ping operation timed out"))
    );
    assert_eq!(
        drive(ping_redis(), vec![(ping(), failed("refused"))]),
        Err(other_error("refused"))
    );
}

#[test]
fn redis_must_save() {
    let save = || redis("SAVE", 30, false);
    assert_eq!(drive(redis_save(), vec![(save(), said("OK"))]), Ok(()));
    assert_eq!(
        drive(redis_save(), vec![(save(), said("PONG"))]),
        Err(other_error("Unexpected response from Redis: PONG"))
    );
    assert_eq!(
        drive(redis_save(), vec![(save(), Reply::TimedOut)]),
        Err(other_error("SAVE operation timed out"))
    );
}

#[test]
fn the_wait_for_redis_is_bounded() {
    let wait = || wait_for_redis_ready(3, 500);
    assert_eq!(drive(wait(), vec![(Action::PingRedis, Reply::Done)]), Ok(()));
    assert_eq!(
        drive(
            wait(),
            vec![
                (Action::PingRedis, failed("1")),
                (Action::Sleep(500), Reply::Done),
                (Action::PingRedis, Reply::Done),
            ]
        ),
        Ok(())
    );
    assert_eq!(
        drive(
            wait(),
            vec![
                (Action::PingRedis, failed("1")),
                (Action::Sleep(500), Reply::Done),
                (Action::PingRedis, failed("2")),
                (Action::Sleep(500), Reply::Done),
                (Action::PingRedis, failed("3")),
            ]
        ),
        Err(other_error("Redis not ready after 3 attempts"))
    );
    assert_eq!(
        drive(wait_for_redis_ready(1, 9), vec![(Action::PingRedis, failed("1"))]),
        Err(other_error("Redis not ready after 1 attempts"))
    );
}

#[test]
fn redis_is_killed_only_where_it_does_not_answer() {
    let shutdown = || redis("SHUTDOWN", 20, true);
    let find = || Action::FindProcess("redis-server".to_string());
    assert_eq!(drive(redis_shutdown(), vec![(shutdown(), said("bye"))]), Ok(()));
    assert_eq!(drive(redis_shutdown(), vec![(shutdown(), failed("refused"))]), Ok(()));
    assert_eq!(
        drive(
            redis_shutdown(),
            vec![
                (shutdown(), Reply::TimedOut),
                (find(), Reply::Pid(7)),
                (Action::KillProcess(7), Reply::Done),
            ]
        ),
        Ok(())
    );
    assert_eq!(
        drive(redis_shutdown(), vec![(shutdown(), Reply::TimedOut), (find(), failed("none"))]),
        Err(other_error("none"))
    );
    assert_eq!(
        drive(
            redis_shutdown(),
            vec![
                (shutdown(), Reply::TimedOut),
                (find(), Reply::Pid(7)),
                (Action::KillProcess(7), failed("no")),
            ]
        ),
        Err(other_error("no"))
    );
}

#[test]
fn a_file_is_created_written_and_flushed() {
    let create = || Action::CreateFile("f".to_string());
    let write = || Action::WriteText("text".to_string());
    assert_eq!(
        drive(
            write_to_file("f", "text"),
            vec![(create(), Reply::Done), (write(), Reply::Done), (Action::FlushFile, Reply::Done)]
        ),
        Ok(())
    );
    assert_eq!(
        drive(
            write_to_file("f", "text"),
            vec![(create(), Reply::Done), (write(), failed("full"))]
        ),
        Err(other_error("full"))
    );
    assert_eq!(
        drive(write_to_file("f", "text"), vec![(create(), failed("no"))]),
        Err(other_error("no"))
    );
}
