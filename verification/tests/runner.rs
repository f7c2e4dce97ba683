use benchmark::action::{Action, Reply};
use benchmark::error::{other_error, BenchmarkResult};
use benchmark::flow::Flow;
use benchmark::query::{Bolt, BoltValue, Msg, PreparedQuery, QueryType};
use benchmark::runner::crew::{spawn_falkor_worker, spawn_neo4j_worker, Worker};
use benchmark::runner::load::{dry_init_neo4j, init_falkor, init_neo4j};
use benchmark::runner::queries::{
    prepare_queries, query_record, read_queries, PrepareQueriesMetadata, ReadAction, ReadReply,
};
use benchmark::runner::run::{run_falkor, run_neo4j};
use benchmark::scenario::{Size, Vendor};
use benchmark::text::{chars_of, split_lines};
use std::collections::VecDeque;

fn drive<F: Flow>(flow: F, script: Vec<(Action, Reply)>) -> BenchmarkResult<F::Output> {
    let mut flow = flow;
    for (action, reply) in script {
        assert_eq!(flow.action(), Some(action));
        flow = flow.next(reply);
    }
    assert_eq!(flow.action(), None);
    flow.finish()
}

fn failed(text: &str) -> Reply {
    Reply::Failed(other_error(text))
}

fn counts(nodes: u64, relations: u64) -> Reply {
    Reply::Counts { nodes, relations }
}

fn worker(vendor: Vendor, worker: usize) -> Action {
    Action::StartWorker { vendor, worker, simulate: None }
}

fn read(file: &str) -> Action {
    Action::ReadQueries(file.to_string())
}

fn queries(dataset: Size) -> Reply {
    Reply::Queries { size: 9, dataset }
}

#[test]
fn a_run_without_workers_fails_at_once() {
    assert_eq!(
        drive(run_falkor(0, "f".to_string(), 10, None), vec![]),
        Err(other_error("Parallelism level must be greater than zero."))
    );
}

#[test]
fn a_run_on_falkor_goes_through_its_steps() {
    assert_eq!(
        drive(
            run_falkor(2, "f".to_string(), 4000, None),
            vec![
                (read("f"), queries(Size::Small)),
                (Action::CheckDump(Size::Small), Reply::Done),
                (Action::RestoreDump(Size::Small), Reply::Done),
                (Action::StartFalkor, Reply::Done),
                (Action::GraphSize(Vendor::Falkor), counts(1, 2)),
                (Action::OpenChannel(40), Reply::Done),
                (Action::StartScheduler(4000), Reply::Done),
                (worker(Vendor::Falkor, 0), Reply::Done),
                (worker(Vendor::Falkor, 1), Reply::Done),
                (Action::JoinScheduler, failed("gone")),
                (Action::CloseChannel, Reply::Done),
                (Action::JoinWorker(0), failed("gone")),
                (Action::JoinWorker(1), Reply::Done),
                (Action::StopFalkor, Reply::Done),
            ]
        ),
        Ok(())
    );
}

#[test]
fn a_failed_run_lets_go_of_falkor() {
    let begun = || {
        vec![
            (read("f"), queries(Size::Large)),
            (Action::CheckDump(Size::Large), Reply::Done),
            (Action::RestoreDump(Size::Large), Reply::Done),
            (Action::StartFalkor, Reply::Done),
        ]
    };
    let run = || run_falkor(1, "f".to_string(), 1, None);
    let mut script = begun();
    script.push((Action::GraphSize(Vendor::Falkor), failed("no")));
    script.push((Action::DropFalkor, Reply::Done));
    assert_eq!(drive(run(), script), Err(other_error("no")));
    let mut script = begun();
    script.push((Action::GraphSize(Vendor::Falkor), counts(0, 0)));
    script.push((Action::OpenChannel(20), Reply::Done));
    script.push((Action::StartScheduler(1), Reply::Done));
    script.push((worker(Vendor::Falkor, 0), failed("refused")));
    script.push((Action::DropFalkor, Reply::Done));
    assert_eq!(drive(run(), script), Err(other_error("refused")));
    assert_eq!(
        drive(
            run(),
            vec![
                (read("f"), queries(Size::Large)),
                (Action::CheckDump(Size::Large), failed("missing")),
            ]
        ),
        Err(other_error("missing"))
    );
}

#[test]
fn a_run_on_neo4j_goes_through_its_steps() {
    let start = |worker: usize| Action::StartWorker {
        vendor: Vendor::Neo4j,
        worker,
        simulate: Some(1),
    };
    assert_eq!(
        drive(
            run_neo4j(1, "f".to_string(), 5, Some(1)),
            vec![
                (Action::StopNeo4j(false), Reply::Done),
                (read("f"), queries(Size::Medium)),
                (Action::RestoreNeo4j(Size::Medium), Reply::Done),
                (Action::StartNeo4j, Reply::Done),
                (Action::ConnectNeo4j, Reply::Done),
                (Action::GraphSize(Vendor::Neo4j), counts(1, 2)),
                (Action::OpenChannel(20), Reply::Done),
                (Action::StartScheduler(5), Reply::Done),
                (start(0), Reply::Done),
                (Action::JoinScheduler, Reply::Done),
                (Action::CloseChannel, Reply::Done),
                (Action::JoinWorker(0), Reply::Done),
                (Action::StopNeo4j(true), Reply::Done),
            ]
        ),
        Ok(())
    );
    assert_eq!(
        drive(
            run_neo4j(1, "f".to_string(), 5, None),
            vec![(Action::StopNeo4j(false), Reply::Done), (read("f"), failed("no file"))]
        ),
        Err(other_error("no file"))
    );
}

fn query(name: &str) -> PreparedQuery {
    PreparedQuery {
        q_name: name.to_string(),
        q_type: QueryType::Read,
        cypher: format!("RETURN '{}'", name),
        bolt: Bolt {
            query: "RETURN $name".to_string(),
            params: vec![("name".to_string(), BoltValue::Text(name.to_string()))],
        },
    }
}

fn msg(due_ms: u64, name: &str) -> Msg {
    Msg { due_ms, payload: query(name) }
}

#[test]
fn a_worker_goes_on_until_the_channel_is_closed() {
    let execute = |msg: Msg| Action::ExecuteReceived {
        vendor: Vendor::Neo4j,
        worker_id: "17".to_string(),
        msg,
        simulate: Some(3),
    };
    assert_eq!(
        drive(
            Worker::new(Vendor::Neo4j, 17, Some(3)),
            vec![
                (Action::Receive, Reply::Received(msg(5, "a"))),
                (execute(msg(5, "a")), Reply::Done),
                (Action::ObserveSuccess(Vendor::Neo4j), Reply::Done),
                (Action::Receive, Reply::Received(msg(6, "b"))),
                (execute(msg(6, "b")), failed("no")),
                (Action::ObserveError(Vendor::Neo4j), Reply::Done),
                (Action::Receive, Reply::End),
            ]
        ),
        Ok(())
    );
}

#[test]
fn the_workers_run_each_query_once() {
    let mut pending: VecDeque<Msg> = (0..7).map(|i| msg(i, &i.to_string())).collect();
    let mut workers: Vec<Worker> = (0..3).map(|i| Worker::new(Vendor::Neo4j, i, None)).collect();
    let mut queue: VecDeque<Msg> = VecDeque::new();
    let mut executed: Vec<String> = vec![];
    let mut steps = 0;
    let mut turn = 0;
    while workers.iter().any(|w| w.action().is_some()) {
        if queue.len() < 2 {
            if let Some(msg) = pending.pop_front() {
                queue.push_back(msg);
                steps += 1;
            }
        }
        turn = (turn * 5 + 1) % 7;
        let worker = workers.remove(turn % 3);
        let reply = match worker.action() {
            Some(Action::Receive) => match queue.pop_front() {
                Some(msg) => Some(Reply::Received(msg)),
                None if pending.is_empty() => Some(Reply::End),
                None => None,
            },
            Some(Action::ExecuteReceived { msg, .. }) => {
                executed.push(msg.payload.q_name);
                Some(if executed.len() % 2 == 0 { failed("no") } else { Reply::Done })
            }
            Some(_) => Some(Reply::Done),
            None => None,
        };
        workers.push(match reply {
            Some(reply) => {
                steps += 1;
                worker.next(reply)
            }
            None => worker,
        });
    }
    executed.sort();
    assert_eq!(executed, vec!["0", "1", "2", "3", "4", "5", "6"]);
    assert!(steps <= 5 * 7 + 3);
}

#[test]
fn a_worker_for_falkor_gets_a_connection() {
    let spawn = |vendor: Vendor, worker: usize, simulate: Option<usize>| Action::SpawnWorker {
        vendor,
        worker,
        simulate,
    };
    assert_eq!(
        drive(spawn_neo4j_worker(2, Some(4)), vec![(spawn(Vendor::Neo4j, 2, Some(4)), Reply::Done)]),
        Ok(())
    );
    assert_eq!(
        drive(
            spawn_falkor_worker(3, None),
            vec![
                (Action::ConnectFalkor, Reply::Done),
                (spawn(Vendor::Falkor, 3, None), Reply::Done),
            ]
        ),
        Ok(())
    );
    assert_eq!(
        drive(spawn_falkor_worker(3, None), vec![(Action::ConnectFalkor, failed("no"))]),
        Err(other_error("no"))
    );
}

fn backup() -> String {
    "./backups/neo4j/users/small/neo4j.dump".to_string()
}

fn import() -> Vec<(Action, Reply)> {
    let (vendor, size) = (Vendor::Neo4j, Size::Small);
    vec![
        (Action::CreateHistogram, Reply::Done),
        (Action::OpenIndexes { vendor, size }, Reply::Done),
        (Action::ImportStatements, Reply::Done),
        (Action::OpenData { vendor, size }, Reply::Done),
        (Action::ImportStatements, Reply::Done),
        (Action::GraphSize(Vendor::Neo4j), counts(10000, 121716)),
        (Action::StopNeo4j(true), Reply::Done),
        (Action::DumpNeo4j(size), Reply::Done),
        (Action::ShowHistogram, Reply::Done),
    ]
}

#[test]
fn loaded_data_is_not_loaded_again() {
    assert_eq!(
        drive(
            init_neo4j(Size::Small, false),
            vec![
                (Action::StopNeo4j(false), Reply::Done),
                (Action::FileExists(backup()), Reply::Flag(true)),
            ]
        ),
        Ok(())
    );
}

#[test]
fn loading_imports_indexes_and_data() {
    let mut script = vec![
        (Action::StopNeo4j(false), Reply::Done),
        (Action::FileExists(backup()), Reply::Flag(false)),
        (Action::StartNeo4j, Reply::Done),
        (Action::ConnectNeo4j, Reply::Done),
        (Action::GraphSize(Vendor::Neo4j), counts(0, 0)),
    ];
    script.extend(import());
    assert_eq!(drive(init_neo4j(Size::Small, false), script), Ok(()));
}

#[test]
fn forced_loading_starts_afresh() {
    for (nodes, relations) in [(1, 0), (0, 1)] {
        let mut script = vec![
            (Action::StopNeo4j(false), Reply::Done),
            (Action::DeleteFile(backup()), Reply::Done),
            (Action::CleanNeo4j, Reply::Done),
            (Action::StartNeo4j, Reply::Done),
            (Action::ConnectNeo4j, Reply::Done),
            (Action::GraphSize(Vendor::Neo4j), counts(nodes, relations)),
            (Action::StopNeo4j(false), Reply::Done),
            (Action::CleanNeo4j, Reply::Done),
            (Action::StopNeo4j(true), Reply::Done),
        ];
        script.extend(import());
        assert_eq!(drive(init_neo4j(Size::Small, true), script), Ok(()));
    }
}

#[test]
fn a_failed_import_leaves_no_backup() {
    assert_eq!(
        drive(
            init_neo4j(Size::Small, false),
            vec![
                (Action::StopNeo4j(false), Reply::Done),
                (Action::FileExists(backup()), Reply::Flag(false)),
                (Action::StartNeo4j, failed("no")),
            ]
        ),
        Err(other_error("no"))
    );
}

fn execute(spawn_id: &str, name: &str, query: &str) -> Action {
    Action::ExecuteQuery {
        vendor: Vendor::Falkor,
        spawn_id: spawn_id.to_string(),
        name: name.to_string(),
        query: query.to_string(),
    }
}

fn loading() -> Vec<(Action, Reply)> {
    vec![
        (Action::CleanFalkor, Reply::Done),
        (Action::StartFalkor, Reply::Done),
        (Action::ConnectFalkor, Reply::Done),
        (
            execute("main", "create_index", "CREATE INDEX FOR (u:User) ON (u.id)"),
            Reply::Done,
        ),
        (Action::OpenData { vendor: Vendor::Neo4j, size: Size::Medium }, Reply::Done),
        (Action::NextStatement, Reply::Line("A".to_string())),
        (execute("loader", "", "A"), Reply::Done),
        (Action::NextStatement, Reply::LineFailed(other_error("broken"))),
        (Action::NextStatement, Reply::Line("B".to_string())),
    ]
}

#[test]
fn falkor_loads_one_statement_after_the_other() {
    let mut script = loading();
    script.extend(vec![
        (execute("loader", "", "B"), Reply::Done),
        (Action::NextStatement, Reply::End),
        (Action::GraphSize(Vendor::Falkor), counts(1, 2)),
        (Action::StopFalkor, Reply::Done),
        (Action::SaveDump(Size::Medium), Reply::Done),
    ]);
    assert_eq!(drive(init_falkor(Size::Medium, false), script), Ok(()));
}

#[test]
fn a_failed_statement_lets_go_of_falkor() {
    let mut script = loading();
    script.extend(vec![
        (execute("loader", "", "B"), failed("syntax")),
        (Action::DropFalkor, Reply::Done),
    ]);
    assert_eq!(drive(init_falkor(Size::Medium, true), script), Err(other_error("syntax")));
    assert_eq!(
        drive(init_falkor(Size::Medium, true), vec![(Action::CleanFalkor, failed("no"))]),
        Err(other_error("no"))
    );
}

#[test]
fn a_dry_run_counts_statements() {
    let mut run = dry_init_neo4j(Size::Large);
    let open = Action::OpenData { vendor: Vendor::Neo4j, size: Size::Large };
    for (action, reply) in vec![
        (open, Reply::Done),
        (Action::NextStatement, Reply::Line("A".to_string())),
        (Action::NextStatement, Reply::LineFailed(other_error("broken"))),
        (Action::NextStatement, Reply::Line("B".to_string())),
        (Action::NextStatement, Reply::End),
    ] {
        assert_eq!(run.action(), Some(action));
        run = run.next(reply);
    }
    assert_eq!(run.action(), None);
    assert_eq!(run.finish(), Ok((2, 1)));
    let run = dry_init_neo4j(Size::Large).next(failed("no"));
    assert_eq!(run.finish(), Err(other_error("no")));
}

#[test]
fn prepared_queries_are_written_after_their_description() {
    let write = |text: &str| Action::WriteText(text.to_string());
    let text = |text: &str| Reply::Text(text.to_string());
    assert_eq!(
        drive(
            prepare_queries(Size::Small, 2, "f".to_string()),
            vec![
                (
                    Action::GenerateQueries { vertices: 9998, edges: 121716, count: 2 },
                    Reply::Done
                ),
                (Action::CreateFile("f".to_string()), Reply::Done),
                (Action::DescribeQueries { count: 2, dataset: Size::Small }, text("{}")),
                (write("{}\n"), Reply::Done),
                (Action::NextQuery, Reply::Query(query("a"))),
                (Action::EncodeQuery(query("a")), text("{\"a\"}")),
                (write("{\"a\"}\n"), Reply::Done),
                (Action::NextQuery, Reply::Query(query("b"))),
                (Action::EncodeQuery(query("b")), text("{\"b\"}")),
                (write("{\"b\"}\n"), Reply::Done),
                (Action::NextQuery, Reply::End),
                (Action::FlushFile, Reply::Done),
            ]
        ),
        Ok(())
    );
}

#[test]
fn the_first_failure_ends_a_preparation() {
    let generate = || Action::GenerateQueries { vertices: 9998, edges: 121716, count: 1 };
    let create = || Action::CreateFile("f".to_string());
    let describe = || Action::DescribeQueries { count: 1, dataset: Size::Large };
    let write = || Action::WriteText("x\n".to_string());
    let steps = || -> Vec<(Action, Reply)> {
        vec![
            (create(), Reply::Done),
            (describe(), Reply::Text("x".to_string())),
            (write(), Reply::Done),
            (Action::NextQuery, Reply::Query(query("a"))),
            (Action::EncodeQuery(query("a")), Reply::Text("x".to_string())),
            (write(), Reply::Done),
            (Action::NextQuery, Reply::End),
            (Action::FlushFile, Reply::Done),
        ]
    };
    for fails in [0, 1, 2, 4, 5, 7] {
        let mut script = vec![(generate(), Reply::Done)];
        script.extend(steps().into_iter().take(fails + 1));
        script[fails + 1].1 = failed("no");
        assert_eq!(
            drive(prepare_queries(Size::Large, 1, "f".to_string()), script),
            Err(other_error("no"))
        );
    }
}

#[test]
fn written_records_read_back() {
    let texts = ["{\"size\":2}", "", "{\"q\":\"a\\nb\"}", "caf\u{e9}"];
    let file: String = texts.iter().map(|t| query_record(t)).collect();
    let lines: Vec<String> =
        split_lines(&chars_of(&file)).into_iter().map(|l| l.into_iter().collect()).collect();
    assert_eq!(lines, texts);
}

#[test]
fn prepared_queries_are_read_in_order() {
    let metadata = PrepareQueriesMetadata { size: 5, dataset: Size::Medium };
    let mut reader = read_queries("f".to_string());
    let line = |s: &str| ReadReply::Line(s.to_string());
    for (action, reply) in vec![
        (ReadAction::OpenFile("f".to_string()), ReadReply::Done),
        (ReadAction::ReadFirstLine, line("{}\n")),
        (ReadAction::ParseMetadata("{}\n".to_string()), ReadReply::Metadata(metadata)),
        (ReadAction::ReadLine, line("7")),
        (ReadAction::ParseQuery("7".to_string()), ReadReply::Query(query("7"))),
        (ReadAction::ReadLine, line("8")),
        (ReadAction::ParseQuery("8".to_string()), ReadReply::Query(query("8"))),
        (ReadAction::ReadLine, ReadReply::End),
    ] {
        assert_eq!(reader.action(), Some(action));
        reader = reader.next(reply);
    }
    assert_eq!(reader.action(), None);
    assert_eq!(reader.finish(), Ok((metadata, vec![query("7"), query("8")])));
}

#[test]
fn a_bad_file_of_queries_is_an_error() {
    let opened = || read_queries("f".to_string()).next(ReadReply::Done);
    let line = |s: &str| ReadReply::Line(s.to_string());
    let invalid = ReadReply::MetadataInvalid("expected value".to_string());
    assert_eq!(
        opened().next(line("x")).next(invalid).finish(),
        Err(other_error("Error parsing metadata: expected value"))
    );
    assert_eq!(
        read_queries("f".to_string()).next(ReadReply::Failed(other_error("no file"))).finish(),
        Err(other_error("no file"))
    );
    assert_eq!(
        opened().next(ReadReply::Failed(other_error("no text"))).finish(),
        Err(other_error("no text"))
    );
    let metadata = PrepareQueriesMetadata { size: 5, dataset: Size::Medium };
    let reading = || {
        opened()
            .next(line("{}"))
            .next(ReadReply::Metadata(metadata))
            .next(line("1"))
            .next(ReadReply::Query(query("1")))
    };
    assert_eq!(
        reading().next(ReadReply::Failed(other_error("no line"))).finish(),
        Err(other_error("no line"))
    );
    assert_eq!(
        reading().next(line("2")).next(ReadReply::Failed(other_error("bad line"))).finish(),
        Err(other_error("bad line"))
    );
}

#[test]
fn what_was_prepared_is_read() {
    let generated = || vec![query("a"), query("b c"), query("d")];
    let encode = |query: &PreparedQuery| format!("[{}]", query.q_name);
    let described = "{\"size\":3,\"dataset\":\"Medium\"}";
    let mut left: VecDeque<PreparedQuery> = generated().into();
    let mut file = "an earlier file\n".to_string();
    let mut prepare = prepare_queries(Size::Medium, 3, "f".to_string());
    while let Some(action) = prepare.action() {
        prepare = prepare.next(match action {
            Action::CreateFile(_) => {
                file.clear();
                Reply::Done
            }
            Action::DescribeQueries { count: 3, dataset: Size::Medium } => {
                Reply::Text(described.to_string())
            }
            Action::NextQuery => match left.pop_front() {
                Some(query) => Reply::Query(query),
                None => Reply::End,
            },
            Action::EncodeQuery(query) => Reply::Text(encode(&query)),
            Action::WriteText(text) => {
                file.push_str(&text);
                Reply::Done
            }
            _ => Reply::Done,
        });
    }
    assert_eq!(prepare.finish(), Ok(()));
    assert_eq!(file, format!("{}\n[a]\n[b c]\n[d]\n", described));
    let metadata = PrepareQueriesMetadata { size: 3, dataset: Size::Medium };
    let mut rest = file.as_str();
    let mut replies = 0;
    let mut reader = read_queries("f".to_string());
    while let Some(action) = reader.action() {
        let line = rest.split_inclusive('\n').next();
        let reply = match action {
            ReadAction::OpenFile(_) => ReadReply::Done,
            ReadAction::ReadFirstLine => ReadReply::Line(line.unwrap_or("").to_string()),
            ReadAction::ParseMetadata(line) => {
                assert_eq!(line.trim_end(), described);
                ReadReply::Metadata(metadata)
            }
            ReadAction::ReadLine => match line {
                Some(line) => ReadReply::Line(line.trim_end().to_string()),
                None => ReadReply::End,
            },
            ReadAction::ParseQuery(line) => {
                let found = generated().into_iter().find(|query| encode(query) == line);
                ReadReply::Query(found.unwrap())
            }
        };
        if matches!(reply, ReadReply::Line(_)) {
            rest = &rest[line.unwrap_or("").len()..];
        }
        replies += 1;
        reader = reader.next(reply);
    }
    assert_eq!(reader.finish(), Ok((metadata, generated())));
    assert_eq!(replies, 2 * 3 + 4);
}
