//! Loading a data set.
use vstd::prelude::*;
use crate::action::{Reply, Request};
use crate::error::BenchmarkError;
use crate::flow;
use crate::flow::Flow;
use crate::runner::load::{LoadFalkor, LoadFalkorStage, LoadNeo4j, LoadNeo4jStage};
use crate::scenario::{Size, Vendor};

verus! {

// ---------------------------------------------------------------------------
// Neo4j

/// The size as it stands in a path.
pub open spec fn size_in_path(size: Size) -> Seq<char> {
    match size {
        Size::Small => "small"@,
        Size::Medium => "medium"@,
        Size::Large => "large"@,
    }
}

/// The backup of a data set of the size.
pub open spec fn backup_of(size: Size) -> Seq<char> {
    "./backups"@ + "/"@ + "neo4j"@ + "/"@ + "users"@ + "/"@ + size_in_path(size) + "/neo4j.dump"@
}

/// How a load begins: with `force` the backup and the data are removed, and without it a
/// backup is looked for and, here, not found.
pub open spec fn load_begins(size: Size, force: bool) -> Seq<(Request, Reply)> {
    if force {
        seq![
            (Request::StopNeo4j(false), Reply::Done),
            (Request::DeleteFile(backup_of(size)), Reply::Done),
            (Request::CleanNeo4j, Reply::Done),
        ]
    } else {
        seq![
            (Request::StopNeo4j(false), Reply::Done),
            (Request::FileExists(backup_of(size)), Reply::Flag(false)),
        ]
    }
}

/// How the graph is made sure to be empty before the import.
pub open spec fn graph_is_emptied(nodes: u64, relations: u64) -> Seq<(Request, Reply)> {
    if nodes == 0 && relations == 0 {
        seq![
            (Request::StartNeo4j, Reply::Done),
            (Request::ConnectNeo4j, Reply::Done),
            (Request::GraphSize(Vendor::Neo4j), Reply::Counts { nodes, relations }),
        ]
    } else {
        seq![
            (Request::StartNeo4j, Reply::Done),
            (Request::ConnectNeo4j, Reply::Done),
            (Request::GraphSize(Vendor::Neo4j), Reply::Counts { nodes, relations }),
            (Request::StopNeo4j(false), Reply::Done),
            (Request::CleanNeo4j, Reply::Done),
            (Request::StopNeo4j(true), Reply::Done),
        ]
    }
}

/// The import of a data set of the size and its backup.
pub open spec fn data_is_imported(size: Size, nodes: u64, relations: u64) -> Seq<(Request, Reply)> {
    seq![
        (Request::CreateHistogram, Reply::Done),
        (Request::OpenIndexes { vendor: Vendor::Neo4j, size }, Reply::Done),
        (Request::ImportStatements, Reply::Done),
        (Request::OpenData { vendor: Vendor::Neo4j, size }, Reply::Done),
        (Request::ImportStatements, Reply::Done),
        (Request::GraphSize(Vendor::Neo4j), Reply::Counts { nodes, relations }),
        (Request::StopNeo4j(true), Reply::Done),
        (Request::DumpNeo4j(size), Reply::Done),
        (Request::ShowHistogram, Reply::Done),
    ]
}

/// Where the backup is there and loading is not forced, nothing but the server is touched.
pub proof fn backup_spares_the_load(size: Size)
    ensures
        flow::ends(
            LoadNeo4j { size, force: false, stage: LoadNeo4jStage::StoppingFirst },
            seq![
                (Request::StopNeo4j(false), Reply::Done),
                (Request::FileExists(backup_of(size)), Reply::Flag(true)),
            ],
            Ok(()),
        ),
{
    reveal_with_fuel(flow::follows_from, 4);
    reveal_with_fuel(flow::played_from, 4);
}

/// Where the graph is found not to be empty, the server is stopped, the database is removed
/// and the server stopped for good before the import begins, whether or not loading is
/// forced.
pub proof fn filled_graph_is_cleaned_before_import(load: LoadNeo4j, nodes: u64, relations: u64)
    requires
        load.stage is Sizing,
        nodes != 0 || relations != 0,
    ensures
        flow::comes_to(
            load,
            seq![
                (Request::GraphSize(Vendor::Neo4j), Reply::Counts { nodes, relations }),
                (Request::StopNeo4j(false), Reply::Done),
                (Request::CleanNeo4j, Reply::Done),
                (Request::StopNeo4j(true), Reply::Done),
            ],
            Request::CreateHistogram,
        ),
{
    reveal_with_fuel(flow::follows_from, 6);
    reveal_with_fuel(flow::played_from, 6);
}

/// A load into Neo4j whose steps are all done begins afresh, empties the graph where it is
/// not empty, imports the indexes and then the data of the size that it was asked for,
/// stops the server, makes the backup of that size, shows the durations, and has
/// succeeded. How much was loaded makes no difference.
pub proof fn load_goes_from_start_to_backup(
    size: Size,
    force: bool,
    nodes: u64,
    relations: u64,
    loaded_nodes: u64,
    loaded_relations: u64,
)
    ensures
        flow::ends(
            LoadNeo4j { size, force, stage: LoadNeo4jStage::StoppingFirst },
            load_begins(size, force) + graph_is_emptied(nodes, relations) + data_is_imported(
                size,
                loaded_nodes,
                loaded_relations,
            ),
            Ok(()),
        ),
{
    let load = LoadNeo4j { size, force, stage: LoadNeo4jStage::StoppingFirst };
    let starting = LoadNeo4j { stage: LoadNeo4jStage::Starting, ..load };
    let importing = LoadNeo4j { stage: LoadNeo4jStage::CreatingHistogram, ..load };
    let (first, second, third) = (
        load_begins(size, force),
        graph_is_emptied(nodes, relations),
        data_is_imported(size, loaded_nodes, loaded_relations),
    );
    assert(flow::arrives(load, first, starting)) by {
        reveal_with_fuel(flow::follows_from, 5);
        reveal_with_fuel(flow::played_from, 5);
    }
    assert(flow::arrives(starting, second, importing)) by {
        reveal_with_fuel(flow::follows_from, 8);
        reveal_with_fuel(flow::played_from, 8);
    }
    assert(flow::ends(importing, third, Ok(()))) by {
        reveal_with_fuel(flow::follows_from, 11);
        reveal_with_fuel(flow::played_from, 11);
    }
    flow::script_in_parts(load, first, second);
    flow::script_in_parts(load, first + second, third);
}

/// The first step of a load into Neo4j that fails is the last, and its error is given.
pub proof fn failed_load_gives_its_error(load: LoadNeo4j, e: BenchmarkError)
    requires
        !(load.stage is Ended) && !(load.stage is Probing) && !(load.stage is Showing),
    ensures
        ({
            let failed = load.after(Reply::Failed(e));
            &&& failed.request() is None
            &&& flow::gives_only(failed, Err(e))
        }),
{
}

// ---------------------------------------------------------------------------
// FalkorDB

/// The statements, taken one by one and run on FalkorDB.
pub open spec fn statements_are_run(statements: Seq<String>) -> Seq<(Request, Reply)>
    decreases statements.len(),
{
    if statements.len() == 0 {
        Seq::empty()
    } else {
        statements_are_run(statements.drop_last()) + seq![
            (Request::NextStatement, Reply::Line(statements.last())),
            (
                Request::ExecuteQuery {
                    vendor: Vendor::Falkor,
                    spawn_id: "loader"@,
                    name: ""@,
                    query: statements.last()@,
                },
                Reply::Done,
            ),
        ]
    }
}

/// What comes before the statements: a clean server with its index, and the data of the
/// size.
pub open spec fn falkor_is_prepared(size: Size) -> Seq<(Request, Reply)> {
    seq![
        (Request::CleanFalkor, Reply::Done),
        (Request::StartFalkor, Reply::Done),
        (Request::ConnectFalkor, Reply::Done),
        (
            Request::ExecuteQuery {
                vendor: Vendor::Falkor,
                spawn_id: "main"@,
                name: "create_index"@,
                query: "CREATE INDEX FOR (u:User) ON (u.id)"@,
            },
            Reply::Done,
        ),
        (Request::OpenData { vendor: Vendor::Neo4j, size }, Reply::Done),
    ]
}

/// What comes after the statements: the server is stopped and its data kept as the dump of
/// the size.
pub open spec fn falkor_is_saved(size: Size, nodes: u64, relations: u64) -> Seq<(Request, Reply)> {
    seq![
        (Request::NextStatement, Reply::End),
        (Request::GraphSize(Vendor::Falkor), Reply::Counts { nodes, relations }),
        (Request::StopFalkor, Reply::Done),
        (Request::SaveDump(size), Reply::Done),
    ]
}

proof fn lemma_statements_are_run(load: LoadFalkor, statements: Seq<String>)
    requires
        load.stage is Reading,
    ensures
        flow::arrives(load, statements_are_run(statements), load),
    decreases statements.len(),
{
    if statements.len() > 0 {
        let before = statements.drop_last();
        let last = seq![
            (Request::NextStatement, Reply::Line(statements.last())),
            (
                Request::ExecuteQuery {
                    vendor: Vendor::Falkor,
                    spawn_id: "loader"@,
                    name: ""@,
                    query: statements.last()@,
                },
                Reply::Done,
            ),
        ];
        lemma_statements_are_run(load, before);
        assert(flow::arrives(load, last, load)) by {
            reveal_with_fuel(flow::follows_from, 4);
            reveal_with_fuel(flow::played_from, 4);
        }
        flow::script_in_parts(load, statements_are_run(before), last);
    }
}

/// A load into FalkorDB whose steps are all done opens the data of the size that it was
/// asked for, runs every statement in order, and keeps the result as the dump of that size.
pub proof fn falkor_load_goes_from_start_to_dump(
    size: Size,
    statements: Seq<String>,
    nodes: u64,
    relations: u64,
)
    ensures
        flow::ends(
            LoadFalkor { size, stage: LoadFalkorStage::Cleaning },
            falkor_is_prepared(size) + statements_are_run(statements) + falkor_is_saved(
                size,
                nodes,
                relations,
            ),
            Ok(()),
        ),
{
    let load = LoadFalkor { size, stage: LoadFalkorStage::Cleaning };
    let reading = LoadFalkor { stage: LoadFalkorStage::Reading, ..load };
    let (first, second, third) = (
        falkor_is_prepared(size),
        statements_are_run(statements),
        falkor_is_saved(size, nodes, relations),
    );
    assert(flow::arrives(load, first, reading)) by {
        reveal_with_fuel(flow::follows_from, 7);
        reveal_with_fuel(flow::played_from, 7);
    }
    lemma_statements_are_run(reading, statements);
    assert(flow::ends(reading, third, Ok(()))) by {
        reveal_with_fuel(flow::follows_from, 6);
        reveal_with_fuel(flow::played_from, 6);
    }
    flow::script_in_parts(load, first, second);
    flow::script_in_parts(load, first + second, third);
}

/// A line that cannot be read is passed over.
pub proof fn unreadable_line_is_passed_over(load: LoadFalkor, e: BenchmarkError)
    requires
        load.stage is Reading,
    ensures
        flow::arrives(load, seq![(Request::NextStatement, Reply::LineFailed(e))], load),
{
    reveal_with_fuel(flow::follows_from, 3);
    reveal_with_fuel(flow::played_from, 3);
}

/// A step of a load into FalkorDB that fails while the server is up is followed by the end
/// of the server; then, or at once where the server is not up, the error is given.
pub proof fn failed_falkor_load_gives_its_error(load: LoadFalkor, e: BenchmarkError)
    requires
        !(load.stage is Ended) && !(load.stage is Dropping) && !(load.stage is Reading),
    ensures
        ({
            let failed = load.after(Reply::Failed(e));
            let down = failed.after(Reply::Done);
            match load.stage {
                LoadFalkorStage::Cleaning
                | LoadFalkorStage::Starting
                | LoadFalkorStage::Stopping
                | LoadFalkorStage::Saving => {
                    &&& failed.request() is None
                    &&& flow::gives_only(failed, Err(e))
                },
                _ => {
                    &&& failed.request() == Some(Request::DropFalkor)
                    &&& down.request() is None
                    &&& flow::gives_only(down, Err(e))
                },
            }
        }),
{
}

} // verus!
