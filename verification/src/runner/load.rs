//! Loading a data set into a database.
use vstd::pervasive::unreached;
use vstd::prelude::*;
use vstd::string::*;
use crate::action;
use crate::action::{Action, Reply, Request};
use crate::error::{BenchmarkError, BenchmarkResult};
use crate::falkor::falkor_server;
use crate::falkor::falkor_server::FalkorServer;
use crate::flow;
use crate::flow::Flow;
use crate::scenario;
use crate::scenario::{Name, Size, Spec, Vendor};

verus! {

// ---------------------------------------------------------------------------
// Neo4j

/// The backup that a loaded Neo4j leaves.
pub open spec fn backup_file(size: Size) -> Seq<char> {
    scenario::data_set_dir("./backups"@, Vendor::Neo4j, Name::Users, size) + "/neo4j.dump"@
}

/// The backup that a loaded Neo4j leaves.
fn backup_file_text(size: Size) -> (s: String)
    ensures
        s@ == backup_file(size),
{
    let spec = Spec::new(Name::Users, size, Vendor::Neo4j);
    spec.backup_path().concat("/neo4j.dump")
}

/// Where the loading of Neo4j stands.
pub enum LoadNeo4jStage {
    StoppingFirst,
    Probing,
    DeletingBackup,
    Cleaning,
    Starting,
    Connecting,
    Sizing,
    /// The graph is not empty.
    StoppingAgain,
    CleaningAgain,
    StoppingCleaned,
    CreatingHistogram,
    OpeningIndexes,
    ImportingIndexes,
    OpeningData,
    ImportingData,
    SizingLoaded,
    StoppingLast,
    Dumping,
    Showing,
    Ended(BenchmarkResult<()>),
}

/// Loads a data set into Neo4j.
pub struct LoadNeo4j {
    pub size: Size,
    pub force: bool,
    pub stage: LoadNeo4jStage,
}

/// Loads the users into Neo4j. Where a backup is there, nothing is loaded unless `force`
/// is given, which deletes the backup and the data first.
pub fn init_neo4j(size: Size, force: bool) -> (flow: LoadNeo4j)
    ensures
        flow == (LoadNeo4j { size, force, stage: LoadNeo4jStage::StoppingFirst }),
{
    LoadNeo4j { size, force, stage: LoadNeo4jStage::StoppingFirst }
}

impl LoadNeo4j {
    /// The stage after a step that is done.
    pub open spec fn stage_done(&self) -> LoadNeo4jStage {
        match self.stage {
            LoadNeo4jStage::StoppingFirst => if self.force {
                LoadNeo4jStage::DeletingBackup
            } else {
                LoadNeo4jStage::Probing
            },
            LoadNeo4jStage::DeletingBackup => LoadNeo4jStage::Cleaning,
            LoadNeo4jStage::Cleaning => LoadNeo4jStage::Starting,
            LoadNeo4jStage::Starting => LoadNeo4jStage::Connecting,
            LoadNeo4jStage::Connecting => LoadNeo4jStage::Sizing,
            LoadNeo4jStage::StoppingAgain => LoadNeo4jStage::CleaningAgain,
            LoadNeo4jStage::CleaningAgain => LoadNeo4jStage::StoppingCleaned,
            LoadNeo4jStage::StoppingCleaned => LoadNeo4jStage::CreatingHistogram,
            LoadNeo4jStage::CreatingHistogram => LoadNeo4jStage::OpeningIndexes,
            LoadNeo4jStage::OpeningIndexes => LoadNeo4jStage::ImportingIndexes,
            LoadNeo4jStage::ImportingIndexes => LoadNeo4jStage::OpeningData,
            LoadNeo4jStage::OpeningData => LoadNeo4jStage::ImportingData,
            LoadNeo4jStage::ImportingData => LoadNeo4jStage::SizingLoaded,
            LoadNeo4jStage::StoppingLast => LoadNeo4jStage::Dumping,
            LoadNeo4jStage::Dumping => LoadNeo4jStage::Showing,
            LoadNeo4jStage::Showing => LoadNeo4jStage::Ended(Ok(())),
            stage => stage,
        }
    }

    /// The stage after a reply.
    pub open spec fn stage_after(&self, reply: Reply) -> LoadNeo4jStage {
        match (self.stage, reply) {
            (LoadNeo4jStage::Ended(r), _) => LoadNeo4jStage::Ended(r),
            (LoadNeo4jStage::Probing, Reply::Flag(true)) => LoadNeo4jStage::Ended(Ok(())),
            (LoadNeo4jStage::Probing, Reply::Flag(false)) => LoadNeo4jStage::Starting,
            (LoadNeo4jStage::Probing, _) => LoadNeo4jStage::Probing,
            (LoadNeo4jStage::Showing, Reply::Failed(_)) => LoadNeo4jStage::Showing,
            (LoadNeo4jStage::Sizing, Reply::Counts { nodes, relations }) => if nodes != 0
                || relations != 0 {
                LoadNeo4jStage::StoppingAgain
            } else {
                LoadNeo4jStage::CreatingHistogram
            },
            (LoadNeo4jStage::SizingLoaded, Reply::Counts { nodes, relations }) =>
                LoadNeo4jStage::StoppingLast,
            (_, Reply::Failed(e)) => LoadNeo4jStage::Ended(Err(e)),
            (_, Reply::Done) => self.stage_done(),
            (stage, _) => stage,
        }
    }

    fn done(stage: LoadNeo4jStage, force: bool) -> (next: LoadNeo4jStage)
        ensures
            forall|size: Size| #[trigger]
                (LoadNeo4j { size, force, stage }).stage_done() == next,
    {
        match stage {
            LoadNeo4jStage::StoppingFirst => {
                if force {
                    LoadNeo4jStage::DeletingBackup
                } else {
                    LoadNeo4jStage::Probing
                }
            },
            LoadNeo4jStage::DeletingBackup => LoadNeo4jStage::Cleaning,
            LoadNeo4jStage::Cleaning => LoadNeo4jStage::Starting,
            LoadNeo4jStage::Starting => LoadNeo4jStage::Connecting,
            LoadNeo4jStage::Connecting => LoadNeo4jStage::Sizing,
            LoadNeo4jStage::StoppingAgain => LoadNeo4jStage::CleaningAgain,
            LoadNeo4jStage::CleaningAgain => LoadNeo4jStage::StoppingCleaned,
            LoadNeo4jStage::StoppingCleaned => LoadNeo4jStage::CreatingHistogram,
            LoadNeo4jStage::CreatingHistogram => LoadNeo4jStage::OpeningIndexes,
            LoadNeo4jStage::OpeningIndexes => LoadNeo4jStage::ImportingIndexes,
            LoadNeo4jStage::ImportingIndexes => LoadNeo4jStage::OpeningData,
            LoadNeo4jStage::OpeningData => LoadNeo4jStage::ImportingData,
            LoadNeo4jStage::ImportingData => LoadNeo4jStage::SizingLoaded,
            LoadNeo4jStage::StoppingLast => LoadNeo4jStage::Dumping,
            LoadNeo4jStage::Dumping => LoadNeo4jStage::Showing,
            LoadNeo4jStage::Showing => LoadNeo4jStage::Ended(Ok(())),
            stage => stage,
        }
    }
}

impl Flow for LoadNeo4j {
    type Output = ();

    open spec fn request(&self) -> Option<Request> {
        match self.stage {
            LoadNeo4jStage::StoppingFirst => Some(Request::StopNeo4j(false)),
            LoadNeo4jStage::Probing => Some(Request::FileExists(backup_file(self.size))),
            LoadNeo4jStage::DeletingBackup => Some(Request::DeleteFile(backup_file(self.size))),
            LoadNeo4jStage::Cleaning => Some(Request::CleanNeo4j),
            LoadNeo4jStage::Starting => Some(Request::StartNeo4j),
            LoadNeo4jStage::Connecting => Some(Request::ConnectNeo4j),
            LoadNeo4jStage::Sizing => Some(Request::GraphSize(Vendor::Neo4j)),
            LoadNeo4jStage::StoppingAgain => Some(Request::StopNeo4j(false)),
            LoadNeo4jStage::CleaningAgain => Some(Request::CleanNeo4j),
            LoadNeo4jStage::StoppingCleaned => Some(Request::StopNeo4j(true)),
            LoadNeo4jStage::CreatingHistogram => Some(Request::CreateHistogram),
            LoadNeo4jStage::OpeningIndexes => Some(
                Request::OpenIndexes { vendor: Vendor::Neo4j, size: self.size },
            ),
            LoadNeo4jStage::ImportingIndexes => Some(Request::ImportStatements),
            LoadNeo4jStage::OpeningData => Some(
                Request::OpenData { vendor: Vendor::Neo4j, size: self.size },
            ),
            LoadNeo4jStage::ImportingData => Some(Request::ImportStatements),
            LoadNeo4jStage::SizingLoaded => Some(Request::GraphSize(Vendor::Neo4j)),
            LoadNeo4jStage::StoppingLast => Some(Request::StopNeo4j(true)),
            LoadNeo4jStage::Dumping => Some(Request::DumpNeo4j(self.size)),
            LoadNeo4jStage::Showing => Some(Request::ShowHistogram),
            LoadNeo4jStage::Ended(_) => None,
        }
    }

    open spec fn after(self, reply: Reply) -> Self {
        LoadNeo4j { stage: self.stage_after(reply), ..self }
    }

    open spec fn gives(&self, result: BenchmarkResult<()>) -> bool {
        self.stage == LoadNeo4jStage::Ended(result)
    }

    proof fn goes_on(self, reply: Reply) {
    }

    fn action(&self) -> (action: Option<Action>) {
        match &self.stage {
            LoadNeo4jStage::StoppingFirst => Some(Action::StopNeo4j(false)),
            LoadNeo4jStage::Probing => Some(Action::FileExists(backup_file_text(self.size))),
            LoadNeo4jStage::DeletingBackup => Some(
                Action::DeleteFile(backup_file_text(self.size)),
            ),
            LoadNeo4jStage::Cleaning => Some(Action::CleanNeo4j),
            LoadNeo4jStage::Starting => Some(Action::StartNeo4j),
            LoadNeo4jStage::Connecting => Some(Action::ConnectNeo4j),
            LoadNeo4jStage::Sizing => Some(Action::GraphSize(Vendor::Neo4j)),
            LoadNeo4jStage::StoppingAgain => Some(Action::StopNeo4j(false)),
            LoadNeo4jStage::CleaningAgain => Some(Action::CleanNeo4j),
            LoadNeo4jStage::StoppingCleaned => Some(Action::StopNeo4j(true)),
            LoadNeo4jStage::CreatingHistogram => Some(Action::CreateHistogram),
            LoadNeo4jStage::OpeningIndexes => Some(
                Action::OpenIndexes { vendor: Vendor::Neo4j, size: self.size },
            ),
            LoadNeo4jStage::ImportingIndexes => Some(Action::ImportStatements),
            LoadNeo4jStage::OpeningData => Some(
                Action::OpenData { vendor: Vendor::Neo4j, size: self.size },
            ),
            LoadNeo4jStage::ImportingData => Some(Action::ImportStatements),
            LoadNeo4jStage::SizingLoaded => Some(Action::GraphSize(Vendor::Neo4j)),
            LoadNeo4jStage::StoppingLast => Some(Action::StopNeo4j(true)),
            LoadNeo4jStage::Dumping => Some(Action::DumpNeo4j(self.size)),
            LoadNeo4jStage::Showing => Some(Action::ShowHistogram),
            LoadNeo4jStage::Ended(_) => None,
        }
    }

    fn next(self, reply: Reply) -> (state: Self) {
        let stage = match (self.stage, reply) {
            (LoadNeo4jStage::Ended(r), _) => LoadNeo4jStage::Ended(r),
            (LoadNeo4jStage::Probing, Reply::Flag(true)) => LoadNeo4jStage::Ended(Ok(())),
            (LoadNeo4jStage::Probing, Reply::Flag(false)) => LoadNeo4jStage::Starting,
            (LoadNeo4jStage::Probing, _) => LoadNeo4jStage::Probing,
            (LoadNeo4jStage::Showing, Reply::Failed(_)) => LoadNeo4jStage::Showing,
            (LoadNeo4jStage::Sizing, Reply::Counts { nodes, relations }) => {
                if nodes != 0 || relations != 0 {
                    LoadNeo4jStage::StoppingAgain
                } else {
                    LoadNeo4jStage::CreatingHistogram
                }
            },
            (LoadNeo4jStage::SizingLoaded, Reply::Counts { nodes, relations }) =>
                LoadNeo4jStage::StoppingLast,
            (_, Reply::Failed(e)) => LoadNeo4jStage::Ended(Err(e)),
            (stage, Reply::Done) => LoadNeo4j::done(stage, self.force),
            (stage, _) => stage,
        };
        LoadNeo4j { stage, ..self }
    }

    fn finish(self) -> (result: BenchmarkResult<()>) {
        match self.stage {
            LoadNeo4jStage::Ended(r) => r,
            _ => unreached(),
        }
    }
}

/// Where a backup is there and loading is not forced, nothing changes but that a server
/// that was running is stopped.
pub proof fn loaded_data_is_kept(size: Size)
    ensures
        ({
            let load = LoadNeo4j { size, force: false, stage: LoadNeo4jStage::StoppingFirst };
            let replies = seq![Reply::Done, Reply::Flag(true)];
            &&& flow::requests(load, replies) == seq![
                Some(Request::StopNeo4j(false)),
                Some(Request::FileExists(backup_file(size))),
                None,
            ]
            &&& flow::run(load, replies).gives(Ok(()))
        }),
{
    broadcast use flow::group_flow;

}

/// Loading by force deletes the backup and the data before the server is started.
pub proof fn force_starts_afresh(size: Size)
    ensures
        ({
            let load = LoadNeo4j { size, force: true, stage: LoadNeo4jStage::StoppingFirst };
            flow::requests(load, seq![Reply::Done, Reply::Done, Reply::Done]) == seq![
                Some(Request::StopNeo4j(false)),
                Some(Request::DeleteFile(backup_file(size))),
                Some(Request::CleanNeo4j),
                Some(Request::StartNeo4j),
            ]
        }),
{
    broadcast use flow::group_flow;

}

/// Data is imported only into a graph that was empty or has been cleaned.
pub proof fn import_begins_empty(load: LoadNeo4j, reply: Reply)
    requires
        !(load.stage is CreatingHistogram),
        load.after(reply).stage is CreatingHistogram,
    ensures
        (load.stage is Sizing && reply == (Reply::Counts { nodes: 0, relations: 0 })) || (load.stage
            is StoppingCleaned && reply is Done),
{
}

/// The indexes are made before the data is imported, and the data is imported before the
/// server is stopped and its backup is made.
pub proof fn import_order(load: LoadNeo4j, nodes: u64, relations: u64)
    requires
        load.stage is OpeningIndexes,
    ensures
        ({
            let replies = seq![Reply::Done, Reply::Done, Reply::Done, Reply::Done];
            let imported = flow::run(load, replies);
            let counted = imported.after(Reply::Counts { nodes, relations });
            &&& flow::requests(load, replies) == seq![
                Some(Request::OpenIndexes { vendor: Vendor::Neo4j, size: load.size }),
                Some(Request::ImportStatements),
                Some(Request::OpenData { vendor: Vendor::Neo4j, size: load.size }),
                Some(Request::ImportStatements),
            ].push(Some(Request::GraphSize(Vendor::Neo4j)))
            &&& flow::requests(counted, seq![Reply::Done, Reply::Done, Reply::Done]) == seq![
                Some(Request::StopNeo4j(true)),
                Some(Request::DumpNeo4j(load.size)),
                Some(Request::ShowHistogram),
                None,
            ]
            &&& flow::run(counted, seq![Reply::Done, Reply::Done, Reply::Done]).gives(Ok(()))
        }),
{
    broadcast use flow::group_flow;

}

/// The first step that fails ends the loading with its error.
pub proof fn first_failure_ends_the_load(load: LoadNeo4j, e: BenchmarkError)
    requires
        !(load.stage is Ended) && !(load.stage is Probing) && !(load.stage is Showing),
    ensures
        load.after(Reply::Failed(e)).gives(Err(e)),
{
}

// ---------------------------------------------------------------------------
// FalkorDB

/// Where the loading of FalkorDB stands.
pub enum LoadFalkorStage {
    Cleaning,
    Starting,
    Connecting,
    Indexing,
    OpeningData,
    Reading,
    Loading { statement: String },
    Sizing,
    Stopping,
    Saving,
    /// The loading has failed while the server was up.
    Dropping(BenchmarkError),
    Ended(BenchmarkResult<()>),
}

/// Loads a data set into FalkorDB.
pub struct LoadFalkor {
    pub size: Size,
    pub stage: LoadFalkorStage,
}

/// Loads the users into FalkorDB. The data that was there is removed, whether or not
/// loading is forced.
pub fn init_falkor(size: Size, _force: bool) -> (flow: LoadFalkor)
    ensures
        flow == (LoadFalkor { size, stage: LoadFalkorStage::Cleaning }),
{
    LoadFalkor { size, stage: LoadFalkorStage::Cleaning }
}

/// The execution of a query on FalkorDB.
pub open spec fn falkor_execution(
    spawn_id: Seq<char>,
    name: Seq<char>,
    query: Seq<char>,
) -> Request {
    Request::ExecuteQuery { vendor: Vendor::Falkor, spawn_id, name, query }
}

impl LoadFalkor {
    /// The stage after a reply.
    pub open spec fn stage_after(&self, reply: Reply) -> LoadFalkorStage {
        match (self.stage, reply) {
            (LoadFalkorStage::Cleaning, Reply::Done) => LoadFalkorStage::Starting,
            (LoadFalkorStage::Cleaning, Reply::Failed(e)) => LoadFalkorStage::Ended(Err(e)),
            (LoadFalkorStage::Starting, Reply::Done) => LoadFalkorStage::Connecting,
            (LoadFalkorStage::Starting, Reply::Failed(e)) => LoadFalkorStage::Ended(Err(e)),
            (LoadFalkorStage::Connecting, Reply::Done) => LoadFalkorStage::Indexing,
            (LoadFalkorStage::Connecting, Reply::Failed(e)) => LoadFalkorStage::Dropping(e),
            (LoadFalkorStage::Indexing, Reply::Done) => LoadFalkorStage::OpeningData,
            (LoadFalkorStage::Indexing, Reply::Failed(e)) => LoadFalkorStage::Dropping(e),
            (LoadFalkorStage::OpeningData, Reply::Done) => LoadFalkorStage::Reading,
            (LoadFalkorStage::OpeningData, Reply::Failed(e)) => LoadFalkorStage::Dropping(e),
            (LoadFalkorStage::Reading, Reply::Line(statement)) => LoadFalkorStage::Loading {
                statement,
            },
            (LoadFalkorStage::Reading, Reply::LineFailed(_)) => LoadFalkorStage::Reading,
            (LoadFalkorStage::Reading, Reply::End) => LoadFalkorStage::Sizing,
            (LoadFalkorStage::Loading { statement }, Reply::Done) => LoadFalkorStage::Reading,
            (LoadFalkorStage::Loading { statement }, Reply::Failed(e)) => LoadFalkorStage::Dropping(
                e,
            ),
            (LoadFalkorStage::Sizing, Reply::Counts { nodes, relations }) =>
                LoadFalkorStage::Stopping,
            (LoadFalkorStage::Sizing, Reply::Failed(e)) => LoadFalkorStage::Dropping(e),
            (LoadFalkorStage::Stopping, Reply::Done) => LoadFalkorStage::Saving,
            (LoadFalkorStage::Stopping, Reply::Failed(e)) => LoadFalkorStage::Ended(Err(e)),
            (LoadFalkorStage::Saving, Reply::Done) => LoadFalkorStage::Ended(Ok(())),
            (LoadFalkorStage::Saving, Reply::Failed(e)) => LoadFalkorStage::Ended(Err(e)),
            (LoadFalkorStage::Dropping(e), Reply::Done) => LoadFalkorStage::Ended(Err(e)),
            (stage, _) => stage,
        }
    }
}

impl Flow for LoadFalkor {
    type Output = ();

    open spec fn request(&self) -> Option<Request> {
        match self.stage {
            LoadFalkorStage::Cleaning => Some(Request::CleanFalkor),
            LoadFalkorStage::Starting => Some(Request::StartFalkor),
            LoadFalkorStage::Connecting => Some(Request::ConnectFalkor),
            LoadFalkorStage::Indexing => Some(
                falkor_execution(
                    "main"@,
                    "create_index"@,
                    "CREATE INDEX FOR (u:User) ON (u.id)"@,
                ),
            ),
            LoadFalkorStage::OpeningData => Some(
                Request::OpenData { vendor: Vendor::Neo4j, size: self.size },
            ),
            LoadFalkorStage::Reading => Some(Request::NextStatement),
            LoadFalkorStage::Loading { statement } => Some(
                falkor_execution("loader"@, ""@, statement@),
            ),
            LoadFalkorStage::Sizing => Some(Request::GraphSize(Vendor::Falkor)),
            LoadFalkorStage::Stopping => Some(Request::StopFalkor),
            LoadFalkorStage::Saving => Some(Request::SaveDump(self.size)),
            LoadFalkorStage::Dropping(_) => Some(Request::DropFalkor),
            LoadFalkorStage::Ended(_) => None,
        }
    }

    open spec fn after(self, reply: Reply) -> Self {
        LoadFalkor { stage: self.stage_after(reply), ..self }
    }

    open spec fn gives(&self, result: BenchmarkResult<()>) -> bool {
        self.stage == LoadFalkorStage::Ended(result)
    }

    proof fn goes_on(self, reply: Reply) {
    }

    fn action(&self) -> (action: Option<Action>) {
        match &self.stage {
            LoadFalkorStage::Cleaning => Some(Action::CleanFalkor),
            LoadFalkorStage::Starting => Some(Action::StartFalkor),
            LoadFalkorStage::Connecting => Some(Action::ConnectFalkor),
            LoadFalkorStage::Indexing => Some(
                Action::ExecuteQuery {
                    vendor: Vendor::Falkor,
                    spawn_id: "main".to_string(),
                    name: "create_index".to_string(),
                    query: "CREATE INDEX FOR (u:User) ON (u.id)".to_string(),
                },
            ),
            LoadFalkorStage::OpeningData => Some(
                Action::OpenData { vendor: Vendor::Neo4j, size: self.size },
            ),
            LoadFalkorStage::Reading => Some(Action::NextStatement),
            LoadFalkorStage::Loading { statement } => Some(
                Action::ExecuteQuery {
                    vendor: Vendor::Falkor,
                    spawn_id: "loader".to_string(),
                    name: "".to_string(),
                    query: statement.clone(),
                },
            ),
            LoadFalkorStage::Sizing => Some(Action::GraphSize(Vendor::Falkor)),
            LoadFalkorStage::Stopping => Some(Action::StopFalkor),
            LoadFalkorStage::Saving => Some(Action::SaveDump(self.size)),
            LoadFalkorStage::Dropping(_) => Some(Action::DropFalkor),
            LoadFalkorStage::Ended(_) => None,
        }
    }

    fn next(self, reply: Reply) -> (state: Self) {
        let stage = match (self.stage, reply) {
            (LoadFalkorStage::Cleaning, Reply::Done) => LoadFalkorStage::Starting,
            (LoadFalkorStage::Cleaning, Reply::Failed(e)) => LoadFalkorStage::Ended(Err(e)),
            (LoadFalkorStage::Starting, Reply::Done) => LoadFalkorStage::Connecting,
            (LoadFalkorStage::Starting, Reply::Failed(e)) => LoadFalkorStage::Ended(Err(e)),
            (LoadFalkorStage::Connecting, Reply::Done) => LoadFalkorStage::Indexing,
            (LoadFalkorStage::Connecting, Reply::Failed(e)) => LoadFalkorStage::Dropping(e),
            (LoadFalkorStage::Indexing, Reply::Done) => LoadFalkorStage::OpeningData,
            (LoadFalkorStage::Indexing, Reply::Failed(e)) => LoadFalkorStage::Dropping(e),
            (LoadFalkorStage::OpeningData, Reply::Done) => LoadFalkorStage::Reading,
            (LoadFalkorStage::OpeningData, Reply::Failed(e)) => LoadFalkorStage::Dropping(e),
            (LoadFalkorStage::Reading, Reply::Line(statement)) => LoadFalkorStage::Loading {
                statement,
            },
            (LoadFalkorStage::Reading, Reply::LineFailed(_)) => LoadFalkorStage::Reading,
            (LoadFalkorStage::Reading, Reply::End) => LoadFalkorStage::Sizing,
            (LoadFalkorStage::Loading { statement }, Reply::Done) => LoadFalkorStage::Reading,
            (LoadFalkorStage::Loading { statement }, Reply::Failed(e)) => LoadFalkorStage::Dropping(
                e,
            ),
            (LoadFalkorStage::Sizing, Reply::Counts { nodes, relations }) =>
                LoadFalkorStage::Stopping,
            (LoadFalkorStage::Sizing, Reply::Failed(e)) => LoadFalkorStage::Dropping(e),
            (LoadFalkorStage::Stopping, Reply::Done) => LoadFalkorStage::Saving,
            (LoadFalkorStage::Stopping, Reply::Failed(e)) => LoadFalkorStage::Ended(Err(e)),
            (LoadFalkorStage::Saving, Reply::Done) => LoadFalkorStage::Ended(Ok(())),
            (LoadFalkorStage::Saving, Reply::Failed(e)) => LoadFalkorStage::Ended(Err(e)),
            (LoadFalkorStage::Dropping(e), Reply::Done) => LoadFalkorStage::Ended(Err(e)),
            (stage, _) => stage,
        };
        LoadFalkor { stage, ..self }
    }

    fn finish(self) -> (result: BenchmarkResult<()>) {
        match self.stage {
            LoadFalkorStage::Ended(r) => r,
            _ => unreached(),
        }
    }
}

impl LoadFalkor {
    /// Whether the server is up.
    pub open spec fn server_is_up(&self) -> bool {
        match self.stage {
            LoadFalkorStage::Cleaning
            | LoadFalkorStage::Starting
            | LoadFalkorStage::Saving
            | LoadFalkorStage::Ended(_) => false,
            _ => true,
        }
    }
}

/// Once the server is up it stays up until it is stopped or, after a failure, let go; the
/// dump is saved only after it was stopped.
pub proof fn server_is_taken_down(load: LoadFalkor, reply: Reply)
    requires
        load.server_is_up(),
    ensures
        load.request() is Some,
        load.after(reply).server_is_up() || load.request() == Some(Request::StopFalkor)
            || load.request() == Some(Request::DropFalkor),
        load.after(reply).stage is Saving ==> load.request() == Some(Request::StopFalkor) && reply
            == Reply::Done,
{
}

/// The server is stopped until the loading starts it, and started until the loading stops it
/// or lets it go: whenever the loading asks for something, the server is as that needs it.
pub proof fn server_is_ready_for_the_load(
    load: LoadFalkor,
    servers: Seq<FalkorServer>,
    replies: Seq<Reply>,
)
    requires
        falkor_server::is_served(load, servers, replies),
        load.server_is_up() ==> servers[0] is Started,
        !load.server_is_up() ==> servers[0] is Stopped || load.request() is None,
    ensures
        ({
            let later = flow::run(load, replies);
            later.request() is Some ==> falkor_server::is_ready_for(
                servers.last(),
                later.request()->0,
            )
        }),
    decreases replies.len(),
{
    if replies.len() > 0 {
        server_is_ready_for_the_load(
            load.after(replies[0]),
            servers.drop_first(),
            replies.drop_first(),
        );
        assert(servers.drop_first().last() == servers.last());
    }
}

/// What comes back while the statements are read and executed one after the other.
pub open spec fn loading_replies(statements: Seq<String>) -> Seq<Reply>
    decreases statements.len(),
{
    if statements.len() == 0 {
        Seq::empty()
    } else {
        loading_replies(statements.drop_last()).push(Reply::Line(statements.last())).push(
            Reply::Done,
        )
    }
}

/// What is asked for while the statements are read and executed one after the other.
pub open spec fn loading_requests(statements: Seq<String>) -> Seq<Option<Request>>
    decreases statements.len(),
{
    if statements.len() == 0 {
        seq![Some(Request::NextStatement)]
    } else {
        loading_requests(statements.drop_last()).push(
            Some(falkor_execution("loader"@, ""@, statements.last()@)),
        ).push(Some(Request::NextStatement))
    }
}

/// Each statement is executed once, in the order in which they are read; one that could
/// not be read is passed over.
pub proof fn statements_are_loaded_in_order(
    load: LoadFalkor,
    statements: Seq<String>,
    e: BenchmarkError,
)
    requires
        load.stage is Reading,
    ensures
        flow::requests(load, loading_replies(statements)) == loading_requests(statements),
        flow::run(load, loading_replies(statements)) == load,
        load.after(Reply::LineFailed(e)) == load,
    decreases statements.len(),
{
    broadcast use flow::group_flow;

    if statements.len() > 0 {
        statements_are_loaded_in_order(load, statements.drop_last(), e);
    }
}

// ---------------------------------------------------------------------------
// A dry run

/// Where a dry run stands.
pub enum DryStage {
    Opening,
    Reading,
    Ended(BenchmarkResult<()>),
}

/// Reads the statements of a data set without loading them, and counts them.
pub struct DryRun {
    pub size: Size,
    pub stage: DryStage,
    /// How many statements could be read.
    pub success: i32,
    /// How many could not.
    pub error: i32,
}

/// Reads the statements that would be loaded into Neo4j, and counts them.
pub fn dry_init_neo4j(size: Size) -> (run: DryRun)
    ensures
        run == (DryRun { size, stage: DryStage::Opening, success: 0, error: 0 }),
{
    DryRun { size, stage: DryStage::Opening, success: 0, error: 0 }
}

impl DryRun {
    /// What is asked for now; nothing once the run has ended.
    pub open spec fn request(&self) -> Option<Request> {
        match self.stage {
            DryStage::Opening => Some(
                Request::OpenData { vendor: Vendor::Neo4j, size: self.size },
            ),
            DryStage::Reading => Some(Request::NextStatement),
            DryStage::Ended(_) => None,
        }
    }

    /// The state after a reply.
    pub open spec fn after(self, reply: Reply) -> DryRun {
        match (self.stage, reply) {
            (DryStage::Opening, Reply::Done) => DryRun { stage: DryStage::Reading, ..self },
            (DryStage::Opening, Reply::Failed(e)) => DryRun {
                stage: DryStage::Ended(Err(e)),
                ..self
            },
            (DryStage::Reading, Reply::Line(_)) => DryRun {
                success: (self.success + 1) as i32,
                ..self
            },
            (DryStage::Reading, Reply::LineFailed(_)) => DryRun {
                error: (self.error + 1) as i32,
                ..self
            },
            (DryStage::Reading, Reply::End) => DryRun { stage: DryStage::Ended(Ok(())), ..self },
            _ => self,
        }
    }

    /// What is asked for now; nothing once the run has ended.
    pub fn action(&self) -> (action: Option<Action>)
        ensures
            action::request_of(action) == self.request(),
    {
        match &self.stage {
            DryStage::Opening => Some(
                Action::OpenData { vendor: Vendor::Neo4j, size: self.size },
            ),
            DryStage::Reading => Some(Action::NextStatement),
            DryStage::Ended(_) => None,
        }
    }

    /// The state after a reply. Neither count may be at the end of its range.
    pub fn next(self, reply: Reply) -> (state: DryRun)
        requires
            self.success < i32::MAX,
            self.error < i32::MAX,
        ensures
            state == self.after(reply),
    {
        match (self.stage, reply) {
            (DryStage::Opening, Reply::Done) => DryRun {
                size: self.size,
                stage: DryStage::Reading,
                success: self.success,
                error: self.error,
            },
            (DryStage::Opening, Reply::Failed(e)) => DryRun {
                size: self.size,
                stage: DryStage::Ended(Err(e)),
                success: self.success,
                error: self.error,
            },
            (DryStage::Reading, Reply::Line(_)) => DryRun {
                size: self.size,
                stage: DryStage::Reading,
                success: self.success + 1,
                error: self.error,
            },
            (DryStage::Reading, Reply::LineFailed(_)) => DryRun {
                size: self.size,
                stage: DryStage::Reading,
                success: self.success,
                error: self.error + 1,
            },
            (DryStage::Reading, Reply::End) => DryRun {
                size: self.size,
                stage: DryStage::Ended(Ok(())),
                success: self.success,
                error: self.error,
            },
            (stage, _) => DryRun {
                size: self.size,
                stage,
                success: self.success,
                error: self.error,
            },
        }
    }

    /// The result of the ended run: how many statements could be read and how many not.
    pub fn finish(self) -> (result: BenchmarkResult<(i32, i32)>)
        requires
            self.request() is None,
        ensures
            match self.stage->Ended_0 {
                Ok(_) => result == BenchmarkResult::<(i32, i32)>::Ok((self.success, self.error)),
                Err(e) => result == BenchmarkResult::<(i32, i32)>::Err(e),
            },
    {
        match self.stage {
            DryStage::Ended(Ok(_)) => Ok((self.success, self.error)),
            DryStage::Ended(Err(e)) => Err(e),
            _ => unreached(),
        }
    }
}

/// A dry run asks for nothing but the statements: no database is touched.
pub proof fn dry_run_only_reads(run: DryRun)
    ensures
        match run.request() {
            Some(request) => request is OpenData || request is NextStatement,
            None => true,
        },
{
}

/// The state after one reply after the other.
pub open spec fn dry_run_after(run: DryRun, replies: Seq<Reply>) -> DryRun
    decreases replies.len(),
{
    if replies.len() == 0 {
        run
    } else {
        dry_run_after(run, replies.drop_last()).after(replies.last())
    }
}

/// How many of the replies are statements that could be read.
pub open spec fn lines_read(replies: Seq<Reply>) -> nat
    decreases replies.len(),
{
    if replies.len() == 0 {
        0
    } else {
        lines_read(replies.drop_last()) + if replies.last() is Line {
            1nat
        } else {
            0nat
        }
    }
}

/// Every statement is counted once: those that could be read as such, and the others as
/// errors.
pub proof fn dry_run_counts_each(run: DryRun, replies: Seq<Reply>)
    requires
        run.stage is Reading,
        run.success + replies.len() <= i32::MAX,
        run.error + replies.len() <= i32::MAX,
        forall|i: int|
            0 <= i < replies.len() ==> #[trigger] replies[i] is Line || replies[i] is LineFailed,
    ensures
        ({
            let later = dry_run_after(run, replies);
            &&& lines_read(replies) <= replies.len()
            &&& later.success == run.success + lines_read(replies)
            &&& later.error == run.error + (replies.len() - lines_read(replies))
            &&& later.stage is Reading
        }),
    decreases replies.len(),
{
    if replies.len() > 0 {
        let before = replies.drop_last();
        assert forall|i: int| 0 <= i < before.len() implies #[trigger] before[i] is Line
            || before[i] is LineFailed by {
            assert(before[i] == replies[i]);
        }
        dry_run_counts_each(run, before);
        assert(replies.last() == replies[replies.len() - 1]);
    }
}

} // verus!
