//! The data sets that the benchmark knows, and where their files are kept.
use vstd::pervasive::unreached;
use vstd::prelude::*;
use vstd::string::*;
use crate::action::{Action, Reply, Request};
use crate::error::{BenchmarkError, BenchmarkResult};
use crate::flow;
use crate::flow::Flow;
use crate::utils::files;

verus! {

/// How large a data set is.
#[derive(Debug, Clone, Copy, PartialEq, Eq, PartialOrd, Ord, Structural)]
pub enum Size {
    Small,
    Medium,
    Large,
}

/// Which data set.
#[derive(Debug, Clone, Copy, PartialEq, Eq, PartialOrd, Ord, Structural)]
pub enum Name {
    Users,
}

/// Which database.
#[derive(Debug, Clone, Copy, PartialEq, Eq, PartialOrd, Ord, Structural)]
pub enum Vendor {
    Neo4j,
    Falkor,
    Ibex,
}

impl Size {
    /// The name of the size, in lower case.
    pub open spec fn label(self) -> Seq<char> {
        match self {
            Size::Small => "small"@,
            Size::Medium => "medium"@,
            Size::Large => "large"@,
        }
    }

    /// The name of the size, in lower case.
    pub fn to_string(&self) -> (s: String)
        ensures
            s@ == self.label(),
    {
        match self {
            Size::Small => "small".to_string(),
            Size::Medium => "medium".to_string(),
            Size::Large => "large".to_string(),
        }
    }
}

impl Name {
    /// The name of the data set, in lower case.
    pub open spec fn label(self) -> Seq<char> {
        match self {
            Name::Users => "users"@,
        }
    }

    /// The name of the data set, in lower case.
    pub fn to_string(&self) -> (s: String)
        ensures
            s@ == self.label(),
    {
        match self {
            Name::Users => "users".to_string(),
        }
    }
}

impl Vendor {
    /// The name of the database, in lower case.
    pub open spec fn label(self) -> Seq<char> {
        match self {
            Vendor::Neo4j => "neo4j"@,
            Vendor::Falkor => "falkor"@,
            Vendor::Ibex => "ibex"@,
        }
    }

    /// The name of the database, in lower case.
    pub fn to_string(&self) -> (s: String)
        ensures
            s@ == self.label(),
    {
        match self {
            Vendor::Neo4j => "neo4j".to_string(),
            Vendor::Falkor => "falkor".to_string(),
            Vendor::Ibex => "ibex".to_string(),
        }
    }
}

/// A data set of one size for one database.
#[derive(Debug, Clone)]
pub struct Spec<'a> {
    pub name: Name,
    pub vendor: Vendor,
    pub size: Size,
    pub vertices: u64,
    pub edges: u64,
    pub data_url: &'a str,
    pub index_url: &'a str,
}

/// The directory `{root}/{vendor}/{name}/{size}`.
pub open spec fn data_set_dir(root: Seq<char>, vendor: Vendor, name: Name, size: Size) -> Seq<char> {
    root + "/"@ + vendor.label() + "/"@ + name.label() + "/"@ + size.label()
}

/// Where the statements that load the users are published.
pub open spec fn users_data_url(size: Size) -> Seq<char> {
    match size {
        Size::Small =>
            "https://s3.eu-west-1.amazonaws.com/deps.memgraph.io/dataset/pokec/benchmark/pokec_small_import.cypher"@,
        Size::Medium =>
            "https://s3.eu-west-1.amazonaws.com/deps.memgraph.io/dataset/pokec/benchmark/pokec_medium_import.cypher"@,
        Size::Large =>
            "https://s3.eu-west-1.amazonaws.com/deps.memgraph.io/dataset/pokec/benchmark/pokec_large.setup.cypher.gz"@,
    }
}

/// Where the statements that make the indexes of the users are published.
pub open spec fn users_index_url() -> Seq<char> {
    "https://s3.eu-west-1.amazonaws.com/deps.memgraph.io/dataset/pokec/benchmark/neo4j.cypher"@
}

impl Spec<'_> {
    /// The data set `name` of the given size for `vendor`.
    pub fn new(name: Name, size: Size, vendor: Vendor) -> (spec: Self)
        ensures
            spec.name == name,
            spec.size == size,
            spec.vendor == vendor,
            spec.vertices == match size {
                Size::Small => 10_000u64,
                Size::Medium => 100_000u64,
                Size::Large => 1_632_803u64,
            },
            spec.edges == match size {
                Size::Small => 121_716u64,
                Size::Medium => 1_768_515u64,
                Size::Large => 30_622_564u64,
            },
            spec.data_url@ == users_data_url(size),
            spec.index_url@ == users_index_url(),
    {
        match (name, size) {
            (Name::Users, Size::Small) => Spec {
                name: Name::Users,
                size: Size::Small,
                vertices: 10000,  // the user ids run from 1 to 9998
                edges: 121716,
                vendor,
                data_url:
                    "https://s3.eu-west-1.amazonaws.com/deps.memgraph.io/dataset/pokec/benchmark/pokec_small_import.cypher",
                index_url:
                    "https://s3.eu-west-1.amazonaws.com/deps.memgraph.io/dataset/pokec/benchmark/neo4j.cypher",
            },
            (Name::Users, Size::Medium) => Spec {
                name: Name::Users,
                size: Size::Medium,
                vertices: 100000,
                edges: 1768515,
                vendor,
                data_url:
                    "https://s3.eu-west-1.amazonaws.com/deps.memgraph.io/dataset/pokec/benchmark/pokec_medium_import.cypher",
                index_url:
                    "https://s3.eu-west-1.amazonaws.com/deps.memgraph.io/dataset/pokec/benchmark/neo4j.cypher",
            },
            (Name::Users, Size::Large) => Spec {
                name: Name::Users,
                size: Size::Large,
                vertices: 1632803,
                edges: 30622564,
                vendor,
                data_url:
                    "https://s3.eu-west-1.amazonaws.com/deps.memgraph.io/dataset/pokec/benchmark/pokec_large.setup.cypher.gz",
                index_url:
                    "https://s3.eu-west-1.amazonaws.com/deps.memgraph.io/dataset/pokec/benchmark/neo4j.cypher",
            },
        }
    }

    /// `{root}/{vendor}/{name}/{size}` for this data set.
    fn dir_under(&self, root: &str) -> (s: String)
        ensures
            s@ == data_set_dir(root@, self.vendor, self.name, self.size),
    {
        let vendor = self.vendor.to_string();
        let name = self.name.to_string();
        let size = self.size.to_string();
        root.to_string().concat("/").concat(vendor.as_str()).concat("/").concat(
            name.as_str(),
        ).concat("/").concat(size.as_str())
    }

    /// The cached copy of what `url` points to, which is downloaded where it is missing.
    pub fn cache(&self, url: &str) -> (flow: Cache)
        ensures
            flow.url@ == url@,
            flow.dir@ == data_set_dir("./cache"@, self.vendor, self.name, self.size),
            flow.stage == CacheStage::EnsuringDirectory,
    {
        Cache {
            url: url.to_string(),
            dir: self.dir_under("./cache"),
            stage: CacheStage::EnsuringDirectory,
        }
    }

    /// The file with the statements that load the data set.
    pub fn init_data_iterator(&self) -> (flow: Cache)
        ensures
            flow.url@ == self.data_url@,
            flow.dir@ == data_set_dir("./cache"@, self.vendor, self.name, self.size),
            flow.stage == CacheStage::EnsuringDirectory,
    {
        self.cache(self.data_url)
    }

    /// The file with the statements that make the indexes of the data set.
    pub fn init_index_iterator(&self) -> (flow: Cache)
        ensures
            flow.url@ == self.index_url@,
            flow.dir@ == data_set_dir("./cache"@, self.vendor, self.name, self.size),
            flow.stage == CacheStage::EnsuringDirectory,
    {
        self.cache(self.index_url)
    }

    /// The directory that holds the backup of the loaded data set.
    pub fn backup_path(&self) -> (s: String)
        ensures
            s@ == data_set_dir("./backups"@, self.vendor, self.name, self.size),
    {
        self.dir_under("./backups")
    }
}

/// Two data sets share a directory under one root only where they are the same.
pub proof fn data_set_dirs_are_distinct(
    root: Seq<char>,
    vendor1: Vendor,
    name1: Name,
    size1: Size,
    vendor2: Vendor,
    name2: Name,
    size2: Size,
)
    requires
        data_set_dir(root, vendor1, name1, size1) == data_set_dir(root, vendor2, name2, size2),
    ensures
        vendor1 == vendor2,
        name1 == name2,
        size1 == size2,
{
    let d1 = data_set_dir(root, vendor1, name1, size1);
    let d2 = data_set_dir(root, vendor2, name2, size2);
    reveal_strlit("/");
    reveal_strlit("users");
    reveal_strlit("neo4j");
    reveal_strlit("falkor");
    reveal_strlit("ibex");
    reveal_strlit("small");
    reveal_strlit("medium");
    reveal_strlit("large");
    let at = root.len() as int + 1;
    assert(d1[at] == vendor1.label()[0]);
    assert(d2[at] == vendor2.label()[0]);
    assert(vendor1 == vendor2);
    let at_size = at + vendor1.label().len() + 1 + name1.label().len() + 1;
    assert(d1[at_size] == size1.label()[0]);
    assert(d2[at_size] == size2.label()[0]);
}

// ---------------------------------------------------------------------------
// The cache

/// Where the fetching of a cached file stands.
pub enum CacheStage {
    EnsuringDirectory,
    Probing,
    Downloading,
    Cached,
    Failed(BenchmarkError),
}

/// Makes sure of a cached file.
pub struct Cache {
    pub url: String,
    pub dir: String,
    pub stage: CacheStage,
}

impl Cache {
    /// The cached file: in the directory, under the name that it has in the URL.
    pub open spec fn file(&self) -> Seq<char> {
        self.dir@ + "/"@ + files::after_last_slash(self.url@)
    }

    fn file_text(&self) -> (s: String)
        ensures
            s@ == self.file(),
    {
        let name = files::url_file_name(self.url.as_str());
        self.dir.clone().concat("/").concat(name.as_str())
    }

    /// The stage after a reply.
    pub open spec fn stage_after(&self, reply: Reply) -> CacheStage {
        match (self.stage, reply) {
            (CacheStage::EnsuringDirectory, Reply::Done) => CacheStage::Probing,
            (CacheStage::EnsuringDirectory, Reply::Failed(e)) => CacheStage::Failed(e),
            (CacheStage::Probing, Reply::Flag(true)) => CacheStage::Cached,
            (CacheStage::Probing, Reply::Flag(false)) => CacheStage::Downloading,
            (CacheStage::Downloading, Reply::Done) => CacheStage::Cached,
            (CacheStage::Downloading, Reply::Failed(e)) => CacheStage::Failed(e),
            (stage, _) => stage,
        }
    }
}

impl Flow for Cache {
    type Output = String;

    open spec fn request(&self) -> Option<Request> {
        match self.stage {
            CacheStage::EnsuringDirectory => Some(Request::EnsureDirectory(self.dir@)),
            CacheStage::Probing => Some(Request::FileExists(self.file())),
            CacheStage::Downloading => Some(
                Request::Download { url: self.url@, file: self.file() },
            ),
            CacheStage::Cached | CacheStage::Failed(_) => None,
        }
    }

    open spec fn after(self, reply: Reply) -> Self {
        Cache { stage: self.stage_after(reply), ..self }
    }

    open spec fn gives(&self, result: BenchmarkResult<String>) -> bool {
        match self.stage {
            CacheStage::Cached => result matches Ok(file) && file@ == self.file(),
            CacheStage::Failed(e) => result == BenchmarkResult::<String>::Err(e),
            _ => false,
        }
    }

    proof fn goes_on(self, reply: Reply) {
    }

    fn action(&self) -> (action: Option<Action>) {
        match &self.stage {
            CacheStage::EnsuringDirectory => Some(Action::EnsureDirectory(self.dir.clone())),
            CacheStage::Probing => Some(Action::FileExists(self.file_text())),
            CacheStage::Downloading => Some(
                Action::Download { url: self.url.clone(), file: self.file_text() },
            ),
            CacheStage::Cached | CacheStage::Failed(_) => None,
        }
    }

    fn next(self, reply: Reply) -> (state: Self) {
        let stage = match (self.stage, reply) {
            (CacheStage::EnsuringDirectory, Reply::Done) => CacheStage::Probing,
            (CacheStage::EnsuringDirectory, Reply::Failed(e)) => CacheStage::Failed(e),
            (CacheStage::Probing, Reply::Flag(true)) => CacheStage::Cached,
            (CacheStage::Probing, Reply::Flag(false)) => CacheStage::Downloading,
            (CacheStage::Downloading, Reply::Done) => CacheStage::Cached,
            (CacheStage::Downloading, Reply::Failed(e)) => CacheStage::Failed(e),
            (stage, _) => stage,
        };
        Cache { stage, ..self }
    }

    fn finish(self) -> (result: BenchmarkResult<String>) {
        match self.stage {
            CacheStage::Cached => Ok(self.file_text()),
            CacheStage::Failed(e) => Err(e),
            _ => unreached(),
        }
    }
}

/// A cached file is not downloaded again, and one that is missing is downloaded once;
/// either way the same file is given.
pub proof fn cached_file_is_kept(cache: Cache)
    requires
        cache.stage == CacheStage::EnsuringDirectory,
    ensures
        ({
            let replies = seq![Reply::Done, Reply::Flag(true)];
            &&& flow::requests(cache, replies) == seq![
                Some(Request::EnsureDirectory(cache.dir@)),
                Some(Request::FileExists(cache.file())),
                None,
            ]
            &&& forall|result: BenchmarkResult<String>| #[trigger]
                flow::run(cache, replies).gives(result) <==> (result matches Ok(file) && file@
                    == cache.file())
        }),
        ({
            let replies = seq![Reply::Done, Reply::Flag(false), Reply::Done];
            &&& flow::requests(cache, replies) == seq![
                Some(Request::EnsureDirectory(cache.dir@)),
                Some(Request::FileExists(cache.file())),
                Some(Request::Download { url: cache.url@, file: cache.file() }),
                None,
            ]
            &&& forall|result: BenchmarkResult<String>| #[trigger]
                flow::run(cache, replies).gives(result) <==> (result matches Ok(file) && file@
                    == cache.file())
        }),
{
    broadcast use flow::group_flow;

}

// ---------------------------------------------------------------------------
// The statements

/// Makes sure of a file with statements and opens it.
pub enum OpenStatements {
    /// The file is being cached, or is ready to be opened.
    Caching(Cache),
    Ended(BenchmarkResult<()>),
}

/// Opens the statements that load the users of this size into the database.
pub fn open_data(vendor: Vendor, size: Size) -> (flow: OpenStatements)
    ensures
        flow matches OpenStatements::Caching(cache) && cache.url@ == users_data_url(size)
            && cache.dir@ == data_set_dir("./cache"@, vendor, Name::Users, size) && cache.stage
            == CacheStage::EnsuringDirectory,
{
    OpenStatements::Caching(Spec::new(Name::Users, size, vendor).init_data_iterator())
}

/// Opens the statements that make the indexes for the users of this size in the database.
pub fn open_indexes(vendor: Vendor, size: Size) -> (flow: OpenStatements)
    ensures
        flow matches OpenStatements::Caching(cache) && cache.url@ == users_index_url()
            && cache.dir@ == data_set_dir("./cache"@, vendor, Name::Users, size) && cache.stage
            == CacheStage::EnsuringDirectory,
{
    OpenStatements::Caching(Spec::new(Name::Users, size, vendor).init_index_iterator())
}

impl Flow for OpenStatements {
    type Output = ();

    open spec fn request(&self) -> Option<Request> {
        match self {
            OpenStatements::Caching(cache) => if cache.stage is Cached {
                Some(Request::OpenStatements(cache.file()))
            } else {
                cache.request()
            },
            OpenStatements::Ended(_) => None,
        }
    }

    open spec fn after(self, reply: Reply) -> Self {
        match self {
            OpenStatements::Caching(cache) => if cache.stage is Cached {
                match reply {
                    Reply::Done => OpenStatements::Ended(Ok(())),
                    Reply::Failed(e) => OpenStatements::Ended(Err(e)),
                    _ => self,
                }
            } else {
                OpenStatements::Caching(cache.after(reply))
            },
            OpenStatements::Ended(_) => self,
        }
    }

    open spec fn gives(&self, result: BenchmarkResult<()>) -> bool {
        match self {
            OpenStatements::Caching(cache) => cache.stage matches CacheStage::Failed(e) && result
                == BenchmarkResult::<()>::Err(e),
            OpenStatements::Ended(r) => *r == result,
        }
    }

    proof fn goes_on(self, reply: Reply) {
        match self {
            OpenStatements::Caching(cache) => if !(cache.stage is Cached) {
                cache.goes_on(reply);
            },
            OpenStatements::Ended(_) => {},
        }
    }

    fn action(&self) -> (action: Option<Action>) {
        match self {
            OpenStatements::Caching(cache) => match &cache.stage {
                CacheStage::Cached => Some(Action::OpenStatements(cache.file_text())),
                _ => cache.action(),
            },
            OpenStatements::Ended(_) => None,
        }
    }

    fn next(self, reply: Reply) -> (state: Self) {
        match self {
            OpenStatements::Caching(cache) => {
                let is_cached = match &cache.stage {
                    CacheStage::Cached => true,
                    _ => false,
                };
                if is_cached {
                    match reply {
                        Reply::Done => OpenStatements::Ended(Ok(())),
                        Reply::Failed(e) => OpenStatements::Ended(Err(e)),
                        _ => OpenStatements::Caching(cache),
                    }
                } else {
                    OpenStatements::Caching(cache.next(reply))
                }
            },
            OpenStatements::Ended(r) => OpenStatements::Ended(r),
        }
    }

    fn finish(self) -> (result: BenchmarkResult<()>) {
        match self {
            OpenStatements::Caching(cache) => match cache.stage {
                CacheStage::Failed(e) => Err(e),
                _ => unreached(),
            },
            OpenStatements::Ended(r) => r,
        }
    }
}

/// What is opened is the cached file of the data set, whether it was there or had to be
/// downloaded first.
pub proof fn opened_file_is_the_cached_one(cache: Cache)
    requires
        cache.stage == CacheStage::EnsuringDirectory,
    ensures
        ({
            let flow = OpenStatements::Caching(cache);
            let replies = seq![Reply::Done, Reply::Flag(true), Reply::Done];
            &&& flow::requests(flow, replies) == seq![
                Some(Request::EnsureDirectory(cache.dir@)),
                Some(Request::FileExists(cache.file())),
                Some(Request::OpenStatements(cache.file())),
                None,
            ]
            &&& flow::run(flow, replies).gives(Ok(()))
        }),
        ({
            let flow = OpenStatements::Caching(cache);
            let replies = seq![Reply::Done, Reply::Flag(false), Reply::Done, Reply::Done];
            &&& flow::requests(flow, replies) == seq![
                Some(Request::EnsureDirectory(cache.dir@)),
                Some(Request::FileExists(cache.file())),
                Some(Request::Download { url: cache.url@, file: cache.file() }),
                Some(Request::OpenStatements(cache.file())),
                None,
            ]
            &&& flow::run(flow, replies).gives(Ok(()))
        }),
{
    broadcast use flow::group_flow;

    let flow = OpenStatements::Caching(cache);
    let replies = seq![Reply::Done, Reply::Flag(false), Reply::Done, Reply::Done];
    assert(flow::requests(flow, replies) =~= seq![
        Some(Request::EnsureDirectory(cache.dir@)),
        Some(Request::FileExists(cache.file())),
        Some(Request::Download { url: cache.url@, file: cache.file() }),
        Some(Request::OpenStatements(cache.file())),
        None,
    ]);
}

} // verus!
