//! Files: where they are, what is kept of their lines, and how they come and go.
use vstd::pervasive::unreached;
use vstd::prelude::*;
use vstd::string::*;
use crate::action::{Action, Reply, Request};
use crate::error::{other_error, BenchmarkError, BenchmarkResult};
use crate::flow::Flow;
use crate::text;

verus! {

// ---------------------------------------------------------------------------
// Paths

/// `file` in the current directory.
pub open spec fn in_current_dir(
    current_dir: Option<&str>,
    file: Seq<char>,
    result: BenchmarkResult<String>,
) -> bool {
    match current_dir {
        Some(dir) => result matches Ok(path) && path@ == dir@ + file,
        None => result matches Err(e) && e.is_other("Failed to get current directory"@),
    }
}

/// Where the shared library of FalkorDB is, given the current directory if it is known.
pub fn falkor_shared_lib_path(current_dir: Option<&str>) -> (result: BenchmarkResult<String>)
    ensures
        in_current_dir(current_dir, "/falkordb.so"@, result),
{
    match current_dir {
        Some(dir) => Ok(dir.to_string().concat("/falkordb.so")),
        None => Err(other_error("Failed to get current directory")),
    }
}

/// Where FalkorDB logs by default, given the current directory if it is known.
pub fn falkor_logs_path(current_dir: Option<&str>) -> (result: BenchmarkResult<String>)
    ensures
        in_current_dir(current_dir, "/falkordb.log"@, result),
{
    match current_dir {
        Some(dir) => Ok(dir.to_string().concat("/falkordb.log")),
        None => Err(other_error("Failed to get current directory")),
    }
}

/// Where FalkorDB logs: `log_path`, the value of `FALKOR_LOG_PATH`, if that is set. The
/// current directory must be known in either case.
pub fn get_falkor_log_path(current_dir: Option<&str>, log_path: Option<&str>) -> (result:
    BenchmarkResult<String>)
    ensures
        match (current_dir, log_path) {
            (Some(_), Some(path)) => result matches Ok(r) && r@ == path@,
            _ => in_current_dir(current_dir, "/falkordb.log"@, result),
        },
{
    let default = match falkor_logs_path(current_dir) {
        Ok(path) => path,
        Err(e) => return Err(e),
    };
    match log_path {
        Some(path) => Ok(path.to_string()),
        None => Ok(default),
    }
}

/// What stands in `s` after its last slash; all of `s` where there is no slash.
pub open spec fn after_last_slash(s: Seq<char>) -> Seq<char>
    decreases s.len(),
{
    if s.len() == 0 || s.last() == '/' {
        Seq::empty()
    } else {
        after_last_slash(s.drop_last()).push(s.last())
    }
}

/// The name of the file that a URL points to.
pub fn url_file_name(url: &str) -> (s: String)
    ensures
        s@ == after_last_slash(url@),
{
    let v = text::chars_of(url);
    let n: usize = v.len();
    let mut from: usize = n;
    proof {
        assert(v@.take(n as int) =~= v@);
        assert(after_last_slash(v@) =~= after_last_slash(v@.take(n as int)) + v@.subrange(
            n as int,
            n as int,
        ));
    }
    while from > 0 && v[from - 1] != '/'
        invariant
            n == v@.len(),
            from <= n,
            after_last_slash(v@) == after_last_slash(v@.take(from as int)) + v@.subrange(
                from as int,
                n as int,
            ),
        decreases from,
    {
        proof {
            let head = v@.take(from as int);
            assert(head.drop_last() =~= v@.take(from - 1));
            assert(after_last_slash(head) + v@.subrange(from as int, n as int)
                =~= after_last_slash(v@.take(from - 1)) + v@.subrange(from - 1, n as int));
        }
        from = from - 1;
    }
    proof {
        assert(after_last_slash(v@.take(from as int)) =~= Seq::<char>::empty());
        assert(after_last_slash(v@) =~= v@.subrange(from as int, n as int));
    }
    text::string_of(&v, from, n)
}

/// The name of the file ends the URL, holds no slash, and has nothing or a slash before it.
pub proof fn file_name_is_last_segment(url: Seq<char>)
    ensures
        ({
            let name = after_last_slash(url);
            let before = url.len() - name.len();
            &&& before >= 0
            &&& url.skip(before) == name
            &&& !name.contains('/')
            &&& before > 0 ==> url[before - 1] == '/'
        }),
    decreases url.len(),
{
    let name = after_last_slash(url);
    if url.len() == 0 || url.last() == '/' {
        assert(url.skip(url.len() as int) =~= name);
    } else {
        let shorter = url.drop_last();
        file_name_is_last_segment(shorter);
        let inner = after_last_slash(shorter);
        let before = url.len() - name.len();
        assert(before == shorter.len() - inner.len());
        assert(url.skip(before) =~= shorter.skip(before).push(url.last()));
        assert forall|i: int| 0 <= i < name.len() implies name[i] != '/' by {
            if i < inner.len() {
                assert(name[i] == inner[i]);
                assert(inner.contains(inner[i]));
            }
        }
    }
}

// ---------------------------------------------------------------------------
// Lines

/// Whether a line holds a statement: something other than white space and one semicolon.
pub open spec fn holds_statement(line: Seq<char>) -> bool {
    text::trim(line).len() != 0 && text::trim(line) != ";"@
}

/// Whether a line holds a statement.
pub fn is_statement(line: &str) -> (r: bool)
    ensures
        r == holds_statement(line@),
{
    let trimmed = text::trimmed(line);
    !trimmed.as_str().is_empty() && !text::same_text(trimmed.as_str(), ";")
}

/// What stays of the lines of a file: those that hold a statement and those that could
/// not be read.
pub open spec fn stays(line: BenchmarkResult<String>) -> bool {
    match line {
        Ok(l) => holds_statement(l@),
        Err(_) => true,
    }
}

/// The lines of a file that hold a statement or could not be read, in their order.
pub fn read_lines(lines: Vec<BenchmarkResult<String>>) -> (kept: Vec<BenchmarkResult<String>>)
    ensures
        kept@ == lines@.filter(|line: BenchmarkResult<String>| stays(line)),
{
    let ghost all = lines@;
    let ghost pred = |line: BenchmarkResult<String>| stays(line);
    let mut kept: Vec<BenchmarkResult<String>> = Vec::new();
    proof {
        reveal(Seq::filter);
        assert(all.take(0).filter(pred) =~= Seq::empty());
    }
    for line in it: lines
        invariant
            it.seq() == all,
            pred == (|line: BenchmarkResult<String>| stays(line)),
            kept@ == all.take(it.index()).filter(pred),
    {
        let keep = match &line {
            Ok(l) => is_statement(l.as_str()),
            Err(_) => true,
        };
        proof {
            reveal(Seq::filter);
            let next = all.take(it.index() + 1);
            assert(next.drop_last() =~= all.take(it.index()));
            assert(next.last() == line);
        }
        if keep {
            kept.push(line);
        }
    }
    proof {
        assert(all.take(all.len() as int) =~= all);
    }
    kept
}

/// Reading a file in two parts keeps what reading it at once keeps, so that a file can be
/// read line by line.
pub proof fn reading_in_parts(a: Seq<BenchmarkResult<String>>, b: Seq<BenchmarkResult<String>>)
    ensures
        (a + b).filter(|line: BenchmarkResult<String>| stays(line)) == a.filter(
            |line: BenchmarkResult<String>| stays(line),
        ) + b.filter(|line: BenchmarkResult<String>| stays(line)),
{
    Seq::filter_distributes_over_add(a, b, |line: BenchmarkResult<String>| stays(line));
}

/// Reading again what was kept changes nothing.
pub proof fn reading_twice(lines: Seq<BenchmarkResult<String>>)
    ensures
        ({
            let pred = |line: BenchmarkResult<String>| stays(line);
            lines.filter(pred).filter(pred) == lines.filter(pred)
        }),
    decreases lines.len(),
{
    reveal(Seq::filter);
    let pred = |line: BenchmarkResult<String>| stays(line);
    if lines.len() > 0 {
        reading_twice(lines.drop_last());
        let rest = lines.drop_last().filter(pred);
        if pred(lines.last()) {
            assert(rest.push(lines.last()).drop_last() =~= rest);
        }
    } else {
        assert(lines.filter(pred) =~= Seq::empty());
    }
}

// ---------------------------------------------------------------------------
// Deleting a file, creating a directory

/// Deletes a file if it is there.
pub enum DeleteFile {
    Probing { path: String },
    Removing { path: String },
    Ended(BenchmarkResult<()>),
}

/// Deletes the file if it is there.
pub fn delete_file(file_path: &str) -> (flow: DeleteFile)
    ensures
        flow matches DeleteFile::Probing { path } && path@ == file_path@,
{
    DeleteFile::Probing { path: file_path.to_string() }
}

impl Flow for DeleteFile {
    type Output = ();

    open spec fn request(&self) -> Option<Request> {
        match self {
            DeleteFile::Probing { path } => Some(Request::FileExists(path@)),
            DeleteFile::Removing { path } => Some(Request::RemoveFile(path@)),
            DeleteFile::Ended(_) => None,
        }
    }

    open spec fn after(self, reply: Reply) -> Self {
        match (self, reply) {
            (DeleteFile::Probing { path }, Reply::Flag(true)) => DeleteFile::Removing { path },
            (DeleteFile::Probing { path }, Reply::Flag(false)) => DeleteFile::Ended(Ok(())),
            (DeleteFile::Removing { path }, Reply::Done) => DeleteFile::Ended(Ok(())),
            (DeleteFile::Removing { path }, Reply::Failed(e)) => DeleteFile::Ended(Err(e)),
            (state, _) => state,
        }
    }

    open spec fn gives(&self, result: BenchmarkResult<()>) -> bool {
        *self == DeleteFile::Ended(result)
    }

    proof fn goes_on(self, reply: Reply) {
    }

    fn action(&self) -> (action: Option<Action>) {
        match self {
            DeleteFile::Probing { path } => Some(Action::FileExists(path.clone())),
            DeleteFile::Removing { path } => Some(Action::RemoveFile(path.clone())),
            DeleteFile::Ended(_) => None,
        }
    }

    fn next(self, reply: Reply) -> (state: Self) {
        match (self, reply) {
            (DeleteFile::Probing { path }, Reply::Flag(true)) => DeleteFile::Removing { path },
            (DeleteFile::Probing { path }, Reply::Flag(false)) => DeleteFile::Ended(Ok(())),
            (DeleteFile::Removing { path }, Reply::Done) => DeleteFile::Ended(Ok(())),
            (DeleteFile::Removing { path }, Reply::Failed(e)) => DeleteFile::Ended(Err(e)),
            (state, _) => state,
        }
    }

    fn finish(self) -> (result: BenchmarkResult<()>) {
        match self {
            DeleteFile::Ended(r) => r,
            _ => unreached(),
        }
    }
}

/// Creates a directory if it is not there.
pub enum CreateDirectory {
    Probing { path: String },
    Creating { path: String },
    Ended(BenchmarkResult<()>),
}

/// Creates the directory, and those above it, if it is not there.
pub fn create_directory_if_not_exists(dir_path: &str) -> (flow: CreateDirectory)
    ensures
        flow matches CreateDirectory::Probing { path } && path@ == dir_path@,
{
    CreateDirectory::Probing { path: dir_path.to_string() }
}

impl Flow for CreateDirectory {
    type Output = ();

    open spec fn request(&self) -> Option<Request> {
        match self {
            CreateDirectory::Probing { path } => Some(Request::FileExists(path@)),
            CreateDirectory::Creating { path } => Some(Request::CreateDirectories(path@)),
            CreateDirectory::Ended(_) => None,
        }
    }

    open spec fn after(self, reply: Reply) -> Self {
        match (self, reply) {
            (CreateDirectory::Probing { path }, Reply::Flag(true)) => CreateDirectory::Ended(
                Ok(()),
            ),
            (CreateDirectory::Probing { path }, Reply::Flag(false)) => CreateDirectory::Creating {
                path,
            },
            (CreateDirectory::Creating { path }, Reply::Done) => CreateDirectory::Ended(Ok(())),
            (CreateDirectory::Creating { path }, Reply::Failed(e)) => CreateDirectory::Ended(
                Err(e),
            ),
            (state, _) => state,
        }
    }

    open spec fn gives(&self, result: BenchmarkResult<()>) -> bool {
        *self == CreateDirectory::Ended(result)
    }

    proof fn goes_on(self, reply: Reply) {
    }

    fn action(&self) -> (action: Option<Action>) {
        match self {
            CreateDirectory::Probing { path } => Some(Action::FileExists(path.clone())),
            CreateDirectory::Creating { path } => Some(Action::CreateDirectories(path.clone())),
            CreateDirectory::Ended(_) => None,
        }
    }

    fn next(self, reply: Reply) -> (state: Self) {
        match (self, reply) {
            (CreateDirectory::Probing { path }, Reply::Flag(true)) => CreateDirectory::Ended(
                Ok(()),
            ),
            (CreateDirectory::Probing { path }, Reply::Flag(false)) => CreateDirectory::Creating {
                path,
            },
            (CreateDirectory::Creating { path }, Reply::Done) => CreateDirectory::Ended(Ok(())),
            (CreateDirectory::Creating { path }, Reply::Failed(e)) => CreateDirectory::Ended(
                Err(e),
            ),
            (state, _) => state,
        }
    }

    fn finish(self) -> (result: BenchmarkResult<()>) {
        match self {
            CreateDirectory::Ended(r) => r,
            _ => unreached(),
        }
    }
}

// ---------------------------------------------------------------------------
// Downloading a file

/// Downloads a page to a file.
pub enum DownloadFile {
    Requesting { url: String, file: String },
    Saving { file: String },
    Refused { url: String, file: String, status: String },
    Ended(BenchmarkResult<()>),
}

/// Downloads what `url` points to into `file_name`.
pub fn download_file(url: &str, file_name: &str) -> (flow: DownloadFile)
    ensures
        flow matches DownloadFile::Requesting { url: u, file } && u@ == url@ && file@
            == file_name@,
{
    DownloadFile::Requesting { url: url.to_string(), file: file_name.to_string() }
}

impl Flow for DownloadFile {
    type Output = ();

    open spec fn request(&self) -> Option<Request> {
        match self {
            DownloadFile::Requesting { url, file } => Some(Request::HttpGet(url@)),
            DownloadFile::Saving { file } => Some(Request::SaveBody(file@)),
            _ => None,
        }
    }

    open spec fn after(self, reply: Reply) -> Self {
        match (self, reply) {
            (DownloadFile::Requesting { url, file }, Reply::Status { success, status }) =>
                if success {
                    DownloadFile::Saving { file }
                } else {
                    DownloadFile::Refused { url, file, status }
                },
            (DownloadFile::Requesting { url, file }, Reply::Failed(e)) => DownloadFile::Ended(
                Err(e),
            ),
            (DownloadFile::Saving { file }, Reply::Done) => DownloadFile::Ended(Ok(())),
            (DownloadFile::Saving { file }, Reply::Failed(e)) => DownloadFile::Ended(Err(e)),
            (state, _) => state,
        }
    }

    open spec fn gives(&self, result: BenchmarkResult<()>) -> bool {
        match self {
            DownloadFile::Refused { url, file, status } => {
                &&& result matches Err(BenchmarkError::FailedToDownloadFileError(said))
                &&& said@ == "Failed to download a file "@ + file@ + ", http status: "@ + status@
                    + ", request: "@ + url@
            },
            DownloadFile::Ended(r) => result == *r,
            _ => false,
        }
    }

    proof fn goes_on(self, reply: Reply) {
    }

    fn action(&self) -> (action: Option<Action>) {
        match self {
            DownloadFile::Requesting { url, file } => Some(Action::HttpGet(url.clone())),
            DownloadFile::Saving { file } => Some(Action::SaveBody(file.clone())),
            _ => None,
        }
    }

    fn next(self, reply: Reply) -> (state: Self) {
        match (self, reply) {
            (DownloadFile::Requesting { url, file }, Reply::Status { success, status }) => {
                if success {
                    DownloadFile::Saving { file }
                } else {
                    DownloadFile::Refused { url, file, status }
                }
            },
            (DownloadFile::Requesting { url, file }, Reply::Failed(e)) => DownloadFile::Ended(
                Err(e),
            ),
            (DownloadFile::Saving { file }, Reply::Done) => DownloadFile::Ended(Ok(())),
            (DownloadFile::Saving { file }, Reply::Failed(e)) => DownloadFile::Ended(Err(e)),
            (state, _) => state,
        }
    }

    fn finish(self) -> (result: BenchmarkResult<()>) {
        match self {
            DownloadFile::Refused { url, file, status } => {
                let said = "Failed to download a file ".to_string().concat(file.as_str()).concat(
                    ", http status: ",
                ).concat(status.as_str()).concat(", request: ").concat(url.as_str());
                Err(BenchmarkError::FailedToDownloadFileError(said))
            },
            DownloadFile::Ended(r) => r,
            _ => unreached(),
        }
    }
}

// ---------------------------------------------------------------------------
// Writing a file

/// Writes a text to a file.
pub enum WriteFile {
    Creating { path: String, content: String },
    Writing { content: String },
    Flushing,
    Ended(BenchmarkResult<()>),
}

/// Writes `content` to the file, in place of what was in it.
pub fn write_to_file(file_path: &str, content: &str) -> (flow: WriteFile)
    ensures
        flow matches WriteFile::Creating { path, content: c } && path@ == file_path@ && c@
            == content@,
{
    WriteFile::Creating { path: file_path.to_string(), content: content.to_string() }
}

impl Flow for WriteFile {
    type Output = ();

    open spec fn request(&self) -> Option<Request> {
        match self {
            WriteFile::Creating { path, content } => Some(Request::CreateFile(path@)),
            WriteFile::Writing { content } => Some(Request::WriteText(content@)),
            WriteFile::Flushing => Some(Request::FlushFile),
            WriteFile::Ended(_) => None,
        }
    }

    open spec fn after(self, reply: Reply) -> Self {
        match (self, reply) {
            (WriteFile::Creating { path, content }, Reply::Done) => WriteFile::Writing { content },
            (WriteFile::Writing { content }, Reply::Done) => WriteFile::Flushing,
            (WriteFile::Flushing, Reply::Done) => WriteFile::Ended(Ok(())),
            (WriteFile::Ended(r), _) => WriteFile::Ended(r),
            (_, Reply::Failed(e)) => WriteFile::Ended(Err(e)),
            (state, _) => state,
        }
    }

    open spec fn gives(&self, result: BenchmarkResult<()>) -> bool {
        *self == WriteFile::Ended(result)
    }

    proof fn goes_on(self, reply: Reply) {
    }

    fn action(&self) -> (action: Option<Action>) {
        match self {
            WriteFile::Creating { path, content } => Some(Action::CreateFile(path.clone())),
            WriteFile::Writing { content } => Some(Action::WriteText(content.clone())),
            WriteFile::Flushing => Some(Action::FlushFile),
            WriteFile::Ended(_) => None,
        }
    }

    fn next(self, reply: Reply) -> (state: Self) {
        match (self, reply) {
            (WriteFile::Creating { path, content }, Reply::Done) => WriteFile::Writing { content },
            (WriteFile::Writing { content }, Reply::Done) => WriteFile::Flushing,
            (WriteFile::Flushing, Reply::Done) => WriteFile::Ended(Ok(())),
            (WriteFile::Ended(r), _) => WriteFile::Ended(r),
            (_, Reply::Failed(e)) => WriteFile::Ended(Err(e)),
            (state, _) => state,
        }
    }

    fn finish(self) -> (result: BenchmarkResult<()>) {
        match self {
            WriteFile::Ended(r) => r,
            _ => unreached(),
        }
    }
}

} // verus!
