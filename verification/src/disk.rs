//! What saving and restoring do to the files on disk: what is restored is what was saved.
use vstd::prelude::*;
use crate::action::{Reply, Request};
use crate::falkor::falkor_driver;
use crate::falkor::falkor_driver::{RestoreDb, SaveDb, REDIS_DUMP_FILE};
use crate::flow;
use crate::flow::Flow;
use crate::ibex::ibex_driver::{CopyDb, CopyStage};
use crate::scenario::Size;

verus! {

/// What stands under a path.
pub enum Content {
    /// A file, or a directory with all that is in it.
    Whole(Seq<u8>),
    /// A directory into which another content was put.
    Holding { outer: Box<Content>, inner: Box<Content> },
}

/// What is on disk: the content under each path.
pub type Disk = Map<Seq<char>, Content>;

/// What stands at `to` after `cp -r` from `from`: the same as there, but what stood at `to`
/// before stays and gets the copy put into it.
pub open spec fn copied(disk: Disk, from: Seq<char>, to: Seq<char>) -> Content {
    if disk.dom().contains(to) {
        Content::Holding { outer: Box::new(disk[to]), inner: Box::new(disk[from]) }
    } else {
        disk[from]
    }
}

/// Whether two disks are the same but for what stands at the path.
pub open spec fn same_elsewhere(disk: Disk, later: Disk, path: Seq<char>) -> bool {
    disk.remove(path) == later.remove(path)
}

/// Whether a request on this disk can get this reply and leave that disk. A copy succeeds
/// only where there is something to copy; one that fails leaves anything where it goes, and
/// so does a removal that fails. A Redis that is shut down may write its data once more. Of
/// programs other than `rm` and `cp` nothing is said.
pub open spec fn leads_to(disk: Disk, request: Option<Request>, reply: Reply, later: Disk) -> bool {
    match request {
        Some(Request::FileExists(path)) => reply == Reply::Flag(disk.dom().contains(path)) && later
            == disk,
        Some(Request::CopyFile { from, to }) => if reply is Done {
            disk.dom().contains(from) && later == disk.insert(to, disk[from])
        } else {
            reply is Failed && same_elsewhere(disk, later, to)
        },
        Some(Request::SpawnCommand { command, args }) => if command == "rm"@ && args.len() == 2
            && args[0] == "-rf"@ {
            if reply is Process {
                later == disk.remove(args[1])
            } else {
                reply is Failed && same_elsewhere(disk, later, args[1])
            }
        } else if command == "cp"@ && args.len() == 3 && args[0] == "-r"@ {
            if reply is Process {
                disk.dom().contains(args[1]) && later == disk.insert(
                    args[2],
                    copied(disk, args[1], args[2]),
                )
            } else {
                reply is Failed && same_elsewhere(disk, later, args[2])
            }
        } else {
            true
        },
        Some(Request::ShutDownRedis) => same_elsewhere(disk, later, REDIS_DUMP_FILE@),
        _ => later == disk,
    }
}

/// Whether the operation can get the replies while the disk goes through these states.
pub open spec fn happens<F: Flow>(flow: F, disks: Seq<Disk>, replies: Seq<Reply>) -> bool
    decreases replies.len(),
{
    &&& disks.len() == replies.len() + 1
    &&& replies.len() == 0 || {
        &&& leads_to(disks[0], flow.request(), replies[0], disks[1])
        &&& happens(flow.after(replies[0]), disks.drop_first(), replies.drop_first())
    }
}

proof fn lemma_same_at(disk: Disk, later: Disk, path: Seq<char>, other: Seq<char>)
    requires
        same_elsewhere(disk, later, path),
        other != path,
    ensures
        disk.dom().contains(other) == later.dom().contains(other),
        disk.dom().contains(other) ==> disk[other] == later[other],
{
    assert(disk.dom().contains(other) == disk.remove(path).dom().contains(other));
    assert(later.dom().contains(other) == later.remove(path).dom().contains(other));
    if disk.dom().contains(other) {
        assert(disk[other] == disk.remove(path)[other]);
        assert(later[other] == later.remove(path)[other]);
    }
}

proof fn lemma_nothing_happens<F: Flow>(flow: F, disks: Seq<Disk>, replies: Seq<Reply>)
    requires
        flow.request() is None,
        forall|reply: Reply| #[trigger] flow.after(reply) == flow,
        happens(flow, disks, replies),
    ensures
        disks.last() == disks[0],
        flow::run(flow, replies) == flow,
    decreases replies.len(),
{
    if replies.len() > 0 {
        assert(flow.after(replies[0]) == flow);
        lemma_nothing_happens(flow, disks.drop_first(), replies.drop_first());
    }
}

// ---------------------------------------------------------------------------
// FalkorDB

impl SaveDb {
    /// The size of the data set, until the operation has ended.
    pub open spec fn size(&self) -> Option<Size> {
        match self {
            SaveDb::CheckingMode { size } => Some(*size),
            SaveDb::Finding { size } => Some(*size),
            SaveDb::ShuttingDown { size } => Some(*size),
            SaveDb::Copying { size } => Some(*size),
            SaveDb::Ended(_) => None,
        }
    }
}

impl RestoreDb {
    /// The size of the data set, until the operation has ended.
    pub open spec fn size(&self) -> Option<Size> {
        match self {
            RestoreDb::CheckingMode { size } => Some(*size),
            RestoreDb::Finding { size } => Some(*size),
            RestoreDb::ShuttingDown { size } => Some(*size),
            RestoreDb::Probing { size } => Some(*size),
            RestoreDb::Copying { size } => Some(*size),
            RestoreDb::Ended(_) => None,
        }
    }
}

/// Where the server is not external, saving that succeeds has left in the dump of its size
/// a copy of the data as it stands then, and has touched nothing besides the two.
pub proof fn saving_copies_the_data(save: SaveDb, size: Size, disks: Seq<Disk>, replies: Seq<Reply>)
    requires
        save.size() == Some(size),
        !(save is CheckingMode),
        happens(save, disks, replies),
        flow::run(save, replies) == SaveDb::Ended(Ok(())),
    ensures
        ({
            let (data, dump) = (REDIS_DUMP_FILE@, falkor_driver::dump_file(size));
            let later = disks.last();
            &&& later.dom().contains(data) && later.dom().contains(dump)
            &&& later[dump] == later[data]
            &&& later.remove(data).remove(dump) == disks[0].remove(data).remove(dump)
        }),
    decreases replies.len(),
{
    let (data, dump) = (REDIS_DUMP_FILE@, falkor_driver::dump_file(size));
    let next = save.after(replies[0]);
    let rest = replies.drop_first();
    let changed = disks.drop_first();
    falkor_driver::dumps_are_distinct(size, size);
    assert(changed.last() == disks.last());
    if next is Ended {
        lemma_nothing_happens(next, changed, rest);
    } else {
        saving_copies_the_data(next, size, changed, rest);
    }
    assert(disks[1].remove(data).remove(dump) =~= disks[0].remove(data).remove(dump));
}

/// Where the server is not external, restoring that succeeds has put a copy of the dump of
/// its size in place of the data, if there is a dump, and has touched nothing but the data.
pub proof fn restoring_copies_the_dump(
    restore: RestoreDb,
    size: Size,
    disks: Seq<Disk>,
    replies: Seq<Reply>,
)
    requires
        restore.size() == Some(size),
        !(restore is CheckingMode),
        happens(restore, disks, replies),
        flow::run(restore, replies) == RestoreDb::Ended(Ok(())),
    ensures
        ({
            let (data, dump) = (REDIS_DUMP_FILE@, falkor_driver::dump_file(size));
            let later = disks.last();
            &&& disks[0].dom().contains(dump) ==> later.dom().contains(data) && later[data]
                == disks[0][dump]
            &&& same_elsewhere(disks[0], later, data)
        }),
    decreases replies.len(),
{
    let (data, dump) = (REDIS_DUMP_FILE@, falkor_driver::dump_file(size));
    let next = restore.after(replies[0]);
    let rest = replies.drop_first();
    let changed = disks.drop_first();
    falkor_driver::dumps_are_distinct(size, size);
    assert(changed.last() == disks.last());
    if next is Ended {
        lemma_nothing_happens(next, changed, rest);
    } else {
        restoring_copies_the_dump(next, size, changed, rest);
    }
    assert(disks[0].remove(data) =~= disks[1].remove(data));
    lemma_same_at(disks[0], disks[1], data, dump);
}

/// What is restored is what was saved: whatever happens to the data after it was saved,
/// restoring brings it back as it was, as long as the dump itself is left alone.
pub proof fn restored_data_is_saved_data(
    size: Size,
    before: Seq<Disk>,
    saving: Seq<Reply>,
    after: Seq<Disk>,
    restoring: Seq<Reply>,
)
    requires
        happens(SaveDb::Finding { size }, before, saving),
        flow::run(SaveDb::Finding { size }, saving) == SaveDb::Ended(Ok(())),
        happens(RestoreDb::Finding { size }, after, restoring),
        flow::run(RestoreDb::Finding { size }, restoring) == RestoreDb::Ended(Ok(())),
        after[0].dom().contains(falkor_driver::dump_file(size)),
        after[0][falkor_driver::dump_file(size)] == before.last()[falkor_driver::dump_file(size)],
    ensures
        before.last().dom().contains(REDIS_DUMP_FILE@),
        after.last().dom().contains(REDIS_DUMP_FILE@),
        after.last()[REDIS_DUMP_FILE@] == before.last()[REDIS_DUMP_FILE@],
{
    saving_copies_the_data(SaveDb::Finding { size }, size, before, saving);
    restoring_copies_the_dump(RestoreDb::Finding { size }, size, after, restoring);
}

// ---------------------------------------------------------------------------
// ibexdb

/// Whether the copy is past the removal of what stood where it goes.
pub open spec fn is_cleared(copy: CopyDb) -> bool {
    copy.stage is ProbingSource || copy.stage is Copying
}

/// A copy of a database that succeeds leaves, where the copy goes, what stands where it
/// comes from and nothing else, and touches nothing besides. Only an optional copy succeeds
/// where there is nothing to copy, and then nothing stands where it goes.
pub proof fn copied_database_is_the_same(copy: CopyDb, disks: Seq<Disk>, replies: Seq<Reply>)
    requires
        copy.from@ != copy.to@,
        !(copy.stage is Ended),
        copy.stage is ProbingSource ==> copy.optional,
        is_cleared(copy) ==> !disks[0].dom().contains(copy.to@),
        happens(copy, disks, replies),
        flow::run(copy, replies).stage == CopyStage::Ended(Ok(())),
    ensures
        ({
            let later = disks.last();
            &&& disks[0].dom().contains(copy.from@) ==> later.dom().contains(copy.to@)
                && later[copy.to@] == disks[0][copy.from@]
            &&& !disks[0].dom().contains(copy.from@) ==> !later.dom().contains(copy.to@)
                && copy.optional
            &&& same_elsewhere(disks[0], later, copy.to@)
        }),
    decreases replies.len(),
{
    let next = copy.after(replies[0]);
    let rest = replies.drop_first();
    let changed = disks.drop_first();
    reveal_strlit("rm");
    reveal_strlit("cp");
    assert(changed.last() == disks.last());
    if next.stage is Ended {
        lemma_nothing_happens(next, changed, rest);
    } else {
        copied_database_is_the_same(next, changed, rest);
    }
    assert(disks[0].remove(copy.to@) =~= disks[1].remove(copy.to@));
    lemma_same_at(disks[0], disks[1], copy.to@, copy.from@);
}

/// What is restored is what was saved: whatever happens to the database after it was
/// saved, restoring brings it back as it was, as long as the saved one is left alone.
pub proof fn restored_database_is_saved_database(
    save: CopyDb,
    before: Seq<Disk>,
    saving: Seq<Reply>,
    restore: CopyDb,
    after: Seq<Disk>,
    restoring: Seq<Reply>,
)
    requires
        save.from@ != save.to@ && !save.optional,
        restore.from@ == save.to@ && restore.to@ == save.from@,
        save.stage is Probing && restore.stage is Probing,
        happens(save, before, saving),
        flow::run(save, saving).stage == CopyStage::Ended(Ok(())),
        happens(restore, after, restoring),
        flow::run(restore, restoring).stage == CopyStage::Ended(Ok(())),
        after[0].dom().contains(save.to@),
        after[0][save.to@] == before.last()[save.to@],
    ensures
        before[0].dom().contains(save.from@),
        after.last().dom().contains(save.from@),
        after.last()[save.from@] == before[0][save.from@],
{
    copied_database_is_the_same(save, before, saving);
    copied_database_is_the_same(restore, after, restoring);
}

} // verus!
