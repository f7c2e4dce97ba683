//! The one FalkorDB that a command works with: how it is started, stopped and let go.
use vstd::pervasive::unreached;
use vstd::prelude::*;
use crate::action;
use crate::action::{Action, Reply, Request};
use crate::error::BenchmarkResult;
use crate::falkor::falkor_driver::{Falkor, StartFalkor, Started, StopFalkor, Stopped};
use crate::falkor::falkor_process::FalkorProcess;
use crate::flow;
use crate::flow::Flow;

verus! {

/// FalkorDB as a command has it in hand.
pub enum FalkorServer {
    Stopped(Falkor<Stopped>),
    Started(Falkor<Started>),
    /// It could not be started or stopped, or was let go.
    Gone,
}

/// An operation that carries out an action on the server in hand.
pub enum ServerCall {
    Starting(StartFalkor),
    Stopping(StopFalkor),
    Dropping(FalkorProcess),
    Dropped,
    /// There is no started server to let go.
    Kept(FalkorServer),
}

/// Whether the server is as the action needs it.
pub open spec fn is_ready_for(server: FalkorServer, request: Request) -> bool {
    match request {
        Request::StartFalkor => server is Stopped,
        Request::StopFalkor => server is Started,
        _ => true,
    }
}

/// Whether the action is one on the server in hand.
pub open spec fn is_on_server(request: Request) -> bool {
    request is StartFalkor || request is StopFalkor || request is DropFalkor
}

/// Whether the operation, before its first reply, is the one that carries out the action on
/// the server.
pub open spec fn carries_out(call: ServerCall, request: Request, server: FalkorServer) -> bool {
    match (request, server) {
        (Request::StartFalkor, FalkorServer::Stopped(falkor)) => call == ServerCall::Starting(
            StartFalkor::Launching { path: falkor.path },
        ),
        (Request::StopFalkor, FalkorServer::Started(falkor)) => call == ServerCall::Stopping(
            StopFalkor::Saving { path: falkor.path, process: falkor.state.0 },
        ),
        (Request::DropFalkor, FalkorServer::Started(falkor)) => call == ServerCall::Dropping(
            falkor.state.0,
        ),
        (Request::DropFalkor, server) => call == ServerCall::Kept(server),
        _ => false,
    }
}

/// The operation that carries out the action on the server, or the two themselves where the
/// action is none on the server.
pub fn server_call(action: Action, server: FalkorServer) -> (result: Result<
    ServerCall,
    (Action, FalkorServer),
>)
    requires
        is_ready_for(server, action@),
    ensures
        match result {
            Ok(call) => is_on_server(action@) && carries_out(call, action@, server),
            Err(unchanged) => !is_on_server(action@) && unchanged == (action, server),
        },
{
    match (action, server) {
        (Action::StartFalkor, FalkorServer::Stopped(falkor)) => Ok(
            ServerCall::Starting(falkor.start()),
        ),
        (Action::StopFalkor, FalkorServer::Started(falkor)) => Ok(
            ServerCall::Stopping(falkor.stop()),
        ),
        (Action::DropFalkor, FalkorServer::Started(falkor)) => Ok(
            ServerCall::Dropping(falkor.state.0),
        ),
        (Action::DropFalkor, server) => Ok(ServerCall::Kept(server)),
        (action, server) => Err((action, server)),
    }
}

impl Flow for ServerCall {
    /// The reply to the action, and the server as it is then.
    type Output = (Reply, FalkorServer);

    open spec fn request(&self) -> Option<Request> {
        match self {
            ServerCall::Starting(flow) => flow.request(),
            ServerCall::Stopping(flow) => flow.request(),
            ServerCall::Dropping(process) => Some(Request::EndFalkorProcess(*process)),
            ServerCall::Dropped => None,
            ServerCall::Kept(_) => None,
        }
    }

    open spec fn after(self, reply: Reply) -> Self {
        match self {
            ServerCall::Starting(flow) => ServerCall::Starting(flow.after(reply)),
            ServerCall::Stopping(flow) => ServerCall::Stopping(flow.after(reply)),
            ServerCall::Dropping(process) => if reply is Done {
                ServerCall::Dropped
            } else {
                self
            },
            ServerCall::Dropped => self,
            ServerCall::Kept(_) => self,
        }
    }

    open spec fn gives(&self, result: BenchmarkResult<(Reply, FalkorServer)>) -> bool {
        result matches Ok(given) && match (self, given.0, given.1) {
            (ServerCall::Starting(flow), Reply::Done, FalkorServer::Started(falkor)) => flow.gives(
                Ok(falkor),
            ),
            (ServerCall::Starting(flow), Reply::Failed(e), FalkorServer::Gone) => flow.gives(
                Err(e),
            ),
            (ServerCall::Stopping(flow), Reply::Done, FalkorServer::Stopped(falkor)) => flow.gives(
                Ok(falkor),
            ),
            (ServerCall::Stopping(flow), Reply::Failed(e), FalkorServer::Gone) => flow.gives(
                Err(e),
            ),
            (ServerCall::Dropped, Reply::Done, FalkorServer::Gone) => true,
            (ServerCall::Kept(server), Reply::Done, same) => same == *server,
            _ => false,
        }
    }

    proof fn goes_on(self, reply: Reply) {
        match self {
            ServerCall::Starting(flow) => flow.goes_on(reply),
            ServerCall::Stopping(flow) => flow.goes_on(reply),
            _ => {},
        }
    }

    fn action(&self) -> (action: Option<Action>) {
        match self {
            ServerCall::Starting(flow) => flow.action(),
            ServerCall::Stopping(flow) => flow.action(),
            ServerCall::Dropping(process) => Some(Action::EndFalkorProcess(*process)),
            ServerCall::Dropped => None,
            ServerCall::Kept(_) => None,
        }
    }

    fn next(self, reply: Reply) -> (state: Self) {
        match (self, reply) {
            (ServerCall::Starting(flow), reply) => ServerCall::Starting(flow.next(reply)),
            (ServerCall::Stopping(flow), reply) => ServerCall::Stopping(flow.next(reply)),
            (ServerCall::Dropping(process), Reply::Done) => ServerCall::Dropped,
            (state, _) => state,
        }
    }

    fn finish(self) -> (result: BenchmarkResult<(Reply, FalkorServer)>) {
        match self {
            ServerCall::Starting(flow) => match flow.finish() {
                Ok(falkor) => Ok((Reply::Done, FalkorServer::Started(falkor))),
                Err(e) => Ok((Reply::Failed(e), FalkorServer::Gone)),
            },
            ServerCall::Stopping(flow) => match flow.finish() {
                Ok(falkor) => Ok((Reply::Done, FalkorServer::Stopped(falkor))),
                Err(e) => Ok((Reply::Failed(e), FalkorServer::Gone)),
            },
            ServerCall::Dropped => Ok((Reply::Done, FalkorServer::Gone)),
            ServerCall::Kept(server) => Ok((Reply::Done, server)),
            ServerCall::Dropping(_) => unreached(),
        }
    }
}

// ---------------------------------------------------------------------------
// The server over a whole command

/// Whether a request that gets this reply can leave the server so: started once the start
/// is done, stopped once the stop is, gone where either fails, not started once it is let
/// go, and as it was after anything else.
pub open spec fn leaves(
    server: FalkorServer,
    request: Request,
    reply: Reply,
    later: FalkorServer,
) -> bool {
    match request {
        Request::StartFalkor => if reply is Done {
            later is Started
        } else {
            reply is Failed && later is Gone
        },
        Request::StopFalkor => if reply is Done {
            later is Stopped
        } else {
            reply is Failed && later is Gone
        },
        Request::DropFalkor => reply is Done && !(later is Started),
        _ => later == server,
    }
}

/// What a call gives on the server in hand answers the action and leaves the server as the
/// answer says, whatever the call went through.
pub proof fn server_is_as_the_answer_says(
    server: FalkorServer,
    request: Request,
    call: ServerCall,
    replies: Seq<Reply>,
    reply: Reply,
    later: FalkorServer,
)
    requires
        carries_out(call, request, server),
        flow::run(call, replies).gives(Ok((reply, later))),
    ensures
        action::answers(request, reply),
        leaves(server, request, reply, later),
{
    lemma_kind_stays(call, replies);
}

proof fn lemma_kind_stays(call: ServerCall, replies: Seq<Reply>)
    ensures
        call is Starting ==> flow::run(call, replies) is Starting,
        call is Stopping ==> flow::run(call, replies) is Stopping,
        call is Dropping ==> flow::run(call, replies) is Dropping || flow::run(
            call,
            replies,
        ) is Dropped,
        call is Dropped || call is Kept ==> flow::run(call, replies) == call,
    decreases replies.len(),
{
    if replies.len() > 0 {
        lemma_kind_stays(call.after(replies[0]), replies.drop_first());
    }
}

/// Whether the operation can get the replies while the server goes through these states.
pub open spec fn is_served<F: Flow>(
    flow: F,
    servers: Seq<FalkorServer>,
    replies: Seq<Reply>,
) -> bool
    decreases replies.len(),
{
    &&& servers.len() == replies.len() + 1
    &&& replies.len() == 0 || match flow.request() {
        Some(request) => {
            &&& action::answers(request, replies[0])
            &&& leaves(servers[0], request, replies[0], servers[1])
            &&& is_served(flow.after(replies[0]), servers.drop_first(), replies.drop_first())
        },
        None => false,
    }
}

} // verus!
