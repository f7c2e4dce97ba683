//! The local Redis server: asking it, waiting for it, shutting it down.
use vstd::pervasive::unreached;
use vstd::prelude::*;
use vstd::string::*;
use crate::action::{Action, Reply, Request};
use crate::error::{other_error, BenchmarkResult};
use crate::flow;
use crate::flow::Flow;
use crate::text;

verus! {

/// Where the local Redis is reached.
pub const REDIS_URL: &'static str = "redis://127.0.0.1:6379/";

// ---------------------------------------------------------------------------
// One command and its answer

/// The commands whose answer is fixed.
#[derive(Debug, Clone, Copy, PartialEq, Eq, Structural)]
pub enum Exchange {
    Ping,
    Save,
}

impl Exchange {
    /// What is sent.
    pub open spec fn command(self) -> Seq<char> {
        match self {
            Exchange::Ping => "PING"@,
            Exchange::Save => "SAVE"@,
        }
    }

    /// What Redis has to answer.
    pub open spec fn answer(self) -> Seq<char> {
        match self {
            Exchange::Ping => "PONG"@,
            Exchange::Save => "OK"@,
        }
    }

    /// How many seconds Redis has to answer.
    pub open spec fn patience(self) -> u64 {
        match self {
            Exchange::Ping => 10,
            Exchange::Save => 30,
        }
    }

    /// What is said where Redis does not answer in time.
    pub open spec fn complaint(self) -> Seq<char> {
        match self {
            Exchange::Ping => "Ping operation timed out"@,
            Exchange::Save => "SAVE operation timed out"@,
        }
    }
}

/// Sends a command and compares the answer with the one that it has to be.
pub enum RedisExchange {
    Asking(Exchange),
    Answered(Exchange, String),
    Unanswered(Exchange),
    Ended(BenchmarkResult<()>),
}

/// Asks Redis whether it is there.
pub fn ping_redis() -> (flow: RedisExchange)
    ensures
        flow == RedisExchange::Asking(Exchange::Ping),
{
    RedisExchange::Asking(Exchange::Ping)
}

/// Lets Redis save its data.
pub fn redis_save() -> (flow: RedisExchange)
    ensures
        flow == RedisExchange::Asking(Exchange::Save),
{
    RedisExchange::Asking(Exchange::Save)
}

impl Flow for RedisExchange {
    type Output = ();

    open spec fn request(&self) -> Option<Request> {
        match self {
            RedisExchange::Asking(x) => Some(
                Request::RedisCommand {
                    command: x.command(),
                    timeout_secs: x.patience(),
                    timed_connect: false,
                },
            ),
            _ => None,
        }
    }

    open spec fn after(self, reply: Reply) -> Self {
        match (self, reply) {
            (RedisExchange::Asking(x), Reply::Text(answer)) => RedisExchange::Answered(x, answer),
            (RedisExchange::Asking(x), Reply::TimedOut) => RedisExchange::Unanswered(x),
            (RedisExchange::Asking(x), Reply::Failed(e)) => RedisExchange::Ended(Err(e)),
            (state, _) => state,
        }
    }

    open spec fn gives(&self, result: BenchmarkResult<()>) -> bool {
        match self {
            RedisExchange::Asking(_) => false,
            RedisExchange::Answered(x, answer) => if answer@ == x.answer() {
                result == BenchmarkResult::<()>::Ok(())
            } else {
                result matches Err(e) && e.is_other(
                    "Unexpected response from Redis: "@ + answer@,
                )
            },
            RedisExchange::Unanswered(x) => result matches Err(e) && e.is_other(x.complaint()),
            RedisExchange::Ended(r) => result == *r,
        }
    }

    proof fn goes_on(self, reply: Reply) {
    }

    fn action(&self) -> (action: Option<Action>) {
        match self {
            RedisExchange::Asking(Exchange::Ping) => Some(
                Action::RedisCommand {
                    command: "PING".to_string(),
                    timeout_secs: 10,
                    timed_connect: false,
                },
            ),
            RedisExchange::Asking(Exchange::Save) => Some(
                Action::RedisCommand {
                    command: "SAVE".to_string(),
                    timeout_secs: 30,
                    timed_connect: false,
                },
            ),
            _ => None,
        }
    }

    fn next(self, reply: Reply) -> (state: Self) {
        match (self, reply) {
            (RedisExchange::Asking(x), Reply::Text(answer)) => RedisExchange::Answered(x, answer),
            (RedisExchange::Asking(x), Reply::TimedOut) => RedisExchange::Unanswered(x),
            (RedisExchange::Asking(x), Reply::Failed(e)) => RedisExchange::Ended(Err(e)),
            (state, _) => state,
        }
    }

    fn finish(self) -> (result: BenchmarkResult<()>) {
        match self {
            RedisExchange::Asking(_) => unreached(),
            RedisExchange::Answered(x, answer) => {
                let expected = match x {
                    Exchange::Ping => "PONG",
                    Exchange::Save => "OK",
                };
                if text::same_text(answer.as_str(), expected) {
                    Ok(())
                } else {
                    let said = "Unexpected response from Redis: ".to_string().concat(
                        answer.as_str(),
                    );
                    Err(other_error(said.as_str()))
                }
            },
            RedisExchange::Unanswered(x) => match x {
                Exchange::Ping => Err(other_error("Ping operation timed out")),
                Exchange::Save => Err(other_error("SAVE operation timed out")),
            },
            RedisExchange::Ended(r) => r,
        }
    }
}

// ---------------------------------------------------------------------------
// Waiting for Redis

/// Where a wait stands. The attempts are numbered from one.
#[derive(Debug, Clone, Copy, PartialEq, Eq, Structural)]
pub enum Attempt {
    Pinging(u32),
    SleepingBefore(u32),
    Ready,
    GaveUp,
}

/// Pings Redis until it answers.
#[derive(Debug, Clone, Copy, PartialEq, Eq, Structural)]
pub struct WaitForRedis {
    pub max_attempts: u32,
    pub delay_ms: u64,
    pub attempt: Attempt,
}

/// Pings Redis until it answers, at most `max_attempts` times, with a delay in between.
pub fn wait_for_redis_ready(max_attempts: u32, delay_ms: u64) -> (flow: WaitForRedis)
    requires
        max_attempts >= 1,
    ensures
        flow == (WaitForRedis { max_attempts, delay_ms, attempt: Attempt::Pinging(1) }),
{
    WaitForRedis { max_attempts, delay_ms, attempt: Attempt::Pinging(1) }
}

impl Flow for WaitForRedis {
    type Output = ();

    open spec fn request(&self) -> Option<Request> {
        match self.attempt {
            Attempt::Pinging(_) => Some(Request::PingRedis),
            Attempt::SleepingBefore(_) => Some(Request::Sleep(self.delay_ms)),
            Attempt::Ready | Attempt::GaveUp => None,
        }
    }

    open spec fn after(self, reply: Reply) -> Self {
        match (self.attempt, reply) {
            (Attempt::Pinging(n), Reply::Done) => WaitForRedis { attempt: Attempt::Ready, ..self },
            (Attempt::Pinging(n), Reply::Failed(_)) => if n < self.max_attempts {
                WaitForRedis { attempt: Attempt::SleepingBefore((n + 1) as u32), ..self }
            } else {
                WaitForRedis { attempt: Attempt::GaveUp, ..self }
            },
            (Attempt::SleepingBefore(n), Reply::Done) => WaitForRedis {
                attempt: Attempt::Pinging(n),
                ..self
            },
            _ => self,
        }
    }

    open spec fn gives(&self, result: BenchmarkResult<()>) -> bool {
        match self.attempt {
            Attempt::Ready => result == BenchmarkResult::<()>::Ok(()),
            Attempt::GaveUp => result matches Err(e) && e.is_other(
                "Redis not ready after "@ + text::decimal(self.max_attempts as nat) + " attempts"@,
            ),
            _ => false,
        }
    }

    proof fn goes_on(self, reply: Reply) {
    }

    fn action(&self) -> (action: Option<Action>) {
        match self.attempt {
            Attempt::Pinging(_) => Some(Action::PingRedis),
            Attempt::SleepingBefore(_) => Some(Action::Sleep(self.delay_ms)),
            Attempt::Ready | Attempt::GaveUp => None,
        }
    }

    fn next(self, reply: Reply) -> (state: Self) {
        match (self.attempt, reply) {
            (Attempt::Pinging(n), Reply::Done) => WaitForRedis { attempt: Attempt::Ready, ..self },
            (Attempt::Pinging(n), Reply::Failed(_)) => {
                if n < self.max_attempts {
                    WaitForRedis { attempt: Attempt::SleepingBefore(n + 1), ..self }
                } else {
                    WaitForRedis { attempt: Attempt::GaveUp, ..self }
                }
            },
            (Attempt::SleepingBefore(n), Reply::Done) => WaitForRedis {
                attempt: Attempt::Pinging(n),
                ..self
            },
            _ => self,
        }
    }

    fn finish(self) -> (result: BenchmarkResult<()>) {
        match self.attempt {
            Attempt::Ready => Ok(()),
            Attempt::GaveUp => {
                let digits = text::decimal_text(self.max_attempts as u64);
                let said = "Redis not ready after ".to_string().concat(digits.as_str()).concat(
                    " attempts",
                );
                Err(other_error(said.as_str()))
            },
            _ => unreached(),
        }
    }
}

impl WaitForRedis {
    /// The number of the attempt that is made or comes next is in range.
    pub open spec fn in_range(&self) -> bool {
        match self.attempt {
            Attempt::Pinging(n) => 1 <= n <= self.max_attempts,
            Attempt::SleepingBefore(n) => 2 <= n <= self.max_attempts,
            Attempt::Ready | Attempt::GaveUp => true,
        }
    }
}

/// Whatever Redis answers, no more than `max_attempts` attempts are made.
pub proof fn wait_is_bounded(wait: WaitForRedis, replies: Seq<Reply>)
    requires
        wait.in_range(),
    ensures
        flow::run(wait, replies).in_range(),
        flow::run(wait, replies).max_attempts == wait.max_attempts,
    decreases replies.len(),
{
    if replies.len() > 0 {
        wait_is_bounded(wait.after(replies[0]), replies.drop_first());
    }
}

/// Whether every ping among the replies fails and every sleep ends.
pub open spec fn all_pings_fail(replies: Seq<Reply>) -> bool {
    &&& forall|i: int| 0 <= i < replies.len() && i % 2 == 0 ==> #[trigger] replies[i] is Failed
    &&& forall|i: int| 0 <= i < replies.len() && i % 2 == 1 ==> #[trigger] replies[i] == Reply::Done
}

/// Where every ping fails, the wait gives up after `max_attempts` pings with a sleep
/// between each two, and not before.
pub proof fn wait_gives_up(wait: WaitForRedis, n: u32, replies: Seq<Reply>)
    requires
        wait.attempt == Attempt::Pinging(n),
        1 <= n <= wait.max_attempts,
        all_pings_fail(replies),
    ensures
        replies.len() == 2 * (wait.max_attempts - n) + 1 ==> flow::run(wait, replies).attempt
            == Attempt::GaveUp,
        replies.len() <= 2 * (wait.max_attempts - n) ==> flow::run(wait, replies).request()
            == Some(
            if replies.len() % 2 == 0 {
                Request::PingRedis
            } else {
                Request::Sleep(wait.delay_ms)
            },
        ),
    decreases replies.len(),
{
    if replies.len() > 0 {
        let slept = wait.after(replies[0]);
        let rest = replies.drop_first();
        if n < wait.max_attempts && rest.len() > 0 {
            assert(rest[0] == replies[1]);
            let again = slept.after(rest[0]);
            let later = rest.drop_first();
            assert forall|i: int| 0 <= i < later.len() && i % 2 == 0 implies #[trigger] later[i]
                is Failed by {
                assert(later[i] == replies[i + 2]);
            }
            assert forall|i: int| 0 <= i < later.len() && i % 2 == 1 implies #[trigger] later[i]
                == Reply::Done by {
                assert(later[i] == replies[i + 2]);
            }
            wait_gives_up(again, (n + 1) as u32, later);
            assert(flow::run(wait, replies) == flow::run(again, later));
        } else {
            assert(flow::run(slept, rest) == if rest.len() == 0 {
                slept
            } else {
                flow::run(slept.after(rest[0]), rest.drop_first())
            });
        }
    }
}

// ---------------------------------------------------------------------------
// Shutting Redis down

/// Shuts Redis down, by force where it does not answer.
pub enum RedisShutdown {
    Asking,
    Finding,
    Killing { pid: u32 },
    Ended(BenchmarkResult<()>),
}

/// Shuts Redis down. A Redis that cannot be reached counts as down; one that does not
/// answer in time is killed.
pub fn redis_shutdown() -> (flow: RedisShutdown)
    ensures
        flow == RedisShutdown::Asking,
{
    RedisShutdown::Asking
}

impl Flow for RedisShutdown {
    type Output = ();

    open spec fn request(&self) -> Option<Request> {
        match self {
            RedisShutdown::Asking => Some(
                Request::RedisCommand {
                    command: "SHUTDOWN"@,
                    timeout_secs: 20,
                    timed_connect: true,
                },
            ),
            RedisShutdown::Finding => Some(Request::FindProcess("redis-server"@)),
            RedisShutdown::Killing { pid } => Some(Request::KillProcess(*pid)),
            RedisShutdown::Ended(_) => None,
        }
    }

    open spec fn after(self, reply: Reply) -> Self {
        match (self, reply) {
            (RedisShutdown::Asking, Reply::Text(_)) => RedisShutdown::Ended(Ok(())),
            (RedisShutdown::Asking, Reply::Failed(_)) => RedisShutdown::Ended(Ok(())),
            (RedisShutdown::Asking, Reply::TimedOut) => RedisShutdown::Finding,
            (RedisShutdown::Finding, Reply::Pid(pid)) => RedisShutdown::Killing { pid },
            (RedisShutdown::Finding, Reply::Failed(e)) => RedisShutdown::Ended(Err(e)),
            (RedisShutdown::Killing { pid }, Reply::Done) => RedisShutdown::Ended(Ok(())),
            (RedisShutdown::Killing { pid }, Reply::Failed(e)) => RedisShutdown::Ended(Err(e)),
            (state, _) => state,
        }
    }

    open spec fn gives(&self, result: BenchmarkResult<()>) -> bool {
        *self == RedisShutdown::Ended(result)
    }

    proof fn goes_on(self, reply: Reply) {
    }

    fn action(&self) -> (action: Option<Action>) {
        match self {
            RedisShutdown::Asking => Some(
                Action::RedisCommand {
                    command: "SHUTDOWN".to_string(),
                    timeout_secs: 20,
                    timed_connect: true,
                },
            ),
            RedisShutdown::Finding => Some(Action::FindProcess("redis-server".to_string())),
            RedisShutdown::Killing { pid } => Some(Action::KillProcess(*pid)),
            RedisShutdown::Ended(_) => None,
        }
    }

    fn next(self, reply: Reply) -> (state: Self) {
        match (self, reply) {
            (RedisShutdown::Asking, Reply::Text(_)) => RedisShutdown::Ended(Ok(())),
            (RedisShutdown::Asking, Reply::Failed(_)) => RedisShutdown::Ended(Ok(())),
            (RedisShutdown::Asking, Reply::TimedOut) => RedisShutdown::Finding,
            (RedisShutdown::Finding, Reply::Pid(pid)) => RedisShutdown::Killing { pid },
            (RedisShutdown::Finding, Reply::Failed(e)) => RedisShutdown::Ended(Err(e)),
            (RedisShutdown::Killing { pid }, Reply::Done) => RedisShutdown::Ended(Ok(())),
            (RedisShutdown::Killing { pid }, Reply::Failed(e)) => RedisShutdown::Ended(Err(e)),
            (state, _) => state,
        }
    }

    fn finish(self) -> (result: BenchmarkResult<()>) {
        match self {
            RedisShutdown::Ended(r) => r,
            _ => unreached(),
        }
    }
}

} // verus!
