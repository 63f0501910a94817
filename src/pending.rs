//! A graph query in flight: its command is built, handed to the transport
//! once, and the query is then resolved once with the transport's outcome.

use vstd::prelude::*;

use crate::command::cmd_args;
use crate::query::{graph_query_args_of, graph_query_command_from_args};

verus! {

#[verifier::external_type_specification]
#[verifier::external_body]
pub struct ExRedisError(redis::RedisError);

/// One graph query, from the moment its command is built to the moment its
/// outcome goes back to the caller.
pub struct PendingGraphQuery {
    command: Option<redis::Cmd>,
    args: Ghost<Seq<Seq<u8>>>,
}

impl PendingGraphQuery {
    /// The arguments of the command that this query sends.
    pub closed spec fn request(&self) -> Seq<Seq<u8>> {
        self.args@
    }

    /// Whether the command has been handed to the transport.
    pub closed spec fn is_sent(&self) -> bool {
        self.command is None
    }

    /// A command not yet sent holds exactly the arguments of the request.
    pub closed spec fn wf(&self) -> bool {
        self.command matches Some(c) ==> cmd_args(c) == self.args@
    }

    /// A query on the graph whose key encodes into `keys`, with a query text
    /// that encodes into `queries`; nothing is sent yet.
    pub fn new(keys: &Vec<Vec<u8>>, queries: &Vec<Vec<u8>>) -> (p: PendingGraphQuery)
        ensures
            p.wf(),
            !p.is_sent(),
            p.request() == graph_query_args_of(keys.deep_view(), queries.deep_view()),
    {
        let command = graph_query_command_from_args(keys, queries);
        PendingGraphQuery {
            command: Some(command),
            args: Ghost(graph_query_args_of(keys.deep_view(), queries.deep_view())),
        }
    }

    /// Whether the command has been handed to the transport.
    pub fn sent(&self) -> (r: bool)
        ensures
            r == self.is_sent(),
    {
        self.command.is_none()
    }

    /// Hands out the command for its one round trip. It can be had only once:
    /// afterwards the query is sent and waits for its outcome.
    pub fn send(&mut self) -> (c: redis::Cmd)
        requires
            old(self).wf(),
            !old(self).is_sent(),
        ensures
            final(self).wf(),
            final(self).is_sent(),
            final(self).request() == old(self).request(),
            cmd_args(c) == old(self).request(),
    {
        self.command.take().unwrap()
    }

    /// Resolves a sent query with what the transport gave back for it, a
    /// decoded reply or a fault, and returns that outcome as it is. The query
    /// is consumed: it resolves once.
    pub fn resolve<T>(self, outcome: Result<T, redis::RedisError>) -> (r: Result<T, redis::RedisError>)
        requires
            self.is_sent(),
        ensures
            r == outcome,
    {
        outcome
    }
}

} // verus!
