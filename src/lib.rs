//! Graph queries over a redis connection: the `GRAPH.QUERY` command, built
//! with redis's own command builder and proved to carry exactly the graph key
//! and the query text, in that order.

use vstd::prelude::*;

pub mod command;
pub mod pending;
pub mod query;

pub use command::cmd_args;
pub use pending::PendingGraphQuery;
pub use query::{
    graph_query_args, graph_query_args_of, graph_query_command, graph_query_command_from_args,
    graph_query_name, lemma_single_part_arguments, GRAPH_QUERY,
};
