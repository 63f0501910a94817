//! The graph query command.

use vstd::prelude::*;
use vstd::string::StringSliceAdditionalSpecFns;

use crate::command::{cmd_args, new_command, push_arg};

verus! {

/// The name under which the graph module of a redis server takes queries.
pub const GRAPH_QUERY: &'static str = "GRAPH.QUERY";

/// The bytes of `GRAPH.QUERY`.
pub open spec fn graph_query_name() -> Seq<u8> {
    seq![71u8, 82u8, 65u8, 80u8, 72u8, 46u8, 81u8, 85u8, 69u8, 82u8, 89u8]
}

/// The arguments of a graph query on graph `key` with query text `query`.
pub open spec fn graph_query_args(key: Seq<u8>, query: Seq<u8>) -> Seq<Seq<u8>> {
    seq![graph_query_name(), key, query]
}

/// The arguments of a graph query whose key encodes into the parts `keys` and
/// whose query text encodes into the parts `queries`.
pub open spec fn graph_query_args_of(keys: Seq<Seq<u8>>, queries: Seq<Seq<u8>>) -> Seq<Seq<u8>> {
    seq![graph_query_name()] + keys + queries
}

/// A key and a query text that each encode into one part give the command
/// name followed by exactly the key and then the query text.
pub proof fn lemma_single_part_arguments(key: Seq<u8>, query: Seq<u8>)
    ensures
        graph_query_args_of(seq![key], seq![query]) == graph_query_args(key, query),
        graph_query_args(key, query).len() == 3,
        graph_query_args(key, query)[0] == graph_query_name(),
        graph_query_args(key, query)[1] == key,
        graph_query_args(key, query)[2] == query,
{
    assert(graph_query_args_of(seq![key], seq![query]) =~= graph_query_args(key, query));
}

/// A command that holds the graph query name and nothing else yet.
fn new_graph_query() -> (c: redis::Cmd)
    ensures
        cmd_args(c) == seq![graph_query_name()],
{
    proof {
        reveal_strlit("GRAPH.QUERY");
        vstd::string::is_ascii_spec_bytes(GRAPH_QUERY);
    }
    assert(GRAPH_QUERY.spec_bytes() =~= graph_query_name());
    new_command(GRAPH_QUERY)
}

/// Appends each of `args`, in order, to `c`.
fn push_args(c: &mut redis::Cmd, args: &Vec<Vec<u8>>)
    ensures
        cmd_args(*final(c)) == cmd_args(*old(c)) + args.deep_view(),
{
    let ghost start = cmd_args(*c);
    let mut i: usize = 0;
    while i < args.len()
        invariant
            0 <= i <= args.len(),
            cmd_args(*c) == start + args.deep_view().take(i as int),
        decreases args.len() - i,
    {
        push_arg(c, args[i].as_slice());
        assert(args[i as int].deep_view() =~= args[i as int]@);
        assert(args.deep_view().take(i + 1) =~= args.deep_view().take(i as int).push(args[i as int]@));
        i = i + 1;
    }
    assert(args.deep_view().take(i as int) =~= args.deep_view());
}

/// Builds a graph query from the encoded parts of its key and of its query
/// text: the command name, every part of the key, then every part of the query.
pub fn graph_query_command_from_args(keys: &Vec<Vec<u8>>, queries: &Vec<Vec<u8>>) -> (c: redis::Cmd)
    ensures
        cmd_args(c) == graph_query_args_of(keys.deep_view(), queries.deep_view()),
{
    let mut c = new_graph_query();
    push_args(&mut c, keys);
    push_args(&mut c, queries);
    c
}

/// Builds `GRAPH.QUERY key query`.
pub fn graph_query_command(key: &str, query: &str) -> (c: redis::Cmd)
    ensures
        cmd_args(c) == graph_query_args(key.spec_bytes(), query.spec_bytes()),
{
    let mut c = new_graph_query();
    push_arg(&mut c, key.as_bytes());
    push_arg(&mut c, query.as_bytes());
    c
}

} // verus!
