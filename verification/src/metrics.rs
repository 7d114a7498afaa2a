//! The metrics page that a server publishes for alarming: for each client,
//! how many seconds ago it last sent a ping, in the Prometheus text format.
//!
//! A client named `demo_server` that pinged two seconds ago gives
//!
//! ```text
//! # HELP demo_server_last_seen_seconds seconds since demo_server sent a ping
//! # TYPE demo_server_last_seen_seconds gauge
//! demo_server_last_seen_seconds 2
//! ```

use crate::text::{
    is_numeral, lemma_signed_decimal_denotes, signed_decimal, signed_decimal_string, signed_value,
};
use vstd::prelude::*;

verus! {

/// How long ago one client was last seen.
#[derive(Debug, Clone)]
pub struct LastSeen {
    pub name: String,
    pub seconds: i64,
}

/// The three lines that describe one client.
pub open spec fn metric_block(name: Seq<char>, seconds: int) -> Seq<char> {
    "# HELP "@ + name + "_last_seen_seconds seconds since "@ + name + " sent a ping\n# TYPE "@ + name
        + "_last_seen_seconds gauge\n"@ + name + "_last_seen_seconds "@ + signed_decimal(seconds) + "\n"@
}

/// The blocks of the given clients, one after the other, in order.
pub open spec fn metrics_text(clients: Seq<LastSeen>) -> Seq<char>
    decreases clients.len(),
{
    if clients.len() == 0 {
        Seq::empty()
    } else {
        metrics_text(clients.drop_last()) + metric_block(
            clients.last().name@,
            clients.last().seconds as int,
        )
    }
}

/// The three lines that describe one client.
fn render_block(client: &LastSeen) -> (s: String)
    ensures
        s@ == metric_block(client.name@, client.seconds as int),
{
    let name = client.name.as_str();
    let mut s = String::from_str("# HELP ");
    s.append(name);
    s.append("_last_seen_seconds seconds since ");
    s.append(name);
    s.append(" sent a ping\n# TYPE ");
    s.append(name);
    s.append("_last_seen_seconds gauge\n");
    s.append(name);
    s.append("_last_seen_seconds ");
    let seconds = signed_decimal_string(client.seconds);
    s.append(seconds.as_str());
    s.append("\n");
    s
}

/// The metrics page for the given clients, in their order.
pub fn render_metrics(clients: &Vec<LastSeen>) -> (page: String)
    ensures
        page@ == metrics_text(clients@),
{
    let mut page = String::new();
    let mut i: usize = 0;
    while i < clients.len()
        invariant
            i <= clients@.len(),
            page@ == metrics_text(clients@.take(i as int)),
        decreases clients@.len() - i,
    {
        let block = render_block(&clients[i]);
        page.append(block.as_str());
        assert(clients@.take(i + 1).drop_last() =~= clients@.take(i as int));
        i = i + 1;
    }
    assert(clients@.take(clients@.len() as int) =~= clients@);
    page
}

/// A client's block ends with its value line: the name, then
/// `_last_seen_seconds `, then a decimal text that denotes exactly the seconds
/// (with a minus sign when they are negative), then a newline. A page of one
/// client is that client's block.
pub proof fn lemma_block_value_line(name: Seq<char>, seconds: int)
    ensures
        ({
            let block = metric_block(name, seconds);
            let value = signed_decimal(seconds);
            let line = name + "_last_seen_seconds "@ + value + "\n"@;
            &&& block.len() >= line.len()
            &&& block.skip(block.len() - line.len()) == line
            &&& signed_value(value) == seconds
            &&& (seconds >= 0 ==> is_numeral(value))
            &&& (seconds < 0 ==> value[0] == '-' && is_numeral(value.drop_first()))
        }),
{
    lemma_signed_decimal_denotes(seconds);
    let block = metric_block(name, seconds);
    let line = name + "_last_seen_seconds "@ + signed_decimal(seconds) + "\n"@;
    let head = "# HELP "@ + name + "_last_seen_seconds seconds since "@ + name + " sent a ping\n# TYPE "@ + name
        + "_last_seen_seconds gauge\n"@;
    assert(block =~= head + line);
    assert(block.skip(block.len() - line.len()) =~= line);
}

/// The page of a single client is exactly that client's block.
pub proof fn lemma_single_client_page(client: LastSeen)
    ensures
        metrics_text(seq![client]) == metric_block(client.name@, client.seconds as int),
{
    assert(seq![client].drop_last() =~= Seq::<LastSeen>::empty());
    assert(seq![client].last() == client);
    assert(metrics_text(Seq::<LastSeen>::empty()) == Seq::<char>::empty());
    assert(Seq::<char>::empty() + metric_block(client.name@, client.seconds as int) =~= metric_block(
        client.name@,
        client.seconds as int,
    ));
}

/// The page of two lists of clients, one after the other, is the page of the
/// first followed by the page of the second: every client gets its own block,
/// in the order given, and nothing else is written.
pub proof fn lemma_page_of_concatenation(a: Seq<LastSeen>, b: Seq<LastSeen>)
    ensures
        metrics_text(a + b) == metrics_text(a) + metrics_text(b),
    decreases b.len(),
{
    if b.len() == 0 {
        assert(a + b =~= a);
        assert(metrics_text(a) + metrics_text(b) =~= metrics_text(a));
    } else {
        lemma_page_of_concatenation(a, b.drop_last());
        assert((a + b).drop_last() =~= a + b.drop_last());
        assert((a + b).last() == b.last());
        assert(metrics_text(a + b) =~= metrics_text(a) + metrics_text(b));
    }
}

} // verus!
