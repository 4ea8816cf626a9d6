//! Packet-capture filter text for a set of known connections.
//!
//! Each connection contributes one clause matching its traffic in both
//! directions; the clauses are joined with `or`.  With no connections the
//! filter matches nothing.

use vstd::prelude::*;
use vstd::string::StringExecFns;

use crate::format::dec_digits;
use crate::format::push_u64_decimal;

verus! {

/// One connection: local address, local port, remote address, remote port,
/// and protocol name.
pub type ConnectionInfo = (String, u16, String, u16, String);

/// The filter clause for one connection: its protocol, matching traffic
/// from the local endpoint to the remote one or back.
pub open spec fn filter_clause(c: ConnectionInfo) -> Seq<char> {
    "("@ + c.4@ + " and ((src host "@ + c.0@ + " and src port "@ + dec_digits(c.1 as nat)
        + " and dst host "@ + c.2@ + " and dst port "@ + dec_digits(c.3 as nat)
        + ") or (dst host "@ + c.0@ + " and dst port "@ + dec_digits(c.1 as nat)
        + " and src host "@ + c.2@ + " and src port "@ + dec_digits(c.3 as nat) + ")))"@
}

/// The whole filter: the clauses joined with `or`, or a filter that
/// matches nothing when there is no connection.
pub open spec fn filter_chars(conns: Seq<ConnectionInfo>) -> Seq<char>
    decreases conns.len(),
{
    if conns.len() == 0 {
        "false"@
    } else if conns.len() == 1 {
        filter_clause(conns[0])
    } else {
        filter_chars(conns.drop_last()) + " or "@ + filter_clause(conns.last())
    }
}

/// Append the filter clause for one connection.
fn append_clause(filter: &mut String, c: &ConnectionInfo)
    ensures
        final(filter)@ == old(filter)@ + filter_clause(*c),
{
    filter.append("(");
    filter.append(c.4.as_str());
    filter.append(" and ((src host ");
    filter.append(c.0.as_str());
    filter.append(" and src port ");
    push_u64_decimal(filter, c.1 as u64);
    filter.append(" and dst host ");
    filter.append(c.2.as_str());
    filter.append(" and dst port ");
    push_u64_decimal(filter, c.3 as u64);
    filter.append(") or (dst host ");
    filter.append(c.0.as_str());
    filter.append(" and dst port ");
    push_u64_decimal(filter, c.1 as u64);
    filter.append(" and src host ");
    filter.append(c.2.as_str());
    filter.append(" and src port ");
    push_u64_decimal(filter, c.3 as u64);
    filter.append(")))");
    proof {
        assert(final(filter)@ =~= old(filter)@ + filter_clause(*c));
    }
}

/// Build the capture filter matching exactly the given connections'
/// traffic, in either direction; with no connections the filter is the
/// constant that matches nothing.
pub fn build_bpf_filter(connections: &[ConnectionInfo]) -> (filter: String)
    ensures
        filter@ == filter_chars(connections@),
{
    let n = connections.len();
    if n == 0 {
        let filter = "false".to_owned();
        return filter;
    }
    let mut filter = String::new();
    let mut i: usize = 0;
    while i < n
        invariant
            i <= n,
            n == connections@.len(),
            n >= 1,
            i == 0 ==> filter@ == Seq::<char>::empty(),
            i >= 1 ==> filter@ == filter_chars(connections@.take(i as int)),
        decreases n - i,
    {
        if i > 0 {
            filter.append(" or ");
        }
        append_clause(&mut filter, &connections[i]);
        proof {
            let taken = connections@.take(i + 1);
            assert(taken.drop_last() =~= connections@.take(i as int));
            assert(taken.last() == connections@[i as int]);
            if i == 0 {
                assert(filter@ =~= filter_chars(taken));
            } else {
                assert(filter@ =~= filter_chars(taken));
            }
        }
        i = i + 1;
    }
    proof {
        assert(connections@.take(n as int) =~= connections@);
    }
    filter
}

} // verus!
