//! The protocols that this agent supports, as disclosed to peers that ask.
use vstd::prelude::*;
use vstd::string::StrSliceExecFns;
use vstd::string::StringExecFns;
use crate::messages::ProtocolDescriptor;

verus! {

pub const CONNECTIONS_PID: &'static str = "https://didcomm.org/connections/1.0/";
pub const TRUST_PING_PID: &'static str = "https://didcomm.org/trust_ping/1.0/";
pub const DISCOVER_FEATURES_PID: &'static str = "https://didcomm.org/discover-features/1.0/";
pub const NOTIFICATION_PID: &'static str = "https://didcomm.org/notification/1.0/";

/// The identifiers of the supported protocols, in the order in which they are listed.
pub open spec fn supported_pids() -> Seq<Seq<char>> {
    seq![CONNECTIONS_PID@, TRUST_PING_PID@, DISCOVER_FEATURES_PID@, NOTIFICATION_PID@]
}

/// The prefix that a query asks for: the query without a trailing `*`.
pub open spec fn query_prefix(q: Seq<char>) -> Seq<char> {
    if q.len() > 0 && q.last() == '*' {
        q.drop_last()
    } else {
        q
    }
}

/// A protocol answers a query when its identifier starts with the query's
/// prefix; no query at all matches every protocol.
pub open spec fn pid_matches(pid: Seq<char>, query: Option<Seq<char>>) -> bool {
    match query {
        None => true,
        Some(q) => {
            let p = query_prefix(q);
            p.len() <= pid.len() && pid.subrange(0, p.len() as int) == p
        },
    }
}

pub open spec fn pids_for_query(query: Option<Seq<char>>) -> Seq<Seq<char>> {
    supported_pids().filter(|pid: Seq<char>| pid_matches(pid, query))
}

fn descriptor(pid: &str) -> (r: ProtocolDescriptor)
    ensures
        r.deep_view() == pid@,
{
    ProtocolDescriptor { pid: String::from_str(pid) }
}

/// Every protocol that this agent supports.
pub fn supported_protocols() -> (r: Vec<ProtocolDescriptor>)
    ensures
        r.deep_view() == supported_pids(),
{
    let r = vec![
        descriptor(CONNECTIONS_PID),
        descriptor(TRUST_PING_PID),
        descriptor(DISCOVER_FEATURES_PID),
        descriptor(NOTIFICATION_PID),
    ];
    assert(r.deep_view() =~= supported_pids());
    r
}

fn matches_query(pid: &str, query: &Option<String>) -> (r: bool)
    ensures
        r == pid_matches(pid@, query.deep_view()),
{
    match query {
        None => true,
        Some(qs) => {
            assert(query.deep_view() == Some(qs@));
            let q = qs.as_str();
            let mut n = q.unicode_len();
            if n > 0 && q.get_char(n - 1) == '*' {
                n = n - 1;
            }
            assert(q@.subrange(0, n as int) == query_prefix(q@));
            let m = pid.unicode_len();
            if n > m {
                return false;
            }
            let mut i: usize = 0;
            while i < n
                invariant
                    n <= m,
                    n <= q@.len(),
                    q@.subrange(0, n as int) == query_prefix(q@),
                    query.deep_view() == Some(q@),
                    m == pid@.len(),
                    i <= n,
                    forall|j: int| 0 <= j < i ==> pid@[j] == q@[j],
                decreases n - i,
            {
                if pid.get_char(i) != q.get_char(i) {
                    assert(pid@.subrange(0, n as int)[i as int] != q@.subrange(0, n as int)[i as int]);
                    assert(pid@.subrange(0, n as int) != query_prefix(q@));
                    return false;
                }
                i = i + 1;
            }
            assert(pid@.subrange(0, n as int) =~= q@.subrange(0, n as int));
            true
        },
    }
}

/// The supported protocols that answer a discovery query, in registry order.
pub fn protocols_for_query(query: &Option<String>) -> (r: Vec<ProtocolDescriptor>)
    ensures
        r.deep_view() == pids_for_query(query.deep_view()),
{
    let all = supported_protocols();
    let ghost pred = |pid: Seq<char>| pid_matches(pid, query.deep_view());
    let mut r: Vec<ProtocolDescriptor> = Vec::new();
    let mut i: usize = 0;
    while i < all.len()
        invariant
            i <= all.len(),
            all.deep_view() == supported_pids(),
            pred == (|pid: Seq<char>| pid_matches(pid, query.deep_view())),
            r.deep_view() == all.deep_view().subrange(0, i as int).filter(pred),
        decreases all.len() - i,
    {
        let ghost before = r.deep_view();
        proof {
            let s = all.deep_view().subrange(0, i + 1);
            assert(s.drop_last() =~= all.deep_view().subrange(0, i as int));
            reveal(Seq::filter);
        }
        if matches_query(all[i].pid.as_str(), query) {
            r.push(ProtocolDescriptor { pid: all[i].pid.clone() });
            assert(r.deep_view() =~= before.push(all.deep_view()[i as int]));
        }
        i = i + 1;
    }
    assert(all.deep_view().subrange(0, all.len() as int) =~= all.deep_view());
    r
}

} // verus!
