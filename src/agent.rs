//! The pairwise identity that the connection speaks under.
use vstd::prelude::*;

verus! {

/// A pairwise DID with its verification key, the routing keys of the agency
/// that forwards to it, and the agency's delivery endpoint.
#[derive(Debug, Clone)]
pub struct AgentInfo {
    pub pw_did: String,
    pub pw_vk: String,
    pub routing_keys: Vec<String>,
    pub agency_endpoint: String,
}

pub struct AgentInfoModel {
    pub pw_did: Seq<char>,
    pub pw_vk: Seq<char>,
    pub routing_keys: Seq<Seq<char>>,
    pub agency_endpoint: Seq<char>,
}

impl View for AgentInfo {
    type V = AgentInfoModel;

    open spec fn view(&self) -> AgentInfoModel {
        AgentInfoModel {
            pw_did: self.pw_did@,
            pw_vk: self.pw_vk@,
            routing_keys: self.routing_keys.deep_view(),
            agency_endpoint: self.agency_endpoint@,
        }
    }
}

/// The identity of a connection that has not provisioned one yet: all empty.
pub open spec fn empty_agent_info() -> AgentInfoModel {
    AgentInfoModel {
        pw_did: Seq::empty(),
        pw_vk: Seq::empty(),
        routing_keys: Seq::empty(),
        agency_endpoint: Seq::empty(),
    }
}

impl Default for AgentInfo {
    fn default() -> (r: AgentInfo)
        ensures
            r@ == empty_agent_info(),
    {
        let r = AgentInfo {
            pw_did: String::new(),
            pw_vk: String::new(),
            routing_keys: Vec::new(),
            agency_endpoint: String::new(),
        };
        assert(r@.routing_keys =~= Seq::<Seq<char>>::empty());
        r
    }
}

impl AgentInfo {
    /// The keys that a peer encrypts for: the pairwise verification key alone.
    pub fn recipient_keys(&self) -> (r: Vec<String>)
        ensures
            r.deep_view() == seq![self@.pw_vk],
    {
        let r = vec![self.pw_vk.clone()];
        assert(r.deep_view() =~= seq![self@.pw_vk]);
        r
    }

    pub fn routing_keys(&self) -> (r: Vec<String>)
        ensures
            r.deep_view() == self@.routing_keys,
    {
        clone_strings(&self.routing_keys)
    }

    pub fn agency_endpoint(&self) -> (r: String)
        ensures
            r@ == self@.agency_endpoint,
    {
        self.agency_endpoint.clone()
    }
}

/// A copy of a list of strings.
pub fn clone_strings(v: &Vec<String>) -> (r: Vec<String>)
    ensures
        r.deep_view() == v.deep_view(),
{
    let mut r: Vec<String> = Vec::new();
    let mut i: usize = 0;
    while i < v.len()
        invariant
            i <= v.len(),
            r@.len() == i,
            forall|j: int| 0 <= j < i ==> (#[trigger] r@[j])@ == v@[j]@,
        decreases v.len() - i,
    {
        let s = v[i].clone();
        r.push(s);
        i = i + 1;
    }
    assert(r.deep_view() =~= v.deep_view());
    r
}

} // verus!
