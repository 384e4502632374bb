//! Agents by name.
use crate::registry::Registry;
use vstd::prelude::*;

verus! {

/// Agents by name, and which of them speaks with the contact.
pub struct AgentRegistry<P> {
    agents: Registry<P>,
    triage_agent: String,
}

impl<P> AgentRegistry<P> {
    /// The agent of a name.
    pub closed spec fn agent(self, id: Seq<char>) -> Option<P> {
        self.agents.entry(id)
    }

    /// The name of the agent that speaks with the contact.
    pub closed spec fn triage_id(self) -> Seq<char> {
        self.triage_agent@
    }

    /// A registry without agents.
    pub fn new(triage_agent_id: &str) -> (r: Self)
        ensures
            r.triage_id() == triage_agent_id@,
            forall|id: Seq<char>| #[trigger] r.agent(id) is None,
    {
        AgentRegistry { agents: Registry::new(), triage_agent: triage_agent_id.to_string() }
    }

    /// Puts an agent under a name, in place of the one that was there.
    pub fn register(&mut self, id: &str, provider: P)
        ensures
            final(self).triage_id() == old(self).triage_id(),
            forall|x: Seq<char>| #[trigger]
                final(self).agent(x) == if x == id@ {
                    Some(provider)
                } else {
                    old(self).agent(x)
                },
    {
        self.agents.register(id, provider);
    }

    /// The agent of a name.
    pub fn get(&self, id: &str) -> (r: Option<&P>)
        ensures
            match r {
                Some(p) => self.agent(id@) == Some(*p),
                None => self.agent(id@) is None,
            },
    {
        self.agents.get(id)
    }

    /// The agent that speaks with the contact.
    pub fn triage(&self) -> (r: Option<&P>)
        ensures
            match r {
                Some(p) => self.agent(self.triage_id()) == Some(*p),
                None => self.agent(self.triage_id()) is None,
            },
    {
        self.get(self.triage_agent.as_str())
    }

    /// The names under which there is an agent, each once, in no order that
    /// callers may rely on.
    pub fn list_agents(&self) -> (r: Vec<&str>)
        ensures
            forall|i: int, j: int|
                0 <= i < j < r@.len() ==> (#[trigger] r@[i])@ != (#[trigger] r@[j])@,
            forall|i: int| 0 <= i < r@.len() ==> self.agent((#[trigger] r@[i])@) is Some,
            forall|id: Seq<char>| #[trigger]
                self.agent(id) is Some ==> exists|i: int|
                    0 <= i < r@.len() && (#[trigger] r@[i])@ == id,
    {
        let all = self.agents.entries();
        let mut r: Vec<&str> = Vec::new();
        let mut i: usize = 0;
        while i < all.len()
            invariant
                i <= all@.len(),
                r@.len() == i,
                forall|k: int| 0 <= k < i ==> (#[trigger] r@[k])@ == all@[k].0@,
            decreases all@.len() - i,
        {
            r.push(all[i].0);
            i += 1;
        }
        proof {
            assert forall|a: int, b: int| 0 <= a < b < r@.len() implies (#[trigger] r@[a])@ != (
            #[trigger] r@[b])@ by {
                assert(all@[a].0@ != all@[b].0@);
            }
            assert forall|k: int| 0 <= k < r@.len() implies self.agent(
                (#[trigger] r@[k])@,
            ) is Some by {
                assert(self.agents.entry(all@[k].0@) is Some);
            }
            assert forall|id: Seq<char>| #[trigger] self.agent(id) is Some implies exists|k: int|
                0 <= k < r@.len() && (#[trigger] r@[k])@ == id by {
                assert(self.agents.entry(id) is Some);
                let k = choose|k: int| 0 <= k < all@.len() && (#[trigger] all@[k]).0@ == id;
                assert(r@[k]@ == id);
            }
        }
        r
    }
}

/// What was put under a name is found there and listed, under every other name
/// nothing changes, and the one that speaks with the contact stays who it is.
pub proof fn law_registered_agents_are_found<P>(
    reg: &mut AgentRegistry<P>,
    id: &str,
    provider: P,
    x: &str,
    before: Option<&P>,
    after: Option<&P>,
    speaking: Option<&P>,
    names: Vec<&str>,
)
    requires
        call_ensures(AgentRegistry::<P>::register, (reg, id, provider), ()),
        call_ensures(AgentRegistry::<P>::get, (&*old(reg), x), before),
        call_ensures(AgentRegistry::<P>::get, (&*final(reg), x), after),
        call_ensures(AgentRegistry::<P>::triage, (&*final(reg),), speaking),
        call_ensures(AgentRegistry::<P>::list_agents, (&*final(reg),), names),
    ensures
        x@ == id@ ==> after == Some(&provider),
        x@ != id@ ==> after == before,
        final(reg).triage_id() == old(reg).triage_id(),
        x@ == final(reg).triage_id() ==> speaking == after,
        after is Some <==> exists|i: int| 0 <= i < names@.len() && (#[trigger] names@[i])@ == x@,
        forall|i: int, j: int|
            0 <= i < j < names@.len() ==> (#[trigger] names@[i])@ != (#[trigger] names@[j])@,
{
    if after is Some {
        assert(final(reg).agent(x@) is Some);
    }
}

/// A fresh registry has no agents, and knows who is to speak with the contact.
pub proof fn law_a_fresh_registry_has_no_agents<P>(
    triage_agent_id: &str,
    id: &str,
    reg: AgentRegistry<P>,
    r: Option<&P>,
)
    requires
        call_ensures(AgentRegistry::<P>::new, (triage_agent_id,), reg),
        call_ensures(AgentRegistry::<P>::get, (&reg, id), r),
    ensures
        r is None,
        reg.triage_id() == triage_agent_id@,
{
}

} // verus!
