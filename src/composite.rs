//! What the two composite modules share: their stored state and the
//! combination of their children's answers.
use vstd::prelude::*;

use crate::addr_set::{addr_set, insert_addr, remove_addr, unique_addrs};
use crate::authorization::addrs_view;

verus! {

/// The composite's own commands, allowed to its administrator only.
pub enum ExecuteMsg {
    AddChild { addr: String },
    RemoveChild { addr: String },
}

/// Who may administer the composite, who may relay updates to it, and its
/// children without repeats, in the order they were added.
pub struct ProxyState {
    pub admin: String,
    pub parent: String,
    pub children: Vec<String>,
}

/// Every child answered yes. An answer of `None` stands for a child whose
/// query failed, and counts as no.
pub open spec fn all_granted(answers: Seq<Option<bool>>) -> bool {
    forall|i: int| 0 <= i < answers.len() ==> #[trigger] answers[i] == Some(true)
}

/// Some child answered yes. An answer of `None` counts as no.
pub open spec fn any_granted(answers: Seq<Option<bool>>) -> bool {
    exists|i: int| 0 <= i < answers.len() && #[trigger] answers[i] == Some(true)
}

/// A child whose query failed makes a conjunction fail.
pub proof fn failed_child_denies_all(answers: Seq<Option<bool>>, i: int)
    requires
        0 <= i < answers.len(),
        answers[i] is None,
    ensures
        !all_granted(answers),
{
}

/// A child whose query failed does not change a disjunction over the others;
/// alone, it makes the disjunction fail.
pub proof fn failed_child_is_neutral_for_any(answers: Seq<Option<bool>>, i: int)
    requires
        0 <= i < answers.len(),
        answers[i] is None,
    ensures
        any_granted(answers) == any_granted(answers.remove(i)),
        answers.len() == 1 ==> !any_granted(answers),
{
    let rest = answers.remove(i);
    if any_granted(answers) {
        let j = choose|j: int| 0 <= j < answers.len() && #[trigger] answers[j] == Some(true);
        if j < i {
            assert(rest[j] == Some(true));
        } else {
            assert(rest[j - 1] == Some(true));
        }
    }
    if any_granted(rest) {
        let j = choose|j: int| 0 <= j < rest.len() && #[trigger] rest[j] == Some(true);
        if j < i {
            assert(answers[j] == Some(true));
        } else {
            assert(answers[j + 1] == Some(true));
        }
    }
}

/// Whether every answer is yes.
pub fn all_answers_granted(answers: &Vec<Option<bool>>) -> (r: bool)
    ensures
        r == all_granted(answers@),
{
    let mut i: usize = 0;
    while i < answers.len()
        invariant
            0 <= i <= answers@.len(),
            forall|k: int| 0 <= k < i ==> #[trigger] answers@[k] == Some(true),
        decreases answers@.len() - i,
    {
        match answers[i] {
            Some(true) => {},
            _ => {
                return false;
            },
        }
        i = i + 1;
    }
    true
}

/// Whether some answer is yes.
pub fn any_answer_granted(answers: &Vec<Option<bool>>) -> (r: bool)
    ensures
        r == any_granted(answers@),
{
    let mut i: usize = 0;
    while i < answers.len()
        invariant
            0 <= i <= answers@.len(),
            forall|k: int| 0 <= k < i ==> #[trigger] answers@[k] != Some(true),
        decreases answers@.len() - i,
    {
        match answers[i] {
            Some(true) => {
                return true;
            },
            _ => {},
        }
        i = i + 1;
    }
    false
}

impl ProxyState {
    /// A state with the given administrator and parent, holding `children`
    /// once each.
    pub fn new(admin: String, parent: String, children: Vec<String>) -> (r: Self)
        ensures
            r.wf(),
            r.admin == admin,
            r.parent == parent,
            r.child_set() == addr_set(children@),
    {
        let mut kids: Vec<String> = Vec::new();
        let mut i: usize = 0;
        assert(addr_set(kids@) =~= addr_set(children@.subrange(0, 0)));
        while i < children.len()
            invariant
                0 <= i <= children@.len(),
                unique_addrs(kids@),
                addr_set(kids@) == addr_set(children@.subrange(0, i as int)),
            decreases children@.len() - i,
        {
            insert_addr(&mut kids, children[i].clone());
            proof {
                let pre = children@.subrange(0, i as int);
                let next = children@.subrange(0, i + 1);
                assert(next =~= pre.push(children@[i as int]));
                assert forall|a: Seq<char>| addr_set(next).contains(a) == addr_set(pre).insert(
                    children@[i as int]@,
                ).contains(a) by {
                    if addr_set(next).contains(a) {
                        let j = choose|j: int| 0 <= j < next.len() && #[trigger] next[j]@ == a;
                        if j < i {
                            assert(pre[j]@ == a);
                        }
                    }
                    if addr_set(pre).contains(a) {
                        let j = choose|j: int| 0 <= j < pre.len() && #[trigger] pre[j]@ == a;
                        assert(next[j]@ == a);
                    }
                    if a == children@[i as int]@ {
                        assert(next[i as int]@ == a);
                    }
                }
                assert(addr_set(next) =~= addr_set(pre).insert(children@[i as int]@));
            }
            i = i + 1;
        }
        assert(children@.subrange(0, children@.len() as int) =~= children@);
        ProxyState { admin, parent, children: kids }
    }

    pub open spec fn wf(&self) -> bool {
        unique_addrs(self.children@)
    }

    /// The children, as a set.
    pub open spec fn child_set(&self) -> Set<Seq<char>> {
        addr_set(self.children@)
    }

    /// The children, in the order they are queried and notified.
    pub fn list_children(&self) -> (r: Vec<String>)
        ensures
            addrs_view(r@) == addrs_view(self.children@),
    {
        let mut out: Vec<String> = Vec::new();
        let mut i: usize = 0;
        while i < self.children.len()
            invariant
                0 <= i <= self.children@.len(),
                out@.len() == i,
                forall|k: int| 0 <= k < i ==> #[trigger] out@[k]@ == self.children@[k]@,
            decreases self.children@.len() - i,
        {
            out.push(self.children[i].clone());
            i = i + 1;
        }
        assert(addrs_view(out@) =~= addrs_view(self.children@));
        out
    }

    /// Adds or removes a child; adding one that is there, or removing one
    /// that is not, changes nothing.
    pub fn apply_child_change(&mut self, msg: ExecuteMsg)
        requires
            old(self).wf(),
        ensures
            final(self).wf(),
            final(self).admin == old(self).admin,
            final(self).parent == old(self).parent,
            match msg {
                ExecuteMsg::AddChild { addr } => final(self).child_set() == old(
                    self,
                ).child_set().insert(addr@),
                ExecuteMsg::RemoveChild { addr } => final(self).child_set() == old(
                    self,
                ).child_set().remove(addr@),
            },
    {
        match msg {
            ExecuteMsg::AddChild { addr } => insert_addr(&mut self.children, addr),
            ExecuteMsg::RemoveChild { addr } => remove_addr(&mut self.children, &addr),
        }
    }
}

} // verus!
