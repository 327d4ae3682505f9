//! The contract's persistent state: three single-slot stores.
//!
//! Each store holds at most one record and every write replaces the previous
//! record whole; there is no history. The host keeps one such state per
//! contract instance and commits or rolls it back around each handler call.

use vstd::prelude::*;

verus! {

/// A diagnostic record of the most recent lifecycle event: a name and an
/// ordered list of descriptive parameters. Overwritten on every handled
/// event.
#[derive(Debug)]
pub struct Operation {
    pub name: String,
    pub parameters: Vec<String>,
}

/// The mathematical value of an [`Operation`].
#[verifier::ext_equal]
pub struct OperationView {
    pub name: Seq<char>,
    pub parameters: Seq<Seq<char>>,
}

impl View for Operation {
    type V = OperationView;

    open spec fn view(&self) -> OperationView {
        OperationView { name: self.name@, parameters: self.parameters.deep_view() }
    }
}

/// The whole state of one contract instance:
/// the operation log, the channel registry, and the answer store.
pub struct ContractState {
    /// Operation log: the most recent lifecycle event, absent only before
    /// instantiation.
    pub last_operation: Option<Operation>,
    /// Channel registry: the id of the channel whose handshake completed most
    /// recently; never cleared, not even on close.
    pub last_opened_channel: Option<String>,
    /// Answer store: the most recent numeric answer received from a
    /// counterparty chain via acknowledgement.
    pub stored_life_answer: Option<u64>,
}

/// The mathematical value of a [`ContractState`].
#[verifier::ext_equal]
pub struct StateView {
    pub last_operation: Option<OperationView>,
    pub last_opened_channel: Option<Seq<char>>,
    pub stored_life_answer: Option<u64>,
}

impl View for ContractState {
    type V = StateView;

    open spec fn view(&self) -> StateView {
        StateView {
            last_operation: match self.last_operation {
                Some(op) => Some(op@),
                None => None,
            },
            last_opened_channel: match self.last_opened_channel {
                Some(id) => Some(id@),
                None => None,
            },
            stored_life_answer: self.stored_life_answer,
        }
    }
}

/// Copies a vector of strings, keeping its mathematical value.
fn clone_strings(v: &Vec<String>) -> (r: Vec<String>)
    ensures
        r.deep_view() == v.deep_view(),
{
    let mut r: Vec<String> = Vec::new();
    let mut i: usize = 0;
    while i < v.len()
        invariant
            i <= v.len(),
            r.len() == i,
            forall|j: int| 0 <= j < i ==> r@[j]@ == v@[j]@,
        decreases v.len() - i,
    {
        r.push(v[i].clone());
        i = i + 1;
    }
    proof {
        assert(r.deep_view() =~= v.deep_view());
    }
    r
}

impl Operation {
    /// Copies the record, keeping its mathematical value.
    pub fn clone_op(&self) -> (o: Operation)
        ensures
            o@ == self@,
    {
        let o = Operation { name: self.name.clone(), parameters: clone_strings(&self.parameters) };
        proof {
            assert(o@ =~= self@);
        }
        o
    }
}

impl ContractState {
    /// Fresh state, as the host provides it at first deployment: every slot
    /// empty.
    pub fn new() -> (s: ContractState)
        ensures
            s@.last_operation is None,
            s@.last_opened_channel is None,
            s@.stored_life_answer is None,
    {
        ContractState { last_operation: None, last_opened_channel: None, stored_life_answer: None }
    }
}

} // verus!
