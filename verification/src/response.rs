//! The values handed back to the caller.

use vstd::prelude::*;

verus! {

/// The text of each string in a sequence, in order.
pub open spec fn texts(strings: Seq<String>) -> Seq<Seq<char>> {
    strings.map_values(|s: String| s@)
}

/// The text of an optional string.
pub open spec fn optional_text(s: Option<String>) -> Option<Seq<char>> {
    match s {
        Some(text) => Some(text@),
        None => None,
    }
}

/// What an [`Instance`] holds.
pub struct InstanceView {
    pub id: Seq<char>,
    pub state: Seq<char>,
    pub ip: Option<Seq<char>>,
}

/// A snapshot of one compute instance: its identifier, the name of its power
/// state, and its public address where it has one.
#[derive(Debug)]
pub struct Instance {
    pub id: String,
    pub state: String,
    pub ip: Option<String>,
}

impl View for Instance {
    type V = InstanceView;

    open spec fn view(&self) -> InstanceView {
        InstanceView { id: self.id@, state: self.state@, ip: optional_text(self.ip) }
    }
}

impl Clone for Instance {
    fn clone(&self) -> (copy: Self)
        ensures
            copy@ == self@,
    {
        let ip = match &self.ip {
            Some(address) => Some(address.clone()),
            None => None,
        };
        Instance { id: self.id.clone(), state: self.state.clone(), ip }
    }
}

/// The view of each instance in a sequence, in order.
pub open spec fn instance_views(instances: Seq<Instance>) -> Seq<InstanceView> {
    instances.map_values(|i: Instance| i@)
}

/// What a [`Response`] holds.
pub struct ResponseView {
    pub req_id: Seq<char>,
    pub instances: Seq<InstanceView>,
}

/// A listing of instances, labelled with the request it answers.
#[derive(Debug)]
pub struct Response {
    pub req_id: String,
    pub instances: Vec<Instance>,
}

impl View for Response {
    type V = ResponseView;

    open spec fn view(&self) -> ResponseView {
        ResponseView { req_id: self.req_id@, instances: instance_views(self.instances@) }
    }
}

/// What a [`RunningInstance`] holds.
pub struct RunningInstanceView {
    pub id: Seq<char>,
    pub state: Seq<char>,
    pub ip: Seq<char>,
    pub actions: Seq<Seq<char>>,
}

/// The instance that a reconciliation ended on: it is running and has an
/// address. `actions` lists, in order, what was done to get there.
#[derive(Debug)]
pub struct RunningInstance {
    pub id: String,
    pub state: String,
    pub ip: String,
    pub actions: Vec<String>,
}

impl View for RunningInstance {
    type V = RunningInstanceView;

    open spec fn view(&self) -> RunningInstanceView {
        RunningInstanceView {
            id: self.id@,
            state: self.state@,
            ip: self.ip@,
            actions: texts(self.actions@),
        }
    }
}

/// A copy of a vector of strings, text for text.
pub fn copy_strings(strings: &Vec<String>) -> (copy: Vec<String>)
    ensures
        texts(copy@) == texts(strings@),
{
    let mut copy: Vec<String> = Vec::new();
    let mut i: usize = 0;
    while i < strings.len()
        invariant
            i <= strings.len(),
            copy.len() == i,
            forall|j: int| 0 <= j < i ==> copy@[j]@ == strings@[j]@,
        decreases strings.len() - i,
    {
        copy.push(strings[i].clone());
        i = i + 1;
    }
    assert(texts(copy@) =~= texts(strings@));
    copy
}

impl Clone for RunningInstance {
    fn clone(&self) -> (copy: Self)
        ensures
            copy@ == self@,
    {
        RunningInstance {
            id: self.id.clone(),
            state: self.state.clone(),
            ip: self.ip.clone(),
            actions: copy_strings(&self.actions),
        }
    }
}

} // verus!
