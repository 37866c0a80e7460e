//! The provider's inventory as plain values, and the snapshots read from it.
//!
//! The provider reports instances grouped into reservations, and leaves out
//! whatever it does not know: any field of a record may be absent.

use crate::response::{instance_views, optional_text, Instance, InstanceView, Response, ResponseView};
use crate::state::{classified, classify, instance_state_name, state_name};
use vstd::prelude::*;

verus! {

/// A tag as the provider reports it on an instance.
#[derive(Debug)]
pub struct InstanceTag {
    pub key: Option<String>,
    pub value: Option<String>,
}

impl View for InstanceTag {
    type V = (Option<Seq<char>>, Option<Seq<char>>);

    open spec fn view(&self) -> (Option<Seq<char>>, Option<Seq<char>>) {
        (optional_text(self.key), optional_text(self.value))
    }
}

/// What an [`InstanceRecord`] holds. A record that reports no tag list holds
/// the empty one.
pub struct InstanceRecordView {
    pub instance_id: Option<Seq<char>>,
    pub state: Option<Seq<char>>,
    pub public_ip_address: Option<Seq<char>>,
    pub tags: Seq<(Option<Seq<char>>, Option<Seq<char>>)>,
}

/// One instance as the provider reports it. `state` is the provider's status
/// text for the instance's power state.
#[derive(Debug)]
pub struct InstanceRecord {
    pub instance_id: Option<String>,
    pub state: Option<String>,
    pub public_ip_address: Option<String>,
    pub tags: Option<Vec<InstanceTag>>,
}

impl View for InstanceRecord {
    type V = InstanceRecordView;

    open spec fn view(&self) -> InstanceRecordView {
        InstanceRecordView {
            instance_id: optional_text(self.instance_id),
            state: optional_text(self.state),
            public_ip_address: optional_text(self.public_ip_address),
            tags: match self.tags {
                Some(tags) => tags@.map_values(|t: InstanceTag| t@),
                None => Seq::empty(),
            },
        }
    }
}

/// A group of instances in the provider's answer. One that reports no
/// instance list holds none.
#[derive(Debug)]
pub struct Reservation {
    pub instances: Option<Vec<InstanceRecord>>,
}

impl View for Reservation {
    type V = Seq<InstanceRecordView>;

    open spec fn view(&self) -> Seq<InstanceRecordView> {
        match self.instances {
            Some(records) => records@.map_values(|r: InstanceRecord| r@),
            None => Seq::empty(),
        }
    }
}

/// The provider's answer to a listing of all instances.
#[derive(Debug)]
pub struct Inventory {
    pub reservations: Option<Vec<Reservation>>,
}

impl View for Inventory {
    type V = Seq<Seq<InstanceRecordView>>;

    open spec fn view(&self) -> Seq<Seq<InstanceRecordView>> {
        match self.reservations {
            Some(reservations) => reservations@.map_values(|r: Reservation| r@),
            None => Seq::empty(),
        }
    }
}

/// The view of each borrowed record in a sequence, in order.
pub open spec fn record_views(records: Seq<&InstanceRecord>) -> Seq<InstanceRecordView> {
    records.map_values(|r: &InstanceRecord| r@)
}

/// Every record of an inventory: those of the first reservation in their
/// order, then those of the second, and so on.
pub open spec fn all_records(inventory: Seq<Seq<InstanceRecordView>>) -> Seq<InstanceRecordView> {
    inventory.flatten()
}

/// The snapshot that a record gives: none unless the record has both an
/// identifier and a status; else the identifier, the canonical name of the
/// power state that the status stands for, and the address as reported.
pub open spec fn projected(record: InstanceRecordView) -> Option<InstanceView> {
    match (record.instance_id, record.state) {
        (Some(id), Some(status)) => Some(
            InstanceView {
                id,
                state: state_name(classified(status)),
                ip: record.public_ip_address,
            },
        ),
        _ => None,
    }
}

/// The snapshots of the records that give one, in the records' order.
pub open spec fn projections(records: Seq<InstanceRecordView>) -> Seq<InstanceView> {
    records.filter_map(|r: InstanceRecordView| projected(r))
}

/// Lists the records of an inventory, reservation by reservation. A missing
/// reservation list, or a reservation without an instance list, adds nothing.
pub fn instance_reservations<'a>(inventory: &'a Inventory) -> (records: Vec<&'a InstanceRecord>)
    ensures
        record_views(records@) == all_records(inventory@),
{
    let mut records: Vec<&'a InstanceRecord> = Vec::new();
    proof {
        assert(inventory@.take(0).flatten() =~= Seq::<InstanceRecordView>::empty());
    }
    match &inventory.reservations {
        None => {
            assert(record_views(records@) =~= all_records(inventory@));
        },
        Some(reservations) => {
            let mut i: usize = 0;
            while i < reservations.len()
                invariant
                    i <= reservations.len(),
                    inventory.reservations == Some(*reservations),
                    record_views(records@) =~= inventory@.take(i as int).flatten(),
                decreases reservations.len() - i,
            {
                let ghost before = record_views(records@);
                let reservation = &reservations[i];
                assert(inventory@[i as int] == reservation@);
                match &reservation.instances {
                    None => {},
                    Some(instances) => {
                        let mut j: usize = 0;
                        while j < instances.len()
                            invariant
                                j <= instances.len(),
                                reservation.instances == Some(*instances),
                                record_views(records@) =~= before + reservation@.take(j as int),
                            decreases instances.len() - j,
                        {
                            let ghost listed = record_views(records@);
                            records.push(&instances[j]);
                            proof {
                                assert(reservation@[j as int] == instances@[j as int]@);
                                assert(record_views(records@) =~= listed.push(
                                    instances@[j as int]@,
                                ));
                                assert(reservation@.take(j + 1) =~= reservation@.take(
                                    j as int,
                                ).push(reservation@[j as int]));
                            }
                            j = j + 1;
                        }
                        assert(reservation@.take(j as int) =~= reservation@);
                    },
                }
                proof {
                    assert(record_views(records@) =~= before + reservation@);
                    assert(inventory@.take(i + 1) =~= inventory@.take(i as int).push(
                        reservation@,
                    ));
                    inventory@.take(i as int).lemma_flatten_push(reservation@);
                }
                i = i + 1;
            }
            assert(inventory@.take(i as int) =~= inventory@);
        },
    }
    records
}

/// Projects one record into a snapshot, where it has an identifier and a
/// status.
pub fn project(record: &InstanceRecord) -> (snapshot: Option<Instance>)
    ensures
        match snapshot {
            Some(instance) => projected(record@) == Some(instance@),
            None => projected(record@).is_none(),
        },
{
    match &record.instance_id {
        None => None,
        Some(id) => match &record.state {
            None => None,
            Some(status) => {
                let state = classify(status.as_str());
                let ip = match &record.public_ip_address {
                    Some(address) => Some(address.clone()),
                    None => None,
                };
                Some(Instance { id: id.clone(), state: instance_state_name(&state), ip })
            },
        },
    }
}

/// Projects each record that has an identifier and a status; the others are
/// passed over.
pub fn project_all(records: &Vec<&InstanceRecord>) -> (snapshots: Vec<Instance>)
    ensures
        instance_views(snapshots@) == projections(record_views(records@)),
{
    let ghost views = record_views(records@);
    let ghost f = |r: InstanceRecordView| projected(r);
    let mut snapshots: Vec<Instance> = Vec::new();
    let mut i: usize = 0;
    assert(views.take(0).filter_map(f) =~= Seq::<InstanceView>::empty());
    while i < records.len()
        invariant
            i <= records.len(),
            views == record_views(records@),
            f == |r: InstanceRecordView| projected(r),
            instance_views(snapshots@) =~= views.take(i as int).filter_map(f),
        decreases records.len() - i,
    {
        let ghost before = instance_views(snapshots@);
        proof {
            views.lemma_filter_map_take_succ(f, i as int);
        }
        match project(records[i]) {
            Some(instance) => {
                snapshots.push(instance);
                assert(instance_views(snapshots@) =~= before + seq![instance@]);
            },
            None => {},
        }
        i = i + 1;
    }
    assert(views.take(i as int) =~= views);
    snapshots
}

/// Answers a listing request: every instance of the inventory that has an
/// identifier and a status, whatever its tags and state, under the
/// request's identifier.
pub fn get_running_instances(inventory: &Inventory, request_id: &str) -> (response: Response)
    ensures
        response@ == (ResponseView {
            req_id: request_id@,
            instances: projections(all_records(inventory@)),
        }),
{
    let records = instance_reservations(inventory);
    Response { req_id: String::from_str(request_id), instances: project_all(&records) }
}

} // verus!
