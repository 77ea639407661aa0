//! The EC2 side of the AWS adapter: the requests it sends, the responses
//! as they arrive, and their decoding into the provider-neutral records.
//!
//! Every field of a response may be absent on the wire. A field that a
//! record needs and that is absent makes the whole response an
//! `UpstreamProtocolError`; nothing is defaulted.

use crate::cloud::{Instance, InstanceTag, StateChange};
use crate::error::RemoteError;
use vstd::prelude::*;
use vstd::string::StringExecFns;

verus! {

/// A tag as EC2 sends it: either part may be absent.
#[derive(Debug, Clone, PartialEq, Eq)]
pub struct RawTag {
    pub key: Option<String>,
    pub value: Option<String>,
}

/// A power state as EC2 sends it.
#[derive(Debug, Clone, PartialEq, Eq)]
pub struct RawState {
    pub name: Option<String>,
}

/// An instance description as EC2 sends it: every field may be absent.
#[derive(Debug, Clone, PartialEq, Eq)]
pub struct RawInstance {
    pub instance_type: Option<String>,
    pub instance_id: Option<String>,
    pub public_dns_name: Option<String>,
    pub state: Option<RawState>,
    pub tags: Option<Vec<RawTag>>,
}

/// One reservation of a "describe instances" response.
#[derive(Debug, Clone, PartialEq, Eq)]
pub struct RawReservation {
    pub instances: Option<Vec<RawInstance>>,
}

/// One element of a start or stop response.
#[derive(Debug, Clone, PartialEq, Eq)]
pub struct RawStateChange {
    pub previous_state: Option<RawState>,
    pub current_state: Option<RawState>,
}

impl RawTag {
    /// Both parts of the tag are present.
    pub open spec fn complete(self) -> bool {
        self.key is Some && self.value is Some
    }

    /// The tag that a complete raw tag stands for.
    pub open spec fn decoded(self) -> InstanceTag {
        InstanceTag { key: self.key->0, value: self.value->0 }
    }
}

impl RawInstance {
    /// Every field that an `Instance` needs is present, in the description
    /// itself, in its state and in each of its tags.
    pub open spec fn complete(self) -> bool {
        &&& self.instance_type is Some
        &&& self.instance_id is Some
        &&& self.public_dns_name is Some
        &&& self.state is Some
        &&& self.state->0.name is Some
        &&& self.tags is Some
        &&& forall|i: int| 0 <= i < self.tags->0@.len() ==> (#[trigger] self.tags->0@[i]).complete()
    }

    /// `instance` holds exactly what this complete description says: each
    /// field as sent, and the tags one for one in the order sent.
    pub open spec fn decodes_to(self, instance: Instance) -> bool {
        &&& instance.instance_type == self.instance_type->0
        &&& instance.instance_id == self.instance_id->0
        &&& instance.public_dns == self.public_dns_name->0
        &&& instance.state == self.state->0.name->0
        &&& instance.tags@ == self.tags->0@.map_values(|t: RawTag| t.decoded())
    }
}

/// Decodes the tags of one description, or `None` where a tag lacks its key
/// or its value.
fn decode_tags(raw: &Vec<RawTag>) -> (result: Option<Vec<InstanceTag>>)
    ensures
        result is Some <==> forall|i: int| 0 <= i < raw@.len() ==> (#[trigger] raw@[i]).complete(),
        result matches Some(tags) ==> tags@ == raw@.map_values(|t: RawTag| t.decoded()),
{
    let mut tags: Vec<InstanceTag> = Vec::new();
    let mut i: usize = 0;
    while i < raw.len()
        invariant
            i <= raw@.len(),
            forall|j: int| 0 <= j < i ==> (#[trigger] raw@[j]).complete(),
            tags@ == raw@.take(i as int).map_values(|t: RawTag| t.decoded()),
        decreases raw@.len() - i,
    {
        let tag = &raw[i];
        match (&tag.key, &tag.value) {
            (Some(key), Some(value)) => {
                tags.push(InstanceTag { key: key.clone(), value: value.clone() });
            },
            _ => {
                return None;
            },
        }
        i += 1;
    }
    Some(tags)
}

/// Decodes one instance description.
///
/// Succeeds exactly on a complete description; a missing field is an
/// `UpstreamProtocolError`, never a default value.
pub fn decode_instance(raw: &RawInstance) -> (result: Result<Instance, RemoteError>)
    ensures
        result is Ok <==> raw.complete(),
        result matches Ok(instance) ==> raw.decodes_to(instance),
        result matches Err(e) ==> e == RemoteError::UpstreamProtocolError,
{
    let instance_type = match &raw.instance_type {
        Some(s) => s.clone(),
        None => { return Err(RemoteError::UpstreamProtocolError); },
    };
    let instance_id = match &raw.instance_id {
        Some(s) => s.clone(),
        None => { return Err(RemoteError::UpstreamProtocolError); },
    };
    let public_dns = match &raw.public_dns_name {
        Some(s) => s.clone(),
        None => { return Err(RemoteError::UpstreamProtocolError); },
    };
    let state = match &raw.state {
        Some(RawState { name: Some(s) }) => s.clone(),
        _ => { return Err(RemoteError::UpstreamProtocolError); },
    };
    let tags = match &raw.tags {
        Some(raw_tags) => match decode_tags(raw_tags) {
            Some(tags) => tags,
            None => { return Err(RemoteError::UpstreamProtocolError); },
        },
        None => { return Err(RemoteError::UpstreamProtocolError); },
    };
    Ok(Instance { instance_type, instance_id, public_dns, tags, state })
}

/// The instance descriptions of a response in the order sent, the nesting
/// into reservations removed.
pub open spec fn flattened(reservations: Seq<RawReservation>) -> Seq<RawInstance>
    decreases reservations.len(),
{
    if reservations.len() == 0 {
        Seq::empty()
    } else {
        flattened(reservations.drop_last()) + reservations.last().instances->0@
    }
}

/// Every instance description of the list is complete.
pub open spec fn all_complete(instances: Seq<RawInstance>) -> bool {
    forall|i: int| 0 <= i < instances.len() ==> (#[trigger] instances[i]).complete()
}

/// The response holds its reservation list, each reservation its instance
/// list, and each description every field.
pub open spec fn response_complete(response: Option<Vec<RawReservation>>) -> bool {
    &&& response is Some
    &&& forall|i: int|
        0 <= i < response->0@.len() ==> {
            &&& (#[trigger] response->0@[i]).instances is Some
            &&& all_complete(response->0@[i].instances->0@)
        }
}

/// `instances` holds, one for one and in order, what the descriptions say.
pub open spec fn decoded_from(raw: Seq<RawInstance>, instances: Seq<Instance>) -> bool {
    &&& instances.len() == raw.len()
    &&& forall|i: int| 0 <= i < raw.len() ==> (#[trigger] raw[i]).decodes_to(instances[i])
}

proof fn flattened_step(reservations: Seq<RawReservation>, i: int)
    requires
        0 <= i < reservations.len(),
    ensures
        flattened(reservations.take(i + 1)) == flattened(reservations.take(i))
            + reservations[i].instances->0@,
{
    assert(reservations.take(i + 1).drop_last() == reservations.take(i));
}

/// A response whose reservations hold no description at all flattens to
/// the empty list: a query answered so finds nothing.
pub proof fn lemma_no_records(reservations: Seq<RawReservation>)
    requires
        forall|i: int|
            0 <= i < reservations.len() ==> (#[trigger] reservations[i]).instances->0@.len() == 0,
    ensures
        flattened(reservations).len() == 0,
    decreases reservations.len(),
{
    if reservations.len() > 0 {
        lemma_no_records(reservations.drop_last());
    }
}

/// A response of one reservation that holds one description flattens to
/// that description alone: a query answered so finds exactly this record.
pub proof fn lemma_single_record(reservations: Seq<RawReservation>)
    requires
        reservations.len() == 1,
        reservations[0].instances->0@.len() == 1,
    ensures
        flattened(reservations) == seq![reservations[0].instances->0@[0]],
{
    assert(flattened(reservations.drop_last()) =~= Seq::<RawInstance>::empty());
    assert(flattened(reservations) =~= seq![reservations[0].instances->0@[0]]);
}

/// Decodes the descriptions of one reservation onto the end of `out`.
/// Returns whether all of them were complete.
fn append_decoded(out: &mut Vec<Instance>, raw: &Vec<RawInstance>) -> (ok: bool)
    ensures
        ok <==> all_complete(raw@),
        ok ==> final(out)@.len() == old(out)@.len() + raw@.len(),
        ok ==> forall|k: int| 0 <= k < old(out)@.len() ==> final(out)@[k] == old(out)@[k],
        ok ==> forall|k: int|
            0 <= k < raw@.len() ==> (#[trigger] raw@[k]).decodes_to(
                final(out)@[old(out)@.len() + k],
            ),
{
    let ghost before = out@;
    let mut j: usize = 0;
    while j < raw.len()
        invariant
            j <= raw@.len(),
            out@.len() == before.len() + j,
            forall|k: int| 0 <= k < j ==> (#[trigger] raw@[k]).complete(),
            forall|k: int| 0 <= k < before.len() ==> out@[k] == before[k],
            forall|k: int| 0 <= k < j ==> (#[trigger] raw@[k]).decodes_to(out@[before.len() + k]),
        decreases raw@.len() - j,
    {
        match decode_instance(&raw[j]) {
            Ok(instance) => {
                out.push(instance);
            },
            Err(_) => {
                return false;
            },
        }
        j += 1;
    }
    true
}

/// Decodes a "describe instances" response into a flat list of instances.
///
/// Succeeds exactly on a complete response, and then returns one instance for
/// each description, in the order sent, reservation after reservation. A
/// response with no reservation gives the empty list. Anything missing is an
/// `UpstreamProtocolError`.
pub fn decode_instances(response: &Option<Vec<RawReservation>>) -> (result: Result<
    Vec<Instance>,
    RemoteError,
>)
    ensures
        result is Ok <==> response_complete(*response),
        result matches Ok(instances) ==> decoded_from(flattened(response->0@), instances@),
        result matches Err(e) ==> e == RemoteError::UpstreamProtocolError,
{
    let reservations = match response {
        Some(reservations) => reservations,
        None => {
            return Err(RemoteError::UpstreamProtocolError);
        },
    };
    let mut out: Vec<Instance> = Vec::new();
    let mut i: usize = 0;
    while i < reservations.len()
        invariant
            i <= reservations@.len(),
            *response == Some(*reservations),
            forall|k: int|
                0 <= k < i ==> {
                    &&& (#[trigger] reservations@[k]).instances is Some
                    &&& all_complete(reservations@[k].instances->0@)
                },
            decoded_from(flattened(reservations@.take(i as int)), out@),
        decreases reservations@.len() - i,
    {
        match &reservations[i].instances {
            Some(raw) => {
                if !append_decoded(&mut out, raw) {
                    return Err(RemoteError::UpstreamProtocolError);
                }
            },
            None => {
                return Err(RemoteError::UpstreamProtocolError);
            },
        }
        proof {
            flattened_step(reservations@, i as int);
        }
        i += 1;
    }
    proof {
        assert(reservations@.take(i as int) == reservations@);
    }
    Ok(out)
}

/// Picks the answer to a query for one instance id out of the instances
/// that the provider returned for it.
///
/// With no instance the id is `NotFound`. Otherwise the first one is
/// returned as it is: a provider should never send more than one.
pub fn select_instance(instances: Vec<Instance>, instance_id: &str) -> (result: Result<
    Instance,
    RemoteError,
>)
    ensures
        instances@.len() == 0 ==> (result matches Err(RemoteError::NotFound { instance_id: id })
            && id@ == instance_id@),
        instances@.len() > 0 ==> result == Ok::<Instance, RemoteError>(instances@[0]),
{
    let mut instances = instances;
    if instances.len() == 0 {
        Err(RemoteError::NotFound { instance_id: instance_id.to_owned() })
    } else {
        Ok(instances.swap_remove(0))
    }
}

impl RawState {
    /// The state carries its name.
    pub open spec fn named(state: Option<RawState>) -> bool {
        state is Some && state->0.name is Some
    }
}

impl RawStateChange {
    /// Both states are present and named.
    pub open spec fn complete(self) -> bool {
        RawState::named(self.previous_state) && RawState::named(self.current_state)
    }
}

/// The response to a start or stop request for one instance is usable: it
/// holds its list of state changes, the list is not empty, and its first
/// element is complete. One element is what EC2 sends for one instance;
/// elements after the first are not looked at.
pub open spec fn transition_complete(response: Option<Vec<RawStateChange>>) -> bool {
    &&& response is Some
    &&& response->0@.len() > 0
    &&& response->0@[0].complete()
}

/// Decodes the response to a start or stop request for one instance.
///
/// Succeeds exactly where the response holds a first element and that
/// element is complete, and then returns its two state names as the
/// provider sent them. A missing list, an empty list or a missing state
/// name is an `UpstreamProtocolError`.
pub fn decode_state_change(response: &Option<Vec<RawStateChange>>) -> (result: Result<
    StateChange,
    RemoteError,
>)
    ensures
        result is Ok <==> transition_complete(*response),
        result matches Ok(change) ==> {
            &&& change.previous == response->0@[0].previous_state->0.name->0
            &&& change.current == response->0@[0].current_state->0.name->0
        },
        result matches Err(e) ==> e == RemoteError::UpstreamProtocolError,
{
    let changes = match response {
        Some(changes) => changes,
        None => {
            return Err(RemoteError::UpstreamProtocolError);
        },
    };
    if changes.len() == 0 {
        return Err(RemoteError::UpstreamProtocolError);
    }
    let change = &changes[0];
    let previous = match &change.previous_state {
        Some(RawState { name: Some(s) }) => s.clone(),
        _ => {
            return Err(RemoteError::UpstreamProtocolError);
        },
    };
    let current = match &change.current_state {
        Some(RawState { name: Some(s) }) => s.clone(),
        _ => {
            return Err(RemoteError::UpstreamProtocolError);
        },
    };
    Ok(StateChange { previous, current })
}

/// Whether `result` is the answer to a query for one instance id that the
/// response gives: `UpstreamProtocolError` for an incomplete response,
/// `NotFound` for the id where a complete response holds no description,
/// and otherwise the first description sent, every field as sent.
pub open spec fn single_answer(
    result: Result<Instance, RemoteError>,
    response: Option<Vec<RawReservation>>,
    instance_id: Seq<char>,
) -> bool {
    if !response_complete(response) {
        result == Err::<Instance, RemoteError>(RemoteError::UpstreamProtocolError)
    } else if flattened(response->0@).len() == 0 {
        result matches Err(RemoteError::NotFound { instance_id: id }) && id@ == instance_id
    } else {
        result matches Ok(instance) && flattened(response->0@)[0].decodes_to(instance)
    }
}

/// A query for one instance id that is answered with no record at all (no
/// reservation, or only reservations with empty instance lists) is
/// `NotFound` for that id.
pub proof fn lemma_zero_records_not_found(
    result: Result<Instance, RemoteError>,
    response: Option<Vec<RawReservation>>,
    instance_id: Seq<char>,
)
    requires
        single_answer(result, response, instance_id),
        response is Some,
        forall|i: int|
            0 <= i < response->0@.len() ==> {
                &&& (#[trigger] response->0@[i]).instances is Some
                &&& response->0@[i].instances->0@.len() == 0
            },
    ensures
        result matches Err(RemoteError::NotFound { instance_id: id }) && id@ == instance_id,
{
    lemma_no_records(response->0@);
}

/// A query for one instance id that is answered with exactly one record,
/// every field present, returns that record unchanged: each field as sent,
/// and the tags as pairs in the order sent.
pub proof fn lemma_one_record_unchanged(
    result: Result<Instance, RemoteError>,
    response: Option<Vec<RawReservation>>,
    instance_id: Seq<char>,
)
    requires
        single_answer(result, response, instance_id),
        response is Some,
        response->0@.len() == 1,
        response->0@[0].instances is Some,
        response->0@[0].instances->0@.len() == 1,
        response->0@[0].instances->0@[0].complete(),
    ensures
        result matches Ok(instance) && response->0@[0].instances->0@[0].decodes_to(instance),
{
    lemma_single_record(response->0@);
}

/// Decodes the response to a "describe instances" request that was
/// filtered by one instance id into the answer for that id, as
/// `single_answer` says.
pub fn decode_single(response: &Option<Vec<RawReservation>>, instance_id: &str) -> (result: Result<
    Instance,
    RemoteError,
>)
    ensures
        single_answer(result, *response, instance_id@),
{
    match decode_instances(response) {
        Ok(instances) => select_instance(instances, instance_id),
        Err(error) => Err(error),
    }
}

/// One server-side filter of a "describe instances" request: the name of
/// the attribute and the values it may have.
#[derive(Debug, Clone, PartialEq, Eq)]
pub struct InstanceFilter {
    pub name: String,
    pub values: Vec<String>,
}

/// The filter that selects the instance with this id.
pub open spec fn selects_id(filter: InstanceFilter, instance_id: Seq<char>) -> bool {
    &&& filter.name@ == "instance-id"@
    &&& filter.values@.len() == 1
    &&& filter.values@[0]@ == instance_id
}

/// The filters of a "describe instances" request: none for a query for
/// all instances, and the one filter on `instance-id` for a query for one.
pub fn describe_filters(instance_id: Option<&str>) -> (filters: Option<Vec<InstanceFilter>>)
    ensures
        instance_id is None <==> filters is None,
        instance_id matches Some(id) ==> (filters matches Some(list) && list@.len() == 1
            && selects_id(list@[0], id@)),
{
    match instance_id {
        Some(id) => {
            let mut values: Vec<String> = Vec::new();
            values.push(id.to_owned());
            let mut filters: Vec<InstanceFilter> = Vec::new();
            filters.push(InstanceFilter { name: String::from_str("instance-id"), values });
            Some(filters)
        },
        None => None,
    }
}

/// A request that the adapter sends to EC2. Whatever EC2 offers beyond
/// these fields is left at its default.
#[derive(Debug, Clone, PartialEq, Eq)]
pub enum Ec2Request {
    /// "Describe instances", filtered on the server where filters are given.
    DescribeInstances { filters: Option<Vec<InstanceFilter>> },
    /// "Start instances" for the listed ids.
    StartInstances { instance_ids: Vec<String> },
    /// "Stop instances" for the listed ids.
    StopInstances { instance_ids: Vec<String> },
    /// "Modify instance attribute", setting the instance type.
    ModifyInstanceType { instance_id: String, instance_type: String },
}

/// The list holds this one id and nothing else.
pub open spec fn only_id(instance_ids: Vec<String>, instance_id: Seq<char>) -> bool {
    instance_ids@.len() == 1 && instance_ids@[0]@ == instance_id
}

fn single_id(instance_id: &str) -> (instance_ids: Vec<String>)
    ensures
        only_id(instance_ids, instance_id@),
{
    let mut instance_ids: Vec<String> = Vec::new();
    instance_ids.push(instance_id.to_owned());
    instance_ids
}

/// The request behind a query for all instances (no id) or for one.
pub fn describe_request(instance_id: Option<&str>) -> (request: Ec2Request)
    ensures
        request matches Ec2Request::DescribeInstances { filters } && {
            &&& instance_id is None <==> filters is None
            &&& instance_id matches Some(id) ==> (filters matches Some(list) && list@.len() == 1
                && selects_id(list@[0], id@))
        },
{
    Ec2Request::DescribeInstances { filters: describe_filters(instance_id) }
}

/// The request that starts the one instance with this id.
pub fn start_request(instance_id: &str) -> (request: Ec2Request)
    ensures
        request matches Ec2Request::StartInstances { instance_ids } && only_id(
            instance_ids,
            instance_id@,
        ),
{
    Ec2Request::StartInstances { instance_ids: single_id(instance_id) }
}

/// The request that stops the one instance with this id.
pub fn stop_request(instance_id: &str) -> (request: Ec2Request)
    ensures
        request matches Ec2Request::StopInstances { instance_ids } && only_id(
            instance_ids,
            instance_id@,
        ),
{
    Ec2Request::StopInstances { instance_ids: single_id(instance_id) }
}

/// The request that sets the type of the instance with this id. The
/// instance's state is not looked at first: EC2 refuses the request where
/// the instance cannot be modified.
pub fn resize_request(instance_id: &str, instance_type: &str) -> (request: Ec2Request)
    ensures
        request matches Ec2Request::ModifyInstanceType { instance_id: id, instance_type: kind }
            && id@ == instance_id@ && kind@ == instance_type@,
{
    Ec2Request::ModifyInstanceType {
        instance_id: instance_id.to_owned(),
        instance_type: instance_type.to_owned(),
    }
}

} // verus!
