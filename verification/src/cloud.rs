//! What a cloud provider reports about an instance, and the capability
//! interface that every provider adapter offers.

use crate::error::RemoteError;
use crate::text::{join, join_texts, texts_of};
use vstd::prelude::*;
use vstd::string::StringExecFns;

verus! {

/// One key/value tag of an instance. Tags are informational only.
#[derive(Debug, Clone, PartialEq, Eq)]
pub struct InstanceTag {
    pub key: String,
    pub value: String,
}

/// The observed state of a remote instance, fetched fresh on every query.
#[derive(Debug, Clone, PartialEq, Eq)]
pub struct Instance {
    pub instance_type: String,
    pub instance_id: String,
    pub public_dns: String,
    pub tags: Vec<InstanceTag>,
    pub state: String,
}

impl InstanceTag {
    /// The tag as shown in a listing: key and value in double quotes with
    /// `=` between them.
    pub open spec fn text(self) -> Seq<char> {
        "\""@ + self.key@ + "\"=\""@ + self.value@ + "\""@
    }

    /// Renders the tag as `text` says.
    pub fn to_string(&self) -> (text: String)
        ensures
            text@ == self.text(),
    {
        let mut text = String::from_str("\"");
        text.append(self.key.as_str());
        text.append("\"=\"");
        text.append(self.value.as_str());
        text.append("\"");
        text
    }
}

impl Instance {
    /// The tags as shown in a listing, in their order, separated by `", "`.
    pub open spec fn tags_text(self) -> Seq<char> {
        join(self.tags@.map_values(|tag: InstanceTag| tag.text()), ", "@)
    }

    /// The instance as shown in a listing: id, type, tags and state, one per
    /// line.
    pub open spec fn text(self) -> Seq<char> {
        "Instance ID: "@ + self.instance_id@ + "\nType: "@ + self.instance_type@ + "\nTags: "@
            + self.tags_text() + "\nState: "@ + self.state@
    }

    /// Renders the instance as `text` says.
    pub fn to_string(&self) -> (text: String)
        ensures
            text@ == self.text(),
    {
        let mut parts: Vec<String> = Vec::new();
        let mut i: usize = 0;
        while i < self.tags.len()
            invariant
                i <= self.tags@.len(),
                texts_of(parts@) == self.tags@.take(i as int).map_values(
                    |tag: InstanceTag| tag.text(),
                ),
            decreases self.tags@.len() - i,
        {
            let ghost before = parts@;
            parts.push(self.tags[i].to_string());
            proof {
                assert(texts_of(parts@) =~= texts_of(before).push(self.tags@[i as int].text()));
            }
            i += 1;
        }
        proof {
            assert(self.tags@.take(i as int) == self.tags@);
        }
        let tags = join_texts(&parts, ", ");
        let mut text = String::from_str("Instance ID: ");
        text.append(self.instance_id.as_str());
        text.append("\nType: ");
        text.append(self.instance_type.as_str());
        text.append("\nTags: ");
        text.append(tags.as_str());
        text.append("\nState: ");
        text.append(self.state.as_str());
        text
    }
}

/// The power state before and after a start or stop request, as the
/// provider reported both.
#[derive(Debug, Clone, PartialEq, Eq)]
pub struct StateChange {
    pub previous: String,
    pub current: String,
}

/// The operations every provider adapter offers. Each call reaches the live
/// cloud account once; nothing is cached or retried, and a failed call is
/// returned to the caller as it is.
///
/// Beside each operation stands a predicate that says which answers the
/// adapter gives to it for the arguments handed over. An adapter may define
/// the predicates as it sees fit, and one that defines none admits every
/// answer; the library assumes nothing of them. They let a caller of the
/// library say which operation was asked, and with which arguments, for
/// the answer that a result was made from.
pub trait InstanceManager {
    /// `outcome` is an answer of this adapter to a query for all instances.
    open spec fn list_answer(&self, outcome: Result<Vec<Instance>, RemoteError>) -> bool {
        true
    }

    /// `outcome` is an answer of this adapter to a query for the instance
    /// with this id.
    open spec fn get_answer(
        &self,
        instance_id: Seq<char>,
        outcome: Result<Instance, RemoteError>,
    ) -> bool {
        true
    }

    /// `outcome` is an answer of this adapter to a request to start the
    /// instance with this id.
    open spec fn start_answer(
        &self,
        instance_id: Seq<char>,
        outcome: Result<StateChange, RemoteError>,
    ) -> bool {
        true
    }

    /// `outcome` is an answer of this adapter to a request to stop the
    /// instance with this id.
    open spec fn stop_answer(
        &self,
        instance_id: Seq<char>,
        outcome: Result<StateChange, RemoteError>,
    ) -> bool {
        true
    }

    /// `outcome` is an answer of this adapter to a request to give the
    /// instance with this id this type.
    open spec fn resize_answer(
        &self,
        instance_id: Seq<char>,
        instance_type: Seq<char>,
        outcome: Result<(), RemoteError>,
    ) -> bool {
        true
    }

    /// All instances visible under the adapter's credentials and region,
    /// unfiltered.
    fn list_instances(&self) -> (outcome: Result<Vec<Instance>, RemoteError>)
        ensures
            self.list_answer(outcome),
    ;

    /// The instance with this id; `NotFound` where the provider has none,
    /// and the first where it reports several.
    fn get_instance(&self, instance_id: &str) -> (outcome: Result<Instance, RemoteError>)
        ensures
            self.get_answer(instance_id@, outcome),
    ;

    /// Asks the provider to start the instance and hands on the state
    /// change it reports. Starting a running instance is the provider's
    /// business: the adapter reports whatever it answers.
    fn start_instance(&self, instance_id: &str) -> (outcome: Result<StateChange, RemoteError>)
        ensures
            self.start_answer(instance_id@, outcome),
    ;

    /// Asks the provider to stop the instance and hands on the state change
    /// it reports.
    fn stop_instance(&self, instance_id: &str) -> (outcome: Result<StateChange, RemoteError>)
        ensures
            self.stop_answer(instance_id@, outcome),
    ;

    /// Asks the provider to change the instance's type. The adapter does not
    /// look at the instance's state first; the provider's refusal is the
    /// error.
    fn set_instance_type(&self, instance_id: &str, instance_type: &str) -> (outcome: Result<
        (),
        RemoteError,
    >)
        ensures
            self.resize_answer(instance_id@, instance_type@, outcome),
    ;
}

} // verus!
