//! The lifecycle commands on a configured instance: each asks the
//! provider's adapter once and turns what came back into the line to show,
//! or into the error to end with.

use crate::cloud::{Instance, InstanceManager, StateChange};
use crate::error::RemoteError;
use crate::profile::{InstanceConfig, ProfileConfig};
use crate::text::{join, join_texts, texts_of};
use vstd::prelude::*;
use vstd::string::StringExecFns;

verus! {

/// Alias and instance id as every report names an instance: the alias,
/// then the id in round brackets.
pub open spec fn label_text(instance: InstanceConfig) -> Seq<char> {
    instance.alias@ + " ("@ + instance.instance_id@ + ")"@
}

fn label(instance: &InstanceConfig) -> (text: String)
    ensures
        text@ == label_text(*instance),
{
    let mut text = instance.alias.clone();
    text.append(" (");
    text.append(instance.instance_id.as_str());
    text.append(")");
    text
}

/// The line that reports a start or stop: the instance, then the state
/// before and the state after.
pub open spec fn transition_text(instance: InstanceConfig, change: StateChange) -> Seq<char> {
    label_text(instance) + ": "@ + change.previous@ + " -> "@ + change.current@
}

/// What a start or stop command returns for an outcome of the adapter:
/// its error unchanged, or the line for the state change it reported.
pub open spec fn transition_outcome(
    result: Result<String, RemoteError>,
    instance: InstanceConfig,
    outcome: Result<StateChange, RemoteError>,
) -> bool {
    match outcome {
        Ok(change) => result matches Ok(line) && line@ == transition_text(instance, change),
        Err(error) => result == Err::<String, RemoteError>(error),
    }
}

/// Turns the adapter's answer to a start or stop request into the line to
/// show. An error is handed on unchanged.
pub fn transition_report(
    instance: &InstanceConfig,
    outcome: Result<StateChange, RemoteError>,
) -> (result: Result<String, RemoteError>)
    ensures
        transition_outcome(result, *instance, outcome),
{
    match outcome {
        Ok(change) => {
            let mut line = label(instance);
            line.append(": ");
            line.append(change.previous.as_str());
            line.append(" -> ");
            line.append(change.current.as_str());
            Ok(line)
        },
        Err(error) => Err(error),
    }
}

/// Starts the configured instance through the adapter and reports the
/// state change: the result is what `transition_outcome` says for an
/// answer of the adapter to a start request for the configured id.
pub fn start_instance<M: InstanceManager + ?Sized>(
    instance: &InstanceConfig,
    manager: &M,
) -> (result: Result<String, RemoteError>)
    ensures
        exists|outcome: Result<StateChange, RemoteError>|
            manager.start_answer(instance.instance_id@, outcome) && #[trigger] transition_outcome(
                result,
                *instance,
                outcome,
            ),
{
    let outcome = manager.start_instance(instance.instance_id.as_str());
    let result = transition_report(instance, outcome);
    proof {
        assert(transition_outcome(result, *instance, outcome));
    }
    result
}

/// Stops the configured instance through the adapter and reports the
/// state change: the result is what `transition_outcome` says for an
/// answer of the adapter to a stop request for the configured id.
pub fn stop_instance<M: InstanceManager + ?Sized>(
    instance: &InstanceConfig,
    manager: &M,
) -> (result: Result<String, RemoteError>)
    ensures
        exists|outcome: Result<StateChange, RemoteError>|
            manager.stop_answer(instance.instance_id@, outcome) && #[trigger] transition_outcome(
                result,
                *instance,
                outcome,
            ),
{
    let outcome = manager.stop_instance(instance.instance_id.as_str());
    let result = transition_report(instance, outcome);
    proof {
        assert(transition_outcome(result, *instance, outcome));
    }
    result
}

/// The line that reports a resize: the instance and its new type.
pub open spec fn resize_text(instance: InstanceConfig, instance_type: Seq<char>) -> Seq<char> {
    "Set "@ + label_text(instance) + " to "@ + instance_type
}

/// What a resize command returns for an outcome of the adapter: its error
/// unchanged and no line, or the line that reports the new type.
pub open spec fn resize_outcome(
    result: Result<String, RemoteError>,
    instance: InstanceConfig,
    instance_type: Seq<char>,
    outcome: Result<(), RemoteError>,
) -> bool {
    match outcome {
        Ok(_) => result matches Ok(line) && line@ == resize_text(instance, instance_type),
        Err(error) => result == Err::<String, RemoteError>(error),
    }
}

/// Turns the adapter's answer to a resize request into the line to show.
/// An error is handed on unchanged, and no line is made for it.
pub fn resize_report(
    instance: &InstanceConfig,
    instance_type: &str,
    outcome: Result<(), RemoteError>,
) -> (result: Result<String, RemoteError>)
    ensures
        resize_outcome(result, *instance, instance_type@, outcome),
{
    match outcome {
        Ok(_) => {
            let mut line = String::from_str("Set ");
            line.append(label(instance).as_str());
            line.append(" to ");
            line.append(instance_type);
            Ok(line)
        },
        Err(error) => Err(error),
    }
}

/// Asks the adapter to change the type of the configured instance and
/// reports it: the result is what `resize_outcome` says for an answer of
/// the adapter to a resize request for the configured id and the type as
/// given.
pub fn instance_resize<M: InstanceManager + ?Sized>(
    instance: &InstanceConfig,
    manager: &M,
    instance_type: &str,
) -> (result: Result<String, RemoteError>)
    ensures
        exists|outcome: Result<(), RemoteError>|
            manager.resize_answer(instance.instance_id@, instance_type@, outcome)
                && #[trigger] resize_outcome(result, *instance, instance_type@, outcome),
{
    let outcome = manager.set_instance_type(instance.instance_id.as_str(), instance_type);
    let result = resize_report(instance, instance_type, outcome);
    proof {
        assert(resize_outcome(result, *instance, instance_type@, outcome));
    }
    result
}

/// The block that reports the status of an instance: a rule, the alias,
/// then the instance as the provider described it.
pub open spec fn status_text(instance: InstanceConfig, status: Instance) -> Seq<char> {
    "---\nAlias: "@ + instance.alias@ + "\n"@ + status.text()
}

/// The block that reports a failed status query: a rule, the alias, then
/// the error's message.
pub open spec fn failure_text(instance: InstanceConfig, error: RemoteError) -> Seq<char> {
    "---\nAlias: "@ + instance.alias@ + "\nError: "@ + error.message_text()
}

/// What a status command returns for an outcome of the adapter: its error
/// unchanged, or the block for the status it reported.
pub open spec fn status_outcome(
    result: Result<String, RemoteError>,
    instance: InstanceConfig,
    outcome: Result<Instance, RemoteError>,
) -> bool {
    match outcome {
        Ok(status) => result matches Ok(block) && block@ == status_text(instance, status),
        Err(error) => result == Err::<String, RemoteError>(error),
    }
}

/// Turns the adapter's answer to a status query into the block to show.
/// An error is handed on unchanged.
pub fn status_report(
    instance: &InstanceConfig,
    outcome: Result<Instance, RemoteError>,
) -> (result: Result<String, RemoteError>)
    ensures
        status_outcome(result, *instance, outcome),
{
    match outcome {
        Ok(status) => {
            let mut block = String::from_str("---\nAlias: ");
            block.append(instance.alias.as_str());
            block.append("\n");
            block.append(status.to_string().as_str());
            Ok(block)
        },
        Err(error) => Err(error),
    }
}

/// Queries the status of the configured instance through the adapter:
/// the result is what `status_outcome` says for an answer of the adapter to
/// a query for the configured id.
pub fn status<M: InstanceManager + ?Sized>(
    instance: &InstanceConfig,
    manager: &M,
) -> (result: Result<String, RemoteError>)
    ensures
        exists|outcome: Result<Instance, RemoteError>|
            manager.get_answer(instance.instance_id@, outcome) && #[trigger] status_outcome(
                result,
                *instance,
                outcome,
            ),
{
    let outcome = manager.get_instance(instance.instance_id.as_str());
    let result = status_report(instance, outcome);
    proof {
        assert(status_outcome(result, *instance, outcome));
    }
    result
}

/// The block shown for one instance of a status query over all
/// configured instances: its status, or its failure under its alias.
pub open spec fn status_entry(entry: (InstanceConfig, Result<Instance, RemoteError>)) -> Seq<char> {
    match entry.1 {
        Ok(status) => status_text(entry.0, status),
        Err(error) => failure_text(entry.0, error),
    }
}

/// Reports the status of all configured instances from the answers that
/// were collected for them, one block for each instance in order. A
/// failed query does not end the report: its block names the alias and
/// the error.
pub fn instance_status(
    answers: &Vec<(InstanceConfig, Result<Instance, RemoteError>)>,
) -> (blocks: Vec<String>)
    ensures
        blocks@.len() == answers@.len(),
        forall|i: int|
            0 <= i < answers@.len() ==> (#[trigger] blocks@[i])@ == status_entry(answers@[i]),
{
    let mut blocks: Vec<String> = Vec::new();
    let mut i: usize = 0;
    while i < answers.len()
        invariant
            i <= answers@.len(),
            blocks@.len() == i,
            forall|k: int| 0 <= k < i ==> (#[trigger] blocks@[k])@ == status_entry(answers@[k]),
        decreases answers@.len() - i,
    {
        let entry = &answers[i];
        let mut block = String::from_str("---\nAlias: ");
        block.append(entry.0.alias.as_str());
        match &entry.1 {
            Ok(status) => {
                block.append("\n");
                block.append(status.to_string().as_str());
            },
            Err(error) => {
                block.append("\nError: ");
                block.append(error.message().as_str());
            },
        }
        blocks.push(block);
        i += 1;
    }
    blocks
}

/// The rule between two entries of a listing.
pub open spec fn rule() -> Seq<char> {
    "\n---\n"@
}

/// The listing of the configured instances: the active alias on a first
/// line where one is set, then a heading and the instances in order with
/// a rule between them.
pub open spec fn configured_text(config: ProfileConfig) -> Seq<char> {
    let entries = join(
        config.instances@.map_values(|instance: InstanceConfig| instance.text()),
        rule(),
    );
    match config.active {
        Some(active) => "Active instance: "@ + active@ + "\n"@ + "Configured instances:\n---\n"@
            + entries,
        None => "Configured instances:\n---\n"@ + entries,
    }
}

/// Lists the configured instances of the store.
pub fn instance_list(config: &ProfileConfig) -> (listing: String)
    ensures
        listing@ == configured_text(*config),
{
    let mut entries: Vec<String> = Vec::new();
    let mut i: usize = 0;
    while i < config.instances.len()
        invariant
            i <= config.instances@.len(),
            texts_of(entries@) == config.instances@.take(i as int).map_values(
                |instance: InstanceConfig| instance.text(),
            ),
        decreases config.instances@.len() - i,
    {
        let ghost before = entries@;
        entries.push(config.instances[i].to_string());
        proof {
            assert(texts_of(entries@) =~= texts_of(before).push(
                config.instances@[i as int].text(),
            ));
        }
        i += 1;
    }
    proof {
        assert(config.instances@.take(i as int) == config.instances@);
    }
    let joined = join_texts(&entries, "\n---\n");
    let mut listing = String::new();
    match &config.active {
        Some(active) => {
            listing.append("Active instance: ");
            listing.append(active.as_str());
            listing.append("\n");
            listing.append("Configured instances:\n---\n");
        },
        None => {
            listing.append("Configured instances:\n---\n");
        },
    }
    listing.append(joined.as_str());
    listing
}

/// The listing of the instances that a provider reported for a credential
/// profile: a heading that names cloud and profile, then the instances in
/// order with a rule between them.
pub open spec fn cloud_text(cloud: Seq<char>, profile: Seq<char>, instances: Seq<Instance>) -> Seq<
    char,
> {
    "Instances on "@ + cloud + " ("@ + profile + "):\n---\n"@ + join(
        instances.map_values(|instance: Instance| instance.text()),
        rule(),
    )
}

/// What the cloud listing returns for an outcome of the adapter: its error
/// unchanged, or the listing of the instances it reported.
pub open spec fn cloud_outcome(
    result: Result<String, RemoteError>,
    cloud: Seq<char>,
    profile: Seq<char>,
    outcome: Result<Vec<Instance>, RemoteError>,
) -> bool {
    match outcome {
        Ok(instances) => result matches Ok(listing) && listing@ == cloud_text(
            cloud,
            profile,
            instances@,
        ),
        Err(error) => result == Err::<String, RemoteError>(error),
    }
}

/// Turns the adapter's answer to a query for all instances into the
/// listing to show. An error is handed on unchanged.
pub fn cloud_report(
    cloud: &str,
    profile: &str,
    outcome: Result<Vec<Instance>, RemoteError>,
) -> (result: Result<String, RemoteError>)
    ensures
        cloud_outcome(result, cloud@, profile@, outcome),
{
    let instances = match outcome {
        Ok(instances) => instances,
        Err(error) => {
            return Err(error);
        },
    };
    let mut entries: Vec<String> = Vec::new();
    let mut i: usize = 0;
    while i < instances.len()
        invariant
            i <= instances@.len(),
            texts_of(entries@) == instances@.take(i as int).map_values(
                |instance: Instance| instance.text(),
            ),
        decreases instances@.len() - i,
    {
        let ghost before = entries@;
        entries.push(instances[i].to_string());
        proof {
            assert(texts_of(entries@) =~= texts_of(before).push(instances@[i as int].text()));
        }
        i += 1;
    }
    proof {
        assert(instances@.take(i as int) == instances@);
    }
    let joined = join_texts(&entries, "\n---\n");
    let mut listing = String::from_str("Instances on ");
    listing.append(cloud);
    listing.append(" (");
    listing.append(profile);
    listing.append("):\n---\n");
    listing.append(joined.as_str());
    Ok(listing)
}

/// Lists the instances that the adapter sees: the result is what
/// `cloud_outcome` says for an answer of the adapter to a query for all
/// instances.
pub fn instance_list_cloud<M: InstanceManager + ?Sized>(
    cloud: &str,
    profile: &str,
    manager: &M,
) -> (result: Result<String, RemoteError>)
    ensures
        exists|outcome: Result<Vec<Instance>, RemoteError>|
            manager.list_answer(outcome) && #[trigger] cloud_outcome(
                result,
                cloud@,
                profile@,
                outcome,
            ),
{
    let outcome = manager.list_instances();
    let result = cloud_report(cloud, profile, outcome);
    proof {
        assert(cloud_outcome(result, cloud@, profile@, outcome));
    }
    result
}

} // verus!
