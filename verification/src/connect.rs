//! The connection descriptor of a running instance, and the command lines
//! of the `ssh` and `scp` calls made with it.

use crate::cloud::{Instance, InstanceManager};
use crate::error::RemoteError;
use crate::path::{expand_tilde_in, expanded, home_directory, text_of};
use crate::profile::InstanceConfig;
use crate::text::{decimal, decimal_text, texts_of};
use vstd::prelude::*;
use vstd::string::StrSliceExecFns;
use vstd::string::StringExecFns;

verus! {

/// What `ssh` and `scp` need to reach an instance.
#[derive(Debug, Clone, PartialEq, Eq)]
pub struct ConnectionInfo {
    pub user: String,
    pub address: String,
    pub key_path: String,
}

/// The state label of an instance that accepts connections.
pub open spec fn running() -> Seq<char> {
    "running"@
}

/// The text of the error for a key path that cannot be expanded.
pub open spec fn key_not_located(key_path: Seq<char>) -> Seq<char> {
    "Could not locate key "@ + key_path
}

/// What `connection_info` returns on `Ok`: the configured user, the
/// reported public DNS name, and the expanded key path.
pub open spec fn describes(
    info: ConnectionInfo,
    instance: InstanceConfig,
    status: Instance,
    home: Option<Seq<char>>,
) -> bool {
    &&& info.user == instance.user
    &&& info.address == status.public_dns
    &&& Some(info.key_path@) == expanded(instance.key_path@, home)
}

/// Whether `result` is what the configured instance, its reported status
/// and the home directory give: `InvalidState` unless the instance is
/// running, then `MissingPublicAddress` where it has no public DNS name,
/// then `FileSystemError` where the key path cannot be expanded, and
/// otherwise the descriptor.
pub open spec fn connection_outcome(
    result: Result<ConnectionInfo, RemoteError>,
    instance: InstanceConfig,
    status: Instance,
    home: Option<Seq<char>>,
) -> bool {
    if status.state@ != running() {
        result == Err::<ConnectionInfo, RemoteError>(RemoteError::InvalidState)
    } else if status.public_dns@.len() == 0 {
        result == Err::<ConnectionInfo, RemoteError>(RemoteError::MissingPublicAddress)
    } else if expanded(instance.key_path@, home) is None {
        result matches Err(RemoteError::FileSystemError { message }) && message@
            == key_not_located(instance.key_path@)
    } else {
        result matches Ok(info) && describes(info, instance, status, home)
    }
}

/// Builds the connection descriptor of a configured instance from the
/// status that the provider reported for it.
pub fn connection_info(
    instance: &InstanceConfig,
    status: &Instance,
    home: Option<String>,
) -> (result: Result<ConnectionInfo, RemoteError>)
    ensures
        connection_outcome(result, *instance, *status, text_of(home)),
{
    if status.state != "running".to_owned() {
        return Err(RemoteError::InvalidState);
    }
    if status.public_dns.as_str().unicode_len() == 0 {
        return Err(RemoteError::MissingPublicAddress);
    }
    match expand_tilde_in(instance.key_path.as_str(), home) {
        Some(key_path) => Ok(
            ConnectionInfo {
                user: instance.user.clone(),
                address: status.public_dns.clone(),
                key_path,
            },
        ),
        None => {
            let mut message = String::from_str("Could not locate key ");
            message.append(instance.key_path.as_str());
            Err(RemoteError::FileSystemError { message })
        },
    }
}

/// What the connection query returns for an outcome of the adapter: its
/// error unchanged, or what `connection_outcome` says for the status it
/// reported.
pub open spec fn connection_answer(
    result: Result<ConnectionInfo, RemoteError>,
    instance: InstanceConfig,
    outcome: Result<Instance, RemoteError>,
    home: Option<Seq<char>>,
) -> bool {
    match outcome {
        Ok(status) => connection_outcome(result, instance, status, home),
        Err(error) => result == Err::<ConnectionInfo, RemoteError>(error),
    }
}

/// Asks the adapter once for the status of the configured instance and
/// builds the connection descriptor from it, expanding the key path
/// against the home directory of the current user.
///
/// The result is what `connection_answer` says for an answer of the
/// adapter to a query for the configured id, and the home directory found:
/// an error of the adapter is returned as it is, and a descriptor only for
/// a running instance with a public DNS name.
pub fn get_active_instance_connection_info<M: InstanceManager + ?Sized>(
    instance: &InstanceConfig,
    manager: &M,
) -> (result: Result<ConnectionInfo, RemoteError>)
    ensures
        exists|outcome: Result<Instance, RemoteError>, home: Option<Seq<char>>|
            manager.get_answer(instance.instance_id@, outcome) && #[trigger] connection_answer(
                result,
                *instance,
                outcome,
                home,
            ),
{
    let outcome = manager.get_instance(instance.instance_id.as_str());
    match outcome {
        Ok(status) => {
            let home = home_directory();
            let result = connection_info(instance, &status, home);
            proof {
                assert(connection_answer(result, *instance, outcome, text_of(home)));
            }
            result
        },
        Err(error) => {
            let result = Err(error);
            proof {
                assert(connection_answer(result, *instance, outcome, None));
            }
            result
        },
    }
}

impl ConnectionInfo {
    /// The login of the connection: user, `@`, address.
    pub open spec fn login_text(self) -> Seq<char> {
        self.user@ + "@"@ + self.address@
    }

    /// Renders the login as `login_text` says.
    pub fn login(&self) -> (text: String)
        ensures
            text@ == self.login_text(),
    {
        let mut text = self.user.clone();
        text.append("@");
        text.append(self.address.as_str());
        text
    }

    /// A path on the instance as `scp` wants it: login, `:`, path.
    pub open spec fn remote_text(self, remote_path: Seq<char>) -> Seq<char> {
        self.login_text() + ":"@ + remote_path
    }
}

/// The forwarding of one local port to the same port of the instance.
pub open spec fn forward_text(port: u16) -> Seq<char> {
    decimal(port as nat) + ":localhost:"@ + decimal(port as nat)
}

/// The `-L` options for the ports, two arguments for each port in order.
pub open spec fn forward_arguments(ports: Seq<u16>) -> Seq<Seq<char>>
    decreases ports.len(),
{
    if ports.len() == 0 {
        Seq::empty()
    } else {
        forward_arguments(ports.drop_last()).push("-L"@).push(forward_text(ports.last()))
    }
}

/// The ports to forward, none where the option is absent.
pub open spec fn ports_of(ports: Option<Vec<u16>>) -> Seq<u16> {
    match ports {
        Some(ports) => ports@,
        None => Seq::empty(),
    }
}

/// The arguments of the `ssh` call: the key, the login, then the port
/// forwardings.
pub open spec fn ssh_command(info: ConnectionInfo, ports: Seq<u16>) -> Seq<Seq<char>> {
    seq!["-i"@, info.key_path@, info.login_text()] + forward_arguments(ports)
}

/// Builds the arguments of the `ssh` call that opens a session on the
/// instance, forwarding each of the given ports.
pub fn open_ssh(info: &ConnectionInfo, ports: &Option<Vec<u16>>) -> (arguments: Vec<String>)
    ensures
        texts_of(arguments@) == ssh_command(*info, ports_of(*ports)),
{
    let mut arguments: Vec<String> = Vec::new();
    arguments.push(String::from_str("-i"));
    arguments.push(info.key_path.clone());
    arguments.push(info.login());
    let ghost head = seq!["-i"@, info.key_path@, info.login_text()];
    if let Some(ports) = ports {
        let mut i: usize = 0;
        while i < ports.len()
            invariant
                i <= ports@.len(),
                head == seq!["-i"@, info.key_path@, info.login_text()],
                texts_of(arguments@) =~= head + forward_arguments(ports@.take(i as int)),
            decreases ports@.len() - i,
        {
            let ghost before = arguments@;
            let port = ports[i];
            let mut forward = decimal_text(port);
            forward.append(":localhost:");
            forward.append(decimal_text(port).as_str());
            arguments.push(String::from_str("-L"));
            arguments.push(forward);
            proof {
                assert(ports@.take(i + 1).drop_last() == ports@.take(i as int));
                assert(texts_of(arguments@) =~= texts_of(before).push("-L"@).push(
                    forward_text(port),
                ));
            }
            i += 1;
        }
        proof {
            assert(ports@.take(i as int) == ports@);
        }
    }
    arguments
}

/// The arguments of the `scp` call: `-r` for a recursive copy, the key,
/// then source and target, the local path first for an upload and the
/// remote one first for a download.
pub open spec fn scp_command(
    info: ConnectionInfo,
    local_path: Seq<char>,
    remote_path: Seq<char>,
    upload: bool,
    recursive: bool,
) -> Seq<Seq<char>> {
    let options = if recursive {
        seq!["-r"@, "-i"@, info.key_path@]
    } else {
        seq!["-i"@, info.key_path@]
    };
    if upload {
        options.push(local_path).push(info.remote_text(remote_path))
    } else {
        options.push(info.remote_text(remote_path)).push(local_path)
    }
}

/// Builds the arguments of the `scp` call that copies between a local
/// path and a path on the instance.
pub fn run_scp(
    info: &ConnectionInfo,
    local_path: &str,
    remote_path: &str,
    upload: bool,
    recursive: bool,
) -> (arguments: Vec<String>)
    ensures
        texts_of(arguments@) == scp_command(*info, local_path@, remote_path@, upload, recursive),
{
    let mut remote = info.login();
    remote.append(":");
    remote.append(remote_path);
    let mut arguments: Vec<String> = Vec::new();
    if recursive {
        arguments.push(String::from_str("-r"));
    }
    arguments.push(String::from_str("-i"));
    arguments.push(info.key_path.clone());
    if upload {
        arguments.push(local_path.to_owned());
        arguments.push(remote);
    } else {
        arguments.push(remote);
        arguments.push(local_path.to_owned());
    }
    arguments
}

/// What the `ssh` step returns for a result of the connection query: the
/// query's error unchanged and no command line, or the command line for
/// the descriptor.
pub open spec fn ssh_outcome(
    result: Result<Vec<String>, RemoteError>,
    query: Result<ConnectionInfo, RemoteError>,
    ports: Seq<u16>,
) -> bool {
    match query {
        Ok(info) => result matches Ok(arguments) && texts_of(arguments@) == ssh_command(
            info,
            ports,
        ),
        Err(error) => result == Err::<Vec<String>, RemoteError>(error),
    }
}

/// Queries the connection descriptor of the configured instance and, only
/// where that succeeds, builds the arguments of the `ssh` call.
///
/// The result is what `ssh_outcome` says for the result of the connection
/// query, which in turn is what `connection_answer` says for an answer of
/// the adapter to a query for the configured id. So an instance that is
/// not running, or has no public DNS name, ends in that error and in no
/// command line.
pub fn ssh_session<M: InstanceManager + ?Sized>(
    instance: &InstanceConfig,
    manager: &M,
    ports: &Option<Vec<u16>>,
) -> (result: Result<Vec<String>, RemoteError>)
    ensures
        exists|
            outcome: Result<Instance, RemoteError>,
            home: Option<Seq<char>>,
            query: Result<ConnectionInfo, RemoteError>,
        |
            manager.get_answer(instance.instance_id@, outcome) && #[trigger] connection_answer(
                query,
                *instance,
                outcome,
                home,
            ) && ssh_outcome(result, query, ports_of(*ports)),
{
    let query = get_active_instance_connection_info(instance, manager);
    match query {
        Ok(info) => Ok(open_ssh(&info, ports)),
        Err(error) => Err(error),
    }
}

/// What the `scp` step returns for a result of the connection query: the
/// query's error unchanged and no command line, or the command line for
/// the descriptor.
pub open spec fn scp_outcome(
    result: Result<Vec<String>, RemoteError>,
    query: Result<ConnectionInfo, RemoteError>,
    local_path: Seq<char>,
    remote_path: Seq<char>,
    upload: bool,
    recursive: bool,
) -> bool {
    match query {
        Ok(info) => result matches Ok(arguments) && texts_of(arguments@) == scp_command(
            info,
            local_path,
            remote_path,
            upload,
            recursive,
        ),
        Err(error) => result == Err::<Vec<String>, RemoteError>(error),
    }
}

/// Queries the connection descriptor of the configured instance and, only
/// where that succeeds, builds the arguments of the `scp` call.
///
/// The result is what `scp_outcome` says for the result of the connection
/// query, which in turn is what `connection_answer` says for an answer of
/// the adapter to a query for the configured id.
pub fn scp_transfer<M: InstanceManager + ?Sized>(
    instance: &InstanceConfig,
    manager: &M,
    local_path: &str,
    remote_path: &str,
    upload: bool,
    recursive: bool,
) -> (result: Result<Vec<String>, RemoteError>)
    ensures
        exists|
            outcome: Result<Instance, RemoteError>,
            home: Option<Seq<char>>,
            query: Result<ConnectionInfo, RemoteError>,
        |
            manager.get_answer(instance.instance_id@, outcome) && #[trigger] connection_answer(
                query,
                *instance,
                outcome,
                home,
            ) && scp_outcome(result, query, local_path@, remote_path@, upload, recursive),
{
    let query = get_active_instance_connection_info(instance, manager);
    match query {
        Ok(info) => Ok(run_scp(&info, local_path, remote_path, upload, recursive)),
        Err(error) => Err(error),
    }
}

} // verus!
