use remote::connect::{
    connection_info, get_active_instance_connection_info, open_ssh, run_scp, scp_transfer,
    ssh_session,
};
use remote::path::{
    config_path_in, expand_tilde, expand_tilde_in, get_config_path, join_path, starts_with_tilde,
};
use remote::profile::get_active_instance;
use remote::text::{decimal_text, join_texts};
use remote::{
    Cloud, ConnectionInfo, Instance, InstanceConfig, InstanceManager, ProfileConfig, RemoteError,
    StateChange,
};
use std::cell::Cell;

struct OneBox {
    state: &'static str,
    public_dns: &'static str,
    calls: Cell<usize>,
}

impl OneBox {
    fn reporting(state: &'static str, public_dns: &'static str) -> Self {
        OneBox { state, public_dns, calls: Cell::new(0) }
    }
}

impl InstanceManager for OneBox {
    fn list_instances(&self) -> Result<Vec<Instance>, RemoteError> {
        panic!("no listing is expected")
    }

    fn get_instance(&self, instance_id: &str) -> Result<Instance, RemoteError> {
        self.calls.set(self.calls.get() + 1);
        if instance_id != "i-123" {
            return Err(RemoteError::NotFound { instance_id: instance_id.to_string() });
        }
        Ok(Instance {
            instance_type: "t3.small".to_string(),
            instance_id: instance_id.to_string(),
            public_dns: self.public_dns.to_string(),
            tags: vec![],
            state: self.state.to_string(),
        })
    }

    fn start_instance(&self, _instance_id: &str) -> Result<StateChange, RemoteError> {
        panic!("no start is expected")
    }

    fn stop_instance(&self, _instance_id: &str) -> Result<StateChange, RemoteError> {
        panic!("no stop is expected")
    }

    fn set_instance_type(&self, _instance_id: &str, _instance_type: &str) -> Result<(), RemoteError> {
        panic!("no resize is expected")
    }
}

fn box1(key_path: &str) -> InstanceConfig {
    InstanceConfig {
        alias: "box1".to_string(),
        instance_id: "i-123".to_string(),
        key_path: key_path.to_string(),
        user: "ubuntu".to_string(),
        profile: "default".to_string(),
        cloud: Cloud::Aws,
    }
}

fn store(key_path: &str) -> ProfileConfig {
    ProfileConfig { active: Some("box1".to_string()), instances: vec![box1(key_path)] }
}

fn status(state: &str, public_dns: &str) -> Instance {
    Instance {
        instance_type: "t3.small".to_string(),
        instance_id: "i-123".to_string(),
        public_dns: public_dns.to_string(),
        tags: vec![],
        state: state.to_string(),
    }
}

fn info() -> ConnectionInfo {
    ConnectionInfo {
        user: "ubuntu".to_string(),
        address: "ec2-1-2-3-4.compute.amazonaws.com".to_string(),
        key_path: "/home/u/keys/box1.pem".to_string(),
    }
}

#[test]
fn connect_info_of_a_stopped_instance_is_invalid_state() {
    let active = get_active_instance(&store("~/keys/box1.pem")).unwrap();
    let adapter = OneBox::reporting("stopped", "");
    let result = get_active_instance_connection_info(&active, &adapter);
    assert_eq!(result, Err(RemoteError::InvalidState));
    assert_eq!(adapter.calls.get(), 1);
}

#[test]
fn connect_info_of_a_running_instance() {
    let active = get_active_instance(&store("/keys/box1.pem")).unwrap();
    let adapter = OneBox::reporting("running", "ec2-1-2-3-4.compute.amazonaws.com");
    let result = get_active_instance_connection_info(&active, &adapter);
    assert_eq!(
        result,
        Ok(ConnectionInfo {
            user: "ubuntu".to_string(),
            address: "ec2-1-2-3-4.compute.amazonaws.com".to_string(),
            key_path: "/keys/box1.pem".to_string(),
        })
    );
    assert_eq!(adapter.calls.get(), 1);
}

#[test]
fn connect_info_hands_on_the_adapter_error() {
    let mut active = box1("/keys/box1.pem");
    active.instance_id = "i-999".to_string();
    let adapter = OneBox::reporting("running", "dns");
    assert_eq!(
        get_active_instance_connection_info(&active, &adapter),
        Err(RemoteError::NotFound { instance_id: "i-999".to_string() })
    );
}

#[test]
fn connection_info_expands_the_key_path() {
    let result = connection_info(
        &box1("~/keys/box1.pem"),
        &status("running", "ec2-1-2-3-4.compute.amazonaws.com"),
        Some("/home/u".to_string()),
    );
    assert_eq!(result, Ok(info()));
}

#[test]
fn connection_info_checks_the_state_first() {
    let result = connection_info(&box1("~/k"), &status("stopped", ""), None);
    assert_eq!(result, Err(RemoteError::InvalidState));
    let result = connection_info(&box1("~/k"), &status("pending", "dns"), Some("/h".to_string()));
    assert_eq!(result, Err(RemoteError::InvalidState));
    let result = connection_info(&box1("~/k"), &status("Running", "dns"), Some("/h".to_string()));
    assert_eq!(result, Err(RemoteError::InvalidState));
}

#[test]
fn connection_info_needs_a_public_address() {
    let result = connection_info(&box1("~/k"), &status("running", ""), None);
    assert_eq!(result, Err(RemoteError::MissingPublicAddress));
}

#[test]
fn connection_info_needs_a_home_for_a_tilde_key() {
    let result = connection_info(&box1("~/keys/box1.pem"), &status("running", "dns"), None);
    assert_eq!(
        result,
        Err(RemoteError::FileSystemError {
            message: "Could not locate key ~/keys/box1.pem".to_string()
        })
    );
}

#[test]
fn connection_info_without_home_and_a_plain_key() {
    let result = connection_info(&box1("/keys/box1.pem"), &status("running", "dns"), None);
    assert_eq!(result.map(|info| info.key_path), Ok("/keys/box1.pem".to_string()));
}

#[test]
fn tilde_expands_below_home() {
    assert_eq!(
        expand_tilde_in("~/keys/box1.pem", Some("/home/u".to_string())),
        Some("/home/u/keys/box1.pem".to_string())
    );
}

#[test]
fn bare_tilde_is_home() {
    assert_eq!(expand_tilde_in("~", Some("/home/u".to_string())), Some("/home/u".to_string()));
    assert_eq!(expand_tilde_in("~/", Some("/home/u".to_string())), Some("/home/u".to_string()));
}

#[test]
fn plain_paths_are_unchanged() {
    for path in ["/etc/key.pem", "keys/box1.pem", "", "~user/key", "a~/b", "./~/x", " ~"] {
        assert_eq!(expand_tilde_in(path, Some("/home/u".to_string())), Some(path.to_string()));
        assert_eq!(expand_tilde_in(path, None), Some(path.to_string()));
        assert_eq!(expand_tilde(path), Some(path.to_string()));
    }
}

#[test]
fn tilde_without_home_is_none() {
    assert_eq!(expand_tilde_in("~", None), None);
    assert_eq!(expand_tilde_in("~/keys", None), None);
}

#[test]
fn tilde_with_root_home_is_relative() {
    assert_eq!(expand_tilde_in("~/keys/k.pem", Some("/".to_string())), Some("keys/k.pem".to_string()));
    assert_eq!(expand_tilde_in("~", Some("/".to_string())), Some("/".to_string()));
}

#[test]
fn tilde_with_repeated_slashes_and_trailing_slash_home() {
    assert_eq!(
        expand_tilde_in("~//keys", Some("/home/u".to_string())),
        Some("/home/u/keys".to_string())
    );
    assert_eq!(
        expand_tilde_in("~/keys", Some("/home/u/".to_string())),
        Some("/home/u/keys".to_string())
    );
}

#[test]
fn tilde_expansion_with_non_ascii_text() {
    assert_eq!(
        expand_tilde_in("~/clés/é.pem", Some("/home/zoë".to_string())),
        Some("/home/zoë/clés/é.pem".to_string())
    );
}

#[test]
fn starts_with_tilde_cases() {
    assert!(starts_with_tilde("~"));
    assert!(starts_with_tilde("~/x"));
    assert!(!starts_with_tilde("~x"));
    assert!(!starts_with_tilde(""));
    assert!(!starts_with_tilde("/~"));
}

#[test]
fn expand_tilde_uses_the_home_directory_of_the_user() {
    let home = dirs::home_dir().and_then(|dir| dir.into_os_string().into_string().ok());
    assert_eq!(expand_tilde("~"), home);
    assert_eq!(expand_tilde("~/keys/box1.pem"), expand_tilde_in("~/keys/box1.pem", home));
}

#[test]
fn join_path_adds_one_separator() {
    assert_eq!(join_path("/home/u".to_string(), "x/y"), "/home/u/x/y");
    assert_eq!(join_path("/home/u/".to_string(), "x"), "/home/u/x");
    assert_eq!(join_path(String::new(), "x"), "x");
    assert_eq!(join_path("/".to_string(), "x"), "/x");
}

#[test]
fn config_path_below_home() {
    let (dir, file) = config_path_in("/home/u".to_string());
    assert_eq!(dir, "/home/u/.config/remote");
    assert_eq!(file, "/home/u/.config/remote/profiles.yaml");
}

#[test]
fn config_path_of_the_user() {
    let home = dirs::home_dir().and_then(|dir| dir.into_os_string().into_string().ok());
    match home {
        Some(home) => assert_eq!(get_config_path(), Ok(config_path_in(home))),
        None => assert_eq!(
            get_config_path(),
            Err(RemoteError::FileSystemError {
                message: "Could not find home directory".to_string()
            })
        ),
    }
}

#[test]
fn ssh_arguments_without_ports() {
    assert_eq!(
        open_ssh(&info(), &None),
        vec!["-i", "/home/u/keys/box1.pem", "ubuntu@ec2-1-2-3-4.compute.amazonaws.com"]
    );
    assert_eq!(
        open_ssh(&info(), &Some(vec![])),
        vec!["-i", "/home/u/keys/box1.pem", "ubuntu@ec2-1-2-3-4.compute.amazonaws.com"]
    );
}

#[test]
fn ssh_arguments_with_ports() {
    assert_eq!(
        open_ssh(&info(), &Some(vec![8888, 80, 65535, 0])),
        vec![
            "-i",
            "/home/u/keys/box1.pem",
            "ubuntu@ec2-1-2-3-4.compute.amazonaws.com",
            "-L",
            "8888:localhost:8888",
            "-L",
            "80:localhost:80",
            "-L",
            "65535:localhost:65535",
            "-L",
            "0:localhost:0",
        ]
    );
}

#[test]
fn scp_arguments_for_an_upload() {
    assert_eq!(
        run_scp(&info(), "data.csv", "/tmp/data.csv", true, false),
        vec![
            "-i",
            "/home/u/keys/box1.pem",
            "data.csv",
            "ubuntu@ec2-1-2-3-4.compute.amazonaws.com:/tmp/data.csv",
        ]
    );
}

#[test]
fn scp_arguments_for_a_recursive_download() {
    assert_eq!(
        run_scp(&info(), "out", "results", false, true),
        vec![
            "-r",
            "-i",
            "/home/u/keys/box1.pem",
            "ubuntu@ec2-1-2-3-4.compute.amazonaws.com:results",
            "out",
        ]
    );
}

#[test]
fn login_is_user_at_address() {
    assert_eq!(info().login(), "ubuntu@ec2-1-2-3-4.compute.amazonaws.com");
}

#[test]
fn decimal_text_values() {
    assert_eq!(decimal_text(0), "0");
    assert_eq!(decimal_text(7), "7");
    assert_eq!(decimal_text(10), "10");
    assert_eq!(decimal_text(443), "443");
    assert_eq!(decimal_text(9090), "9090");
    assert_eq!(decimal_text(65535), "65535");
}

#[test]
fn join_texts_values() {
    let none: Vec<String> = vec![];
    assert_eq!(join_texts(&none, ", "), "");
    assert_eq!(join_texts(&vec!["a".to_string()], ", "), "a");
    assert_eq!(
        join_texts(&vec!["a".to_string(), "".to_string(), "c".to_string()], ", "),
        "a, , c"
    );
}

#[test]
fn no_ssh_command_for_a_stopped_instance() {
    let adapter = OneBox::reporting("stopped", "");
    let result = ssh_session(&box1("/keys/box1.pem"), &adapter, &Some(vec![8888]));
    assert_eq!(result, Err(RemoteError::InvalidState));
    assert_eq!(adapter.calls.get(), 1);
}

#[test]
fn no_ssh_command_without_a_public_address() {
    let adapter = OneBox::reporting("running", "");
    let result = ssh_session(&box1("/keys/box1.pem"), &adapter, &None);
    assert_eq!(result, Err(RemoteError::MissingPublicAddress));
}

#[test]
fn ssh_command_for_a_running_instance() {
    let adapter = OneBox::reporting("running", "ec2-1-2-3-4.compute.amazonaws.com");
    let result = ssh_session(&box1("/keys/box1.pem"), &adapter, &Some(vec![8888]));
    assert_eq!(
        result,
        Ok(vec![
            "-i".to_string(),
            "/keys/box1.pem".to_string(),
            "ubuntu@ec2-1-2-3-4.compute.amazonaws.com".to_string(),
            "-L".to_string(),
            "8888:localhost:8888".to_string(),
        ])
    );
    assert_eq!(adapter.calls.get(), 1);
}

#[test]
fn no_scp_command_for_a_stopped_instance() {
    let adapter = OneBox::reporting("stopped", "");
    let result = scp_transfer(&box1("/keys/box1.pem"), &adapter, "a", "b", true, false);
    assert_eq!(result, Err(RemoteError::InvalidState));
    assert_eq!(adapter.calls.get(), 1);
}

#[test]
fn scp_command_for_a_running_instance() {
    let adapter = OneBox::reporting("running", "ec2-1-2-3-4.compute.amazonaws.com");
    let result = scp_transfer(&box1("/keys/box1.pem"), &adapter, "data.csv", "/tmp/d", true, true);
    assert_eq!(
        result,
        Ok(vec![
            "-r".to_string(),
            "-i".to_string(),
            "/keys/box1.pem".to_string(),
            "data.csv".to_string(),
            "ubuntu@ec2-1-2-3-4.compute.amazonaws.com:/tmp/d".to_string(),
        ])
    );
}

#[test]
fn ssh_and_scp_hand_on_the_adapter_error() {
    let mut unknown = box1("/keys/box1.pem");
    unknown.instance_id = "i-999".to_string();
    let adapter = OneBox::reporting("running", "dns");
    let expected = Err(RemoteError::NotFound { instance_id: "i-999".to_string() });
    assert_eq!(ssh_session(&unknown, &adapter, &None), expected);
    assert_eq!(scp_transfer(&unknown, &adapter, "a", "b", false, false), expected);
}
