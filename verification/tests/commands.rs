use self_cmd::commands::{
    action_for, docker_login_command, kube_config_file_name, v2fly_container_name, Action,
};

#[test]
fn docker_login_line() {
    assert_eq!(
        docker_login_command("secret", "me"),
        "echo secret| docker login uhub.service.ucloud.cn -u me --password-stdin"
    );
}

#[test]
fn kube_config_name_follows_prefix() {
    assert_eq!(kube_config_file_name("prod"), "config.prod");
    assert_eq!(kube_config_file_name(""), "config.");
}

#[test]
fn actions_for_commands() {
    assert_eq!(action_for("docker_repo", None), Some(Action::DockerLogin));
    assert_eq!(action_for("kubectl_exchange", None), Some(Action::KubectlExchange));
    assert_eq!(action_for("clipboard_sync", Some("server_start")), Some(Action::ClipboardServer));
    assert_eq!(action_for("clipboard_sync", Some("sync")), Some(Action::ClipboardSync));
    assert_eq!(action_for("clipboard_sync", None), None);
    assert_eq!(action_for("v2fly", Some("server_start")), Some(Action::V2flySubscription));
    assert_eq!(action_for("v2fly", Some("sync")), Some(Action::V2flySync));
    assert_eq!(action_for("v2fly", Some("other")), None);
    assert_eq!(action_for("other", None), None);
}

#[test]
fn v2fly_container_defaults_to_v2fly() {
    assert_eq!(v2fly_container_name(None), "v2fly");
    assert_eq!(v2fly_container_name(Some("proxy")), "proxy");
}
