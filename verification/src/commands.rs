use vstd::prelude::*;
use crate::text::same_text;

verus! {

pub const DOCKER_REPO_COMMAND: &'static str = "docker_repo";
pub const KUBECTL_EXCHANGE_COMMAND: &'static str = "kubectl_exchange";
pub const CLIPBOARD_SYNC_COMMAND: &'static str = "clipboard_sync";
pub const SERVER_START_SUBCOMMAND: &'static str = "server_start";
pub const SYNC_SUBCOMMAND: &'static str = "sync";
pub const V2FLY_SUBCOMMAND: &'static str = "v2fly";

/// What the command line asks for.
#[derive(PartialEq, Eq, Structural, Clone, Copy, Debug)]
pub enum Action {
    /// Log in to the docker registry with a configured account.
    DockerLogin,
    /// Make a saved kubectl configuration the current one.
    KubectlExchange,
    /// Serve the clipboard to other machines.
    ClipboardServer,
    /// Send the clipboard to the configured server.
    ClipboardSync,
    /// Fetch a v2fly subscription and print its outbounds.
    V2flySubscription,
    /// Fetch the configured v2fly subscription, let the user pick an
    /// outbound, write it and restart the v2fly container.
    V2flySync,
}

/// The action for a (canonical) command name and sub-command name, or
/// `None` where the pair matches no command.
pub open spec fn action_of(command: Seq<char>, subcommand: Option<Seq<char>>) -> Option<Action> {
    if command == DOCKER_REPO_COMMAND@ {
        Some(Action::DockerLogin)
    } else if command == KUBECTL_EXCHANGE_COMMAND@ {
        Some(Action::KubectlExchange)
    } else if command == CLIPBOARD_SYNC_COMMAND@ {
        match subcommand {
            Some(s) => if s == SERVER_START_SUBCOMMAND@ {
                Some(Action::ClipboardServer)
            } else if s == SYNC_SUBCOMMAND@ {
                Some(Action::ClipboardSync)
            } else {
                None
            },
            None => None,
        }
    } else if command == V2FLY_SUBCOMMAND@ {
        match subcommand {
            Some(s) => if s == SERVER_START_SUBCOMMAND@ {
                Some(Action::V2flySubscription)
            } else if s == SYNC_SUBCOMMAND@ {
                Some(Action::V2flySync)
            } else {
                None
            },
            None => None,
        }
    } else {
        None
    }
}

/// Picks the action for a command and its sub-command.
pub fn action_for(command: &str, subcommand: Option<&str>) -> (r: Option<Action>)
    ensures
        r == action_of(
            command@,
            match subcommand {
                Some(s) => Some(s@),
                None => None,
            },
        ),
{
    if same_text(command, DOCKER_REPO_COMMAND) {
        Some(Action::DockerLogin)
    } else if same_text(command, KUBECTL_EXCHANGE_COMMAND) {
        Some(Action::KubectlExchange)
    } else if same_text(command, CLIPBOARD_SYNC_COMMAND) {
        match subcommand {
            Some(s) => {
                if same_text(s, SERVER_START_SUBCOMMAND) {
                    Some(Action::ClipboardServer)
                } else if same_text(s, SYNC_SUBCOMMAND) {
                    Some(Action::ClipboardSync)
                } else {
                    None
                }
            },
            None => None,
        }
    } else if same_text(command, V2FLY_SUBCOMMAND) {
        match subcommand {
            Some(s) => {
                if same_text(s, SERVER_START_SUBCOMMAND) {
                    Some(Action::V2flySubscription)
                } else if same_text(s, SYNC_SUBCOMMAND) {
                    Some(Action::V2flySync)
                } else {
                    None
                }
            },
            None => None,
        }
    } else {
        None
    }
}

/// The shell line that logs in to the registry, feeding the password on
/// standard input.
pub fn docker_login_command(password: &str, user: &str) -> (r: String)
    ensures
        r@ == "echo "@ + password@ + "| docker login uhub.service.ucloud.cn -u "@ + user@
            + " --password-stdin"@,
{
    let mut s = "echo ".to_owned();
    s.append(password);
    s.append("| docker login uhub.service.ucloud.cn -u ");
    s.append(user);
    s.append(" --password-stdin");
    s
}

/// The file name of the kubectl configuration saved under `prefix`.
pub fn kube_config_file_name(prefix: &str) -> (r: String)
    ensures
        r@ == "config."@ + prefix@,
{
    let mut s = "config.".to_owned();
    s.append(prefix);
    s
}

/// The name of the v2fly container to restart: the configured one, else `v2fly`.
pub fn v2fly_container_name(configured: Option<&str>) -> (r: String)
    ensures
        r@ == (match configured {
            Some(name) => name@,
            None => "v2fly"@,
        }),
{
    match configured {
        Some(name) => name.to_owned(),
        None => "v2fly".to_owned(),
    }
}

} // verus!
