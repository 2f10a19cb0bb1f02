use herdr::session_commit::{commit, Commit};
use herdr::session_switch::{prepare, Preparation, PreparedSwitch, SwitchTicket};

/// What a preparation meets. The connection is a number, a path a text.
struct Host {
    target: Result<Option<String>, String>,
    canonical: Result<String, String>,
    is_directory: bool,
    server: Result<(), String>,
    connection: Result<u32, String>,
    calls: Vec<String>,
}

impl Host {
    fn good() -> Self {
        Host {
            target: Ok(Some("work".to_string())),
            canonical: Ok("/home/me/src".to_string()),
            is_directory: true,
            server: Ok(()),
            connection: Ok(77),
            calls: Vec::new(),
        }
    }

    fn prepare(&mut self, cwd: Option<&str>) -> PreparedSwitch<u32> {
        let cwd = cwd.map(|cwd| cwd.to_string());
        let (ticket, mut stage): (SwitchTicket, Preparation<String, &str, u32>) =
            prepare("work".to_string(), cwd, 4, 5, "80x24");
        loop {
            stage = match stage {
                Preparation::ParseTarget(stage) => {
                    self.calls.push(format!("parse {}", stage.name));
                    stage.parsed(self.target.clone())
                }
                Preparation::Canonicalize(stage) => {
                    self.calls.push(format!("canonicalize {}", stage.cwd));
                    stage.canonicalized(self.canonical.clone())
                }
                Preparation::CheckDirectory(stage) => {
                    self.calls.push(format!("check {}", stage.path));
                    let shown = stage.path.clone();
                    stage.checked(self.is_directory, &shown)
                }
                Preparation::StartServer(stage) => {
                    self.calls
                        .push(format!("start {:?} in {:?}", stage.target, stage.cwd));
                    stage.started(self.server.clone())
                }
                Preparation::Connect(stage) => {
                    let (stage, options) = stage.take_options();
                    self.calls.push(format!(
                        "connect {:?} as {} with {}",
                        stage.target, stage.generation, options
                    ));
                    stage.connected(self.connection.clone())
                }
                Preparation::Finished(result) => return ticket.finish(Ok(result)),
            };
        }
    }
}

fn failure(prepared: PreparedSwitch<u32>) -> String {
    assert_eq!(prepared.session, "work");
    assert_eq!(prepared.source_generation, 4);
    assert_eq!(prepared.generation, 5);
    prepared.result.unwrap_err()
}

#[test]
fn a_preparation_connects_to_the_started_server() {
    let mut host = Host::good();
    let prepared = host.prepare(Some("~/src"));
    assert_eq!(
        prepared,
        PreparedSwitch {
            session: "work".to_string(),
            source_generation: 4,
            generation: 5,
            result: Ok(77),
        }
    );
    assert_eq!(
        host.calls,
        vec![
            "parse work",
            "canonicalize ~/src",
            "check /home/me/src",
            "start Some(\"work\") in Some(\"/home/me/src\")",
            "connect Some(\"work\") as 5 with 80x24",
        ]
    );
}

#[test]
fn a_preparation_without_a_directory_resolves_none() {
    let mut host = Host::good();
    host.target = Ok(None);
    host.canonical = Err("no such path".to_string());
    host.is_directory = false;
    assert_eq!(host.prepare(None).result, Ok(77));
    assert_eq!(
        host.calls,
        vec!["parse work", "start None in None", "connect None as 5 with 80x24"]
    );
}

#[test]
fn a_bad_name_ends_the_preparation() {
    let mut host = Host::good();
    host.target = Err("bad name".to_string());
    assert_eq!(failure(host.prepare(Some("~/src"))), "bad name");
    assert_eq!(host.calls, vec!["parse work"]);
}

#[test]
fn a_missing_directory_starts_no_server() {
    let mut host = Host::good();
    host.canonical = Err("no such path".to_string());
    assert_eq!(failure(host.prepare(Some("~/src"))), "no such path");
    assert_eq!(host.calls, vec!["parse work", "canonicalize ~/src"]);
}

#[test]
fn a_file_is_no_directory() {
    let mut host = Host::good();
    host.is_directory = false;
    assert_eq!(
        failure(host.prepare(Some("~/src"))),
        "/home/me/src is not a directory"
    );
    assert_eq!(host.calls.len(), 3);
}

#[test]
fn a_failed_server_start_connects_nobody() {
    let mut host = Host::good();
    host.server = Err("cannot start".to_string());
    assert_eq!(failure(host.prepare(None)), "cannot start");
    assert_eq!(host.calls.len(), 2);
}

#[test]
fn a_stalled_handshake_is_the_outcome() {
    let mut host = Host::good();
    host.connection = Err("timed out".to_string());
    assert_eq!(failure(host.prepare(None)), "timed out");
}

#[test]
fn a_lost_task_is_a_failed_preparation() {
    let (ticket, _stage): (SwitchTicket, Preparation<String, (), u32>) =
        prepare("work".to_string(), None, 4, 5, ());
    let prepared: PreparedSwitch<u32> = ticket.finish(Err("task 3 panicked".to_string()));
    assert_eq!(
        failure(prepared),
        "session preparation task failed: task 3 panicked"
    );
}

/// What a commit meets.
struct Client {
    accepts: bool,
    activation_pending: bool,
    activated: Result<Option<String>, String>,
    local_was_active: bool,
    has_shell: bool,
    calls: Vec<String>,
}

impl Client {
    fn good() -> Self {
        Client {
            accepts: true,
            activation_pending: false,
            activated: Ok(Some("work".to_string())),
            local_was_active: true,
            has_shell: true,
            calls: Vec::new(),
        }
    }

    fn commit(&mut self) -> Result<bool, String> {
        let mut stage: Commit<u64> = commit("work", 4, 5);
        loop {
            stage = match stage {
                Commit::CheckSource(stage) => {
                    self.calls.push(format!("accepts {}", stage.source_generation));
                    stage.checked(self.accepts, self.activation_pending)
                }
                Commit::ActivateSession(stage) => {
                    self.calls.push(format!("activate {}", stage.session));
                    stage.activated(self.activated.clone().map(|target| (target, 1000)))
                }
                Commit::DetachLocal(stage) => {
                    self.calls.push("detach".to_string());
                    stage.detached()
                }
                Commit::DisconnectLocal(stage) => {
                    self.calls.push(format!(
                        "disconnect {} at {}: {}",
                        stage.source_generation, stage.now, stage.reason
                    ));
                    stage.disconnected(self.local_was_active)
                }
                Commit::SuperviseLocal(stage) => {
                    self.calls.push(format!(
                        "supervise {:?} {:?} at {}",
                        stage.target, stage.generation, stage.now
                    ));
                    stage.supervised(self.has_shell)
                }
                Commit::LabelLocal(stage) => {
                    self.calls.push(format!("label {}", stage.label));
                    stage.labelled()
                }
                Commit::ShowConnecting(stage) => {
                    self.calls.push("connecting".to_string());
                    stage.shown()
                }
                Commit::Finished(result) => return result,
            };
        }
    }
}

#[test]
fn a_commit_replaces_the_source() {
    let mut client = Client::good();
    assert_eq!(client.commit(), Ok(true));
    assert_eq!(
        client.calls,
        vec![
            "accepts 4",
            "activate work",
            "detach",
            "disconnect 4 at 1000: is switching to session work",
            "supervise Some(\"work\") Some(5) at 1000",
            "label work",
            "connecting",
        ]
    );
}

#[test]
fn the_default_session_is_labelled_local() {
    let mut client = Client::good();
    client.activated = Ok(None);
    client.local_was_active = false;
    assert_eq!(client.commit(), Ok(false));
    assert_eq!(client.calls[4], "supervise None Some(5) at 1000");
    assert_eq!(client.calls[5], "label Local");
}

#[test]
fn a_client_without_a_shell_shows_nothing() {
    let mut client = Client::good();
    client.has_shell = false;
    assert_eq!(client.commit(), Ok(true));
    assert_eq!(client.calls.len(), 5);
}

#[test]
fn a_changed_source_refuses_the_switch() {
    let message = "source connection changed while preparing the session; try again";
    let mut client = Client::good();
    client.accepts = false;
    assert_eq!(client.commit(), Err(message.to_string()));
    assert_eq!(client.calls, vec!["accepts 4"]);

    let mut client = Client::good();
    client.activation_pending = true;
    assert_eq!(client.commit(), Err(message.to_string()));
    assert_eq!(client.calls, vec!["accepts 4"]);
}

#[test]
fn a_failed_activation_keeps_the_source() {
    let mut client = Client::good();
    client.activated = Err("no such session".to_string());
    assert_eq!(client.commit(), Err("no such session".to_string()));
    assert_eq!(client.calls, vec!["accepts 4", "activate work"]);
}

#[test]
fn the_prepared_connection_is_the_one_supervised() {
    let mut host = Host::good();
    let prepared = host.prepare(None);
    assert_eq!(host.calls.last().unwrap(), "connect Some(\"work\") as 5 with 80x24");
    assert_eq!(prepared.generation, 5);
    let mut client = Client::good();
    client.commit().unwrap();
    assert_eq!(client.calls[4], "supervise Some(\"work\") Some(5) at 1000");
}
