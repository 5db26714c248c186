use zfs_manager::lifecycle::{command_argv, passphrase_input, query_argv, command_result_from};
use zfs_manager::ZfsError;
use zfs_manager::{Lifecycle, Operation, Outcome, Query, Stage, Step};

/// A dataset held by a fake external tool: it answers listings from its state and obeys
/// commands, counting them.
struct FakeTool {
    name: String,
    exists: bool,
    key_loaded: bool,
    mounted: bool,
    commands: Vec<Operation>,
    fail_commands: bool,
}

impl FakeTool {
    fn new(name: &str, key_loaded: bool, mounted: bool) -> FakeTool {
        FakeTool {
            name: name.to_string(),
            exists: true,
            key_loaded,
            mounted,
            commands: Vec::new(),
            fail_commands: false,
        }
    }

    fn listing(&self, q: Query) -> Outcome {
        let mut stdout = String::from("other\tavailable\n");
        if q == Query::MountStatus {
            stdout = String::from("other\tyes\n");
        }
        if self.exists {
            let value = match q {
                Query::KeyStatus => {
                    if self.key_loaded {
                        "available"
                    } else {
                        "unavailable"
                    }
                }
                _ => {
                    if self.mounted {
                        "yes"
                    } else {
                        "no"
                    }
                }
            };
            stdout.push_str(&format!("{}\t{}\n", self.name, value));
        }
        Outcome::Exited {
            success: true,
            stdout,
            stderr: String::new(),
        }
    }

    fn command(&mut self, op: Operation) -> Outcome {
        self.commands.push(op);
        if self.fail_commands {
            return Outcome::Exited {
                success: false,
                stdout: String::new(),
                stderr: "permission denied".to_string(),
            };
        }
        match op {
            Operation::LoadKey => self.key_loaded = true,
            Operation::UnloadKey => self.key_loaded = false,
            Operation::Mount => self.mounted = true,
            Operation::Unmount => self.mounted = false,
        }
        Outcome::Exited {
            success: true,
            stdout: String::new(),
            stderr: String::new(),
        }
    }

    fn call(&mut self, op: Operation, raw: &str) -> Result<(), ZfsError> {
        let (mut m, mut step) = Lifecycle::start(op, raw);
        loop {
            match step {
                Step::Query(q) => {
                    let out = self.listing(q);
                    step = m.advance(&out);
                }
                Step::Run(o) => {
                    let out = self.command(o);
                    step = m.advance(&out);
                }
                Step::Done(r) => {
                    assert_eq!(m.stage(), Stage::Finished);
                    return r;
                }
            }
        }
    }
}

#[test]
fn mount_twice_mounts_once() {
    let mut tool = FakeTool::new("pool/ds", true, false);
    assert_eq!(tool.call(Operation::Mount, "pool/ds"), Ok(()));
    assert_eq!(tool.call(Operation::Mount, "pool/ds"), Ok(()));
    assert_eq!(tool.commands, vec![Operation::Mount]);
    assert!(tool.mounted);
}

#[test]
fn mount_without_key_is_refused() {
    let mut tool = FakeTool::new("pool/ds", false, false);
    assert_eq!(
        tool.call(Operation::Mount, "pool/ds"),
        Err(ZfsError::KeyNotLoadedForMount("pool/ds".to_string()))
    );
    assert!(tool.commands.is_empty());
    assert!(!tool.mounted);
}

#[test]
fn mount_step_by_step() {
    let tool = FakeTool::new("pool/ds", true, false);
    let (mut m, step) = Lifecycle::start(Operation::Mount, " pool/ds ");
    assert_eq!(step, Step::Query(Query::KeyStatus));
    assert_eq!(m.dataset(), "pool/ds");
    assert_eq!(m.operation(), Operation::Mount);
    let step = m.advance(&tool.listing(Query::KeyStatus));
    assert_eq!(step, Step::Query(Query::MountStatus));
    let step = m.advance(&tool.listing(Query::MountStatus));
    assert_eq!(step, Step::Run(Operation::Mount));
    assert_eq!(m.stage(), Stage::Command);
}

#[test]
fn load_then_unload_round_trip() {
    let mut tool = FakeTool::new("pool/enc", false, false);
    assert_eq!(tool.call(Operation::LoadKey, "pool/enc"), Ok(()));
    assert!(tool.key_loaded);
    assert_eq!(tool.call(Operation::UnloadKey, "pool/enc"), Ok(()));
    assert!(!tool.key_loaded);
    assert_eq!(tool.commands, vec![Operation::LoadKey, Operation::UnloadKey]);
}

#[test]
fn operations_already_satisfied_run_nothing() {
    let mut tool = FakeTool::new("pool/enc", true, false);
    assert_eq!(tool.call(Operation::LoadKey, "pool/enc"), Ok(()));
    assert_eq!(tool.call(Operation::Unmount, "pool/enc"), Ok(()));
    tool.key_loaded = false;
    assert_eq!(tool.call(Operation::UnloadKey, "pool/enc"), Ok(()));
    assert!(tool.commands.is_empty());
}

#[test]
fn unmount_runs_when_mounted() {
    let mut tool = FakeTool::new("pool/enc", true, true);
    assert_eq!(tool.call(Operation::Unmount, "pool/enc"), Ok(()));
    assert_eq!(tool.call(Operation::Unmount, "pool/enc"), Ok(()));
    assert_eq!(tool.commands, vec![Operation::Unmount]);
    assert!(!tool.mounted);
}

#[test]
fn missing_dataset_is_not_found() {
    let mut tool = FakeTool::new("pool/enc", false, false);
    tool.exists = false;
    for op in [
        Operation::LoadKey,
        Operation::UnloadKey,
        Operation::Mount,
        Operation::Unmount,
    ] {
        assert_eq!(
            tool.call(op, "pool/enc"),
            Err(ZfsError::DatasetNotFound("pool/enc".to_string()))
        );
    }
    assert!(tool.commands.is_empty());
}

#[test]
fn invalid_name_runs_nothing() {
    let mut tool = FakeTool::new("pool/enc", false, false);
    assert_eq!(
        tool.call(Operation::LoadKey, " pool/enc; reboot "),
        Err(ZfsError::DatasetNameIsInvalid("pool/enc; reboot".to_string()))
    );
    let (m, step) = Lifecycle::start(Operation::Unmount, "a//b");
    assert_eq!(step, Step::Done(Err(ZfsError::DatasetNameIsInvalid("a//b".to_string()))));
    assert_eq!(m.stage(), Stage::Finished);
    assert!(tool.commands.is_empty());
}

#[test]
fn failed_commands_carry_stderr() {
    let cases = [
        (Operation::LoadKey, false, false),
        (Operation::UnloadKey, true, false),
        (Operation::Mount, true, false),
        (Operation::Unmount, true, true),
    ];
    for (op, key_loaded, mounted) in cases {
        let mut tool = FakeTool::new("p/d", key_loaded, mounted);
        tool.fail_commands = true;
        let d = "p/d".to_string();
        let msg = "permission denied".to_string();
        let expected = match op {
            Operation::LoadKey => ZfsError::LoadKeyCmdFailed(d, msg),
            Operation::UnloadKey => ZfsError::UnloadKeyCmdFailed(d, msg),
            Operation::Mount => ZfsError::MountCmdFailed(d, msg),
            Operation::Unmount => ZfsError::UnmountCmdFailed(d, msg),
        };
        assert_eq!(tool.call(op, "p/d"), Err(expected));
        assert_eq!(tool.commands, vec![op]);
    }
}

#[test]
fn command_outcomes() {
    let d = "p/d".to_string();
    assert_eq!(
        command_result_from(Operation::Mount, &d, &Outcome::SpawnFailed("no sudo".to_string())),
        Err(ZfsError::MountCmdFailed(d.clone(), "no sudo".to_string()))
    );
    assert_eq!(
        command_result_from(Operation::LoadKey, &d, &Outcome::IoFailed("broken pipe".to_string())),
        Err(ZfsError::SystemError("broken pipe".to_string()))
    );
    let ok = Outcome::Exited {
        success: true,
        stdout: "x".to_string(),
        stderr: "warning".to_string(),
    };
    assert_eq!(command_result_from(Operation::Unmount, &d, &ok), Ok(()));
}

#[test]
fn query_failure_ends_operation() {
    let (mut m, _) = Lifecycle::start(Operation::LoadKey, "p/d");
    let step = m.advance(&Outcome::Exited {
        success: false,
        stdout: String::new(),
        stderr: "cannot open".to_string(),
    });
    assert_eq!(
        step,
        Step::Done(Err(ZfsError::KeyLoadedCheckFailed(
            "p/d".to_string(),
            "cannot open".to_string()
        )))
    );
    let (mut m, _) = Lifecycle::start(Operation::Unmount, "p/d");
    let step = m.advance(&Outcome::Exited {
        success: true,
        stdout: "p/d\tperhaps\n".to_string(),
        stderr: String::new(),
    });
    assert_eq!(
        step,
        Step::Done(Err(ZfsError::UnexpectedStateForMount("perhaps".to_string())))
    );
}

#[test]
fn argument_vectors() {
    assert_eq!(
        query_argv(Query::KeyStatus),
        vec!["zfs", "get", "keystatus", "-H", "-o", "name,value"]
    );
    assert_eq!(
        query_argv(Query::MountStatus),
        vec!["zfs", "list", "-H", "-o", "name,mounted"]
    );
    assert_eq!(
        query_argv(Query::Mountpoints),
        vec!["zfs", "list", "-H", "-o", "name,mountpoint"]
    );
    assert_eq!(
        query_argv(Query::EncryptedDatasets),
        vec!["zfs", "list", "-H", "-o", "name,mounted,keystatus"]
    );
    let d = "pool/enc".to_string();
    assert_eq!(
        command_argv(Operation::LoadKey, &d),
        vec!["sudo", "-n", "zfs", "load-key", "pool/enc"]
    );
    assert_eq!(
        command_argv(Operation::UnloadKey, &d),
        vec!["sudo", "-n", "zfs", "unload-key", "pool/enc"]
    );
    assert_eq!(
        command_argv(Operation::Mount, &d),
        vec!["sudo", "-n", "zfs", "mount", "pool/enc"]
    );
    assert_eq!(
        command_argv(Operation::Unmount, &d),
        vec!["sudo", "-n", "zfs", "umount", "pool/enc"]
    );
    assert_eq!(passphrase_input("abcdefghijklmnop"), "abcdefghijklmnop\n");
}
