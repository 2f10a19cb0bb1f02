use herdr::client_accept_waker::ClientAcceptWaker;
use herdr::error_kind::ErrorKind;
use herdr::waker_setup::{set_up, Setup};

/// Runs a set-up in which the call with the number `failing` fails, and returns what
/// it comes to and the calls it made.
fn run(failing: usize, kind: ErrorKind) -> (Result<(&'static str, u32), ErrorKind>, Vec<String>) {
    let mut calls: Vec<String> = Vec::new();
    let mut stage: Setup<&'static str, char, u32> = set_up();
    loop {
        let good = calls.len() != failing;
        stage = match stage {
            Setup::CreatePair(stage) => {
                calls.push("pair".to_string());
                stage.created(if good { Ok(("wake", 'r')) } else { Err(kind) })
            }
            Setup::UnblockWake(stage) => {
                calls.push(format!("unblock {}", stage.wake));
                stage.unblocked(if good { Ok(()) } else { Err(kind) })
            }
            Setup::UnblockReceiver(stage) => {
                calls.push(format!("unblock {}", stage.receiver));
                stage.unblocked(if good { Ok(()) } else { Err(kind) })
            }
            Setup::StartWorker(stage) => {
                let (stage, receiver) = stage.take_receiver();
                calls.push(format!("start on {}", receiver));
                stage.started(if good { Ok(9) } else { Err(kind) })
            }
            Setup::Finished(started) => return (started, calls),
        };
    }
}

#[test]
fn the_worker_starts_last() {
    let (started, calls) = run(usize::MAX, ErrorKind::Other);
    assert_eq!(started, Ok(("wake", 9)));
    assert_eq!(
        calls,
        vec!["pair", "unblock wake", "unblock r", "start on r"]
    );
    let waker = ClientAcceptWaker::spawn(started);
    assert_eq!(waker.wake_channel(), Some(&"wake"));
}

#[test]
fn a_setup_ends_at_its_first_failure() {
    for failing in 0..4 {
        let (started, calls) = run(failing, ErrorKind::WouldBlock);
        assert_eq!(started, Err(ErrorKind::WouldBlock));
        assert_eq!(calls.len(), failing + 1);
    }
}
