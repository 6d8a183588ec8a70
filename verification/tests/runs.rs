use transfer_engine::copy::{clone, cut};
use transfer_engine::orchestrator::{Action, Input, Phase, Transfer};
use transfer_engine::platform::Platform;
use transfer_engine::progress::ProgressEvent;
use transfer_engine::supervisor::{SpawnStage, SupervisorEvent};

const KINDS: usize = 14;

fn input(kind: usize) -> Input {
    match kind {
        0 => Input::Request,
        1 => Input::SourceProbed { exists: true },
        2 => Input::SourceProbed { exists: false },
        3 => Input::RenameSucceeded,
        4 => Input::RenameFailed { cross_volume: true, reason: "exdev".to_string() },
        5 => Input::RenameFailed { cross_volume: false, reason: "denied".to_string() },
        6 => Input::SpawnSucceeded,
        7 => Input::SpawnFailed { stage: SpawnStage::Locate, reason: "missing".to_string() },
        8 => Input::Process(SupervisorEvent::Stdout(b"a\nb".to_vec())),
        9 => Input::Process(SupervisorEvent::Terminated(Some(0))),
        10 => Input::Process(SupervisorEvent::Terminated(Some(1))),
        11 => Input::Process(SupervisorEvent::Error("io".to_string())),
        12 => Input::SourceDeleted,
        _ => Input::DeleteFailed { reason: "busy".to_string() },
    }
}

fn is_end(action: &Action) -> bool {
    match action {
        Action::Publish(event) => event.is_terminal(),
        _ => false,
    }
}

/// Runs one sequence of inputs and checks what must hold of every run.
fn check_run(start: (Transfer, Vec<Action>), kinds: &[usize], moving: bool) {
    let (mut transfer, mut all) = start;
    let mut copy_succeeded = false;
    for kind in kinds {
        let streaming = transfer.phase() == &Phase::Streaming;
        let spawning = transfer.phase() == &Phase::Spawning;
        let cleaning = transfer.phase() == &Phase::Cleanup;
        let ended = transfer.is_terminal();
        let (next, actions) = transfer.step(input(*kind));
        if ended {
            assert!(actions.is_empty());
        }
        if !streaming && !cleaning {
            assert!(actions.iter().all(|action| !matches!(action, Action::Publish(_))));
        }
        if spawning && *kind == 7 {
            assert_eq!(actions.len(), 1);
            assert!(matches!(actions[0], Action::Reply(Err(_))));
        }
        for action in actions.iter() {
            if let Action::DeleteSource { path } = action {
                assert!(moving && streaming && *kind == 9);
                assert_eq!(path, "/src");
                copy_succeeded = true;
            }
        }
        transfer = next;
        all.extend(actions);
    }
    let ends = all.iter().filter(|action| is_end(action)).count();
    assert!(ends <= 1);
    if ends == 1 {
        assert!(is_end(all.last().unwrap()));
        assert!(transfer.is_terminal());
    }
    let replies = all.iter().filter(|action| matches!(action, Action::Reply(_))).count();
    assert!(replies <= 1);
    let spawns = all.iter().filter(|action| matches!(action, Action::Spawn(_))).count();
    assert!(spawns <= 1);
    let deletes = all.iter().filter(|action| matches!(action, Action::DeleteSource { .. })).count();
    assert_eq!(deletes, if copy_succeeded { 1 } else { 0 });
    if !moving {
        assert_eq!(deletes, 0);
        assert!(all.iter().all(|action| !matches!(action, Action::Rename { .. })));
    }
    if all.iter().any(|action| matches!(action, Action::Publish(ProgressEvent::Completed(_)))) {
        assert_eq!(transfer.phase(), &Phase::Completed);
    }
}

fn for_every_run(length: usize, check: &dyn Fn(&[usize])) {
    let mut kinds = vec![0usize; length];
    loop {
        check(&kinds);
        let mut place = 0;
        while place < length && kinds[place] + 1 == KINDS {
            kinds[place] = 0;
            place += 1;
        }
        if place == length {
            return;
        }
        kinds[place] += 1;
    }
}

#[test]
fn every_short_run_of_a_copy_obeys_the_laws() {
    for length in 0..4 {
        for_every_run(length, &|kinds| {
            check_run(clone("/src", "/dst").unwrap(), kinds, false);
        });
    }
}

#[test]
fn every_short_run_of_a_copy_onto_itself_obeys_the_laws() {
    for_every_run(3, &|kinds| {
        check_run(clone("/src", "/src").unwrap(), kinds, false);
    });
}

#[test]
fn every_short_run_of_a_move_obeys_the_laws() {
    for platform in [Platform::Windows, Platform::Linux] {
        for length in 0..4 {
            for_every_run(length, &|kinds| {
                check_run(
                    cut(platform, "/src".to_string(), "/dst".to_string()).unwrap(),
                    kinds,
                    true,
                );
            });
        }
    }
}

#[test]
fn longer_runs_of_a_falling_back_move_obey_the_laws() {
    for_every_run(3, &|tail| {
        let mut kinds = vec![1, 4, 6];
        kinds.extend_from_slice(tail);
        check_run(
            cut(Platform::Linux, "/src".to_string(), "/dst".to_string()).unwrap(),
            &kinds,
            true,
        );
    });
}
