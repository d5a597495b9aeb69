use commandant::platform::{write_stress_ng_to_disk, StressNgArch};
use commandant::staging::{
    has_execute_permission, StageAction, StageError, StageEvent, StagePhase, Stager, WriteResult, EXECUTABLE_MODE,
};

/// A file system holding at most one file, at the stager's path: its mode.
fn drive(stager: &mut Stager, file: &mut Option<u32>, writes: &mut u32) -> StageAction {
    let mut action = stager.step(StageEvent::Probed(*file));
    loop {
        action = match action {
            StageAction::WritePayload => {
                if file.is_some() {
                    stager.step(StageEvent::WriteDone(WriteResult::AlreadyExists))
                } else {
                    *writes += 1;
                    *file = Some(0o644);
                    stager.step(StageEvent::WriteDone(WriteResult::Written))
                }
            }
            StageAction::SetMode(mode) => {
                *file = Some(mode);
                stager.step(StageEvent::ModeSet(Ok(())))
            }
            StageAction::Probe => stager.step(StageEvent::Probed(*file)),
            done => return done,
        };
    }
}

#[test]
fn stage_on_clean_directory_then_again() {
    let mut file = None;
    let mut writes = 0;
    let mut first = write_stress_ng_to_disk(StressNgArch::Linux, "/tmp/stage");
    assert_eq!(first.path, "/tmp/stage/stress-ng-linux");
    let r1 = drive(&mut first, &mut file, &mut writes);
    match r1 {
        StageAction::Done(Ok(b)) => {
            assert_eq!(b.path, "/tmp/stage/stress-ng-linux");
            assert!(b.is_executable);
            assert!(b.written);
        }
        other => panic!("unexpected {:?}", other),
    }
    assert_eq!(file, Some(EXECUTABLE_MODE));
    assert_eq!(writes, 1);
    let mut second = write_stress_ng_to_disk(StressNgArch::Linux, "/tmp/stage");
    let r2 = drive(&mut second, &mut file, &mut writes);
    match r2 {
        StageAction::Done(Ok(b)) => {
            assert_eq!(b.path, "/tmp/stage/stress-ng-linux");
            assert!(b.is_executable);
            assert!(!b.written);
        }
        other => panic!("unexpected {:?}", other),
    }
    assert_eq!(writes, 1);
    assert_eq!(file, Some(0o755));
}

#[test]
fn staging_twice_never_writes_again_for_every_variant() {
    for arch in [StressNgArch::Linux, StressNgArch::MacOS, StressNgArch::Apple] {
        let mut file = None;
        let mut writes = 0;
        let mut s1 = write_stress_ng_to_disk(arch, "d");
        assert!(matches!(drive(&mut s1, &mut file, &mut writes), StageAction::Done(Ok(_))));
        let mut s2 = write_stress_ng_to_disk(arch, "d");
        match drive(&mut s2, &mut file, &mut writes) {
            StageAction::Done(Ok(b)) => {
                assert_eq!(b.variant, arch);
                assert!(!b.written);
            }
            other => panic!("unexpected {:?}", other),
        }
        assert_eq!(writes, 1);
    }
}

#[test]
fn existing_file_is_left_as_it_is() {
    let mut s = Stager::new(StressNgArch::MacOS, "x".to_string());
    match s.step(StageEvent::Probed(Some(0o644))) {
        StageAction::Done(Ok(b)) => {
            assert!(!b.is_executable);
            assert!(!b.written);
        }
        other => panic!("unexpected {:?}", other),
    }
    assert_eq!(s.phase, StagePhase::Finished);
}

#[test]
fn write_failure_is_reported() {
    let mut s = Stager::new(StressNgArch::Linux, "x".to_string());
    assert_eq!(s.step(StageEvent::Probed(None)), StageAction::WritePayload);
    assert_eq!(
        s.step(StageEvent::WriteDone(WriteResult::Failed("disk full".to_string()))),
        StageAction::Done(Err(StageError::WriteFailed("disk full".to_string())))
    );
}

#[test]
fn permission_failure_is_reported() {
    let mut s = Stager::new(StressNgArch::Linux, "x".to_string());
    s.step(StageEvent::Probed(None));
    assert_eq!(s.step(StageEvent::WriteDone(WriteResult::Written)), StageAction::SetMode(0o755));
    assert_eq!(
        s.step(StageEvent::ModeSet(Err("denied".to_string()))),
        StageAction::Done(Err(StageError::PermissionFailed("denied".to_string())))
    );
}

#[test]
fn file_appearing_meanwhile_is_probed_again() {
    let mut s = Stager::new(StressNgArch::Linux, "x".to_string());
    s.step(StageEvent::Probed(None));
    assert_eq!(s.step(StageEvent::WriteDone(WriteResult::AlreadyExists)), StageAction::Probe);
    assert!(matches!(s.step(StageEvent::Probed(Some(0o755))), StageAction::Done(Ok(_))));
}

#[test]
fn event_out_of_order_ends_staging() {
    let mut s = Stager::new(StressNgArch::Linux, "x".to_string());
    assert_eq!(s.step(StageEvent::ModeSet(Ok(()))), StageAction::Done(Err(StageError::OutOfOrder)));
}

#[test]
fn execute_permission_bits() {
    assert!(has_execute_permission(0o755));
    assert!(has_execute_permission(0o001));
    assert!(!has_execute_permission(0o644));
    assert!(!has_execute_permission(0));
}
