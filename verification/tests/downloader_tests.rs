use fampp::downloader::{Download, DownloadAction, DownloadEvent, DownloadPhase};
use fampp::extractor::AcquisitionError;

#[test]
fn a_download_that_goes_well() {
    let mut d = Download::new();
    assert_eq!(d, Download { phase: DownloadPhase::Requesting, total: 0, received: 0 });
    assert_eq!(d.step(DownloadEvent::Response { length: Some(10) }), DownloadAction::CreateFile);
    assert_eq!(d, Download { phase: DownloadPhase::Creating, total: 10, received: 0 });
    assert_eq!(d.step(DownloadEvent::Created), DownloadAction::Receive);
    assert_eq!(
        d.step(DownloadEvent::Chunk { len: 4 }),
        DownloadAction::WriteChunk { position: 4 }
    );
    assert_eq!(d, Download { phase: DownloadPhase::Writing, total: 10, received: 4 });
    assert_eq!(d.step(DownloadEvent::Written), DownloadAction::Receive);
    assert_eq!(
        d.step(DownloadEvent::Chunk { len: 6 }),
        DownloadAction::WriteChunk { position: 10 }
    );
    assert_eq!(d.step(DownloadEvent::Written), DownloadAction::Receive);
    assert_eq!(d.step(DownloadEvent::End), DownloadAction::Complete);
    assert_eq!(d, Download { phase: DownloadPhase::Done, total: 10, received: 10 });
    assert_eq!(d.step(DownloadEvent::Failure), DownloadAction::Complete);
}

#[test]
fn progress_never_passes_the_announced_length() {
    let mut d = Download::new();
    d.step(DownloadEvent::Response { length: Some(5) });
    d.step(DownloadEvent::Created);
    assert_eq!(
        d.step(DownloadEvent::Chunk { len: 3 }),
        DownloadAction::WriteChunk { position: 3 }
    );
    d.step(DownloadEvent::Written);
    assert_eq!(
        d.step(DownloadEvent::Chunk { len: 3 }),
        DownloadAction::WriteChunk { position: 5 }
    );
    d.step(DownloadEvent::Written);
    assert_eq!(
        d.step(DownloadEvent::Chunk { len: u64::MAX }),
        DownloadAction::WriteChunk { position: 5 }
    );
    assert_eq!(d.received, 5);
}

#[test]
fn huge_lengths_do_not_overflow() {
    let mut d = Download::new();
    d.step(DownloadEvent::Response { length: Some(u64::MAX) });
    d.step(DownloadEvent::Created);
    assert_eq!(
        d.step(DownloadEvent::Chunk { len: u64::MAX - 1 }),
        DownloadAction::WriteChunk { position: u64::MAX - 1 }
    );
    d.step(DownloadEvent::Written);
    assert_eq!(
        d.step(DownloadEvent::Chunk { len: 2 }),
        DownloadAction::WriteChunk { position: u64::MAX }
    );
}

#[test]
fn a_response_without_length_is_refused() {
    let mut d = Download::new();
    assert_eq!(
        d.step(DownloadEvent::Response { length: None }),
        DownloadAction::Abort { remove_partial: false, error: AcquisitionError::MissingLength }
    );
    assert_eq!(d.phase, DownloadPhase::Failed);
}

#[test]
fn a_failed_request_leaves_nothing_to_remove() {
    let mut d = Download::new();
    assert_eq!(
        d.step(DownloadEvent::Failure),
        DownloadAction::Abort { remove_partial: false, error: AcquisitionError::TransferFailed }
    );
    assert_eq!(d.phase, DownloadPhase::Failed);
}

#[test]
fn a_failure_while_receiving_removes_the_partial_file() {
    let mut d = Download::new();
    d.step(DownloadEvent::Response { length: Some(100) });
    d.step(DownloadEvent::Created);
    d.step(DownloadEvent::Chunk { len: 40 });
    d.step(DownloadEvent::Written);
    assert_eq!(
        d.step(DownloadEvent::Failure),
        DownloadAction::Abort { remove_partial: true, error: AcquisitionError::TransferFailed }
    );
    assert_eq!(d, Download { phase: DownloadPhase::Failed, total: 100, received: 40 });
    assert_eq!(
        d.step(DownloadEvent::End),
        DownloadAction::Abort { remove_partial: false, error: AcquisitionError::TransferFailed }
    );
}

#[test]
fn a_failure_while_creating_removes_the_file() {
    let mut d = Download::new();
    d.step(DownloadEvent::Response { length: Some(100) });
    assert_eq!(
        d.step(DownloadEvent::Failure),
        DownloadAction::Abort { remove_partial: true, error: AcquisitionError::TransferFailed }
    );
}

#[test]
fn events_out_of_turn_end_the_download() {
    let mut d = Download::new();
    assert_eq!(
        d.step(DownloadEvent::Chunk { len: 1 }),
        DownloadAction::Abort { remove_partial: false, error: AcquisitionError::TransferFailed }
    );
    let mut d = Download::new();
    d.step(DownloadEvent::Response { length: Some(1) });
    assert_eq!(
        d.step(DownloadEvent::End),
        DownloadAction::Abort { remove_partial: true, error: AcquisitionError::TransferFailed }
    );
    let mut d = Download::new();
    d.step(DownloadEvent::Response { length: Some(1) });
    d.step(DownloadEvent::Created);
    assert_eq!(
        d.step(DownloadEvent::Created),
        DownloadAction::Abort { remove_partial: true, error: AcquisitionError::TransferFailed }
    );
}

#[test]
fn progress_stays_within_the_length_whatever_happens() {
    let mut state: u64 = 99;
    let mut next = move || {
        state = state.wrapping_mul(6364136223846793005).wrapping_add(1442695040888963407);
        state >> 33
    };
    for _ in 0..2000 {
        let mut d = Download::new();
        for _ in 0..12 {
            let event = match next() % 9 {
                0 => DownloadEvent::Response { length: Some(next() % 1000) },
                1 => DownloadEvent::Response { length: None },
                2 => DownloadEvent::Created,
                3 | 4 => DownloadEvent::Chunk { len: next() % 400 },
                5 | 6 => DownloadEvent::Written,
                7 => DownloadEvent::End,
                _ => DownloadEvent::Failure,
            };
            let before = d;
            let action = d.step(event);
            assert!(d.received <= d.total);
            assert!(d.received >= before.received || before.phase == DownloadPhase::Requesting);
            if let DownloadAction::WriteChunk { position } = action {
                assert_eq!(position, d.received);
            }
            if before.phase == DownloadPhase::Done {
                assert_eq!(d, before);
            }
        }
    }
}

#[test]
fn a_failed_write_removes_the_partial_file() {
    let mut d = Download::new();
    d.step(DownloadEvent::Response { length: Some(100) });
    d.step(DownloadEvent::Created);
    d.step(DownloadEvent::Chunk { len: 40 });
    assert_eq!(
        d.step(DownloadEvent::Failure),
        DownloadAction::Abort { remove_partial: true, error: AcquisitionError::TransferFailed }
    );
    assert_eq!(d.phase, DownloadPhase::Failed);
}

#[test]
fn a_part_has_to_be_written_before_the_next_arrives() {
    let mut d = Download::new();
    d.step(DownloadEvent::Response { length: Some(100) });
    d.step(DownloadEvent::Created);
    d.step(DownloadEvent::Chunk { len: 40 });
    assert_eq!(
        d.step(DownloadEvent::Chunk { len: 40 }),
        DownloadAction::Abort { remove_partial: true, error: AcquisitionError::TransferFailed }
    );
}
