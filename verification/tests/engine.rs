use quick_transfer::error::{ProgramRole, QuickTransferError};
use quick_transfer::supervisor::{ShutdownState, SupervisorAction, SupervisorEvent};
use quick_transfer::transfer::{BlockAction, ChunkStep, FileReception, FileSending};

#[test]
fn reception_counts_down_to_the_announced_size() {
    let mut reception = FileReception::new(2048, "f".to_string(), false, ProgramRole::Client);
    assert_eq!(reception.remaining(), 2048);
    assert!(!reception.is_complete());
    assert_eq!(reception.block_received(1024), Ok(BlockAction::Write));
    assert_eq!(reception.remaining(), 1024);
    assert_eq!(reception.block_received(0), Ok(BlockAction::Write));
    assert_eq!(reception.remaining(), 1024);
    assert_eq!(reception.block_received(1024), Ok(BlockAction::Write));
    assert!(reception.is_complete());
}

#[test]
fn empty_file_is_complete_at_once() {
    let reception = FileReception::new(0, "f".to_string(), true, ProgramRole::Server);
    assert!(reception.is_complete());
}

#[test]
fn block_beyond_the_announced_size_is_invalid_data() {
    let mut reception = FileReception::new(10, "f".to_string(), true, ProgramRole::Server);
    assert_eq!(
        reception.block_received(11),
        Err(QuickTransferError::SentInvalidData(ProgramRole::Server))
    );
    assert_eq!(reception.remaining(), 10);
    assert_eq!(reception.block_received(10), Ok(BlockAction::Write));
}

#[test]
fn failed_write_ends_an_intolerant_reception() {
    let mut reception =
        FileReception::new(100, "/tmp/out.bin".to_string(), false, ProgramRole::Client);
    assert_eq!(reception.block_received(50), Ok(BlockAction::Write));
    assert_eq!(
        reception.write_failed(),
        Err(QuickTransferError::WritingFile { file_path: "/tmp/out.bin".to_string() })
    );
}

#[test]
fn failed_write_turns_a_tolerant_reception_to_draining() {
    let mut reception = FileReception::new(100, "out".to_string(), true, ProgramRole::Server);
    assert_eq!(reception.block_received(40), Ok(BlockAction::Write));
    assert_eq!(reception.write_failed(), Ok(()));
    assert_eq!(reception.block_received(40), Ok(BlockAction::Discard));
    assert_eq!(reception.block_received(20), Ok(BlockAction::Discard));
    assert!(reception.is_complete());
}

#[test]
fn reception_without_file_discards_everything() {
    let mut reception = FileReception::without_file(3, "out".to_string(), ProgramRole::Server);
    assert_eq!(reception.block_received(1), Ok(BlockAction::Discard));
    assert_eq!(reception.block_received(2), Ok(BlockAction::Discard));
    assert!(reception.is_complete());
    assert_eq!(reception.write_failed(), Ok(()));
}

#[test]
fn sending_flushes_only_the_last_chunk() {
    let mut sending = FileSending::new(2500, "f".to_string());
    assert_eq!(sending.next_read(), 1024);
    assert_eq!(sending.chunk_read(Some(1024)), Ok(ChunkStep::Send { length: 1024, flush: false }));
    assert_eq!(sending.remaining(), 1476);
    assert_eq!(sending.chunk_read(Some(1024)), Ok(ChunkStep::Send { length: 1024, flush: false }));
    assert_eq!(sending.chunk_read(Some(452)), Ok(ChunkStep::Send { length: 452, flush: true }));
    assert_eq!(sending.remaining(), 0);
    assert_eq!(sending.next_read(), 0);
    assert_eq!(sending.chunk_read(Some(0)), Ok(ChunkStep::Done));
    assert_eq!(sending.chunk_read(None), Ok(ChunkStep::Done));
}

#[test]
fn sending_does_not_go_beyond_the_announced_size() {
    let mut sending = FileSending::new(100, "f".to_string());
    assert_eq!(sending.chunk_read(Some(1024)), Ok(ChunkStep::Send { length: 100, flush: true }));
    assert_eq!(sending.remaining(), 0);
}

#[test]
fn sending_fails_on_a_failed_read_and_on_a_short_file() {
    let mut sending = FileSending::new(100, "short.bin".to_string());
    assert_eq!(
        sending.chunk_read(None),
        Err(QuickTransferError::ReadingFile { file_path: "short.bin".to_string() })
    );
    assert_eq!(sending.chunk_read(Some(60)), Ok(ChunkStep::Send { length: 60, flush: false }));
    assert_eq!(
        sending.chunk_read(Some(0)),
        Err(QuickTransferError::ReadingFile { file_path: "short.bin".to_string() })
    );
    assert_eq!(sending.remaining(), 40);
}

#[test]
fn sending_an_empty_file_is_done_at_once() {
    let mut sending = FileSending::new(0, "empty".to_string());
    assert_eq!(sending.next_read(), 0);
    assert_eq!(sending.chunk_read(Some(0)), Ok(ChunkStep::Done));
}

#[test]
fn supervisor_counts_connections() {
    let mut state = ShutdownState::new();
    assert_eq!(state.live_connection_count(), 0);
    assert!(!state.stop_accepting());
    assert!(!state.shutdown_initiated_locally());
    assert!(!state.terminated());
    assert_eq!(state.handle(SupervisorEvent::Connected), SupervisorAction::Serve);
    assert_eq!(state.handle(SupervisorEvent::Connected), SupervisorAction::Serve);
    assert_eq!(state.live_connection_count(), 2);
    assert_eq!(
        state.handle(SupervisorEvent::Disconnected { closed_from_server: false }),
        SupervisorAction::Continue
    );
    assert_eq!(state.live_connection_count(), 1);
    assert!(!state.terminated());
}

#[test]
fn last_client_leaving_stops_the_listener_with_an_announcement() {
    let mut state = ShutdownState::new();
    state.handle(SupervisorEvent::Connected);
    assert_eq!(
        state.handle(SupervisorEvent::Disconnected { closed_from_server: false }),
        SupervisorAction::Stop { announce: true }
    );
    assert!(state.terminated());
    assert!(!state.shutdown_initiated_locally());
    assert_eq!(state.handle(SupervisorEvent::Connected), SupervisorAction::Refuse);
    assert_eq!(state.live_connection_count(), 0);
}

#[test]
fn shutdown_without_clients_stops_at_once() {
    let mut state = ShutdownState::new();
    assert_eq!(
        state.handle(SupervisorEvent::ShutdownRequested),
        SupervisorAction::Stop { announce: false }
    );
    assert!(state.terminated());
    assert!(state.shutdown_initiated_locally());
}

#[test]
fn shutdown_with_clients_stops_exactly_when_the_count_is_zero() {
    for pattern in 0..8u32 {
        let mut state = ShutdownState::new();
        for _ in 0..3 {
            assert_eq!(state.handle(SupervisorEvent::Connected), SupervisorAction::Serve);
        }
        assert_eq!(state.handle(SupervisorEvent::ShutdownRequested), SupervisorAction::Broadcast);
        assert!(state.stop_accepting());
        assert!(state.shutdown_initiated_locally());
        assert!(!state.terminated());
        assert_eq!(state.handle(SupervisorEvent::Connected), SupervisorAction::Refuse);
        for i in 0..3 {
            assert!(!state.terminated());
            let closed_from_server = pattern & (1 << i) != 0;
            let action = state.handle(SupervisorEvent::Disconnected { closed_from_server });
            if i < 2 {
                assert_eq!(action, SupervisorAction::Continue);
                assert_eq!(state.live_connection_count(), 2 - i);
            } else {
                assert_eq!(action, SupervisorAction::Stop { announce: !closed_from_server });
            }
        }
        assert!(state.terminated());
        assert_eq!(state.live_connection_count(), 0);
    }
}

#[test]
fn repeated_shutdown_request_broadcasts_again() {
    let mut state = ShutdownState::new();
    state.handle(SupervisorEvent::Connected);
    assert_eq!(state.handle(SupervisorEvent::ShutdownRequested), SupervisorAction::Broadcast);
    assert_eq!(state.handle(SupervisorEvent::ShutdownRequested), SupervisorAction::Broadcast);
    assert_eq!(
        state.handle(SupervisorEvent::Disconnected { closed_from_server: true }),
        SupervisorAction::Stop { announce: false }
    );
}

#[test]
fn check_clients_number_and_stop_stops_only_at_zero() {
    let mut state = ShutdownState::new();
    state.handle(SupervisorEvent::Connected);
    assert_eq!(state.check_clients_number_and_stop(false), SupervisorAction::Continue);
    assert!(!state.stop_accepting());
    let mut state = ShutdownState::new();
    assert_eq!(
        state.check_clients_number_and_stop(false),
        SupervisorAction::Stop { announce: true }
    );
    assert!(state.stop_accepting());
    let mut state = ShutdownState::new();
    assert_eq!(
        state.check_clients_number_and_stop(true),
        SupervisorAction::Stop { announce: false }
    );
}
