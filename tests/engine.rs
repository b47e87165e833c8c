use yes_engine::config::{Backing, EngineConfig, SpliceFlags, TransferModel, HUGE_PAGE_SIZE};
use yes_engine::engine::{Action, Engine, Phase};

fn lines(k: usize) -> Vec<u8> {
    b"y\n".repeat(k)
}

#[test]
fn config_rejects_odd_zero_and_partial_huge_page_sizes() {
    assert_eq!(EngineConfig::new(1023, Backing::Ordinary, TransferModel::Copying), None);
    assert_eq!(EngineConfig::new(0, Backing::Ordinary, TransferModel::Copying), None);
    assert_eq!(EngineConfig::new(1048576, Backing::HugePage, TransferModel::Copying), None);
    let c = EngineConfig::new(4194304, Backing::HugePage, TransferModel::Copying).unwrap();
    assert_eq!(c.size, 4194304);
    assert!(c.is_valid());
}

#[test]
fn presets_are_valid() {
    let p = EngineConfig::plain_write();
    assert_eq!(p.size, 1024);
    assert!(p.is_valid());
    assert_eq!(p.pipe_capacity(), None);
    assert_eq!(p.alignment(), 1);
    assert!(!p.wants_huge_pages());
    let s = EngineConfig::splice();
    assert_eq!(s.size, 1048576);
    assert_eq!(s.pipe_capacity(), Some(1048576));
    let h = EngineConfig::huge_page_splice();
    assert_eq!(h.size, HUGE_PAGE_SIZE);
    assert_eq!(h.alignment(), HUGE_PAGE_SIZE);
    assert!(h.wants_huge_pages());
    assert_eq!(h.size % HUGE_PAGE_SIZE, 0);
}

#[test]
fn splice_flags_are_an_explicit_choice() {
    assert!(!SpliceFlags::Plain.gift() && !SpliceFlags::Plain.non_blocking());
    assert!(SpliceFlags::Gift.gift() && !SpliceFlags::Gift.non_blocking());
    assert!(!SpliceFlags::NonBlocking.gift() && SpliceFlags::NonBlocking.non_blocking());
    assert!(SpliceFlags::GiftNonBlocking.gift() && SpliceFlags::GiftNonBlocking.non_blocking());
}

#[test]
fn copying_engine_writes_until_an_error() {
    let mut e = Engine::new(EngineConfig::plain_write());
    assert_eq!(e.phase(), Phase::Transfer);
    assert_eq!(e.next_action(), Action::Write { len: 1024 });
    assert!(e.on_transferred(1024));
    assert!(e.on_transferred(512));
    assert_eq!(e.next_action(), Action::Write { len: 1024 });
    assert!(!e.on_transferred(-32));
    assert_eq!(e.phase(), Phase::Done);
    assert_eq!(e.next_action(), Action::Exit { code: 0 });
}

#[test]
fn no_transfer_after_the_reader_closes() {
    let mut e = Engine::new(EngineConfig::plain_write());
    assert!(e.on_transferred(6));
    assert!(!e.on_transferred(-1));
    assert!(!e.on_transferred(1024));
    assert!(!e.on_transferred(2));
    assert_eq!(e.next_action(), Action::Exit { code: 0 });
}

#[test]
fn transfer_larger_than_the_buffer_ends_the_engine() {
    let mut e = Engine::new(EngineConfig::plain_write());
    assert!(!e.on_transferred(1026));
    assert_eq!(e.phase(), Phase::Done);
}

#[test]
fn splice_engine_tunes_first_and_ignores_a_refusal() {
    let mut granted = Engine::new(EngineConfig::splice());
    let mut refused = Engine::new(EngineConfig::splice());
    assert_eq!(granted.next_action(), Action::TunePipe { capacity: 1048576 });
    granted.on_tuned(1048576);
    refused.on_tuned(-1);
    assert_eq!(granted.phase(), Phase::Transfer);
    assert_eq!(refused.phase(), Phase::Transfer);
    let expected = Action::Splice { len: 1048576, flags: SpliceFlags::Plain };
    assert_eq!(granted.next_action(), expected);
    assert_eq!(refused.next_action(), expected);
    assert_eq!(granted.bytes(), refused.bytes());
}

#[test]
fn buffer_is_unchanged_by_transfers() {
    let mut e = Engine::new(EngineConfig::huge_page_splice());
    e.on_tuned(0);
    let before = e.bytes().to_vec();
    for _ in 0..5 {
        assert!(e.on_transferred(65536));
    }
    assert_eq!(e.bytes(), &before[..]);
    assert_eq!(&e.bytes()[..6], b"y\ny\ny\n");
}

#[test]
fn stream_of_whole_line_transfers_reads_as_lines() {
    let mut e = Engine::new(EngineConfig::plain_write());
    let mut stream: Vec<u8> = Vec::new();
    for n in [1024usize, 6, 0, 1000] {
        assert!(e.on_transferred(n as isize));
        stream.extend_from_slice(&e.bytes()[..n]);
    }
    for k in 0..=stream.len() / 2 {
        assert_eq!(&stream[..2 * k], &lines(k)[..]);
    }
}
