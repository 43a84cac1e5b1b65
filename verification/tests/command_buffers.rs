use cvk::AnyRange;
use cvk::Buffer;
use cvk::CommandBuffer;
use cvk::CommandBufferUses;
use cvk::Error;
use cvk::Fence;
use cvk::Semaphore;
use cvk::Violation;

#[test]
fn multi_use_buffer_recycles_indefinitely() {
    // Record, submit, wait, repeat: a Multi-use buffer never wears out.
    let mut cb = CommandBuffer::new(CommandBufferUses::Multi);
    for _ in 0..5 {
        assert!(cb.is_usable());
        let rec = cb.start_recording().unwrap();
        cb = rec.submit().wait();
    }
    assert!(cb.is_usable());
    assert_eq!(cb.uses(), CommandBufferUses::Multi);
}

#[test]
fn single_use_buffer_rejects_second_recording() {
    let cb = CommandBuffer::new(CommandBufferUses::Single);
    assert!(cb.is_usable());
    let rec = cb.start_recording().unwrap();
    let cb = rec.submit().wait();
    assert!(!cb.is_usable());
    let err = match cb.start_recording() {
        Ok(_) => panic!("consumed single-use buffer accepted a recording"),
        Err(e) => e,
    };
    assert_eq!(err, Error::Contract(Violation::CommandBufferConsumed));
}

#[test]
fn run_single_use_performs_recorded_work() {
    let src = Buffer::<u16>::builder()
        .staging_buffer()
        .data(vec![3, 1, 4])
        .build()
        .unwrap();
    let dst = Buffer::<u16>::builder()
        .staging_buffer()
        .count(3)
        .build()
        .unwrap();
    let dst = CommandBuffer::run_single_use(|rec| {
        let s = src.region(AnyRange::RangeFull);
        let d = dst.region(AnyRange::RangeFull);
        rec.copy_buffer(&src, s, dst, d)
    });
    assert_eq!(dst.mapped().unwrap(), vec![3, 1, 4]);
}

#[test]
fn fence_starts_in_requested_state() {
    assert!(Fence::new(true).is_signaled());
    assert!(!Fence::new(false).is_signaled());
}

#[test]
fn fence_wait_with_timeout_reports_timeout() {
    let f = Fence::new(false);
    assert_eq!(f.wait_with_timeout(1000), Err(Error::Timeout));
    let g = Fence::new(true);
    assert_eq!(g.wait_with_timeout(1000), Ok(()));
}

#[test]
fn fence_reset_clears_signal() {
    let mut f = Fence::new(true);
    f.reset();
    assert!(!f.is_signaled());
}

#[test]
fn semaphore_can_be_created() {
    let _s = Semaphore::new();
}

#[test]
fn error_descriptions_are_nonempty() {
    let errors = vec![
        Error::Contract(Violation::CommandBufferConsumed),
        Error::Contract(Violation::EmptyBufferUsage),
        Error::Contract(Violation::MissingTransferDst),
        Error::Contract(Violation::ContextAlreadyInitialized),
        Error::Contract(Violation::ContextUninitialized),
        Error::Timeout,
    ];
    for e in errors {
        assert!(!e.describe().is_empty());
    }
}
