use cvk::AnyRange;
use cvk::Buffer;
use cvk::BufferCopyRange;
use cvk::BufferUsage;
use cvk::CommandBuffer;
use cvk::Error;
use cvk::MemoryUsage;
use cvk::Span;
use cvk::Violation;

#[test]
fn usage_flags_compose() {
    let u = BufferUsage::transfer_src().or(BufferUsage::transfer_dst());
    assert!(u.contains(BufferUsage::transfer_src()));
    assert!(u.contains(BufferUsage::transfer_dst()));
    assert!(!u.contains(BufferUsage::storage()));
    assert!(!u.is_empty());
    assert!(BufferUsage::empty().is_empty());
    let all = BufferUsage::uniform()
        .or(BufferUsage::storage())
        .or(BufferUsage::index())
        .or(BufferUsage::vertex());
    assert_eq!(all.bits, 0x10 | 0x20 | 0x40 | 0x80);
    assert!(all.contains(BufferUsage::index()));
    assert!(!all.contains(BufferUsage::transfer_src()));
}

#[test]
fn host_mapped_build_reads_back_verbatim() {
    // Initial data plus a host-visible mapping: readable back immediately,
    // no copy command involved.
    let buf = Buffer::<i32>::builder()
        .staging_buffer()
        .data(vec![0, 1, 2, 3, 4])
        .build()
        .unwrap();
    assert_eq!(buf.count(), 5);
    assert!(buf.is_host_mapped());
    assert_eq!(buf.mapped().unwrap(), vec![0, 1, 2, 3, 4]);
}

#[test]
fn device_build_stages_data_through_copy() {
    // Initial data, no host mapping, transfer-destination usage: the
    // builder stages the data and issues a waited-on device copy; copying
    // the buffer back to a host-visible staging buffer shows the data.
    let device = Buffer::<i32>::builder()
        .data(vec![7, 8, 9])
        .usage(BufferUsage::transfer_src().or(BufferUsage::transfer_dst()))
        .memory_usage(MemoryUsage::PreferDevice)
        .build()
        .unwrap();
    assert!(!device.is_host_mapped());
    assert!(device.mapped().is_none());
    let mut back = Buffer::<i32>::builder()
        .staging_buffer()
        .count(3)
        .build()
        .unwrap();
    device.copy(&mut back);
    assert_eq!(back.mapped().unwrap(), vec![7, 8, 9]);
}

#[test]
fn staging_roundtrip_through_device_buffer() {
    // Five elements staged, copied to a device-preferred buffer inside
    // run_single_use, copied back to a second staging buffer and waited
    // on: the original data comes back exactly.
    let staging = Buffer::<i32>::builder()
        .staging_buffer()
        .data(vec![0, 1, 2, 3, 4])
        .build()
        .unwrap();
    let device = Buffer::<i32>::builder()
        .count(5)
        .usage(BufferUsage::transfer_src().or(BufferUsage::transfer_dst()))
        .memory_usage(MemoryUsage::PreferDevice)
        .build()
        .unwrap();
    let device = CommandBuffer::run_single_use(|rec| {
        let src_region = staging.region(AnyRange::RangeFull);
        let dst_region = device.region(AnyRange::RangeFull);
        rec.copy_buffer(&staging, src_region, device, dst_region)
    });
    let mut back = Buffer::<i32>::builder()
        .staging_buffer()
        .count(5)
        .build()
        .unwrap();
    device.copy(&mut back);
    assert_eq!(back.mapped().unwrap(), vec![0, 1, 2, 3, 4]);
}

#[test]
fn recorded_copy_takes_effect_at_wait() {
    // A staged copy lands in the destination exactly when the submitted
    // pass is waited on; the wait hands the destination back.
    let src = Buffer::<i32>::builder()
        .staging_buffer()
        .data(vec![4, 5, 6])
        .build()
        .unwrap();
    let dst = Buffer::<i32>::builder()
        .staging_buffer()
        .data(vec![0, 0, 0])
        .build()
        .unwrap();
    let cb = CommandBuffer::new(cvk::CommandBufferUses::Single);
    let rec = cb.start_recording().unwrap();
    let src_region = src.region(AnyRange::RangeFull);
    let dst_region = dst.region(AnyRange::RangeFull);
    let pass = rec.copy_buffer(&src, src_region, dst, dst_region);
    let submitted = pass.submit();
    let (cb, dst) = submitted.wait();
    assert!(!cb.is_usable());
    assert_eq!(dst.mapped().unwrap(), vec![4, 5, 6]);
}

#[test]
fn discarded_recording_leaves_destination_unchanged() {
    // Recorded-but-unsubmitted work never takes effect: discarding the
    // pass returns the destination untouched.
    let src = Buffer::<i32>::builder()
        .staging_buffer()
        .data(vec![4, 5, 6])
        .build()
        .unwrap();
    let dst = Buffer::<i32>::builder()
        .staging_buffer()
        .data(vec![7, 7, 7])
        .build()
        .unwrap();
    let cb = CommandBuffer::new(cvk::CommandBufferUses::Multi);
    let rec = cb.start_recording().unwrap();
    let src_region = src.region(AnyRange::RangeFull);
    let dst_region = dst.region(AnyRange::RangeFull);
    let pass = rec.copy_buffer(&src, src_region, dst, dst_region);
    let (cb, dst) = pass.discard();
    assert!(cb.is_usable());
    assert_eq!(dst.mapped().unwrap(), vec![7, 7, 7]);
}

#[test]
fn appended_copies_apply_in_order() {
    // Commands may be appended to an open pass; they land in recording
    // order at the wait.
    let src = Buffer::<u8>::builder()
        .staging_buffer()
        .data(vec![1, 2, 3, 4])
        .build()
        .unwrap();
    let dst = Buffer::<u8>::builder()
        .staging_buffer()
        .data(vec![0, 0, 0, 0])
        .build()
        .unwrap();
    let cb = CommandBuffer::new(cvk::CommandBufferUses::Single);
    let rec = cb.start_recording().unwrap();
    let dst_full = dst.region(AnyRange::RangeFull);
    let first_src = src.region(AnyRange::Range { start: 0, end: 2 });
    let first_dst = dst_full.region(AnyRange::Range { start: 2, end: 4 });
    let mut pass = rec.copy_buffer(&src, first_src, dst, first_dst);
    pass.copy_buffer(
        src.region(AnyRange::Value(3)),
        dst_full.region(AnyRange::Value(0)),
    );
    let (_cb, dst) = pass.submit().wait();
    assert_eq!(dst.mapped().unwrap(), vec![4, 0, 1, 2]);
}

#[test]
fn empty_usage_is_rejected() {
    let r = Buffer::<u8>::builder().count(4).build();
    assert_eq!(r.unwrap_err(), Error::Contract(Violation::EmptyBufferUsage));
}

#[test]
fn data_without_mapping_needs_transfer_dst() {
    let r = Buffer::<u8>::builder()
        .data(vec![1, 2])
        .usage(BufferUsage::storage())
        .build();
    assert_eq!(r.unwrap_err(), Error::Contract(Violation::MissingTransferDst));
}

#[test]
fn data_longer_than_count_raises_count() {
    let buf = Buffer::<u8>::builder()
        .count(2)
        .staging_buffer()
        .data(vec![5, 6, 7, 8])
        .build()
        .unwrap();
    assert_eq!(buf.count(), 4);
    assert_eq!(buf.mapped().unwrap(), vec![5, 6, 7, 8]);
}

#[test]
fn buffer_size_in_bytes() {
    let buf = Buffer::<i32>::builder()
        .staging_buffer()
        .count(5)
        .build()
        .unwrap();
    assert_eq!(buf.size(), 20);
    assert_eq!(buf.span(), Span::new(0, 5));
}

#[test]
fn region_derivation_narrows_against_immediate_parent() {
    let buf = Buffer::<i32>::builder()
        .staging_buffer()
        .data(vec![0, 1, 2, 3, 4])
        .build()
        .unwrap();
    let tail = buf.region(AnyRange::RangeFrom { start: 1 });
    assert_eq!(tail.span(), Span::new(1, 4));
    let narrowed = tail.region(AnyRange::RangeTo { end: 3 });
    assert_eq!(narrowed.span(), Span::new(1, 3));
    assert_eq!(buf.mapped_region(narrowed).unwrap(), vec![1, 2, 3]);
}

#[test]
fn mapped_region_of_invalid_span_is_empty() {
    let buf = Buffer::<i32>::builder()
        .staging_buffer()
        .data(vec![0, 1, 2])
        .build()
        .unwrap();
    let bad = buf.region(AnyRange::Range { start: 4, end: 6 });
    assert_eq!(bad.span(), Span::new(0, 0));
    assert_eq!(buf.mapped_region(bad).unwrap(), Vec::<i32>::new());
}

#[test]
fn copy_clamps_to_smaller_buffer() {
    let src = Buffer::<u8>::builder()
        .staging_buffer()
        .data(vec![1, 2, 3, 4, 5])
        .build()
        .unwrap();
    let mut dst = Buffer::<u8>::builder()
        .staging_buffer()
        .count(3)
        .data(vec![9, 9, 9])
        .build()
        .unwrap();
    src.copy(&mut dst);
    assert_eq!(dst.mapped().unwrap(), vec![1, 2, 3]);
}

#[test]
fn copy_of_invalid_region_is_a_no_op() {
    let src = Buffer::<u8>::builder()
        .staging_buffer()
        .data(vec![1, 2, 3])
        .build()
        .unwrap();
    let dst = Buffer::<u8>::builder()
        .staging_buffer()
        .data(vec![7, 7, 7])
        .build()
        .unwrap();
    let cb = CommandBuffer::new(cvk::CommandBufferUses::Single);
    let rec = cb.start_recording().unwrap();
    let bad_src = src.region(AnyRange::Range { start: 4, end: 9 });
    let dst_region = dst.region(AnyRange::RangeFull);
    let pass = rec.copy_buffer(&src, bad_src, dst, dst_region);
    let (_cb, dst) = pass.submit().wait();
    assert_eq!(dst.mapped().unwrap(), vec![7, 7, 7]);
}

#[test]
fn copy_region_moves_sub_span() {
    let src = Buffer::<i32>::builder()
        .staging_buffer()
        .data(vec![1, 2, 3, 4, 5])
        .build()
        .unwrap();
    let mut dst = Buffer::<i32>::builder()
        .staging_buffer()
        .data(vec![0, 0, 0, 0, 0])
        .build()
        .unwrap();
    let s = src.region(AnyRange::Range { start: 1, end: 3 });
    let d = dst.region(AnyRange::RangeFrom { start: 3 });
    src.copy_region(s, &mut dst, d);
    assert_eq!(dst.mapped().unwrap(), vec![0, 0, 0, 2, 3]);
}

#[test]
fn copy_regions_applies_each_pair() {
    let src = Buffer::<i32>::builder()
        .staging_buffer()
        .data(vec![10, 20, 30, 40, 50])
        .build()
        .unwrap();
    let mut dst = Buffer::<i32>::builder()
        .staging_buffer()
        .data(vec![0, 0, 0, 0, 0])
        .build()
        .unwrap();
    let ranges = vec![
        BufferCopyRange::new(
            AnyRange::Range { start: 0, end: 2 },
            AnyRange::Range { start: 3, end: 5 },
        ),
        BufferCopyRange::new(AnyRange::Value(4), AnyRange::Value(0)),
    ];
    src.copy_regions(&mut dst, &ranges);
    assert_eq!(dst.mapped().unwrap(), vec![50, 0, 0, 10, 20]);
}

#[test]
fn copy_range_resolves_both_sides() {
    let r = BufferCopyRange::new(
        AnyRange::Range { start: 1, end: 3 },
        AnyRange::RangeFrom { start: 2 },
    );
    let (s, d) = r.resolve(Span::new(0, 5), Span::new(0, 4));
    assert_eq!(s, Span::new(1, 2));
    assert_eq!(d, Span::new(2, 2));
}

#[test]
fn write_mapped_updates_contents() {
    let mut buf = Buffer::<u8>::builder()
        .staging_buffer()
        .data(vec![0, 0, 0, 0])
        .build()
        .unwrap();
    assert!(buf.write_mapped(1, &vec![8, 9]));
    assert_eq!(buf.mapped().unwrap(), vec![0, 8, 9, 0]);
}

#[test]
fn write_mapped_rejects_out_of_bounds_and_unmapped() {
    let mut buf = Buffer::<u8>::builder()
        .staging_buffer()
        .count(3)
        .build()
        .unwrap();
    assert!(!buf.write_mapped(2, &vec![1, 2]));
    let mut unmapped = Buffer::<u8>::builder()
        .count(3)
        .usage(BufferUsage::transfer_dst())
        .build()
        .unwrap();
    assert!(!unmapped.write_mapped(0, &vec![1]));
}
