use zstd_ffi::codec::capacity_hint;
use zstd_ffi::negotiate::{arguments_valid, copy_result, deliver, fits_capacity};
use zstd_ffi::status::Status;
use zstd_ffi::{zstd_compress, zstd_decompress};

fn compress_all(input: &[u8], level: i32) -> Vec<u8> {
    let mut needed: usize = 0;
    let mut probe: [u8; 0] = [];
    assert_eq!(zstd_compress(Some(input), level, &mut probe, Some(&mut needed)), 2);
    let mut out = vec![0u8; needed];
    let mut used: usize = 0;
    assert_eq!(zstd_compress(Some(input), level, &mut out, Some(&mut used)), 0);
    assert_eq!(used, needed);
    out
}

fn decompress_all(input: &[u8]) -> Vec<u8> {
    let mut needed: usize = 0;
    let mut probe: [u8; 0] = [];
    assert_eq!(zstd_decompress(Some(input), &mut probe, Some(&mut needed)), 2);
    let mut out = vec![0u8; needed];
    let mut used: usize = 0;
    assert_eq!(zstd_decompress(Some(input), &mut out, Some(&mut used)), 0);
    assert_eq!(used, needed);
    out
}

#[test]
fn repeated_bytes_compress_and_come_back() {
    let input = vec![0x41u8; 10_000];
    let mut out = vec![0u8; 10_000];
    let mut len: usize = 0;
    assert_eq!(zstd_compress(Some(&input), 3, &mut out, Some(&mut len)), 0);
    assert!(len < 1_000);
    let compressed = out[..len].to_vec();

    let mut back = vec![0u8; 10_000];
    let mut back_len: usize = 0;
    assert_eq!(zstd_decompress(Some(&compressed), &mut back, Some(&mut back_len)), 0);
    assert_eq!(back_len, 10_000);
    assert_eq!(back, input);
}

#[test]
fn round_trip_over_inputs_and_levels() {
    let inputs: Vec<Vec<u8>> = vec![
        vec![7u8],
        b"hello, hello, hello boundary".to_vec(),
        (0..5000u32).map(|i| (i * 31 % 251) as u8).collect(),
        vec![0u8; 70_000],
    ];
    for input in &inputs {
        for level in [1, 3, 9, 19] {
            let compressed = compress_all(input, level);
            assert_eq!(&decompress_all(&compressed), input);
        }
    }
}

#[test]
fn default_level_zero_round_trips() {
    let input = b"level zero means the codec default".to_vec();
    let compressed = compress_all(&input, 0);
    assert_eq!(decompress_all(&compressed), input);
}

#[test]
fn size_query_then_exact_buffer() {
    let input: Vec<u8> = (0..3000u32).map(|i| (i % 17) as u8).collect();
    let mut needed: usize = 0;
    let mut probe: [u8; 0] = [];
    assert_eq!(zstd_compress(Some(&input), 5, &mut probe, Some(&mut needed)), 2);
    assert!(needed > 0);
    let mut out = vec![0u8; needed];
    let mut used: usize = 0;
    assert_eq!(zstd_compress(Some(&input), 5, &mut out, Some(&mut used)), 0);
    assert_eq!(used, needed);
    assert_eq!(zstd::bulk::decompress(&out, input.len()).unwrap(), input);
}

#[test]
fn size_query_is_the_same_on_every_call() {
    let input = vec![9u8; 4096];
    let mut first: usize = 0;
    let mut second: usize = 0;
    let mut probe: [u8; 0] = [];
    assert_eq!(zstd_compress(Some(&input), 3, &mut probe, Some(&mut first)), 2);
    assert_eq!(zstd_compress(Some(&input), 3, &mut probe, Some(&mut second)), 2);
    assert_eq!(first, second);
}

#[test]
fn too_small_buffer_is_left_untouched() {
    let input: Vec<u8> = (0..2000u32).map(|i| (i * 7 % 256) as u8).collect();
    let mut needed: usize = 0;
    let mut probe: [u8; 0] = [];
    assert_eq!(zstd_compress(Some(&input), 3, &mut probe, Some(&mut needed)), 2);
    let mut out = vec![0xEEu8; needed - 1];
    let mut len: usize = 0;
    assert_eq!(zstd_compress(Some(&input), 3, &mut out, Some(&mut len)), 2);
    assert_eq!(len, needed);
    assert!(out.iter().all(|b| *b == 0xEE));
}

#[test]
fn larger_buffer_keeps_its_tail() {
    let input = vec![0x41u8; 10_000];
    let mut out = vec![0xEEu8; 4096];
    let mut len: usize = 0;
    assert_eq!(zstd_compress(Some(&input), 3, &mut out, Some(&mut len)), 0);
    assert!(len < 4096);
    assert!(out[len..].iter().all(|b| *b == 0xEE));
    assert_eq!(zstd::bulk::decompress(&out[..len], 10_000).unwrap(), input);
}

#[test]
fn absent_input_is_rejected() {
    let mut out = vec![0u8; 16];
    let mut len: usize = 77;
    assert_eq!(zstd_compress(None, 3, &mut out, Some(&mut len)), 1);
    assert_eq!(len, 77);
    assert_eq!(zstd_decompress(None, &mut out, Some(&mut len)), 1);
    assert_eq!(len, 77);
    assert!(out.iter().all(|b| *b == 0));
}

#[test]
fn empty_input_is_rejected() {
    let empty: [u8; 0] = [];
    let mut out = vec![0u8; 16];
    let mut len: usize = 77;
    assert_eq!(zstd_compress(Some(&empty), 3, &mut out, Some(&mut len)), 1);
    assert_eq!(len, 77);
    assert_eq!(zstd_decompress(Some(&empty), &mut out, Some(&mut len)), 1);
    assert_eq!(len, 77);
}

#[test]
fn absent_length_slot_is_rejected() {
    let input = vec![1u8, 2, 3];
    let mut out = vec![0u8; 64];
    assert_eq!(zstd_compress(Some(&input), 3, &mut out, None), 1);
    assert_eq!(zstd_decompress(Some(&input), &mut out, None), 1);
    assert!(out.iter().all(|b| *b == 0));
}

#[test]
fn absent_output_region_only_reports_the_size() {
    let input = vec![5u8; 100];
    let mut none: [u8; 0] = [];
    let mut len: usize = 0;
    assert_eq!(zstd_compress(Some(&input), 3, &mut none, Some(&mut len)), 2);
    assert!(len > 0);
}

#[test]
fn garbage_is_a_codec_error() {
    let garbage = b"this is not a zstd frame at all".to_vec();
    let mut out = vec![0u8; 1024];
    let mut len: usize = 77;
    assert_eq!(zstd_decompress(Some(&garbage), &mut out, Some(&mut len)), 3);
    assert_eq!(len, 77);
    assert!(out.iter().all(|b| *b == 0));
}

#[test]
fn truncated_frame_is_a_codec_error() {
    let compressed = compress_all(&vec![3u8; 5000], 3);
    let cut = &compressed[..compressed.len() - 2];
    let mut out = vec![0u8; 5000];
    let mut len: usize = 0;
    assert_eq!(zstd_decompress(Some(cut), &mut out, Some(&mut len)), 3);
}

#[test]
fn high_ratio_content_is_decoded_by_its_declared_size() {
    let input = vec![0u8; 100_000];
    let compressed = compress_all(&input, 3);
    assert!(100_000 > 3 * compressed.len());
    let mut out = vec![0u8; 100_000];
    let mut len: usize = 0;
    assert_eq!(zstd_decompress(Some(&compressed), &mut out, Some(&mut len)), 0);
    assert_eq!(len, 100_000);
    assert_eq!(out, input);
}

#[test]
fn empty_content_never_fits() {
    let frame = zstd::bulk::compress(&[], 3).unwrap();
    let mut probe: [u8; 0] = [];
    let mut len: usize = 99;
    assert_eq!(zstd_decompress(Some(&frame), &mut probe, Some(&mut len)), 2);
    assert_eq!(len, 0);
}

#[test]
fn status_codes() {
    assert_eq!(Status::Success.code(), 0);
    assert_eq!(Status::InvalidArguments.code(), 1);
    assert_eq!(Status::BufferTooSmall.code(), 2);
    assert_eq!(Status::CodecError.code(), 3);
    assert_eq!(Status::InternalFault.code(), 4);
}

#[test]
fn deliver_commits_when_it_fits() {
    let mut out = vec![0xAAu8; 5];
    let mut len: usize = 0;
    assert_eq!(deliver(Ok(vec![1, 2, 3]), &mut out, &mut len), Status::Success);
    assert_eq!(len, 3);
    assert_eq!(out, vec![1, 2, 3, 0xAA, 0xAA]);
}

#[test]
fn deliver_reports_when_it_does_not_fit() {
    let mut out = vec![0xAAu8; 2];
    let mut len: usize = 0;
    assert_eq!(deliver(Ok(vec![1, 2, 3]), &mut out, &mut len), Status::BufferTooSmall);
    assert_eq!(len, 3);
    assert_eq!(out, vec![0xAA, 0xAA]);
}

#[test]
fn deliver_passes_a_codec_failure_on() {
    let mut out = vec![0xAAu8; 8];
    let mut len: usize = 42;
    let failure = std::io::Error::new(std::io::ErrorKind::Other, "bad frame");
    assert_eq!(deliver(Err(failure), &mut out, &mut len), Status::CodecError);
    assert_eq!(len, 42);
    assert_eq!(out, vec![0xAAu8; 8]);
}

#[test]
fn fits_needs_room_and_a_nonempty_buffer() {
    assert!(!fits_capacity(0, 0));
    assert!(fits_capacity(0, 1));
    assert!(fits_capacity(5, 5));
    assert!(!fits_capacity(6, 5));
}

#[test]
fn copy_writes_the_front_only() {
    let mut out = vec![9u8; 6];
    copy_result(&[1, 2], &mut out);
    assert_eq!(out, vec![1, 2, 9, 9, 9, 9]);
}

#[test]
fn argument_validation() {
    let data = [1u8];
    let empty: [u8; 0] = [];
    assert!(arguments_valid(Some(&data), true));
    assert!(!arguments_valid(Some(&data), false));
    assert!(!arguments_valid(Some(&empty), true));
    assert!(!arguments_valid(None, true));
}

#[test]
fn capacity_hint_takes_the_larger_of_declared_and_fallback() {
    assert_eq!(capacity_hint(10, Some(5)), 30);
    assert_eq!(capacity_hint(10, Some(0)), 30);
    assert_eq!(capacity_hint(10, Some(1_000_000)), 1_000_000);
    assert_eq!(capacity_hint(10, None), 30);
    assert_eq!(capacity_hint(usize::MAX, None), isize::MAX as usize);
}

#[test]
fn capacity_hint_caps_what_a_header_declares() {
    assert_eq!(capacity_hint(10, Some(0x4000_0000)), 0x4000_0000);
    assert_eq!(capacity_hint(10, Some(0x4000_0001)), 30);
    assert_eq!(capacity_hint(10, Some(u64::MAX)), 30);
}

#[test]
fn overstated_declared_size_is_not_reserved() {
    // magic, descriptor with an 8-byte content size, 1 KiB window, size 2^60,
    // then one last raw block of three bytes
    let mut frame: Vec<u8> = vec![0x28, 0xB5, 0x2F, 0xFD, 0xC0, 0x00];
    frame.extend_from_slice(&(1u64 << 60).to_le_bytes());
    frame.extend_from_slice(&[0x19, 0x00, 0x00, b'a', b'b', b'c']);
    assert_eq!(zstd::zstd_safe::get_frame_content_size(&frame).unwrap(), Some(1u64 << 60));
    let mut out = vec![0u8; 16];
    let mut len: usize = 7;
    assert_eq!(zstd_decompress(Some(&frame), &mut out, Some(&mut len)), 3);
    assert_eq!(len, 7);
}

#[test]
fn skippable_first_frame_falls_back_to_three_times() {
    let content = b"after a skippable frame".to_vec();
    let real = zstd::bulk::compress(&content, 3).unwrap();
    let mut input: Vec<u8> = vec![0x50, 0x2A, 0x4D, 0x18, 4, 0, 0, 0, 0xDE, 0xAD, 0xBE, 0xEF];
    input.extend_from_slice(&real);
    assert_eq!(zstd::zstd_safe::get_frame_content_size(&input).unwrap(), Some(0));
    assert_eq!(decompress_all(&input), content);
}
