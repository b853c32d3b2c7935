use music_tool::frames::{istft_frame_starts, mirrored_bins, num_bins, num_frames,
    stft_frame_starts};

#[test]
fn bins_keep_half_spectrum() {
    assert_eq!(num_bins(2048), 1025);
    assert_eq!(num_bins(64), 33);
    assert_eq!(num_bins(2), 2);
}

#[test]
fn frames_for_one_second_source() {
    // One second at 44100 Hz with the default window and hop.
    assert_eq!(num_frames(44100, 2048, 512), 83);
    assert_eq!(num_bins(2048), 1025);
}

#[test]
fn short_source_keeps_one_zero_frame() {
    // A source shorter than the window still allocates one frame, but no
    // window fits, so no frame holds data.
    assert_eq!(num_frames(10, 2048, 512), 1);
    assert_eq!(stft_frame_starts(10, 2048, 512), Vec::<usize>::new());
}

#[test]
fn forward_starts_step_by_hop() {
    assert_eq!(stft_frame_starts(10, 4, 2), vec![0, 2, 4, 6]);
    // An exact fit: the last window ends on the last sample.
    assert_eq!(stft_frame_starts(8, 4, 2), vec![0, 2, 4]);
    assert_eq!(stft_frame_starts(4, 4, 2), vec![0]);
}

#[test]
fn inverse_places_fitting_prefix() {
    assert_eq!(istft_frame_starts(4, 4, 2, 10), vec![0, 2, 4, 6]);
    // More frames than fit: the tail is not placed.
    assert_eq!(istft_frame_starts(10, 4, 2, 10), vec![0, 2, 4, 6]);
    // Fewer frames than would fit: all are placed.
    assert_eq!(istft_frame_starts(2, 4, 2, 10), vec![0, 2]);
    // An output shorter than one window takes no frame at all.
    assert_eq!(istft_frame_starts(3, 8, 2, 4), Vec::<usize>::new());
}

#[test]
fn inverse_keeps_every_forward_frame() {
    // With the output length set to the source length, the synthesis pass
    // places exactly the frames the analysis pass produced.
    let forward = stft_frame_starts(44100, 2048, 512);
    let inverse = istft_frame_starts(forward.len(), 2048, 512, 44100);
    assert_eq!(forward.len(), 83);
    assert_eq!(forward, inverse);
}

#[test]
fn windows_overlap_without_gaps() {
    // With a hop of half the window, every sample up to the end of the
    // last full frame lies inside at least one window.
    let window = 8;
    let hop = 4;
    let starts = stft_frame_starts(20, window, hop);
    assert_eq!(starts, vec![0, 4, 8, 12]);
    let span = starts.last().unwrap() + window;
    assert_eq!(span, 20);
    for i in 0..span {
        assert!(starts.iter().any(|&s| s <= i && i < s + window));
    }
}

#[test]
fn mirror_layout_fills_even_window() {
    assert_eq!(mirrored_bins(8), vec![3, 2, 1]);
    assert_eq!(num_bins(8) + mirrored_bins(8).len(), 8);
    assert_eq!(mirrored_bins(2), Vec::<usize>::new());
    assert_eq!(num_bins(2048) + mirrored_bins(2048).len(), 2048);
}
