use music_tool::plan::{clamp_components, mix_plan};

#[test]
fn three_components_within_rank() {
    // A one-second spectrogram of 1025 bins by 83 frames has rank at most
    // 83; a request for three components is kept as is.
    assert_eq!(clamp_components(3, 83), 3);
}

#[test]
fn request_beyond_rank_is_clamped() {
    assert_eq!(clamp_components(7, 2), 2);
    assert_eq!(clamp_components(5, 0), 0);
    assert_eq!(clamp_components(0, 9), 0);
}

#[test]
fn mix_pairs_up_to_shorter_list() {
    assert_eq!(mix_plan(&vec![5, 5, 5], 2), (5, 2));
    assert_eq!(mix_plan(&vec![4, 9], 5), (4, 2));
    assert_eq!(mix_plan(&vec![7, 7], 2), (7, 2));
}

#[test]
fn mix_of_nothing_is_empty() {
    assert_eq!(mix_plan(&Vec::new(), 3), (0, 0));
}
