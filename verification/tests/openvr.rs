use index_camera_passthrough::openvr::{
    contains_nul, hmd_search_next, hmd_search_start, nul_terminated_pieces,
    overlay_names_valid, separate_extension_names, HmdSearch, MAX_TRACKED_DEVICES,
};

fn names(buf: &[u8]) -> Vec<Vec<u8>> {
    nul_terminated_pieces(buf)
        .into_iter()
        .map(|(s, e)| buf[s..e].to_vec())
        .collect()
}

#[test]
fn extension_list_is_split_into_c_strings() {
    let mut buf = b"VK_KHR_external_memory VK_KHR_dedicated_allocation\0".to_vec();
    separate_extension_names(&mut buf);
    assert_eq!(buf, b"VK_KHR_external_memory\0VK_KHR_dedicated_allocation\0".to_vec());
    let pieces = names(&buf);
    assert_eq!(
        pieces,
        vec![
            b"VK_KHR_external_memory\0".to_vec(),
            b"VK_KHR_dedicated_allocation\0".to_vec()
        ]
    );
    for piece in &pieces {
        // A C string: ends with its only NUL byte.
        assert_eq!(piece.iter().position(|&b| b == 0), Some(piece.len() - 1));
    }
}

#[test]
fn empty_extension_list_has_no_names() {
    let mut buf = Vec::new();
    separate_extension_names(&mut buf);
    assert!(buf.is_empty());
    assert!(nul_terminated_pieces(&buf).is_empty());
}

#[test]
fn extension_list_with_a_single_nul() {
    assert_eq!(nul_terminated_pieces(b"\0"), vec![(0, 1)]);
}

#[test]
fn consecutive_separators_give_empty_names() {
    let mut buf = b"A  B\0".to_vec();
    separate_extension_names(&mut buf);
    assert_eq!(nul_terminated_pieces(&buf), vec![(0, 2), (2, 3), (3, 5)]);
}

#[test]
fn unterminated_tail_is_a_last_piece() {
    assert_eq!(nul_terminated_pieces(b"ab\0cd"), vec![(0, 3), (3, 5)]);
    assert_eq!(nul_terminated_pieces(b"abc"), vec![(0, 3)]);
}

fn run_search(hmd: Option<u32>) -> HmdSearch {
    let mut state = hmd_search_start();
    let mut queries = 0;
    while let HmdSearch::Query(device) = state {
        queries += 1;
        state = hmd_search_next(device, Some(device) == hmd);
    }
    assert!(queries <= MAX_TRACKED_DEVICES);
    state
}

#[test]
fn hmd_search_starts_with_the_first_device() {
    assert_eq!(hmd_search_start(), HmdSearch::Query(0));
    assert_eq!(hmd_search_next(0, false), HmdSearch::Query(1));
    assert_eq!(hmd_search_next(5, true), HmdSearch::Found(5));
    assert_eq!(hmd_search_next(63, false), HmdSearch::NotFound);
}

#[test]
fn hmd_search_finds_the_hmd() {
    assert_eq!(run_search(Some(0)), HmdSearch::Found(0));
    assert_eq!(run_search(Some(17)), HmdSearch::Found(17));
    assert_eq!(run_search(Some(63)), HmdSearch::Found(63));
    assert_eq!(run_search(None), HmdSearch::NotFound);
}

#[test]
fn hmd_search_finds_the_first_of_several() {
    let mut state = hmd_search_start();
    while let HmdSearch::Query(device) = state {
        state = hmd_search_next(device, device == 3 || device == 9);
    }
    assert_eq!(state, HmdSearch::Found(3));
}

#[test]
fn overlay_names_must_hold_a_nul() {
    assert!(overlay_names_valid("index-camera-passthrough\0", "Index Camera\0"));
    assert!(!overlay_names_valid("index-camera-passthrough", "Index Camera\0"));
    assert!(!overlay_names_valid("index-camera-passthrough\0", "Index Camera"));
    assert!(!overlay_names_valid("", ""));
    // Any NUL character counts, not only a final one.
    assert!(overlay_names_valid("a\0b", "\0"));
}

#[test]
fn nul_is_found_among_unicode_characters() {
    assert!(contains_nul("kamera é\0"));
    assert!(!contains_nul("kamera é"));
}
