use index_camera_passthrough::extensions::split_extension_list;

fn names(list: &[&str]) -> Vec<Vec<u8>> {
    list.iter().map(|n| n.as_bytes().to_vec()).collect()
}

#[test]
fn runtime_list_is_split_at_spaces() {
    let buf = b"VK_KHR_external_memory VK_KHR_dedicated_allocation\0";
    assert_eq!(
        split_extension_list(buf),
        names(&["VK_KHR_external_memory", "VK_KHR_dedicated_allocation"])
    );
}

#[test]
fn single_name() {
    assert_eq!(split_extension_list(b"VK_KHR_swapchain\0"), names(&["VK_KHR_swapchain"]));
}

#[test]
fn empty_buffer_has_no_names() {
    assert!(split_extension_list(b"").is_empty());
}

#[test]
fn lone_terminator_is_one_empty_name() {
    assert_eq!(split_extension_list(b"\0"), names(&[""]));
}

#[test]
fn double_space_gives_empty_name() {
    assert_eq!(split_extension_list(b"a  b\0"), names(&["a", "", "b"]));
}

#[test]
fn unterminated_tail_is_last_name() {
    assert_eq!(split_extension_list(b"a b"), names(&["a", "b"]));
}

#[test]
fn spaces_are_not_kept() {
    let out = split_extension_list(b"x y z\0");
    assert_eq!(out.len(), 3);
    assert!(out.iter().all(|n| !n.contains(&b' ') && !n.contains(&0)));
}
