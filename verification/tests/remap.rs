use gustasum::remap::remap_path;

#[test]
fn remap_example() {
    let r = remap_path(&b"/old/sub/f.txt".to_vec(), &b"/old".to_vec(), &b"/new".to_vec());
    assert_eq!(r, b"/new/sub/f.txt".to_vec());
}

#[test]
fn path_outside_base_is_unchanged() {
    let r = remap_path(&b"/other/f.txt".to_vec(), &b"/old".to_vec(), &b"/new".to_vec());
    assert_eq!(r, b"/other/f.txt".to_vec());
}

#[test]
fn path_equal_to_base_becomes_new_base() {
    let r = remap_path(&b"/old".to_vec(), &b"/old".to_vec(), &b"/new".to_vec());
    assert_eq!(r, b"/new".to_vec());
}

#[test]
fn prefix_must_end_at_component_boundary() {
    let r = remap_path(&b"/oldies/f.txt".to_vec(), &b"/old".to_vec(), &b"/new".to_vec());
    assert_eq!(r, b"/oldies/f.txt".to_vec());
}

#[test]
fn base_longer_than_path_is_unchanged() {
    let r = remap_path(&b"/o".to_vec(), &b"/old/deep".to_vec(), &b"/new".to_vec());
    assert_eq!(r, b"/o".to_vec());
}
