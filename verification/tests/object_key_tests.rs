use presign_proxy::object_key_of_path;

#[test]
fn derives_key_by_stripping_exactly_one_separator() {
    assert_eq!(object_key_of_path("/photos/cat.png"), "photos/cat.png");
}

#[test]
fn keeps_inner_separators() {
    assert_eq!(object_key_of_path("/a/b/c.txt"), "a/b/c.txt");
}

#[test]
fn root_path_yields_empty_key() {
    assert_eq!(object_key_of_path("/"), "");
}

#[test]
fn strips_only_the_first_of_two_separators() {
    assert_eq!(object_key_of_path("//shadow"), "/shadow");
}

#[test]
fn handles_multibyte_characters() {
    assert_eq!(object_key_of_path("/b\u{fc}cher/\u{1f4b0}.png"), "b\u{fc}cher/\u{1f4b0}.png");
}
