use mqtt_sweep::header::{last_piece, module_leaf};

#[test]
fn module_leaf_is_the_last_segment() {
    assert_eq!(module_leaf("mqtt_sweep::connector::subscriber"), "subscriber");
    assert_eq!(module_leaf("analyser"), "analyser");
    assert_eq!(module_leaf("a::b::"), "");
    assert_eq!(module_leaf(""), "");
    assert_eq!(module_leaf("a:::b"), ":b");
}

#[test]
fn last_piece_falls_back_to_the_path() {
    assert_eq!(last_piece(None, "a::b"), "a::b");
    assert_eq!(last_piece(Some(vec![]), "a::b"), "a::b");
    assert_eq!(last_piece(Some(vec![String::from("a"), String::from("b")]), "a::b"), "b");
}
