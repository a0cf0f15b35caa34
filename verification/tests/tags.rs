use nmos_node::tags::{clone_strings, to_strings, Tags};

fn strings(v: &[&str]) -> Vec<String> {
    v.iter().map(|s| s.to_string()).collect()
}

#[test]
fn tags_come_in_the_order_of_their_keys() {
    let t = Tags::new()
        .with(String::from("m"), strings(&["1"]))
        .with(String::from("a"), strings(&["2"]))
        .with(String::from("z"), strings(&["3"]))
        .with(String::from("b"), strings(&[]));
    assert_eq!(t.len(), 4);
    assert_eq!(t.key(0), "a");
    assert_eq!(t.key(1), "b");
    assert_eq!(t.key(2), "m");
    assert_eq!(t.key(3), "z");
    assert_eq!(t.values(0), &strings(&["2"]));
    assert_eq!(t.values(1), &strings(&[]));
    assert_eq!(t.values(2), &strings(&["1"]));
    assert_eq!(t.values(3), &strings(&["3"]));
}

#[test]
fn a_tag_takes_the_place_of_one_with_the_same_key() {
    let t = Tags::new()
        .with(String::from("k"), strings(&["old"]))
        .with(String::from("j"), strings(&["x"]))
        .with(String::from("k"), strings(&["new", "er"]));
    assert_eq!(t.len(), 2);
    assert_eq!(t.get("k"), Some(&strings(&["new", "er"])));
    assert_eq!(t.get("j"), Some(&strings(&["x"])));
    assert_eq!(t.get("i"), None);
    assert_eq!(t.get(""), None);
}

#[test]
fn empty_tags() {
    let t = Tags::new();
    assert!(t.is_empty());
    assert_eq!(t.len(), 0);
    assert_eq!(t.get("a"), None);
    let t = t.with(String::new(), strings(&["v"]));
    assert!(!t.is_empty());
    assert_eq!(t.get(""), Some(&strings(&["v"])));
}

#[test]
fn a_copy_of_tags_is_equal() {
    let t = Tags::new()
        .with(String::from("b"), strings(&["1", "2"]))
        .with(String::from("a"), strings(&["3"]));
    let c = t.duplicate();
    assert_eq!(c.len(), 2);
    assert_eq!(c.key(0), "a");
    assert_eq!(c.values(0), &strings(&["3"]));
    assert_eq!(c.key(1), "b");
    assert_eq!(c.values(1), &strings(&["1", "2"]));
}

#[test]
fn copies_of_string_lists() {
    assert_eq!(clone_strings(&strings(&["a", "", "b"])), strings(&["a", "", "b"]));
    assert_eq!(to_strings(&["x", "y"]), strings(&["x", "y"]));
    assert_eq!(to_strings(&[]), strings(&[]));
}

#[test]
fn order_agrees_with_the_order_of_strings() {
    let keys = ["b", "", "ab", "a", "é", "Z", "aa", "abc"];
    let mut t = Tags::new();
    for k in keys {
        t = t.with(k.to_string(), strings(&[k]));
    }
    let mut sorted = keys.to_vec();
    sorted.sort();
    assert_eq!(t.len(), sorted.len());
    for (i, k) in sorted.iter().enumerate() {
        assert_eq!(t.key(i), k);
        assert_eq!(t.values(i), &strings(&[k]));
    }
}
