use fampp::locator::{find_executable, Node};

fn file(name: &str) -> Node {
    Node::File { name: name.to_string() }
}

fn dir(name: &str, children: Vec<Node>) -> Node {
    Node::Dir { name: name.to_string(), children }
}

fn path(parts: &[&str]) -> Option<Vec<String>> {
    Some(parts.iter().map(|p| p.to_string()).collect())
}

#[test]
fn file_at_the_top_is_found() {
    let tree = vec![file("README"), file("php"), file("php")];
    assert_eq!(find_executable(&tree, "php"), path(&["php"]));
}

#[test]
fn search_goes_down_before_it_goes_on() {
    let tree = vec![
        file("README"),
        dir("bin", vec![dir("tools", vec![file("mysqld")]), file("mysqld")]),
        file("mysqld"),
    ];
    assert_eq!(find_executable(&tree, "mysqld"), path(&["bin", "tools", "mysqld"]));
}

#[test]
fn file_before_a_directory_wins() {
    let tree = vec![file("mysqld"), dir("bin", vec![file("mysqld")])];
    assert_eq!(find_executable(&tree, "mysqld"), path(&["mysqld"]));
}

#[test]
fn directory_of_the_name_is_searched_and_not_taken() {
    let tree = vec![dir("php", vec![]), dir("php", vec![file("php")])];
    assert_eq!(find_executable(&tree, "php"), path(&["php", "php"]));
    assert_eq!(find_executable(&vec![dir("php", vec![])], "php"), None);
}

#[test]
fn name_has_to_match_exactly() {
    let tree = vec![file("php.exe"), file("PHP"), dir("x", vec![file("php8")])];
    assert_eq!(find_executable(&tree, "php"), None);
    assert_eq!(find_executable(&tree, "php.exe"), path(&["php.exe"]));
    assert_eq!(find_executable(&tree, "php8"), path(&["x", "php8"]));
}

#[test]
fn nothing_is_found_in_an_empty_directory() {
    assert_eq!(find_executable(&vec![], "php"), None);
    assert_eq!(find_executable(&vec![dir("a", vec![dir("b", vec![])])], "php"), None);
}

#[test]
fn deep_trees_are_searched_to_the_bottom() {
    let mut tree = vec![file("needle")];
    for depth in 0..200 {
        tree = vec![file("hay"), dir(&format!("d{}", depth), tree)];
    }
    let found = find_executable(&tree, "needle").unwrap();
    assert_eq!(found.len(), 201);
    assert_eq!(found[0], "d199");
    assert_eq!(found[199], "d0");
    assert_eq!(found[200], "needle");
}
