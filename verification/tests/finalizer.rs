use rmf::deferred::{sort_deepest_first, DeferredDir};

fn dd(path: &str, depth: usize) -> DeferredDir {
    DeferredDir { path: path.to_owned(), depth }
}

#[test]
fn sorts_deepest_first() {
    let list = vec![dd("r", 0), dd("r/a/b", 2), dd("r/a", 1), dd("r/a/b/c", 3)];
    let order = sort_deepest_first(list);
    let depths: Vec<usize> = order.iter().map(|d| d.depth).collect();
    assert_eq!(depths, vec![3, 2, 1, 0]);
}

#[test]
fn descendant_always_precedes_ancestor() {
    // Entries discovered by different workers, in no particular order: in
    // the output, anything strictly deeper stands strictly earlier, so a
    // descendant is removed before every ancestor of its.
    let list = vec![dd("r/x", 1), dd("r", 0), dd("r/x/y/z", 3), dd("r/x/y", 2)];
    let order = sort_deepest_first(list);
    let pos = |p: &str| order.iter().position(|d| d.path == p).unwrap();
    assert!(pos("r/x/y/z") < pos("r/x/y"));
    assert!(pos("r/x/y") < pos("r/x"));
    assert!(pos("r/x") < pos("r"));
}

#[test]
fn equal_depths_keep_their_order() {
    // The sort is stable: siblings at one depth stay in recording order.
    let list = vec![dd("r/a", 1), dd("r/b", 1), dd("r", 0), dd("r/c", 1)];
    let order = sort_deepest_first(list);
    let paths: Vec<String> = order.iter().map(|d| d.path.clone()).collect();
    assert_eq!(
        paths,
        vec!["r/a".to_owned(), "r/b".to_owned(), "r/c".to_owned(), "r".to_owned()]
    );
}

#[test]
fn sorting_keeps_every_entry() {
    let list = vec![dd("p", 5), dd("q", 5), dd("p", 5)];
    let order = sort_deepest_first(list);
    assert_eq!(order.len(), 3);
    assert_eq!(order.iter().filter(|d| d.path == "p").count(), 2);
    assert_eq!(order.iter().filter(|d| d.path == "q").count(), 1);
}

#[test]
fn empty_list_sorts_to_empty() {
    let order = sort_deepest_first(Vec::new());
    assert_eq!(order.len(), 0);
}
