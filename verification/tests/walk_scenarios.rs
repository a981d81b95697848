use ergo_fs::{PathDir, PathDirEntry, PathDirWalk, PathFile, PathType, SortCmp, Walk, WalkError};
use tempdir::TempDir;

/// Drain the walk, returning every result in yield order.
fn collect(mut w: Walk) -> Vec<Result<PathDirEntry, WalkError>> {
    let mut out = Vec::new();
    while let Some(item) = w.next() {
        out.push(item);
    }
    out
}

/// The file name of a classified path.
fn name_of(ty: &PathType) -> String {
    let p = match ty {
        PathType::File(f) => f.as_path(),
        PathType::Dir(d) => d.as_path(),
    };
    p.file_name().unwrap().to_string_lossy().into_owned()
}

/// (name, depth, is_file, was_symlink) for every Ok entry, in yield order;
/// panics if any result is an error.
fn entries(w: Walk) -> Vec<(String, usize, bool, bool)> {
    collect(w)
        .into_iter()
        .map(|item| {
            let e = item.unwrap();
            let ty = e.to_type();
            let is_file = matches!(ty, PathType::File(_));
            (name_of(&ty), e.depth(), is_file, e.was_symlink())
        })
        .collect()
}

/// Build `root/{a.txt, sub/{b.txt}}` and hand back the temp guard and root.
fn small_tree() -> (TempDir, PathDir) {
    let tmp = TempDir::new("walk_small").unwrap();
    let root = PathDir::new(tmp.path()).unwrap();
    PathFile::create(tmp.path().join("a.txt")).unwrap();
    let sub = PathDir::create(tmp.path().join("sub")).unwrap();
    PathFile::create(sub.as_path().join("b.txt")).unwrap();
    (tmp, root)
}

#[test]
fn default_walk_is_preorder() {
    let (_tmp, root) = small_tree();
    let got = entries(root.walk().into_iter());
    assert_eq!(got.len(), 4);

    // The root itself comes first, at depth 0, as a directory.
    assert_eq!(got[0].1, 0);
    assert!(!got[0].2);

    let mut names: Vec<(String, usize, bool)> =
        got.iter().map(|e| (e.0.clone(), e.1, e.2)).collect();
    names.sort();
    let root_name = got[0].0.clone();
    let mut want = vec![
        (root_name, 0, false),
        ("a.txt".to_string(), 1, true),
        ("sub".to_string(), 1, false),
        ("b.txt".to_string(), 2, true),
    ];
    want.sort();
    assert_eq!(names, want);

    // Every directory comes strictly before its contents: sub before b.txt.
    let sub_at = got.iter().position(|e| e.0 == "sub").unwrap();
    let b_at = got.iter().position(|e| e.0 == "b.txt").unwrap();
    assert!(sub_at < b_at);
}

#[test]
fn root_entry_is_the_walked_directory() {
    let (_tmp, root) = small_tree();
    let mut w = root.walk().into_iter();
    let first = w.next().unwrap().unwrap();
    assert_eq!(first.depth(), 0);
    match first.into_type() {
        PathType::Dir(d) => assert_eq!(d, root),
        PathType::File(_) => panic!("the root must classify as a directory"),
    }
}

#[test]
fn to_type_can_be_asked_twice() {
    let (_tmp, root) = small_tree();
    let mut w = root.walk().into_iter();
    let first = w.next().unwrap().unwrap();
    let once = first.to_type();
    let again = first.to_type();
    assert_eq!(once, again);
    assert_eq!(name_of(&once), name_of(&first.into_type()));
}

#[test]
fn max_depth_prunes_below_the_bound() {
    let (_tmp, root) = small_tree();
    let got = entries(root.walk().max_depth(1).into_iter());
    assert_eq!(got.len(), 3);
    assert!(got.iter().all(|e| e.1 <= 1));
    assert!(got.iter().all(|e| e.0 != "b.txt"));
    assert!(got.iter().any(|e| e.0 == "a.txt"));
    assert!(got.iter().any(|e| e.0 == "sub"));
}

#[test]
fn min_depth_skips_shallow_entries_but_still_descends() {
    let (_tmp, root) = small_tree();

    // Depth 0 and 1 are not yielded, yet b.txt below them still appears.
    let deep = entries(root.walk().min_depth(2).into_iter());
    assert_eq!(deep.len(), 1);
    assert_eq!((deep[0].0.as_str(), deep[0].1, deep[0].2), ("b.txt", 2, true));

    // Only the root is suppressed with a bound of 1.
    let mut names: Vec<String> =
        entries(root.walk().min_depth(1).into_iter()).into_iter().map(|e| e.0).collect();
    names.sort();
    assert_eq!(names, vec!["a.txt".to_string(), "b.txt".to_string(), "sub".to_string()]);
}

#[test]
fn min_depth_above_max_depth_is_clamped() {
    let (_tmp, root) = small_tree();
    // The minimum is clamped down to the configured maximum, so the walk
    // yields exactly the depth-1 entries rather than nothing.
    let got = entries(root.walk().max_depth(1).min_depth(5).into_iter());
    let mut names: Vec<String> = got.iter().map(|e| e.0.clone()).collect();
    names.sort();
    assert!(got.iter().all(|e| e.1 == 1));
    assert_eq!(names, vec!["a.txt".to_string(), "sub".to_string()]);
}

#[test]
fn max_depth_below_min_depth_is_clamped() {
    let (_tmp, root) = small_tree();
    // The maximum is clamped up to the configured minimum, so the walk yields
    // exactly the depth-2 entries.
    let got = entries(root.walk().min_depth(2).max_depth(0).into_iter());
    assert_eq!(got.len(), 1);
    assert_eq!((got[0].0.as_str(), got[0].1), ("b.txt", 2));
}

#[test]
fn sorted_walk_orders_siblings() {
    let tmp = TempDir::new("walk_sort").unwrap();
    let root = PathDir::new(tmp.path()).unwrap();
    for name in ["c.txt", "a.txt", "b.txt"] {
        PathFile::create(tmp.path().join(name)).unwrap();
    }
    PathDir::create(tmp.path().join("d")).unwrap();

    let asc: Vec<String> = entries(root.walk().min_depth(1).sort_by(SortCmp::FileName).into_iter())
        .into_iter()
        .map(|e| e.0)
        .collect();
    assert_eq!(asc, vec!["a.txt", "b.txt", "c.txt", "d"]);

    let desc: Vec<String> =
        entries(root.walk().min_depth(1).sort_by(SortCmp::FileNameReversed).into_iter())
            .into_iter()
            .map(|e| e.0)
            .collect();
    assert_eq!(desc, vec!["d", "c.txt", "b.txt", "a.txt"]);

    // Without a sort every entry is still present, in whatever order.
    let mut unsorted: Vec<String> = entries(root.walk().min_depth(1).into_iter())
        .into_iter()
        .map(|e| e.0)
        .collect();
    unsorted.sort();
    assert_eq!(unsorted, vec!["a.txt", "b.txt", "c.txt", "d"]);
}

#[test]
fn contents_first_yields_postorder() {
    let tmp = TempDir::new("walk_post").unwrap();
    let root = PathDir::new(tmp.path()).unwrap();
    let sub = PathDir::create(tmp.path().join("sub")).unwrap();
    PathFile::create(sub.as_path().join("b.txt")).unwrap();

    let got = entries(root.walk().contents_first(true).into_iter());
    let names: Vec<&str> = got.iter().map(|e| e.0.as_str()).collect();
    assert_eq!(names[..2], ["b.txt", "sub"]);
    assert_eq!(got[2].1, 0);
}

#[test]
fn max_open_does_not_change_the_results() {
    let (_tmp, root) = small_tree();
    let baseline = entries(root.walk().sort_by(SortCmp::FileName).into_iter());
    let one = entries(root.walk().sort_by(SortCmp::FileName).max_open(1).into_iter());
    let clamped = entries(root.walk().sort_by(SortCmp::FileName).max_open(0).into_iter());
    assert_eq!(baseline, one);
    assert_eq!(baseline, clamped);
}

#[test]
fn was_symlink_marks_exactly_the_links() {
    let (_tmp, root) = small_tree();
    symlink::symlink_file("a.txt", root.as_path().join("link.txt")).unwrap();

    // Not following links: the link is yielded as a leaf for the link itself.
    let got = entries(root.walk().into_iter());
    assert_eq!(got.len(), 5);
    for (name, _, _, was_link) in &got {
        assert_eq!(*was_link, name == "link.txt");
    }

    // Following links changes what the entry stands for, not the flag.
    let followed = entries(root.walk().follow_links(true).into_iter());
    assert_eq!(followed.len(), 5);
    for (name, _, _, was_link) in &followed {
        assert_eq!(*was_link, name == "link.txt");
    }
}

#[test]
fn broken_link_yields_one_error_and_the_walk_goes_on() {
    let tmp = TempDir::new("walk_broken").unwrap();
    let root = PathDir::new(tmp.path()).unwrap();
    PathFile::create(tmp.path().join("good.txt")).unwrap();
    symlink::symlink_file("/nonexistent/target", tmp.path().join("bad")).unwrap();

    let results = collect(root.walk().follow_links(true).into_iter());
    let errors: Vec<&WalkError> = results.iter().filter_map(|r| r.as_ref().err()).collect();
    assert_eq!(errors.len(), 1);
    match errors[0] {
        WalkError::Enumeration { depth, .. } => assert_eq!(*depth, 1),
        WalkError::Classification { depth, .. } => assert_eq!(*depth, 1),
    }

    // The error stands in bad's position only; the siblings still come.
    let names: Vec<String> = results
        .iter()
        .filter_map(|r| r.as_ref().ok())
        .map(|e| name_of(&e.to_type()))
        .collect();
    assert_eq!(names.len(), 2);
    assert!(names.contains(&"good.txt".to_string()));
}

#[test]
fn broken_link_not_followed_is_a_classification_error() {
    let tmp = TempDir::new("walk_vanish").unwrap();
    let root = PathDir::new(tmp.path()).unwrap();
    symlink::symlink_file("/nonexistent/target", tmp.path().join("bad")).unwrap();

    // The engine yields the dangling link as a leaf, but its target cannot be
    // classified as an existing file or directory.
    let results = collect(root.walk().min_depth(1).into_iter());
    assert_eq!(results.len(), 1);
    match &results[0] {
        Err(WalkError::Classification { depth, msg }) => {
            assert_eq!(*depth, 1);
            assert!(!msg.is_empty());
        },
        other => panic!("expected a classification error, got {:?}", other.is_ok()),
    }
}

#[test]
fn special_file_is_a_classification_error() {
    let tmp = TempDir::new("walk_special").unwrap();
    let root = PathDir::new(tmp.path()).unwrap();
    // The link's target exists but is a character device: the walk must yield
    // a classification error for it, not abort.
    symlink::symlink_file("/dev/null", tmp.path().join("dev")).unwrap();

    let results = collect(root.walk().min_depth(1).into_iter());
    assert_eq!(results.len(), 1);
    match &results[0] {
        Err(WalkError::Classification { depth, msg }) => {
            assert_eq!(*depth, 1);
            assert!(!msg.is_empty());
        },
        other => panic!("expected a classification error, got an entry: {:?}", other.is_ok()),
    }
}

#[test]
fn walk_is_exhausted_after_the_last_entry() {
    let (_tmp, root) = small_tree();
    let mut w = root.walk().into_iter();
    let mut count = 0;
    while let Some(item) = w.next() {
        item.unwrap();
        count += 1;
    }
    assert_eq!(count, 4);
    assert!(w.next().is_none());
    assert!(w.next().is_none());
}

#[test]
fn partially_consumed_walk_can_be_dropped() {
    let (_tmp, root) = small_tree();
    let mut w = root.walk().into_iter();
    let first = w.next().unwrap().unwrap();
    assert_eq!(first.depth(), 0);
    drop(w);
}
