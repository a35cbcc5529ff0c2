use bndl::store::{ByteMap, FsModel};

#[test]
fn a_later_entry_for_the_same_key_wins() {
    let mut map = ByteMap::new();
    map.insert(b"name".to_vec(), b"first".to_vec());
    map.insert(b"name".to_vec(), b"second".to_vec());
    assert_eq!(map.get(b"name"), Some(&b"second".to_vec()));
    assert_eq!(map.get(b"other"), None);
}

#[test]
fn the_snapshot_answers_files_and_directories_separately() {
    let mut fs = FsModel::new();
    fs.add_file(b"/w/a.txt".to_vec(), b"hello".to_vec());
    fs.add_dir(b"/w/dist".to_vec());
    assert!(fs.file_exists(b"/w/a.txt"));
    assert!(!fs.file_exists(b"/w/dist"));
    assert!(fs.dir_exists(b"/w/dist"));
    assert!(!fs.dir_exists(b"/w/a.txt"));
    assert!(fs.node_exists(b"/w/a.txt"));
    assert!(fs.node_exists(b"/w/dist"));
    assert!(!fs.node_exists(b"/w/missing"));
    assert_eq!(fs.read_file(b"/w/a.txt"), Some(&b"hello".to_vec()));
    assert_eq!(fs.read_file(b"/w/missing"), None);
}

#[test]
fn an_empty_map_is_empty() {
    let map = ByteMap::new();
    assert_eq!(map.len(), 0);
    assert_eq!(map.get(b""), None);
}
