use checklints::cache::{cache_files, Cache, FetchError, FetchStep, PathMap, Ttype};
use checklints::hashing::hash_bytes;
use checklints::keyed::StrMap;
use checklints::model::{Check, CheckType, DirectoryCheck, FileCheck, VarCheck};
use checklints::status::Status;

fn file_check(path: &str, contents: &str) -> Check {
    Check {
        check: CheckType::File(FileCheck {
            path: path.to_string(),
            contents: Some(contents.to_string()),
            contains: Vec::new(),
            template: None,
        }),
        description: None,
        conditions: Vec::new(),
        requirements: Vec::new(),
    }
}

fn cache() -> Cache {
    Cache::new("/tmp/cache", "proj".to_string(), StrMap::new())
}

#[test]
fn pass_is_served_while_file_unchanged() {
    let mut c = cache();
    let check = file_check("a.txt", "hello");
    let h = Some(hash_bytes(b"hello"));
    c.insert(&check, Status::pass(), &h);
    let got = c.get(&check, &h).unwrap();
    assert!(got.is_success());
    assert!(got.is_cached());
    let changed = Some(hash_bytes(b"hello, changed"));
    assert!(c.get(&check, &changed).is_none());
    assert!(c.get(&check, &None).is_none());
}

#[test]
fn fail_does_not_freeze_hash() {
    let mut c = cache();
    let check = file_check("a.txt", "hello");
    let h = Some(hash_bytes(b"other"));
    c.insert(&check, Status::fail("Contents differ".to_string(), None), &h);
    assert!(c.get(&check, &h).is_none());
    assert!(c.file_to_hash(&check).is_none());
}

#[test]
fn checks_differing_in_one_field_are_independent() {
    let mut c = cache();
    let a = file_check("a.txt", "hello");
    let b = file_check("a.txt", "hello!");
    assert_ne!(a.fingerprint(), b.fingerprint());
    assert_eq!(a.fingerprint(), file_check("a.txt", "hello").fingerprint());
    let h = Some(hash_bytes(b"hello"));
    c.insert(&a, Status::pass(), &h);
    assert!(c.get(&a, &h).is_some());
    assert!(c.get(&b, &h).is_none());
}

#[test]
fn varset_never_hits() {
    let mut c = cache();
    let v = Check {
        check: CheckType::VarSet(VarCheck { key: "HOME".to_string(), value: None }),
        description: None,
        conditions: Vec::new(),
        requirements: Vec::new(),
    };
    c.insert(&v, Status::pass(), &None);
    assert!(c.get(&v, &None).is_none());
    let d = Check {
        check: CheckType::Directory(DirectoryCheck {
            path: "x".to_string(),
            contents: Vec::new(),
            contains: Vec::new(),
        }),
        description: None,
        conditions: Vec::new(),
        requirements: Vec::new(),
    };
    c.insert(&d, Status::pass(), &None);
    assert!(c.get(&d, &None).is_none());
}

#[test]
fn pinned_fetch_is_served_from_cache() {
    let mut c = cache();
    let body = b"[[check]]\n";
    let good = hash_bytes(body);
    let first = c.get_or_dl_external_file("base.toml", "https://e.com/base.toml".to_string(), &Some(good.clone()), Ttype::Checklist);
    let dest = match first {
        FetchStep::Download { url, dest } => {
            assert_eq!(url, "https://e.com/base.toml");
            dest
        }
        other => panic!("expected a download, got {other:?}"),
    };
    assert_eq!(dest, "/tmp/cache/proj/remote-checklists/checklists/base.toml");
    let path = c.complete_external("base.toml", body, Some(good.clone()), Ttype::Checklist).unwrap();
    assert_eq!(path, dest);
    let second = c.get_or_dl_external_file("base.toml", "https://e.com/base.toml".to_string(), &Some(good), Ttype::Checklist);
    assert_eq!(second, FetchStep::Cached { path: dest });
}

#[test]
fn wrong_pinned_hash_is_refused() {
    let mut c = cache();
    let body = b"contents";
    let r = c.complete_external("t.j2", body, Some("abc".to_string()), Ttype::Template);
    assert_eq!(
        r,
        Err(FetchError::HashMismatch {
            name: "t.j2".to_string(),
            given: "abc".to_string(),
            computed: hash_bytes(body),
        })
    );
    assert!(c.remote_entries().is_empty());
    let again = c.get_or_dl_external_file("t.j2", "u".to_string(), &Some(hash_bytes(body)), Ttype::Template);
    assert!(matches!(again, FetchStep::Download { .. }));
}

#[test]
fn load_needs_paths_and_checks() {
    assert!(Cache::load("/c", "p".to_string(), None, Some(Vec::new()), None, None).is_none());
    assert!(Cache::load("/c", "p".to_string(), Some(Vec::new()), None, None, None).is_none());
    let c = Cache::load("/c", "p".to_string(), Some(Vec::new()), Some(Vec::new()), None, None).unwrap();
    assert_eq!(c.cache_dir(), "/c/p");
}

#[test]
fn cache_file_names() {
    let (p, c, f, r) = cache_files("/c/proj", "proj");
    assert_eq!(p, "/c/proj/proj-paths.json");
    assert_eq!(c, "/c/proj/proj-checks.json");
    assert_eq!(f, "/c/proj/proj-facts.json");
    assert_eq!(r, "/c/proj/proj-remotes.json");
}

#[test]
fn path_map_records_latest_hash() {
    let mut m = PathMap::new();
    m.insert("a".to_string(), "h1".to_string());
    m.insert("a".to_string(), "h2".to_string());
    assert_eq!(m.get(&"a".to_string()), Some("h2".to_string()));
    assert_eq!(m.get(&"b".to_string()), None);
}

#[test]
fn wiped_cache_keeps_its_directory() {
    let mut c = cache();
    let check = file_check("a.txt", "hello");
    let h = Some(hash_bytes(b"hello"));
    c.insert(&check, Status::pass(), &h);
    let e = c.emptied(StrMap::new());
    assert_eq!(e.cache_dir(), "/tmp/cache/proj");
    assert!(e.get(&check, &h).is_none());
}
