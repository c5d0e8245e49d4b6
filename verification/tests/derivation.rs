use ipc_sem::hashing::hash_name;
use ipc_sem::keys::decimal_chars;
use ipc_sem::keys::namespace_dir;
use ipc_sem::keys::object_name;
use ipc_sem::keys::rendezvous_path;
use ipc_sem::keys::token_file_name;

#[test]
fn token_is_deterministic() {
    assert_eq!(token_file_name("test-sem"), token_file_name("test-sem"));
    assert_eq!(hash_name("test-sem"), hash_name("test-sem"));
    assert_eq!(object_name("test-sem"), object_name("test-sem"));
}

#[test]
fn token_exact_values() {
    assert_eq!(hash_name("foo"), 7499789721413776853);
    assert_eq!(token_file_name("foo"), "foo-7499789721413776853");
    assert_eq!(token_file_name("a"), "a-10604696185810094066");
    assert_eq!(token_file_name("test-sem"), "testsem-17965333909391141603");
}

#[test]
fn token_drops_ineligible_characters() {
    // Non-ASCII letters, spaces and punctuation are dropped, not escaped.
    assert_eq!(token_file_name("héllo wörld!"), "hllowrld-11284831433456891495");
}

#[test]
fn token_fragment_may_be_empty() {
    // A name with no ASCII alphanumeric character keeps only the hash part.
    assert_eq!(token_file_name(""), "-10067023433893726643");
    let t = token_file_name("!!! ///");
    assert!(t.starts_with('-'));
}

#[test]
fn distinct_names_distinct_tokens() {
    let names = ["a", "b", "test-sem", "test_sem", "shared", "shared ", ""];
    for (i, x) in names.iter().enumerate() {
        for (j, y) in names.iter().enumerate() {
            if i != j {
                assert_ne!(token_file_name(x), token_file_name(y));
                assert_ne!(object_name(x), object_name(y));
            }
        }
    }
}

#[test]
fn path_is_rooted_in_namespace_dir() {
    assert_eq!(namespace_dir(), "ipc-rs-sems");
    assert_eq!(
        rendezvous_path("/tmp", "foo"),
        "/tmp/ipc-rs-sems/foo-7499789721413776853"
    );
}

#[test]
fn decimal_rendering() {
    assert_eq!(decimal_chars(0), vec!['0']);
    assert_eq!(decimal_chars(7), vec!['7']);
    assert_eq!(
        decimal_chars(1234567890),
        "1234567890".chars().collect::<Vec<char>>()
    );
    assert_eq!(
        decimal_chars(u64::MAX),
        "18446744073709551615".chars().collect::<Vec<char>>()
    );
}

#[test]
fn object_name_strips_backslashes() {
    assert_eq!(object_name("a\\b"), "Global\\ab-12636950776969496236");
    assert_eq!(object_name("shared"), "Global\\shared-11396717462442798362");
}
