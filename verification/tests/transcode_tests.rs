use sftp_gateway::transcode::effective_fetch_name;

#[test]
fn bz2_suffix_is_stripped_and_compressed() {
    let (name, compress) = effective_fetch_name("foo.txt.bz2");
    assert_eq!(name, "foo.txt");
    assert!(compress);
}

#[test]
fn plain_name_passes_through() {
    let (name, compress) = effective_fetch_name("foo.txt");
    assert_eq!(name, "foo.txt");
    assert!(!compress);
}

#[test]
fn bare_suffix_has_no_extension() {
    let (name, compress) = effective_fetch_name(".bz2");
    assert_eq!(name, ".bz2");
    assert!(!compress);
}

#[test]
fn hidden_file_named_like_suffix_passes_through() {
    let (name, compress) = effective_fetch_name("dir/.bz2");
    assert_eq!(name, "dir/.bz2");
    assert!(!compress);
}

#[test]
fn single_dotted_name_is_stripped() {
    let (name, compress) = effective_fetch_name("archive.bz2");
    assert_eq!(name, "archive");
    assert!(compress);
}

#[test]
fn double_dot_stem_keeps_its_dot() {
    let (name, compress) = effective_fetch_name("a..bz2");
    assert_eq!(name, "a.");
    assert!(compress);
}

#[test]
fn nested_name_is_stripped_in_final_component_only() {
    let (name, compress) = effective_fetch_name("a/b/c.log.bz2");
    assert_eq!(name, "a/b/c.log");
    assert!(compress);
}

#[test]
fn other_extension_passes_through() {
    let (name, compress) = effective_fetch_name("foo.gz");
    assert_eq!(name, "foo.gz");
    assert!(!compress);
}
