use universe::uri::is_valid_uri;

#[test]
fn test_valid_uri() {
    let valid_uri = "aw://example.com:1234/world/raw/-52,-7499,681,870";
    assert!(is_valid_uri(valid_uri));
}

#[test]
fn test_invalid_protocol() {
    let invalid_uri = "http://example.com:1234/world/raw/-52,-7499,681,870";
    assert!(!is_valid_uri(invalid_uri));
}

#[test]
fn test_invalid_format() {
    let invalid_uri = "aw://example.com:1234/world/raw/-52,-7499,681,870/extra";
    assert!(!is_valid_uri(invalid_uri));
}

#[test]
fn test_invalid_hostname_length() {
    let invalid_uri = "aw://a:1234/world/raw/-52,-7499,681,870";
    assert!(!is_valid_uri(invalid_uri));

    let hostname = "a".repeat(128);

    let invalid_uri = format!("aw://{hostname}:1234/world/raw/-52,-7499,681,870");
    assert!(!is_valid_uri(&invalid_uri));
}

#[test]
fn test_invalid_port() {
    let invalid_uri = "aw://example.com:65536/world/raw/-52,-7499,681,870";
    assert!(!is_valid_uri(invalid_uri));
}

#[test]
fn test_invalid_world_name_length() {
    let invalid_uri = "aw://example.com:1234//raw/-52,-7499,681,870";
    assert!(!is_valid_uri(invalid_uri));

    let invalid_uri = "aw://example.com:1234/aaaaaaaaaaaaaaaa/raw/-52,-7499,681,870";
    assert!(!is_valid_uri(invalid_uri));
}

#[test]
fn test_missing_raw() {
    let invalid_uri = "aw://example.com:1234/world/-52,-7499,681,870";
    assert!(!is_valid_uri(invalid_uri));
}

#[test]
fn test_invalid_coord_format() {
    let invalid_uri = "aw://example.com:1234/world/raw/-52,-7499,681";
    assert!(!is_valid_uri(invalid_uri));

    let invalid_uri = "aw://example.com:1234/world/raw/-52,-7499,681,870,1234";
    assert!(!is_valid_uri(invalid_uri));
}

#[test]
fn test_invalid_coord_value() {
    let invalid_uri = "aw://example.com:1234/world/raw/-52,-7499,681,2147483648";
    assert!(!is_valid_uri(invalid_uri));
}

#[test]
fn test_non_ascii_characters() {
    let invalid_uri = "aw://éxample.com:1234/world/raw/-52,-7499,681,870";
    assert!(!is_valid_uri(invalid_uri));

    let invalid_uri = "aw://example.com:1234/wörld/raw/-52,-7499,681,870";
    assert!(!is_valid_uri(invalid_uri));
}

#[test]
fn uri_boundary_values() {
    // Hostname of exactly 2 and exactly 127 characters.
    assert!(is_valid_uri("aw://ab:1/w/raw/0,0,0,0"));
    let host127 = "h".repeat(127);
    assert!(is_valid_uri(&format!("aw://{host127}:1/w/raw/0,0,0,0")));
    // World name of exactly 15 characters.
    assert!(is_valid_uri("aw://ab:1/aaaaaaaaaaaaaaa/raw/0,0,0,0"));
    // Extreme ports and coordinates.
    assert!(is_valid_uri("aw://ab:65535/w/raw/-2147483648,2147483647,0,-1"));
    assert!(is_valid_uri("aw://ab:0/w/raw/1,2,3,4"));
    assert!(!is_valid_uri("aw://ab:1/w/raw/-2147483649,0,0,0"));
}

#[test]
fn uri_non_canonical_numbers() {
    assert!(!is_valid_uri("aw://ab:01/w/raw/0,0,0,0"));
    assert!(!is_valid_uri("aw://ab:+1/w/raw/0,0,0,0"));
    assert!(!is_valid_uri("aw://ab:-1/w/raw/0,0,0,0"));
    assert!(!is_valid_uri("aw://ab:1/w/raw/-0,0,0,0"));
    assert!(!is_valid_uri("aw://ab:1/w/raw/007,0,0,0"));
    assert!(!is_valid_uri("aw://ab:1/w/raw/+7,0,0,0"));
    assert!(!is_valid_uri("aw://ab:1/w/raw/,0,0,0"));
    assert!(!is_valid_uri("aw://ab:1/w/raw/1a,0,0,0"));
}

#[test]
fn uri_structure_errors() {
    assert!(!is_valid_uri(""));
    assert!(!is_valid_uri("aw://"));
    assert!(!is_valid_uri("aw://ab:1:2/w/raw/0,0,0,0"));
    assert!(!is_valid_uri("aw://ab/w/raw/0,0,0,0"));
    assert!(!is_valid_uri("aw://ab:1/w/raw/0,0,0,0://"));
    assert!(!is_valid_uri("aw://ab:1/w/RAW/0,0,0,0"));
    let long_world = "w".repeat(240);
    assert!(!is_valid_uri(&format!("aw://ab:1/{long_world}/raw/0,0,0,0")));
}

#[test]
fn uris_written_for_locations_are_accepted() {
    let cases: [(&str, u16, &str, [i32; 4]); 4] = [
        ("example.com", 1234, "world", [-52, -7499, 681, 870]),
        ("ab", 0, "w", [0, 0, 0, 0]),
        ("universe.activeworlds.com", 65535, "AWGate", [i32::MIN, i32::MAX, -1, 1]),
        ("10.0.0.1", 6670, "a_b.c", [1, 2, 3, 4]),
    ];
    for (host, port, world, c) in cases {
        let uri = format!("aw://{host}:{port}/{world}/raw/{},{},{},{}", c[0], c[1], c[2], c[3]);
        assert!(is_valid_uri(&uri), "{uri}");
    }
    assert!(!is_valid_uri("aw://example.com:01234/world/raw/1,2,3,4"));
    assert!(!is_valid_uri("aw://example.com:1234/world/raw/1,2,3,-0"));
    assert!(!is_valid_uri("aw://example.com:1234/wo://rld/raw/1,2,3,4"));
}
