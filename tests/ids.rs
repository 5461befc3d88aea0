use ask_user_question::ids::RequestIdGenerator;

#[test]
fn ids_count_in_hex_after_the_prefix() {
    let mut g = RequestIdGenerator::new("p".to_string());
    assert_eq!(g.generate(), "p-0000000000000000");
    assert_eq!(g.generate(), "p-1000000000000000");
    for _ in 2..16 {
        g.generate();
    }
    assert_eq!(g.generate(), "p-0100000000000000");
}

#[test]
fn generated_ids_are_distinct() {
    let mut g = RequestIdGenerator::new("nonce".to_string());
    let mut seen: Vec<String> = Vec::new();
    for _ in 0..300 {
        assert!(g.has_next());
        let id = g.generate();
        assert!(!seen.contains(&id));
        seen.push(id);
    }
}

