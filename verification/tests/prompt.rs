use beetle::memory::build_system_prompt;

#[test]
fn build_system_prompt_respects_max_len() {
    let soul = "Soul";
    let user = "User";
    let memory = "Memory";
    let notes = vec!["Note1".to_string(), "Note2".to_string()];
    let out = build_system_prompt(soul, user, memory, &notes, 20);
    assert!(out.len() <= 20);
}

#[test]
fn build_system_prompt_order() {
    let out = build_system_prompt("A", "B", "C", &[], 100);
    assert!(out.starts_with("A"));
    assert!(out.contains("B"));
    assert!(out.contains("C"));
}
