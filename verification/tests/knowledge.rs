//! Explanations of validation errors.

use ignis::debug::vuid_kb::{
    clear_runtime_entries, lookup, register_runtime_entry, static_base, total_entries,
    DiagnosticCategory, RuntimeEntry,
};

fn entry(suffix: &str, title: &str) -> RuntimeEntry {
    RuntimeEntry {
        vuid_suffix: suffix.to_string(),
        title: title.to_string(),
        category: DiagnosticCategory::Other,
        what_happened: "what".to_string(),
        why_rejected: "why".to_string(),
        ignis_fix: "fix".to_string(),
        spec_section: "section".to_string(),
    }
}

#[test]
fn knowledge_base_answers() {
    let runtime: Vec<RuntimeEntry> = vec![];
    assert_eq!(total_entries(&runtime), 57);
    match lookup(&runtime, "00070") {
        Some(k) => {
            assert_eq!(k.vuid_suffix, "00070");
            assert_eq!(k.title, "queue submit with fence already in use");
            assert_eq!(k.category, DiagnosticCategory::QueueSubmission);
            assert_eq!(
                k.what_happened,
                "vkQueueSubmit was called with a fence that is still associated\nwith a previous pending submission."
            );
            assert_eq!(k.spec_section, "§7.3 Fences");
            assert!(k.ignis_fix.contains("\n\n   1. FrameSync manages per-frame-in-flight fences:\n      let frame = frame_sync.begin_frame()?;\n"));
        }
        None => unreachable!(),
    }
    assert!(lookup(&runtime, "99999").is_none());
    assert!(lookup(&runtime, "").is_none());
}

#[test]
fn every_entry_of_the_base_is_found() {
    let runtime: Vec<RuntimeEntry> = vec![];
    for e in static_base() {
        match lookup(&runtime, e.vuid_suffix) {
            Some(k) => {
                assert_eq!(k.title, e.title);
                assert_eq!(k.category, e.category);
                assert_eq!(k.what_happened, e.what_happened);
                assert_eq!(k.why_rejected, e.why_rejected);
                assert_eq!(k.ignis_fix, e.ignis_fix);
                assert_eq!(k.spec_section, e.spec_section);
            }
            None => unreachable!(),
        }
    }
}

#[test]
fn registered_entries_come_first() {
    let mut runtime: Vec<RuntimeEntry> = vec![];
    register_runtime_entry(&mut runtime, entry("00070", "mine"));
    register_runtime_entry(&mut runtime, entry("00070", "later"));
    register_runtime_entry(&mut runtime, entry("77777", "other"));
    assert_eq!(total_entries(&runtime), 60);
    assert!(matches!(lookup(&runtime, "00070"), Some(k) if k.title == "mine"));
    assert!(matches!(lookup(&runtime, "77777"), Some(k) if k.ignis_fix == "fix"));
    clear_runtime_entries(&mut runtime);
    assert_eq!(total_entries(&runtime), 57);
    assert!(matches!(
        lookup(&runtime, "00070"),
        Some(k) if k.title == "queue submit with fence already in use"
    ));
    assert!(lookup(&runtime, "77777").is_none());
}
