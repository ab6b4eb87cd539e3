use state_layout::sharing::{check_fresh_download, plan_share, SourceMetadata};
use state_layout::text::str_has_substring;

#[test]
fn writable_source_gets_permissions_flipped() {
    let metadata = SourceMetadata::new(false, 1);
    let plan = plan_share(&metadata, false);
    assert!(plan.set_source_readonly);
    assert!(!plan.remove_destination);
}

#[test]
fn readonly_source_is_left_alone() {
    // An already read-only source keeps its permissions untouched.
    let metadata = SourceMetadata::new(true, 3);
    let plan = plan_share(&metadata, false);
    assert!(!plan.set_source_readonly);
}

#[test]
fn existing_destination_is_removed_before_linking() {
    let metadata = SourceMetadata::new(true, 1);
    let plan = plan_share(&metadata, true);
    assert!(plan.remove_destination);
    assert!(!plan.set_source_readonly);
}

#[test]
fn marking_readonly_is_one_way() {
    let mut metadata = SourceMetadata::new(false, 1);
    metadata.mark_readonly();
    let plan = plan_share(&metadata, false);
    assert!(!plan.set_source_readonly);
}

#[test]
fn fresh_download_accepted() {
    let metadata = SourceMetadata::new(false, 1);
    assert!(check_fresh_download("/var/lib/state_sync_cache/file_7", &metadata));
}

#[test]
fn source_inside_checkpoint_rejected() {
    let metadata = SourceMetadata::new(false, 1);
    assert!(!check_fresh_download("/var/lib/state_sync_cache/checkpoint/file_7", &metadata));
}

#[test]
fn source_outside_cache_rejected() {
    let metadata = SourceMetadata::new(false, 1);
    assert!(!check_fresh_download("/var/lib/somewhere_else/file_7", &metadata));
}

#[test]
fn already_linked_source_rejected() {
    let metadata = SourceMetadata::new(false, 2);
    assert!(!check_fresh_download("/var/lib/state_sync_cache/file_7", &metadata));
}

#[test]
fn substring_found_in_middle() {
    assert!(str_has_substring("abcdef", "cde"));
}

#[test]
fn substring_found_at_start_and_end() {
    assert!(str_has_substring("abcdef", "abc"));
    assert!(str_has_substring("abcdef", "def"));
    assert!(str_has_substring("abcdef", "abcdef"));
}

#[test]
fn substring_absent() {
    assert!(!str_has_substring("abcdef", "ce"));
    assert!(!str_has_substring("abc", "abcd"));
    assert!(!str_has_substring("", "a"));
}

#[test]
fn empty_needle_always_found() {
    assert!(str_has_substring("abc", ""));
    assert!(str_has_substring("", ""));
}

#[test]
fn partial_matches_do_not_fool_the_search() {
    assert!(str_has_substring("aaab", "aab"));
    assert!(!str_has_substring("aaa", "aab"));
    assert!(str_has_substring("ababab", "babab"));
    assert!(!str_has_substring("ababab", "abba"));
}
