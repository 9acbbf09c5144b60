use audio_output::device::contains_id;
use audio_output::device::device_id;
use audio_output::device::list_devices;
use audio_output::device::replace_char;
use audio_output::device::resolve;
use audio_output::device::with_prefix;
use audio_output::device::DeviceQueryError;
use audio_output::engine::AudioOutputState;

fn names(list: &[Option<&str>]) -> Vec<Option<String>> {
    list.iter().map(|n| n.map(|s| s.to_string())).collect()
}

fn ids(list: &[&str]) -> Vec<String> {
    list.iter().map(|s| s.to_string()).collect()
}

#[test]
fn id_of_a_name_with_spaces() {
    assert_eq!(device_id("Built-in Output"), "device_built-in_output");
}

#[test]
fn id_of_a_name_without_spaces() {
    assert_eq!(device_id("Speakers"), "device_speakers");
    assert_eq!(device_id("hdmi"), "device_hdmi");
}

#[test]
fn id_keeps_every_space_as_an_underscore() {
    assert_eq!(device_id("  USB  Audio "), "device___usb__audio_");
    assert_eq!(device_id(" "), "device__");
}

#[test]
fn id_of_the_empty_name_is_the_prefix() {
    assert_eq!(device_id(""), "device_");
}

#[test]
fn id_lowercases_beyond_ascii() {
    assert_eq!(device_id("ÄÖÜ Lautsprecher"), "device_äöü_lautsprecher");
}

#[test]
fn id_leaves_other_whitespace_alone() {
    assert_eq!(device_id("A\tB"), "device_a\tb");
}

#[test]
fn the_prefix_is_put_before_the_normalized_name() {
    assert_eq!(with_prefix("built-in_output"), "device_built-in_output");
    assert_eq!(with_prefix(""), "device_");
    assert_eq!(with_prefix("Kept As Is"), "device_Kept As Is");
}

#[test]
fn every_occurrence_of_a_character_is_replaced() {
    assert_eq!(replace_char("a b  c ", ' ', "_"), "a_b__c_");
    assert_eq!(replace_char("a b", ' ', ""), "ab");
    assert_eq!(replace_char("a b", ' ', "--"), "a--b");
    assert_eq!(replace_char("äöü", 'ö', "oe"), "äoeü");
    assert_eq!(replace_char("abc", 'x', "_"), "abc");
    assert_eq!(replace_char("", ' ', "_"), "");
    assert_eq!(replace_char("   ", ' ', "_"), "___");
}

#[test]
fn contains_id_finds_exact_matches_only() {
    let wanted = ids(&["device_a", "device_b"]);
    assert!(contains_id(&wanted, &"device_a".to_string()));
    assert!(contains_id(&wanted, &"device_b".to_string()));
    assert!(!contains_id(&wanted, &"device_".to_string()));
    assert!(!contains_id(&wanted, &"DEVICE_A".to_string()));
    assert!(!contains_id(&Vec::new(), &"device_a".to_string()));
}

#[test]
fn listing_keeps_host_order_and_marks_the_default() {
    let host = names(&[Some("Built-in Output"), Some("USB Audio"), Some("HDMI")]);
    let devices = list_devices(&host, &Some("USB Audio".to_string())).unwrap();
    assert_eq!(devices.len(), 3);
    assert_eq!(devices[0].id, "device_built-in_output");
    assert_eq!(devices[0].name, "Built-in Output");
    assert!(!devices[0].is_default);
    assert_eq!(devices[1].id, "device_usb_audio");
    assert_eq!(devices[1].name, "USB Audio");
    assert!(devices[1].is_default);
    assert_eq!(devices[2].id, "device_hdmi");
    assert!(!devices[2].is_default);
}

#[test]
fn listing_without_a_default_marks_none() {
    let host = names(&[Some("A"), Some("B")]);
    let devices = list_devices(&host, &None).unwrap();
    assert!(devices.iter().all(|d| !d.is_default));
}

#[test]
fn listing_marks_every_device_that_has_the_default_name() {
    let host = names(&[Some("Same"), Some("Other"), Some("Same")]);
    let devices = list_devices(&host, &Some("Same".to_string())).unwrap();
    assert!(devices[0].is_default);
    assert!(!devices[1].is_default);
    assert!(devices[2].is_default);
}

#[test]
fn listing_compares_the_default_name_exactly() {
    let host = names(&[Some("speakers")]);
    let devices = list_devices(&host, &Some("Speakers".to_string())).unwrap();
    assert!(!devices[0].is_default);
}

#[test]
fn listing_no_devices_is_empty() {
    let devices = list_devices(&Vec::new(), &Some("A".to_string())).unwrap();
    assert!(devices.is_empty());
}

#[test]
fn listing_fails_on_the_first_unreadable_name() {
    let host = names(&[Some("A"), None, Some("C"), None]);
    let err = list_devices(&host, &None).unwrap_err();
    assert_eq!(err, DeviceQueryError { index: 1 });
}

#[test]
fn the_engine_lists_as_the_catalog_does() {
    let engine = AudioOutputState::new();
    let host = names(&[Some("Built-in Output")]);
    let devices = engine
        .list_output_devices(&host, &Some("Built-in Output".to_string()))
        .unwrap();
    assert_eq!(devices.len(), 1);
    assert_eq!(devices[0].id, "device_built-in_output");
    assert!(devices[0].is_default);
    let host = names(&[None]);
    assert_eq!(
        engine.list_output_devices(&host, &None).unwrap_err(),
        DeviceQueryError { index: 0 }
    );
}

#[test]
fn resolve_finds_requested_devices_in_host_order() {
    let host = names(&[Some("Built-in Output"), Some("USB Audio"), Some("HDMI")]);
    let wanted = ids(&["device_hdmi", "device_built-in_output"]);
    assert_eq!(resolve(&host, &wanted), vec![0, 2]);
}

#[test]
fn resolve_passes_over_unreadable_names() {
    let host = names(&[None, Some("USB Audio"), None]);
    let wanted = ids(&["device_usb_audio", "device_"]);
    assert_eq!(resolve(&host, &wanted), vec![1]);
}

#[test]
fn resolve_finds_every_device_that_shares_an_id() {
    let host = names(&[Some("USB Audio"), Some("usb audio"), Some("USB_AUDIO")]);
    let wanted = ids(&["device_usb_audio"]);
    assert_eq!(resolve(&host, &wanted), vec![0, 1, 2]);
}

#[test]
fn resolve_lists_a_device_once_for_repeated_ids() {
    let host = names(&[Some("A"), Some("B")]);
    let wanted = ids(&["device_b", "device_b"]);
    assert_eq!(resolve(&host, &wanted), vec![1]);
}

#[test]
fn resolve_finds_nothing_without_ids_or_without_a_match() {
    let host = names(&[Some("A"), Some("B")]);
    assert_eq!(resolve(&host, &Vec::new()), Vec::<usize>::new());
    assert_eq!(resolve(&host, &ids(&["device_c", "A"])), Vec::<usize>::new());
    assert_eq!(resolve(&Vec::new(), &ids(&["device_a"])), Vec::<usize>::new());
}
