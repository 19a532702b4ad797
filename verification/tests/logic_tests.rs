use phog::circ_buf::CacheError;
use phog::logic::AppLogic;
use phog::logic::Message;
use phog::logic::bin_outcome;
use phog::logic::edit_outcome;

fn names(list: &[&str]) -> Vec<String> {
    list.iter().map(|s| s.to_string()).collect()
}

fn build(list: &[&str]) -> AppLogic {
    AppLogic::new(names(list), 4, "edit".to_string(), "bin".to_string()).unwrap()
}

#[test]
fn empty_folder_rejected() {
    let r = AppLogic::new(Vec::new(), 4, "edit".to_string(), "bin".to_string());
    assert!(matches!(r, Err(CacheError::EmptyCollection)));
}

#[test]
fn folder_names_are_stored_and_updated() {
    let mut logic = build(&["a", "b"]);
    assert_eq!(logic.get_edit_folder(), "edit");
    assert_eq!(logic.get_delete_folder(), "bin");
    logic.set_edit_folder("keep".to_string());
    logic.set_delete_folder("trash".to_string());
    assert_eq!(logic.get_edit_folder(), "keep");
    assert_eq!(logic.get_delete_folder(), "trash");
}

#[test]
fn first_image_then_navigation() {
    let mut logic = build(&["a", "b", "c", "d", "e", "f"]);
    let first = logic.get_first_img();
    assert_eq!((first.name.as_str(), first.number, first.out_of), ("a", 1, 6));
    let loads = logic.init();
    assert_eq!(loads.len(), 3);
    let (moved, load) = logic.next_img();
    assert!(moved);
    assert!(load.is_none());
    let img = logic.get_img();
    assert_eq!((img.name.as_str(), img.number, img.out_of), ("b", 2, 6));
    let (moved, load) = logic.prev_img();
    assert!(moved);
    assert!(load.is_none());
    let img = logic.get_img();
    assert_eq!((img.name.as_str(), img.number, img.out_of), ("a", 1, 6));
}

#[test]
fn delete_through_facade() {
    let mut logic = build(&["a", "b", "c"]);
    let (moved, _) = logic.next_img();
    assert!(moved);
    let (more, load) = logic.delete();
    assert!(more);
    assert!(load.is_none());
    let img = logic.get_img();
    assert_eq!((img.name.as_str(), img.number, img.out_of), ("c", 2, 2));
    let (more, _) = logic.delete();
    assert!(more);
    let (more, load) = logic.delete();
    assert!(!more);
    assert!(load.is_none());
}

#[test]
fn edit_outcomes_by_priority() {
    assert_eq!(edit_outcome(true, false, false), Message::EditAlreadyDone);
    assert_eq!(edit_outcome(true, true, true), Message::EditAlreadyDone);
    assert_eq!(edit_outcome(false, false, false), Message::EditFailed);
    assert_eq!(edit_outcome(false, true, false), Message::EditNoRAW);
    assert_eq!(edit_outcome(false, true, true), Message::EditSuccessful);
}

#[test]
fn bin_outcomes_decide_cache_deletion() {
    assert_eq!(bin_outcome(false, false, false), (Message::BinAlreadyDone, false));
    assert_eq!(bin_outcome(true, false, false), (Message::BinFailed, false));
    assert_eq!(bin_outcome(true, true, false), (Message::BinNoRAW, true));
    assert_eq!(bin_outcome(true, true, true), (Message::BinSuccessful, true));
}

#[test]
fn current_slot_follows_navigation() {
    let mut logic = build(&["a", "b", "c", "d", "e", "f"]);
    assert_eq!(logic.current_buffer_idx(), 0);
    let (moved, _) = logic.next_img();
    assert!(moved);
    assert_eq!(logic.current_buffer_idx(), 1);
    let (moved, _) = logic.prev_img();
    assert!(moved);
    assert_eq!(logic.current_buffer_idx(), 0);
}
