use phog::circ_buf::CacheError;
use phog::circ_buf::CircularBuffer;

fn names(list: &[&str]) -> Vec<String> {
    list.iter().map(|s| s.to_string()).collect()
}

#[test]
fn empty_collection_rejected() {
    let r = CircularBuffer::new(Vec::new(), 4);
    assert!(matches!(r, Err(CacheError::EmptyCollection)));
}

#[test]
fn construction_shows_first_item() {
    let buf = CircularBuffer::new(names(&["a", "b", "c", "d", "e", "f"]), 4).unwrap();
    let stat = buf.get_first_elem();
    assert_eq!(stat.name, "a");
    assert_eq!(stat.number, 1);
    assert_eq!(stat.out_of, 6);
    assert_eq!(buf.current_buffer_idx(), 0);
}

#[test]
fn init_fills_rest_of_initial_window() {
    let buf = CircularBuffer::new(names(&["a", "b", "c", "d", "e", "f"]), 4).unwrap();
    let loads = buf.init();
    assert_eq!(loads.len(), 3);
    for (k, req) in loads.iter().enumerate() {
        assert_eq!(req.buf_pos, k + 1);
    }
    assert_eq!(loads[0].elem, "b");
    assert_eq!(loads[1].elem, "c");
    assert_eq!(loads[2].elem, "d");
}

#[test]
fn init_window_smaller_than_capacity() {
    let buf = CircularBuffer::new(names(&["a", "b", "c"]), 8).unwrap();
    let loads = buf.init();
    assert_eq!(loads.len(), 2);
    assert_eq!(loads[0].elem, "b");
    assert_eq!(loads[1].elem, "c");
}

#[test]
fn advance_rebalances_then_preloads() {
    let mut buf = CircularBuffer::new(names(&["a", "b", "c", "d", "e", "f"]), 4).unwrap();
    // The first two steps reveal neighbours that were already decoded.
    let (moved, load) = buf.next_img();
    assert!(moved);
    assert!(load.is_none());
    let (moved, load) = buf.next_img();
    assert!(moved);
    assert!(load.is_none());
    // The third step brings a new far-ahead neighbour into reach: item "e"
    // goes into the slot recycled from the back edge, slot 0.
    let (moved, load) = buf.next_img();
    assert!(moved);
    let load = load.unwrap();
    assert_eq!(load.elem, "e");
    assert_eq!(load.buf_pos, 0);
    let stat = buf.get_elem();
    assert_eq!(stat.name, "d");
    assert_eq!(stat.number, 4);
    assert_eq!(stat.out_of, 6);
}

#[test]
fn boundaries_are_no_ops() {
    let mut buf = CircularBuffer::new(names(&["a", "b", "c", "d", "e", "f"]), 4).unwrap();
    // Retreating at the first item changes nothing.
    let (moved, load) = buf.prev_img();
    assert!(!moved);
    assert!(load.is_none());
    let stat = buf.get_elem();
    assert_eq!((stat.name.as_str(), stat.number, stat.out_of), ("a", 1, 6));
    // Advancing at the last item changes nothing.
    for _ in 0..5 {
        let (moved, _) = buf.next_img();
        assert!(moved);
    }
    let (moved, load) = buf.next_img();
    assert!(!moved);
    assert!(load.is_none());
    let stat = buf.get_elem();
    assert_eq!((stat.name.as_str(), stat.number, stat.out_of), ("f", 6, 6));
}

#[test]
fn advance_then_retreat_restores_position() {
    let mut buf = CircularBuffer::new(names(&["a", "b", "c", "d", "e", "f"]), 4).unwrap();
    let (moved, _) = buf.next_img();
    assert!(moved);
    let before = buf.get_elem();
    let slot_before = buf.current_buffer_idx();
    // From here both margins are full: the round trip issues no load and
    // restores the position exactly.
    let (moved, load) = buf.next_img();
    assert!(moved);
    assert!(load.is_none());
    let (moved, load) = buf.prev_img();
    assert!(moved);
    assert!(load.is_none());
    let after = buf.get_elem();
    assert_eq!(before.name, after.name);
    assert_eq!(before.number, after.number);
    assert_eq!(before.out_of, after.out_of);
    assert_eq!(slot_before, buf.current_buffer_idx());
}

#[test]
fn delete_last_item_steps_back() {
    let mut buf = CircularBuffer::new(names(&["a", "b", "c", "d", "e", "f"]), 4).unwrap();
    for _ in 0..5 {
        let (moved, _) = buf.next_img();
        assert!(moved);
    }
    let stat = buf.get_elem();
    assert_eq!((stat.name.as_str(), stat.number, stat.out_of), ("f", 6, 6));
    // Deleting the tail item moves the position onto its predecessor and
    // refills the vacated slot from the back side.
    let (more, load) = buf.delete();
    assert!(more);
    let load = load.unwrap();
    assert_eq!(load.elem, "b");
    assert_eq!(load.buf_pos, 1);
    let stat = buf.get_elem();
    assert_eq!((stat.name.as_str(), stat.number, stat.out_of), ("e", 5, 5));
}

#[test]
fn delete_inside_window_recycles_front_slot() {
    let mut buf =
        CircularBuffer::new(names(&["a", "b", "c", "d", "e", "f", "g", "h"]), 4).unwrap();
    for _ in 0..3 {
        let (moved, _) = buf.next_img();
        assert!(moved);
    }
    let stat = buf.get_elem();
    assert_eq!((stat.name.as_str(), stat.number, stat.out_of), ("d", 4, 8));
    // Deleting "d" at full capacity rotates the index map and refills the
    // vacated slot (slot 3, which held "d") with the next unbuffered item.
    let (more, load) = buf.delete();
    assert!(more);
    let load = load.unwrap();
    assert_eq!(load.elem, "f");
    assert_eq!(load.buf_pos, 3);
    let stat = buf.get_elem();
    assert_eq!((stat.name.as_str(), stat.number, stat.out_of), ("e", 4, 7));
}

#[test]
fn retreat_preloads_behind() {
    let mut buf =
        CircularBuffer::new(names(&["a", "b", "c", "d", "e", "f", "g", "h"]), 4).unwrap();
    for _ in 0..4 {
        let (moved, _) = buf.next_img();
        assert!(moved);
    }
    // One step back only rebalances; the next brings a new far-behind
    // neighbour into reach.
    let (moved, load) = buf.prev_img();
    assert!(moved);
    assert!(load.is_none());
    let (moved, load) = buf.prev_img();
    assert!(moved);
    let load = load.unwrap();
    assert_eq!(load.elem, "b");
    assert_eq!(load.buf_pos, 1);
    let stat = buf.get_elem();
    assert_eq!((stat.name.as_str(), stat.number, stat.out_of), ("c", 3, 8));
}

#[test]
fn deletion_shrinks_small_collection() {
    let mut buf = CircularBuffer::new(names(&["a", "b", "c"]), 4).unwrap();
    let (moved, _) = buf.next_img();
    assert!(moved);
    // Deleting "b" drops the vacated slot for good: only two ring positions
    // remain, holding "a" and "c".
    let (more, load) = buf.delete();
    assert!(more);
    assert!(load.is_none());
    let stat = buf.get_elem();
    assert_eq!((stat.name.as_str(), stat.number, stat.out_of), ("c", 2, 2));
    // The shrunken window still navigates both ways without loads.
    let (moved, load) = buf.prev_img();
    assert!(moved);
    assert!(load.is_none());
    let stat = buf.get_elem();
    assert_eq!((stat.name.as_str(), stat.number, stat.out_of), ("a", 1, 2));
    let (moved, load) = buf.next_img();
    assert!(moved);
    assert!(load.is_none());
    let stat = buf.get_elem();
    assert_eq!((stat.name.as_str(), stat.number, stat.out_of), ("c", 2, 2));
}

#[test]
fn deleting_everything_empties_the_cache() {
    let mut buf = CircularBuffer::new(names(&["a", "b", "c"]), 4).unwrap();
    let (more, _) = buf.delete();
    assert!(more);
    let stat = buf.get_elem();
    assert_eq!((stat.name.as_str(), stat.number, stat.out_of), ("b", 1, 2));
    let (more, _) = buf.delete();
    assert!(more);
    let stat = buf.get_elem();
    assert_eq!((stat.name.as_str(), stat.number, stat.out_of), ("c", 1, 1));
    let (more, load) = buf.delete();
    assert!(!more);
    assert!(load.is_none());
}

#[test]
fn delete_at_list_start_keeps_position() {
    let mut buf =
        CircularBuffer::new(names(&["a", "b", "c", "d", "e", "f", "g", "h"]), 4).unwrap();
    // Deleting the very first item: the successor becomes current at the
    // same 1-based position.
    let (more, load) = buf.delete();
    assert!(more);
    let load = load.unwrap();
    assert_eq!(load.elem, "e");
    let stat = buf.get_elem();
    assert_eq!((stat.name.as_str(), stat.number, stat.out_of), ("b", 1, 7));
}

#[test]
fn window_reaches_the_tail() {
    // With five items and four slots, the last preload fires one step before
    // the no-more-items region, and the final step only rebalances.
    let mut buf = CircularBuffer::new(names(&["a", "b", "c", "d", "e"]), 4).unwrap();
    let (moved, load) = buf.next_img();
    assert!(moved && load.is_none());
    let (moved, load) = buf.next_img();
    assert!(moved && load.is_none());
    let (moved, load) = buf.next_img();
    assert!(moved);
    let load = load.unwrap();
    assert_eq!(load.elem, "e");
    assert_eq!(load.buf_pos, 0);
    let (moved, load) = buf.next_img();
    assert!(moved);
    assert!(load.is_none());
    let stat = buf.get_elem();
    assert_eq!((stat.name.as_str(), stat.number, stat.out_of), ("e", 5, 5));
}

#[test]
fn deletion_down_to_capacity_boundary() {
    // Repeated deletion near the tail crosses the capacity boundary: first
    // full-capacity recycling, then shrinking, down to a single item.
    let mut buf = CircularBuffer::new(names(&["a", "b", "c", "d", "e"]), 4).unwrap();
    for _ in 0..4 {
        let (moved, _) = buf.next_img();
        assert!(moved);
    }
    let stat = buf.get_elem();
    assert_eq!((stat.name.as_str(), stat.number, stat.out_of), ("e", 5, 5));
    let (more, load) = buf.delete();
    assert!(more);
    assert!(load.is_some());
    let stat = buf.get_elem();
    assert_eq!((stat.name.as_str(), stat.number, stat.out_of), ("d", 4, 4));
    let (more, load) = buf.delete();
    assert!(more);
    assert!(load.is_none());
    let stat = buf.get_elem();
    assert_eq!((stat.name.as_str(), stat.number, stat.out_of), ("c", 3, 3));
    let (more, _) = buf.delete();
    assert!(more);
    let stat = buf.get_elem();
    assert_eq!((stat.name.as_str(), stat.number, stat.out_of), ("b", 2, 2));
    let (more, _) = buf.delete();
    assert!(more);
    let stat = buf.get_elem();
    assert_eq!((stat.name.as_str(), stat.number, stat.out_of), ("a", 1, 1));
    let (more, _) = buf.delete();
    assert!(!more);
}
