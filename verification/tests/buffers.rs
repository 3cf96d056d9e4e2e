use plrs::pv::bytes::PvBytes;
use plrs::pv::private::{next_alloc_size, PvFixedSize, PvpArray};
use plrs::PvString;

#[test]
fn empty_buffer_has_the_capacity_asked_for() {
    let buffer: PvpArray<u8> = PvpArray::new_empty_sized(5);
    assert_eq!(buffer.len(), 0);
    assert_eq!(buffer.alloc_size(), 5);
    let default: PvpArray<u8> = PvpArray::new_empty();
    assert_eq!(default.len(), 0);
    assert_eq!(default.alloc_size(), 16);
}

#[test]
fn buffer_from_slice_doubles_the_length() {
    let buffer = PvpArray::new(&[1u8, 2, 3]);
    assert_eq!(buffer.len(), 3);
    assert_eq!(buffer.alloc_size(), 6);
    assert_eq!(buffer.get_data(), &[1u8, 2, 3]);
    let empty: PvpArray<u8> = PvpArray::new(&[]);
    assert_eq!(empty.len(), 0);
    assert_eq!(empty.alloc_size(), 0);
}

#[test]
fn append_writes_in_place_while_there_is_room() {
    let mut buffer = PvpArray::new(&[1u8, 2, 3]);
    buffer.append(4);
    assert_eq!(buffer.get_data(), &[1u8, 2, 3, 4]);
    assert_eq!(buffer.alloc_size(), 6);
    buffer.append(5);
    buffer.append(6);
    assert_eq!(buffer.len(), 6);
    assert_eq!(buffer.alloc_size(), 6);
}

#[test]
fn append_to_a_full_buffer_doubles_the_new_length() {
    let mut buffer = PvpArray::new(&[1u8, 2, 3]);
    buffer.append(4);
    buffer.append(5);
    buffer.append(6);
    buffer.append(7);
    assert_eq!(buffer.get_data(), &[1u8, 2, 3, 4, 5, 6, 7]);
    assert_eq!(buffer.alloc_size(), 14);
    let mut none: PvpArray<u8> = PvpArray::new_empty_sized(0);
    none.append(9);
    assert_eq!(none.get_data(), &[9u8]);
    assert_eq!(none.alloc_size(), 2);
}

#[test]
fn append_to_a_shared_buffer_leaves_the_clone_alone() {
    let mut buffer = PvpArray::new(&[1u8, 2, 3]);
    let kept = buffer.clone();
    buffer.append(4);
    assert_eq!(buffer.get_data(), &[1u8, 2, 3, 4]);
    // new storage although there was room: twice the new length
    assert_eq!(buffer.alloc_size(), 8);
    assert_eq!(kept.get_data(), &[1u8, 2, 3]);
    assert_eq!(kept.len(), 3);
    assert_eq!(kept.alloc_size(), 6);
    assert_eq!(kept.get(0), 1);
    assert_eq!(kept.get(2), 3);
}

#[test]
fn clone_taken_after_a_change_sees_the_change() {
    let mut buffer = PvpArray::new(&[1u8]);
    let before = buffer.clone();
    buffer.append(2);
    let after = buffer.clone();
    buffer.concat(&PvpArray::new(&[3u8, 4]));
    assert_eq!(before.get_data(), &[1u8]);
    assert_eq!(after.get_data(), &[1u8, 2]);
    assert_eq!(buffer.get_data(), &[1u8, 2, 3, 4]);
}

#[test]
fn concat_in_place_and_in_new_storage() {
    let mut roomy: PvpArray<u8> = PvpArray::new_empty_sized(10);
    roomy.concat(&PvpArray::new(&[1u8, 2]));
    roomy.concat(&PvpArray::new(&[3u8]));
    assert_eq!(roomy.get_data(), &[1u8, 2, 3]);
    assert_eq!(roomy.alloc_size(), 10);

    let mut tight = PvpArray::new(&[1u8]);
    tight.concat(&PvpArray::new(&[2u8, 3, 4]));
    assert_eq!(tight.get_data(), &[1u8, 2, 3, 4]);
    assert_eq!(tight.alloc_size(), 8);

    let mut shared = PvpArray::new(&[1u8, 2, 3, 4]);
    let kept = shared.clone();
    shared.concat(&kept);
    assert_eq!(shared.get_data(), &[1u8, 2, 3, 4, 1, 2, 3, 4]);
    assert_eq!(shared.alloc_size(), 16);
    assert_eq!(kept.get_data(), &[1u8, 2, 3, 4]);
}

#[test]
fn concat_with_an_empty_buffer_changes_nothing() {
    let mut buffer = PvpArray::new(&[1u8, 2]);
    buffer.concat(&PvpArray::new(&[]));
    assert_eq!(buffer.get_data(), &[1u8, 2]);
    assert_eq!(buffer.alloc_size(), 4);
}

#[test]
fn pop_and_popn_drop_from_the_end() {
    let mut buffer = PvpArray::new(&[1u8, 2, 3, 4, 5]);
    buffer.pop();
    assert_eq!(buffer.get_data(), &[1u8, 2, 3, 4]);
    buffer.popn(2);
    assert_eq!(buffer.get_data(), &[1u8, 2]);
    buffer.popn(0);
    assert_eq!(buffer.get_data(), &[1u8, 2]);
    buffer.popn(2);
    assert_eq!(buffer.len(), 0);
    assert_eq!(buffer.alloc_size(), 10);
}

#[test]
fn pop_on_a_shared_buffer_leaves_the_clone_alone() {
    let mut buffer = PvpArray::new(&[1u8, 2, 3]);
    let kept = buffer.clone();
    buffer.pop();
    assert_eq!(buffer.get_data(), &[1u8, 2]);
    assert_eq!(buffer.alloc_size(), 6);
    assert_eq!(kept.get_data(), &[1u8, 2, 3]);
    buffer.append(9);
    assert_eq!(buffer.get_data(), &[1u8, 2, 9]);
    assert_eq!(kept.get_data(), &[1u8, 2, 3]);
}

#[test]
fn resize_move_keeps_the_items() {
    let mut buffer = PvpArray::new(&[1u8, 2, 3]);
    buffer.resize_move(40);
    assert_eq!(buffer.get_data(), &[1u8, 2, 3]);
    assert_eq!(buffer.alloc_size(), 40);
    let kept = buffer.clone();
    buffer.resize_move(3);
    assert_eq!(buffer.get_data(), &[1u8, 2, 3]);
    assert_eq!(buffer.alloc_size(), 3);
    assert_eq!(kept.alloc_size(), 40);
}

#[test]
fn buffer_clone_has_the_length_and_compares_equal() {
    let buffer = PvpArray::new(&[7u8, 8, 9]);
    let clone = buffer.clone();
    assert_eq!(clone.len(), buffer.len());
    assert_eq!(clone, buffer);
    let empty: PvpArray<u8> = PvpArray::new_empty();
    assert_eq!(empty.clone().len(), 0);
    assert_eq!(empty.clone(), empty);
}

#[test]
fn buffers_compare_by_items_not_by_capacity() {
    let small = PvpArray::new(&[1u8, 2]);
    let mut large: PvpArray<u8> = PvpArray::new_empty_sized(100);
    large.append(1);
    large.append(2);
    assert_eq!(small, large);
    large.append(3);
    assert_ne!(small, large);
    assert_ne!(PvpArray::new(&[1u8, 2]), PvpArray::new(&[1u8, 3]));
}

#[test]
fn buffer_from_a_slice() {
    let items: &[u8] = &[4, 5];
    let buffer: PvpArray<u8> = items.into();
    assert_eq!(buffer.get_data(), &[4u8, 5]);
    assert_eq!(buffer.alloc_size(), 4);
}

#[test]
fn shared_box_is_written_only_by_its_one_owner() {
    let mut boxed = PvFixedSize::new(5u32);
    assert_eq!(*boxed.get_data(), 5);
    match boxed.get_data_mut() {
        Some(value) => *value = 6,
        None => panic!("the only handle must be able to write"),
    }
    assert_eq!(*boxed.get_data(), 6);
    let other = boxed.clone();
    assert!(boxed.get_data_mut().is_none());
    assert_eq!(*other.get_data(), 6);
    drop(other);
    assert!(boxed.get_data_mut().is_some());
}

#[test]
fn move_out_and_copy_out_give_a_box_of_ones_own() {
    let boxed = PvFixedSize::new(String::from("text"));
    let shared = boxed.clone();
    let mut own = boxed.move_out();
    assert_eq!(own, shared);
    own.get_data_mut().expect("own box").push('!');
    assert_eq!(own.get_data(), "text!");
    assert_eq!(shared.get_data(), "text");

    let number = PvFixedSize::new(3u8);
    let kept = number.clone();
    let mut copy = number.copy_out();
    *copy.get_data_mut().expect("own box") = 4;
    assert_eq!(*copy.get_data(), 4);
    assert_eq!(*kept.get_data(), 3);

    let single: PvFixedSize<u8> = 9.into();
    let mut same = single.move_out();
    assert_eq!(*same.get_data_mut().expect("still the only handle"), 9);
}

#[test]
fn byte_strings() {
    let empty = PvBytes::new_empty();
    assert_eq!(empty, PvBytes::new_empty_sized(3));
    let bytes = PvBytes::new(&[1, 2]);
    let kept = bytes.clone();
    let joined = bytes.concat(&PvBytes::new(&[3]));
    assert_eq!(joined, PvBytes::new(&[1, 2, 3]));
    assert_eq!(kept, PvBytes::new(&[1, 2]));
    let mut more = joined + &PvBytes::new(&[4]);
    more.append(5);
    assert_eq!(more, PvBytes::new(&[1, 2, 3, 4, 5]));
    let slice: &[u8] = &[1, 2];
    assert_eq!(PvBytes::from(slice), kept);
    assert_eq!(PvBytes::from(PvpArray::new(&[1u8, 2])), kept);
}

#[test]
fn text_round_trip() {
    assert_eq!(PvString::from("s").concat(&PvString::from("S")).get_str(), "sS");
    assert_eq!(PvString::from("").concat(&PvString::from("")).get_str(), "");
    assert_eq!(PvString::from("").concat(&PvString::from("abc")).get_str(), "abc");
    assert_eq!(PvString::from("abc").concat(&PvString::from("")).get_str(), "abc");
    let long = "0123456789abcdefghijklmnopqrstuvwxyz";
    assert_eq!(
        PvString::new_empty().concat(&PvString::from(long)).get_str(),
        long
    );
    assert_eq!(
        PvString::from("grüße, ").concat(&PvString::from("世界")).get_str(),
        "grüße, 世界"
    );
}

#[test]
fn text_reads_back_as_given() {
    assert_eq!(PvString::new("héllo wörld").get_str(), "héllo wörld");
    assert_eq!(PvString::new("").get_str(), "");
    assert_eq!(PvString::new_empty().get_str(), "");
}

#[test]
fn text_sum() {
    let a = PvString::new("ab");
    let b = PvString::new("cd");
    assert_eq!(a.clone() + &b, PvString::new("abcd"));
    assert_eq!(a + b, PvString::new("abcd"));
}

#[test]
fn storage_is_kept_only_by_a_single_owner_with_room() {
    assert_eq!(next_alloc_size(true, 6, 4), 6);
    assert_eq!(next_alloc_size(true, 4, 4), 4);
    assert_eq!(next_alloc_size(true, 3, 4), 8);
    assert_eq!(next_alloc_size(false, 6, 4), 8);
    assert_eq!(next_alloc_size(false, 3, 4), 8);
    assert_eq!(next_alloc_size(true, 0, 0), 0);
    assert_eq!(next_alloc_size(false, 0, 0), 0);
    assert_eq!(next_alloc_size(false, 0, usize::MAX / 2), usize::MAX - 1);
    assert_eq!(next_alloc_size(false, 0, usize::MAX / 2 + 1), usize::MAX);
    assert_eq!(next_alloc_size(true, 1, usize::MAX), usize::MAX);
}

#[test]
fn text_length_counts_bytes() {
    assert_eq!(PvString::new_empty().len(), 0);
    assert_eq!(PvString::new("abc").len(), 3);
    assert_eq!(PvString::new("grüße").len(), 7);
    assert_eq!(PvBytes::new(&[1, 2, 3, 4]).len(), 4);
}

#[test]
fn text_in_storage_of_its_own() {
    let text = PvString::new("abc");
    let kept = text.clone();
    let moved = text.resize_move(3);
    assert_eq!(moved, kept);
    assert_eq!(moved.get_str(), "abc");
    let joined = moved.concat(&PvString::new("d"));
    assert_eq!(joined.get_str(), "abcd");
    assert_eq!(kept.get_str(), "abc");
}

#[test]
fn unshared_keeps_the_box_or_clones_the_value() {
    let boxed = PvFixedSize::new(String::from("text"));
    let shared = boxed.clone();
    // told that the box is shared, it gives a box of its own
    let mut own = boxed.unshared(false);
    assert_eq!(own.get_data(), "text");
    assert!(own.get_data_mut().is_some());
    // told that the handle is the only one, it gives the handle back
    let mut same = shared.clone().unshared(true);
    assert_eq!(same, shared);
    assert!(same.get_data_mut().is_none());
}
