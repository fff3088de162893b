use ffi_convert::{AsRust, CArray};
use temporal_bridge::array::{copied_bytes, hs_error_message};

fn read_back(array: &CArray<u8>) -> Vec<u8> {
    array.as_rust().unwrap()
}

#[test]
fn error_message_holds_the_utf8_bytes_of_the_text() {
    let array = hs_error_message("größe");
    assert_eq!(
        read_back(&array),
        vec![b'g', b'r', 0xc3, 0xb6, 0xc3, 0x9f, b'e']
    );
    assert_eq!(String::from_utf8(copied_bytes(&array)).unwrap(), "größe");
}

#[test]
fn empty_error_message_holds_no_bytes() {
    let array = hs_error_message("");
    assert_eq!(array.size, 0);
    assert_eq!(copied_bytes(&array), Vec::<u8>::new());
}

#[test]
fn copying_leaves_the_array_as_it_is() {
    let array = hs_error_message("boom");
    let first = copied_bytes(&array);
    let second = copied_bytes(&array);
    assert_eq!(first, b"boom".to_vec());
    assert_eq!(second, first);
}
