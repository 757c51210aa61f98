use mxchat::io::BytesBuffer;

#[test]
fn testing_bytes_buffer() {
    let bytes = b"Hello World";
    let mut bytes_buffer = BytesBuffer::from_bytes(Vec::from(bytes));

    let read_bytes = bytes_buffer.read_bytes(2).unwrap();
    let str1 = String::from_utf8_lossy(read_bytes).to_string();
    println!("str1 = {str1}");
    assert_eq!(str1, "He");

    let read_bytes2 = bytes_buffer.read_all().unwrap();
    let str2 = String::from_utf8_lossy(read_bytes2).to_string();
    println!("str2 = {str2}");
    assert_eq!(str2, "llo World");

    let b = bytes_buffer.read_bytes(5);
    println!("Should be None {b:?}");
    assert!(b.is_none());
}

#[test]
fn underrun_leaves_the_cursor_in_place() {
    let mut bytes_buffer = BytesBuffer::from_bytes(vec![1, 2, 3]);
    assert!(bytes_buffer.read_bytes(4).is_none());
    assert_eq!(bytes_buffer.read_bytes(3).unwrap(), &[1, 2, 3]);
}

#[test]
fn read_exact_zero_succeeds_but_read_all_on_empty_fails() {
    let mut bytes_buffer = BytesBuffer::empty();
    assert_eq!(bytes_buffer.read_bytes(0).unwrap().len(), 0);
    assert!(bytes_buffer.read_all().is_none());
}

#[test]
fn write_appends_without_moving_the_cursor() {
    let mut bytes_buffer = BytesBuffer::from_bytes(vec![1, 2]);
    assert_eq!(bytes_buffer.read_bytes(1).unwrap(), &[1]);
    bytes_buffer.write_bytes(&[3, 4]);
    assert_eq!(bytes_buffer.read_all().unwrap(), &[2, 3, 4]);
    assert!(bytes_buffer.read_all().is_none());
}
