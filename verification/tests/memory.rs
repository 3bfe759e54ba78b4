use socktrace::memory::{
    can_buffer, join_buffers, locate_iovecs, piece_lengths, read_iovec, read_iovecs,
    read_message_header, read_u16, read_u64, MessageHeader, RemoteIoVec, FAMILY_SIZE, IOVEC_SIZE,
    MSGHDR_SIZE, UNIX_PATH_SIZE,
};

#[test]
fn sizes_are_those_of_the_structures() {
    assert_eq!(MSGHDR_SIZE, std::mem::size_of::<libc::msghdr>());
    assert_eq!(IOVEC_SIZE, std::mem::size_of::<libc::iovec>());
    assert_eq!(FAMILY_SIZE, std::mem::size_of::<libc::sa_family_t>());
    assert_eq!(FAMILY_SIZE + UNIX_PATH_SIZE, std::mem::size_of::<libc::sockaddr_un>());
}

#[test]
fn numbers_are_read_lowest_byte_first() {
    let bytes: Vec<u8> = (1..=12).collect();
    assert_eq!(read_u16(&bytes, 0), 0x0201);
    assert_eq!(read_u16(&bytes, 3), 0x0504);
    assert_eq!(read_u64(&bytes, 0), 0x0807060504030201);
    assert_eq!(read_u64(&bytes, 4), 0x0c0b0a0908070605);
    assert_eq!(read_u64(&[0xff; 8], 0), u64::MAX);
}

#[test]
fn header_fields_are_found() {
    let mut bytes = vec![0xaau8; 56];
    bytes[16..24].copy_from_slice(&0x7ffc_1234_5678u64.to_le_bytes());
    bytes[24..32].copy_from_slice(&3u64.to_le_bytes());
    assert_eq!(
        read_message_header(&bytes),
        MessageHeader { iov: 0x7ffc_1234_5678, iovlen: 3 }
    );
}

#[test]
fn vector_fields_are_found() {
    let mut bytes = vec![0u8; 16];
    bytes[0..8].copy_from_slice(&0x5500_0000_1000u64.to_le_bytes());
    bytes[8..16].copy_from_slice(&42u64.to_le_bytes());
    assert_eq!(read_iovec(&bytes), RemoteIoVec { base: 0x5500_0000_1000, len: 42 });
    assert_eq!(
        read_iovecs(&vec![bytes, vec![0; 16]]),
        vec![
            RemoteIoVec { base: 0x5500_0000_1000, len: 42 },
            RemoteIoVec { base: 0, len: 0 }
        ]
    );
}

#[test]
fn vectors_stand_one_after_another() {
    assert_eq!(
        locate_iovecs(MessageHeader { iov: 1000, iovlen: 3 }),
        vec![
            RemoteIoVec { base: 1000, len: 16 },
            RemoteIoVec { base: 1016, len: 16 },
            RemoteIoVec { base: 1032, len: 16 },
        ]
    );
    assert_eq!(locate_iovecs(MessageHeader { iov: 1000, iovlen: 0 }), vec![]);
}

#[test]
fn addresses_wrap_around() {
    assert_eq!(
        locate_iovecs(MessageHeader { iov: u64::MAX - 15, iovlen: 2 }),
        vec![
            RemoteIoVec { base: u64::MAX - 15, len: 16 },
            RemoteIoVec { base: 0, len: 16 },
        ]
    );
}

#[test]
fn too_many_buffers_cannot_be_listed() {
    let most = isize::MAX as u64 / 24;
    assert!(can_buffer(0));
    assert!(can_buffer(most));
    assert!(!can_buffer(most + 1));
    assert!(!can_buffer(u64::MAX));
    assert_eq!(std::mem::size_of::<Vec<u8>>(), 24);
}

#[test]
fn lengths_are_listed() {
    let pieces = vec![RemoteIoVec { base: 9, len: 5 }, RemoteIoVec { base: 1, len: 0 }];
    assert_eq!(piece_lengths(&pieces), vec![5, 0]);
}

#[test]
fn buffers_are_joined_in_order() {
    assert_eq!(
        join_buffers(&vec![vec![1, 2], vec![], vec![3], vec![1, 2]]),
        vec![1, 2, 3, 1, 2]
    );
    assert_eq!(join_buffers(&vec![]), Vec::<u8>::new());
}
