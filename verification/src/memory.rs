//! The structures that are copied out of a tracee's memory, as x86-64 Linux lays them out.
use vstd::prelude::*;

verus! {

/// Size of a `struct msghdr`.
pub const MSGHDR_SIZE: usize = 56;

/// Offset of `msg_iov`, the address of the buffer descriptors, in a `struct msghdr`.
pub const MSG_IOV_OFFSET: usize = 16;

/// Offset of `msg_iovlen`, the number of buffer descriptors, in a `struct msghdr`.
pub const MSG_IOVLEN_OFFSET: usize = 24;

/// Size of a `struct iovec`.
pub const IOVEC_SIZE: usize = 16;

/// Offset of `iov_len` in a `struct iovec`; `iov_base` stands at its start.
pub const IOV_LEN_OFFSET: usize = 8;

/// Size of `sa_family_t`, the field that a `struct sockaddr` starts with.
pub const FAMILY_SIZE: usize = 2;

/// Size of `sun_path`, the field that follows the family in a `struct sockaddr_un`.
pub const UNIX_PATH_SIZE: usize = 108;

/// Bytes that the list of receive buffers takes for each of them.
pub const BUFFER_HANDLE_SIZE: usize = 24;

/// A piece of a tracee's memory.
#[derive(Clone, Copy, Debug, PartialEq, Eq, Structural)]
pub struct RemoteIoVec {
    pub base: u64,
    pub len: u64,
}

/// The two fields of a `struct msghdr` that say where the message's buffers are.
#[derive(Clone, Copy, Debug, PartialEq, Eq, Structural)]
pub struct MessageHeader {
    pub iov: u64,
    pub iovlen: u64,
}

/// The unsigned 16-bit number that stands at `at`, lowest byte first.
pub open spec fn u16_at(bytes: Seq<u8>, at: int) -> int {
    bytes[at] + 0x100 * bytes[at + 1]
}

/// The unsigned 64-bit number that stands at `at`, lowest byte first.
pub open spec fn u64_at(bytes: Seq<u8>, at: int) -> int {
    bytes[at] + 0x100 * bytes[at + 1] + 0x1_0000 * bytes[at + 2] + 0x100_0000 * bytes[at + 3]
        + 0x1_0000_0000 * bytes[at + 4] + 0x100_0000_0000 * bytes[at + 5] + 0x1_0000_0000_0000
        * bytes[at + 6] + 0x100_0000_0000_0000 * bytes[at + 7]
}

/// The address `offset` bytes after `base`, in a 64-bit address space that wraps around.
pub open spec fn address(base: u64, offset: int) -> int {
    (base + offset) % 0x1_0000_0000_0000_0000
}

/// What a `struct msghdr` says of the message's buffers.
pub open spec fn message_header(bytes: Seq<u8>) -> MessageHeader {
    MessageHeader {
        iov: u64_at(bytes, MSG_IOV_OFFSET as int) as u64,
        iovlen: u64_at(bytes, MSG_IOVLEN_OFFSET as int) as u64,
    }
}

/// The piece of memory that a `struct iovec` describes.
pub open spec fn iovec(bytes: Seq<u8>) -> RemoteIoVec {
    RemoteIoVec { base: u64_at(bytes, 0) as u64, len: u64_at(bytes, IOV_LEN_OFFSET as int) as u64 }
}

/// Where the `struct iovec`s of an array of them stand.
pub open spec fn iovec_array(header: MessageHeader) -> Seq<RemoteIoVec> {
    Seq::new(
        header.iovlen as nat,
        |i: int|
            RemoteIoVec {
                base: address(header.iov, i * IOVEC_SIZE) as u64,
                len: IOVEC_SIZE as u64,
            },
    )
}

/// The lengths of pieces of memory.
pub open spec fn lengths(pieces: Seq<RemoteIoVec>) -> Seq<u64> {
    pieces.map_values(|piece: RemoteIoVec| piece.len)
}

/// The contents of buffers.
pub open spec fn contents(buffers: Seq<Vec<u8>>) -> Seq<Seq<u8>> {
    buffers.map_values(|buffer: Vec<u8>| buffer@)
}

/// Whether a list of receive buffers for so many pieces fits the address space.
pub open spec fn buffers_fit(count: u64) -> bool {
    count * BUFFER_HANDLE_SIZE <= isize::MAX
}

/// Reads an unsigned 16-bit number.
pub fn read_u16(bytes: &[u8], at: usize) -> (value: u16)
    requires
        at + 2 <= bytes@.len(),
    ensures
        value == u16_at(bytes@, at as int),
{
    bytes[at] as u16 + 0x100 * bytes[at + 1] as u16
}

/// Reads an unsigned 64-bit number.
pub fn read_u64(bytes: &[u8], at: usize) -> (value: u64)
    requires
        at + 8 <= bytes@.len(),
    ensures
        value == u64_at(bytes@, at as int),
{
    bytes[at] as u64 + 0x100 * bytes[at + 1] as u64 + 0x1_0000 * bytes[at + 2] as u64 + 0x100_0000
        * bytes[at + 3] as u64 + 0x1_0000_0000 * bytes[at + 4] as u64 + 0x100_0000_0000 * bytes[at
        + 5] as u64 + 0x1_0000_0000_0000 * bytes[at + 6] as u64 + 0x100_0000_0000_0000 * bytes[at
        + 7] as u64
}

/// Reads the fields of a `struct msghdr` that say where the message's buffers are.
pub fn read_message_header(bytes: &[u8]) -> (header: MessageHeader)
    requires
        bytes@.len() == MSGHDR_SIZE,
    ensures
        header == message_header(bytes@),
{
    MessageHeader {
        iov: read_u64(bytes, MSG_IOV_OFFSET),
        iovlen: read_u64(bytes, MSG_IOVLEN_OFFSET),
    }
}

/// Reads a `struct iovec`.
pub fn read_iovec(bytes: &[u8]) -> (piece: RemoteIoVec)
    requires
        bytes@.len() == IOVEC_SIZE,
    ensures
        piece == iovec(bytes@),
{
    RemoteIoVec { base: read_u64(bytes, 0), len: read_u64(bytes, IOV_LEN_OFFSET) }
}

/// Tells whether a list of receive buffers for so many pieces fits the address space.
pub fn can_buffer(count: u64) -> (fits: bool)
    ensures
        fits == buffers_fit(count),
{
    let each: u128 = BUFFER_HANDLE_SIZE as u128;
    assert(count * each <= u128::MAX) by (nonlinear_arith)
        requires
            each == 24,
            count <= u64::MAX,
    ;
    count as u128 * each <= isize::MAX as u128
}

/// Lists where the `struct iovec`s of a message stand.
pub fn locate_iovecs(header: MessageHeader) -> (pieces: Vec<RemoteIoVec>)
    requires
        buffers_fit(header.iovlen),
    ensures
        pieces@ == iovec_array(header),
{
    let mut pieces: Vec<RemoteIoVec> = Vec::with_capacity(header.iovlen as usize);
    let mut base: u64 = header.iov;
    let mut i: u64 = 0;
    while i < header.iovlen
        invariant
            i <= header.iovlen,
            base == address(header.iov, i * IOVEC_SIZE),
            pieces@ == iovec_array(header).take(i as int),
        decreases header.iovlen - i,
    {
        pieces.push(RemoteIoVec { base, len: IOVEC_SIZE as u64 });
        base = base.wrapping_add(IOVEC_SIZE as u64);
        i = i + 1;
    }
    pieces
}

/// Reads the `struct iovec`s of a message.
pub fn read_iovecs(buffers: &Vec<Vec<u8>>) -> (pieces: Vec<RemoteIoVec>)
    requires
        forall|i: int| 0 <= i < buffers@.len() ==> #[trigger] buffers@[i]@.len() == IOVEC_SIZE,
    ensures
        pieces@ == contents(buffers@).map_values(|bytes: Seq<u8>| iovec(bytes)),
{
    let mut pieces: Vec<RemoteIoVec> = Vec::new();
    let mut i: usize = 0;
    while i < buffers.len()
        invariant
            forall|j: int| 0 <= j < buffers@.len() ==> #[trigger] buffers@[j]@.len() == IOVEC_SIZE,
            i <= buffers@.len(),
            pieces@.len() == i,
            forall|j: int| 0 <= j < i ==> #[trigger] pieces@[j] == iovec(buffers@[j]@),
        decreases buffers@.len() - i,
    {
        pieces.push(read_iovec(buffers[i].as_slice()));
        i = i + 1;
    }
    pieces
}

/// Lists the lengths of pieces of memory.
pub fn piece_lengths(pieces: &Vec<RemoteIoVec>) -> (result: Vec<u64>)
    ensures
        result@ == lengths(pieces@),
{
    let mut result: Vec<u64> = Vec::new();
    let mut i: usize = 0;
    while i < pieces.len()
        invariant
            i <= pieces@.len(),
            result@ == lengths(pieces@).take(i as int),
        decreases pieces@.len() - i,
    {
        result.push(pieces[i].len);
        i = i + 1;
    }
    result
}

/// Joins the contents of buffers, in order.
pub fn join_buffers(buffers: &Vec<Vec<u8>>) -> (bytes: Vec<u8>)
    ensures
        bytes@ == contents(buffers@).flatten(),
{
    let mut bytes: Vec<u8> = Vec::new();
    let mut i: usize = 0;
    proof {
        assert(contents(buffers@).take(0) =~= Seq::<Seq<u8>>::empty());
    }
    while i < buffers.len()
        invariant
            i <= buffers@.len(),
            bytes@ == contents(buffers@).take(i as int).flatten(),
        decreases buffers@.len() - i,
    {
        bytes.extend_from_slice(buffers[i].as_slice());
        proof {
            let joined = contents(buffers@).take(i + 1);
            assert(joined.drop_last() =~= contents(buffers@).take(i as int));
            joined.lemma_flatten_and_flatten_alt_are_equivalent();
            joined.drop_last().lemma_flatten_and_flatten_alt_are_equivalent();
        }
        i = i + 1;
    }
    proof {
        assert(contents(buffers@).take(i as int) =~= contents(buffers@));
    }
    bytes
}

/// Whether the eight bytes at `at` are a number, lowest byte first.
pub open spec fn encodes_u64(bytes: Seq<u8>, at: int, value: u64) -> bool {
    &&& bytes[at] == value % 0x100
    &&& bytes[at + 1] == value / 0x100 % 0x100
    &&& bytes[at + 2] == value / 0x1_0000 % 0x100
    &&& bytes[at + 3] == value / 0x100_0000 % 0x100
    &&& bytes[at + 4] == value / 0x1_0000_0000 % 0x100
    &&& bytes[at + 5] == value / 0x100_0000_0000 % 0x100
    &&& bytes[at + 6] == value / 0x1_0000_0000_0000 % 0x100
    &&& bytes[at + 7] == value / 0x100_0000_0000_0000 % 0x100
}

/// Eight bytes that are a number are read as that number.
pub proof fn law_u64_is_read_back(bytes: Seq<u8>, at: int, value: u64)
    requires
        0 <= at,
        at + 8 <= bytes.len(),
        encodes_u64(bytes, at, value),
    ensures
        u64_at(bytes, at) == value,
{
    let q1 = value / 0x100;
    let q2 = value / 0x1_0000;
    let q3 = value / 0x100_0000;
    let q4 = value / 0x1_0000_0000;
    let q5 = value / 0x100_0000_0000;
    let q6 = value / 0x1_0000_0000_0000;
    let q7 = value / 0x100_0000_0000_0000;
    assert(value == value % 0x100 + 0x100 * q1);
    assert(q1 == q1 % 0x100 + 0x100 * q2);
    assert(q2 == q2 % 0x100 + 0x100 * q3);
    assert(q3 == q3 % 0x100 + 0x100 * q4);
    assert(q4 == q4 % 0x100 + 0x100 * q5);
    assert(q5 == q5 % 0x100 + 0x100 * q6);
    assert(q6 == q6 % 0x100 + 0x100 * q7);
    assert(q7 < 0x100);
}

/// Two bytes that are a number, lowest byte first, are read as that number.
pub proof fn law_u16_is_read_back(bytes: Seq<u8>, at: int, value: u16)
    requires
        0 <= at,
        at + 2 <= bytes.len(),
        bytes[at] == value % 0x100,
        bytes[at + 1] == value / 0x100,
    ensures
        u16_at(bytes, at) == value,
{
}

/// Sixteen bytes that are an address followed by a length describe that very piece of memory.
pub proof fn law_iovec_is_read_back(bytes: Seq<u8>, base: u64, len: u64)
    requires
        bytes.len() == 16,
        encodes_u64(bytes, 0, base),
        encodes_u64(bytes, 8, len),
    ensures
        iovec(bytes).base == base,
        iovec(bytes).len == len,
{
    law_u64_is_read_back(bytes, 0, base);
    law_u64_is_read_back(bytes, 8, len);
}

/// A message header says where the descriptors of its buffers stand in its bytes 16 to 23,
/// and how many there are in its bytes 24 to 31.
pub proof fn law_message_header_is_read_back(bytes: Seq<u8>, iov: u64, iovlen: u64)
    requires
        bytes.len() == 56,
        encodes_u64(bytes, 16, iov),
        encodes_u64(bytes, 24, iovlen),
    ensures
        message_header(bytes).iov == iov,
        message_header(bytes).iovlen == iovlen,
{
    law_u64_is_read_back(bytes, 16, iov);
    law_u64_is_read_back(bytes, 24, iovlen);
}

/// The descriptors of a message's buffers are sixteen bytes each, as many as the header says,
/// and stand one after another in an address space that wraps around.
pub proof fn law_iovecs_stand_in_a_row(header: MessageHeader)
    ensures
        iovec_array(header).len() == header.iovlen,
        forall|i: int|
            0 <= i < header.iovlen ==> {
                let piece = #[trigger] iovec_array(header)[i];
                &&& piece.len == 16
                &&& piece.base == (header.iov + 16 * i) % 0x1_0000_0000_0000_0000
            },
{
}

/// A list of receive buffers fits the address space if 24 bytes for each of them do.
pub proof fn law_buffers_fit(count: u64)
    ensures
        buffers_fit(count) <==> 24 * count <= isize::MAX,
{
    assert(count * BUFFER_HANDLE_SIZE == 24 * count) by (nonlinear_arith)
        requires
            BUFFER_HANDLE_SIZE == 24,
    ;
}

/// The contents of buffers are those of each of them, in order, and whole.
pub proof fn law_contents_are_whole(buffers: Seq<Vec<u8>>)
    ensures
        contents(buffers).len() == buffers.len(),
        forall|i: int|
            0 <= i < buffers.len() ==> #[trigger] contents(buffers)[i] == buffers[i]@,
{
}

/// The lengths of pieces are those of each of them, in order.
pub proof fn law_lengths_are_those_of_the_pieces(pieces: Seq<RemoteIoVec>)
    ensures
        lengths(pieces).len() == pieces.len(),
        forall|i: int|
            0 <= i < pieces.len() ==> #[trigger] lengths(pieces)[i] == pieces[i].len,
{
}

} // verus!
