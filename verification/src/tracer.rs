//! One traced task: what it is stopped at, and what is to be done about it.
//!
//! A tracer does not touch the traced task itself. It asks for what it needs to know (a copy
//! of some of the task's memory) and is handed the reply, until it can say how the task is to
//! be resumed.
use crate::fd_map::{FdMap, FdTables, Socket, SocketModel};
use crate::memory::{
    address, buffers_fit, contents, iovec, iovec_array, join_buffers, lengths, locate_iovecs,
    message_header, piece_lengths, read_iovecs, read_message_header, read_u16, u16_at, RemoteIoVec,
    FAMILY_SIZE, IOVEC_SIZE, MSGHDR_SIZE, UNIX_PATH_SIZE,
};
use crate::sys::{
    af_unix, event_codes, event_table, syscall_numbers, syscall_table, unix_family, EventCodes,
    SyscallNumbers,
};
use crate::text::{decimal, push_decimal, push_digits};
use vstd::prelude::*;
use vstd::string::*;
use vstd::utf8::{decode_utf8, valid_utf8};

verus! {

/// Bytes that are asked for when only the address family is wanted.
pub const FAMILY_READ_SIZE: u64 = 4;

/// How a stopped task is resumed.
#[derive(Clone, Copy, Debug, PartialEq, Eq)]
pub enum ContType {
    /// Let the task run, delivering a signal to it if there is one.
    Cont(i32, Option<i32>),
    /// There is no task to resume.
    Exit,
    /// Let the task run until it leaves or enters a system call.
    Syscall(i32, Option<i32>),
}

/// The registers of a stopped task that a system call's number and arguments are in.
#[derive(Clone, Copy, Debug, PartialEq, Eq, Structural)]
pub struct Regs {
    pub orig_rax: u64,
    pub rdi: u64,
    pub rsi: u64,
    pub rdx: u64,
}

/// What a system call means to the tracer.
#[derive(Clone, Copy, Debug, PartialEq, Eq, Structural)]
pub enum SyscallKind {
    /// Gives a socket its address, or that of its peer.
    Address,
    /// Sends one buffer.
    Send,
    /// Receives into one buffer.
    Receive,
    /// Sends a message made of several buffers.
    SendMessage,
    /// Receives a message into several buffers.
    ReceiveMessage,
    /// Anything else.
    Other,
}

/// What a trace event means to the tracer.
#[derive(Clone, Copy, Debug, PartialEq, Eq, Structural)]
pub enum EventKind {
    /// The task is about to make a system call.
    Syscall,
    /// The task has made a thread.
    NewThread,
    /// The task has made a process.
    NewProcess,
    /// The task runs a new program.
    Exec,
    /// Anything else.
    Other,
}

/// A request for a copy of a task's memory: the pieces are to be copied, in order, into
/// zeroed buffers of the given sizes.
#[derive(Debug, PartialEq, Eq)]
pub struct ReadRequest {
    pub tid: i32,
    pub buffers: Vec<u64>,
    pub pieces: Vec<RemoteIoVec>,
}

/// A `ReadRequest`, with its lists as sequences.
#[verifier::ext_equal]
pub struct ReadModel {
    pub tid: i32,
    pub buffers: Seq<u64>,
    pub pieces: Seq<RemoteIoVec>,
}

impl View for ReadRequest {
    type V = ReadModel;

    open spec fn view(&self) -> ReadModel {
        ReadModel { tid: self.tid, buffers: self.buffers@, pieces: self.pieces@ }
    }
}

/// What the copied memory is wanted for.
#[derive(Debug, PartialEq, Eq)]
pub enum Pending {
    /// The family of the socket address at `addr`, given for `fd`.
    Family { fd: i32, addr: u64 },
    /// The path of the Unix-domain address given for `fd`.
    Path { fd: i32 },
    /// The header of a message.
    Header { socket: Socket, inside: bool },
    /// The descriptors of the buffers of a message.
    Vectors { socket: Socket, inside: bool },
    /// What was sent or received.
    Payload { socket: Socket, inside: bool },
}

/// A `Pending`, with its socket as a model.
#[verifier::ext_equal]
pub enum PendingModel {
    Family { fd: i32, addr: u64 },
    Path { fd: i32 },
    Header { socket: SocketModel, inside: bool },
    Vectors { socket: SocketModel, inside: bool },
    Payload { socket: SocketModel, inside: bool },
}

impl View for Pending {
    type V = PendingModel;

    open spec fn view(&self) -> PendingModel {
        match *self {
            Pending::Family { fd, addr } => PendingModel::Family { fd, addr },
            Pending::Path { fd } => PendingModel::Path { fd },
            Pending::Header { socket, inside } => PendingModel::Header { socket: socket@, inside },
            Pending::Vectors { socket, inside } => PendingModel::Vectors { socket: socket@, inside },
            Pending::Payload { socket, inside } => PendingModel::Payload { socket: socket@, inside },
        }
    }
}

impl PendingModel {
    /// Whether a reply has the shape that was asked for.
    pub open spec fn accepts(self, reply: Seq<Seq<u8>>) -> bool {
        match self {
            PendingModel::Family { .. } => reply.len() == 1 && reply[0].len() == FAMILY_SIZE,
            PendingModel::Path { .. } => reply.len() == 1 && reply[0].len() == UNIX_PATH_SIZE,
            PendingModel::Header { .. } => reply.len() == 1 && reply[0].len() == MSGHDR_SIZE
                && buffers_fit(message_header(reply[0]).iovlen),
            PendingModel::Vectors { .. } => forall|i: int|
                0 <= i < reply.len() ==> #[trigger] reply[i].len() == IOVEC_SIZE,
            PendingModel::Payload { .. } => true,
        }
    }
}

impl PendingModel {
    /// What went wrong when the memory could not be copied.
    pub open spec fn failure_text(self) -> Seq<char> {
        match self {
            PendingModel::Family { .. } => "process_vm_readv failed to read socket family"@,
            PendingModel::Path { .. } => "process_vm_readv failed to read unix socket path"@,
            PendingModel::Header { .. } => "process_vm_readv for msghdr failed"@,
            PendingModel::Vectors { .. } => "process_vm_readv for msg_iov array failed"@,
            PendingModel::Payload { .. } => "process_vm_readv for buf failed"@,
        }
    }
}

impl Pending {
    /// Says what went wrong when the memory could not be copied.
    pub fn failure(&self) -> (text: &'static str)
        ensures
            text@ == self@.failure_text(),
    {
        match self {
            Pending::Family { .. } => "process_vm_readv failed to read socket family",
            Pending::Path { .. } => "process_vm_readv failed to read unix socket path",
            Pending::Header { .. } => "process_vm_readv for msghdr failed",
            Pending::Vectors { .. } => "process_vm_readv for msg_iov array failed",
            Pending::Payload { .. } => "process_vm_readv for buf failed",
        }
    }
}

/// Data that passed through a watched socket.
#[derive(Debug, PartialEq, Eq)]
pub struct Capture {
    pub fd: i32,
    pub name: String,
    /// Whether the data came in.
    pub inside: bool,
    pub data: Vec<u8>,
}

/// A `Capture`, with its name and data as sequences.
#[verifier::ext_equal]
pub struct CaptureModel {
    pub fd: i32,
    pub name: Seq<char>,
    pub inside: bool,
    pub data: Seq<u8>,
}

impl View for Capture {
    type V = CaptureModel;

    open spec fn view(&self) -> CaptureModel {
        CaptureModel { fd: self.fd, name: self.name@, inside: self.inside, data: self.data@ }
    }
}

/// What a tracer wants next.
#[derive(Debug, PartialEq, Eq)]
pub enum Step {
    /// A copy of memory; what comes back goes to `Tracer::resume_with`.
    Read { request: ReadRequest, pending: Pending },
    /// That data be kept, and the task resumed after that.
    Save { capture: Capture, cont: ContType },
    /// That the task be resumed.
    Resume { cont: ContType },
}

/// A `Step`, made of models.
#[verifier::ext_equal]
pub enum StepModel {
    Read { request: ReadModel, pending: PendingModel },
    Save { capture: CaptureModel, cont: ContType },
    Resume { cont: ContType },
}

impl View for Step {
    type V = StepModel;

    open spec fn view(&self) -> StepModel {
        match *self {
            Step::Read { request, pending } => StepModel::Read {
                request: request@,
                pending: pending@,
            },
            Step::Save { capture, cont } => StepModel::Save { capture: capture@, cont },
            Step::Resume { cont } => StepModel::Resume { cont },
        }
    }
}

/// What a tracer wants next, and what it has to report.
#[derive(Debug, PartialEq, Eq)]
pub struct Reaction {
    pub log: Option<String>,
    pub step: Step,
}

/// A `Reaction`, made of models.
#[verifier::ext_equal]
pub struct ReactionModel {
    pub log: Option<Seq<char>>,
    pub step: StepModel,
}

/// An optional text as an optional sequence of characters.
pub open spec fn text_view(text: Option<String>) -> Option<Seq<char>> {
    match text {
        Some(string) => Some(string@),
        None => None,
    }
}

impl View for Reaction {
    type V = ReactionModel;

    open spec fn view(&self) -> ReactionModel {
        ReactionModel { log: text_view(self.log), step: self.step@ }
    }
}

/// What a system call means, by its number.
pub open spec fn syscall_kind(nr: u64) -> SyscallKind {
    let table = syscall_table();
    if nr == table.bind || nr == table.connect {
        SyscallKind::Address
    } else if nr == table.sendto || nr == table.write {
        SyscallKind::Send
    } else if nr == table.recvfrom || nr == table.read {
        SyscallKind::Receive
    } else if nr == table.sendmsg {
        SyscallKind::SendMessage
    } else if nr == table.recvmsg {
        SyscallKind::ReceiveMessage
    } else {
        SyscallKind::Other
    }
}

/// What a trace event means, by its number.
pub open spec fn event_kind(ev: i32) -> EventKind {
    let table = event_table();
    if ev == table.seccomp {
        EventKind::Syscall
    } else if ev == table.clone {
        EventKind::NewThread
    } else if ev == table.fork || ev == table.vfork {
        EventKind::NewProcess
    } else if ev == table.execve {
        EventKind::Exec
    } else {
        EventKind::Other
    }
}

/// The number that the low 32 bits stand for, in two's complement.
pub open spec fn low_i32(value: int) -> int {
    let low = value % 0x1_0000_0000;
    if low < 0x8000_0000 {
        low
    } else {
        low - 0x1_0000_0000
    }
}

/// The descriptor that a system call is made on.
pub open spec fn call_fd(regs: Regs) -> i32 {
    low_i32(regs.rdi as int) as i32
}

/// The bytes before the first zero, or all of them if none is zero.
pub open spec fn until_zero(bytes: Seq<u8>) -> Seq<u8> {
    match bytes.index_of_first(0u8) {
        Some(end) => bytes.take(end),
        None => bytes,
    }
}

/// What `String::from_utf8_lossy` makes of bytes.
pub uninterp spec fn lossy_text(bytes: Seq<u8>) -> Seq<char>;

/// The name of a socket, given the path field of its address: the text up to the first zero
/// byte.
pub open spec fn socket_name(field: Seq<u8>) -> Seq<char> {
    let path = until_zero(field);
    if valid_utf8(path) {
        decode_utf8(path)
    } else {
        lossy_text(path)
    }
}

/// Whether a socket of that name is to be watched, where `sock` is the only name of
/// interest, if there is one.
pub open spec fn is_wanted(sock: Option<Seq<char>>, name: Seq<char>) -> bool {
    match sock {
        Some(only) => only == name,
        None => true,
    }
}

/// A line of the log.
pub open spec fn log_line(tid: i32, tgid: i32, message: Seq<char>) -> Seq<char> {
    "[TID: "@ + decimal(tid as int) + " TGID: "@ + decimal(tgid as int) + "] "@ + message
}

/// Calls `String::from_utf8_lossy` of the standard library. The contract names the text, and
/// claims that bytes which are UTF-8 come out as the characters that they encode.
#[verifier::external_body]
fn from_utf8_lossy(bytes: &[u8]) -> (text: String)
    ensures
        text@ == lossy_text(bytes@),
        valid_utf8(bytes@) ==> text@ == decode_utf8(bytes@),
{
    String::from_utf8_lossy(bytes).into_owned()
}

/// Takes the low 32 bits of a register.
pub fn low_half(value: u64) -> (low: i32)
    ensures
        low == low_i32(value as int),
{
    proof {
        assert((value as i32) as int == (if value % 0x1_0000_0000 < 0x8000_0000 {
            (value % 0x1_0000_0000) as int
        } else {
            value % 0x1_0000_0000 - 0x1_0000_0000
        })) by (bit_vector);
    }
    #[verifier::truncate]
    (value as i32)
}

/// Takes the low 32 bits of the message of a trace event.
pub fn low_half_signed(value: i64) -> (low: i32)
    ensures
        low == low_i32(value as int),
{
    proof {
        let bits = value as u64;
        assert((value as i32) == (bits as i32)) by (bit_vector)
            requires
                bits == value as u64,
        ;
        assert(value < 0 ==> bits == value + 0x1_0000_0000_0000_0000) by (bit_vector)
            requires
                bits == value as u64,
        ;
        assert((bits as i32) as int == (if bits % 0x1_0000_0000 < 0x8000_0000 {
            (bits % 0x1_0000_0000) as int
        } else {
            bits % 0x1_0000_0000 - 0x1_0000_0000
        })) by (bit_vector);
    }
    #[verifier::truncate]
    (value as i32)
}

/// Tells what a system call means.
pub fn classify_syscall(nr: u64) -> (kind: SyscallKind)
    ensures
        kind == syscall_kind(nr),
{
    let numbers: SyscallNumbers = syscall_numbers();
    if nr == numbers.bind as u64 || nr == numbers.connect as u64 {
        SyscallKind::Address
    } else if nr == numbers.sendto as u64 || nr == numbers.write as u64 {
        SyscallKind::Send
    } else if nr == numbers.recvfrom as u64 || nr == numbers.read as u64 {
        SyscallKind::Receive
    } else if nr == numbers.sendmsg as u64 {
        SyscallKind::SendMessage
    } else if nr == numbers.recvmsg as u64 {
        SyscallKind::ReceiveMessage
    } else {
        SyscallKind::Other
    }
}

/// Tells whether a socket address, given its first bytes, is one of a Unix-domain socket.
pub fn is_unix_family(bytes: &[u8]) -> (unix: bool)
    requires
        bytes@.len() == FAMILY_SIZE,
    ensures
        unix == (u16_at(bytes@, 0) == unix_family()),
{
    read_u16(bytes, 0) as i32 == af_unix()
}

/// Reads the path field of a Unix-domain socket address.
pub fn read_unix_path(bytes: &[u8]) -> (path: String)
    ensures
        path@ == socket_name(bytes@),
{
    let mut end: usize = 0;
    while end < bytes.len() && bytes[end] != 0
        invariant
            end <= bytes@.len(),
            forall|i: int| 0 <= i < end ==> bytes@[i] != 0,
        decreases bytes@.len() - end,
    {
        end = end + 1;
    }
    proof {
        bytes@.index_of_first_ensures(0u8);
        assert(until_zero(bytes@) =~= bytes@.subrange(0, end as int));
    }
    from_utf8_lossy(vstd::slice::slice_subrange(bytes, 0, end))
}

/// Tells whether a socket of that name is to be watched.
pub fn wants(sock: &Option<String>, name: &String) -> (wanted: bool)
    ensures
        wanted == is_wanted(text_view(*sock), name@),
{
    match sock {
        Some(only) => *only == *name,
        None => true,
    }
}

/// The tracer of one task.
#[derive(Clone, Copy, Debug, PartialEq, Eq, Structural)]
pub struct Tracer {
    pub tid: i32,
    pub tgid: i32,
    /// The number of the table of the descriptors that the task has open.
    pub fd_map: usize,
    /// Whether the task is inside a system call that receives.
    pub after_syscall: bool,
}

impl Tracer {
    /// Makes the tracer of a task, with a table of descriptors that it shares with others or,
    /// if there is none, with one of its own.
    pub fn new(tid: i32, tgid: i32, fd_map_opt: Option<usize>, tables: &mut FdTables) -> (tracer:
        Self)
        ensures
            tracer.tid == tid,
            tracer.tgid == tgid,
            !tracer.after_syscall,
            match fd_map_opt {
                Some(id) => tracer.fd_map == id && final(tables)@ == old(tables)@,
                None => tracer.fd_map == old(tables)@.len() && final(tables)@ == old(tables)@.push(
                    Map::empty(),
                ),
            },
    {
        let fd_map: usize = match fd_map_opt {
            Some(id) => id,
            None => tables.add_empty(),
        };
        Tracer { tid, tgid, fd_map, after_syscall: false }
    }

    /// Writes a line for the log.
    pub fn log(&self, msg: &str) -> (line: String)
        ensures
            line@ == log_line(self.tid, self.tgid, msg@),
    {
        let mut line: String = String::new();
        line.append("[TID: ");
        push_decimal(&mut line, self.tid);
        line.append(" TGID: ");
        push_decimal(&mut line, self.tgid);
        line.append("] ");
        line.append(msg);
        assert(line@ =~= log_line(self.tid, self.tgid, msg@));
        line
    }

    /// The socket that a system call is made on, if it is watched.
    pub fn get_sock(&self, tables: &FdTables, regs: Regs) -> (socket: Option<Socket>)
        requires
            self.fd_map < tables@.len(),
        ensures
            match socket {
                Some(found) => tables@[self.fd_map as int].contains_key(call_fd(regs)) && found@
                    == tables@[self.fd_map as int][call_fd(regs)],
                None => !tables@[self.fd_map as int].contains_key(call_fd(regs)),
            },
    {
        tables.get(self.fd_map, low_half(regs.rdi))
    }
}

/// A request to copy pieces into buffers of the same sizes.
pub open spec fn read_pieces(tid: i32, pieces: Seq<RemoteIoVec>) -> ReadModel {
    ReadModel { tid, buffers: lengths(pieces), pieces }
}

/// The reaction of letting the task go on.
pub open spec fn let_go(tid: i32) -> ReactionModel {
    ReactionModel {
        log: None,
        step: StepModel::Resume { cont: ContType::Cont(tid, None) },
    }
}

impl Tracer {
    /// The watched sockets that the task has open.
    pub open spec fn sockets(self, tables: Seq<FdMap>) -> FdMap {
        tables[self.fd_map as int]
    }

    /// Asks for the family of an address.
    pub open spec fn address_call(self, regs: Regs) -> ReactionModel {
        ReactionModel {
            log: None,
            step: StepModel::Read {
                request: ReadModel {
                    tid: self.tid,
                    buffers: seq![FAMILY_SIZE as u64],
                    pieces: seq![RemoteIoVec { base: regs.rsi, len: FAMILY_READ_SIZE }],
                },
                pending: PendingModel::Family { fd: call_fd(regs), addr: regs.rsi },
            },
        }
    }

    /// What is done about a system call that moves data through a socket.
    ///
    /// Nothing if the socket is not watched. Data that is sent is looked at when the call is
    /// made, data that is received when it returns. Looking starts with `look`.
    pub open spec fn transfer_call(
        self,
        tables: Seq<FdMap>,
        regs: Regs,
        outgoing: bool,
        message: Seq<char>,
        look: StepModel,
    ) -> (Tracer, ReactionModel) {
        if !self.sockets(tables).contains_key(call_fd(regs)) {
            (self, let_go(self.tid))
        } else if !outgoing && !self.after_syscall {
            (
                Tracer { after_syscall: true, ..self },
                ReactionModel {
                    log: None,
                    step: StepModel::Resume { cont: ContType::Syscall(self.tid, None) },
                },
            )
        } else {
            (
                if outgoing {
                    self
                } else {
                    Tracer { after_syscall: false, ..self }
                },
                ReactionModel {
                    log: Some(log_line(self.tid, self.tgid, message)),
                    step: look,
                },
            )
        }
    }

    /// What is done about a system call with a single buffer.
    pub open spec fn buffer_call(
        self,
        tables: Seq<FdMap>,
        regs: Regs,
        outgoing: bool,
    ) -> (Tracer, ReactionModel) {
        self.transfer_call(
            tables,
            regs,
            outgoing,
            if outgoing {
                "sendmsg"@
            } else {
                "recvfrom|read"@
            },
            StepModel::Read {
                request: read_pieces(
                    self.tid,
                    seq![RemoteIoVec { base: regs.rsi, len: regs.rdx }],
                ),
                pending: PendingModel::Payload {
                    socket: self.sockets(tables)[call_fd(regs)],
                    inside: !outgoing,
                },
            },
        )
    }

    /// What is done about a system call with a message header.
    pub open spec fn message_call(
        self,
        tables: Seq<FdMap>,
        regs: Regs,
        outgoing: bool,
    ) -> (Tracer, ReactionModel) {
        self.transfer_call(
            tables,
            regs,
            outgoing,
            if outgoing {
                "sendmsg"@
            } else {
                "recvmsg"@
            },
            StepModel::Read {
                request: read_pieces(
                    self.tid,
                    seq![RemoteIoVec { base: regs.rsi, len: MSGHDR_SIZE as u64 }],
                ),
                pending: PendingModel::Header {
                    socket: self.sockets(tables)[call_fd(regs)],
                    inside: !outgoing,
                },
            },
        )
    }

    /// What is done about a system call.
    pub open spec fn syscall_reaction(self, tables: Seq<FdMap>, regs: Regs) -> (
        Tracer,
        ReactionModel,
    ) {
        match syscall_kind(regs.orig_rax) {
            SyscallKind::Address => (self, self.address_call(regs)),
            SyscallKind::Send => self.buffer_call(tables, regs, true),
            SyscallKind::Receive => self.buffer_call(tables, regs, false),
            SyscallKind::SendMessage => self.message_call(tables, regs, true),
            SyscallKind::ReceiveMessage => self.message_call(tables, regs, false),
            SyscallKind::Other => (
                self,
                ReactionModel {
                    log: Some(
                        log_line(
                            self.tid,
                            self.tgid,
                            "Unregistered syscall: "@ + decimal(regs.orig_rax as int),
                        ),
                    ),
                    step: StepModel::Resume { cont: ContType::Cont(self.tid, None) },
                },
            ),
        }
    }

    /// What is done once the name of a socket is known: it is watched if it is wanted.
    pub open spec fn name_reaction(
        self,
        sock: Option<Seq<char>>,
        tables: Seq<FdMap>,
        fd: i32,
        name: Seq<char>,
    ) -> (Seq<FdMap>, ReactionModel) {
        if is_wanted(sock, name) {
            (
                tables.update(
                    self.fd_map as int,
                    self.sockets(tables).insert(fd, SocketModel { fd, name }),
                ),
                ReactionModel {
                    log: Some(log_line(self.tid, self.tgid, "New fd"@)),
                    step: StepModel::Resume { cont: ContType::Cont(self.tid, None) },
                },
            )
        } else {
            (tables, let_go(self.tid))
        }
    }

    /// What is done once the memory that was asked for has been copied.
    pub open spec fn memory_reaction(
        self,
        sock: Option<Seq<char>>,
        tables: Seq<FdMap>,
        pending: PendingModel,
        reply: Seq<Seq<u8>>,
    ) -> (Seq<FdMap>, ReactionModel) {
        match pending {
            PendingModel::Family { fd, addr } => (
                tables,
                if u16_at(reply[0], 0) == unix_family() {
                    ReactionModel {
                        log: None,
                        step: StepModel::Read {
                            request: read_pieces(
                                self.tid,
                                seq![
                                    RemoteIoVec {
                                        base: address(addr, FAMILY_SIZE as int) as u64,
                                        len: UNIX_PATH_SIZE as u64,
                                    },
                                ],
                            ),
                            pending: PendingModel::Path { fd },
                        },
                    }
                } else {
                    let_go(self.tid)
                },
            ),
            PendingModel::Path { fd } => self.name_reaction(
                sock,
                tables,
                fd,
                socket_name(reply[0]),
            ),
            PendingModel::Header { socket, inside } => (
                tables,
                ReactionModel {
                    log: None,
                    step: StepModel::Read {
                        request: read_pieces(self.tid, iovec_array(message_header(reply[0]))),
                        pending: PendingModel::Vectors { socket, inside },
                    },
                },
            ),
            PendingModel::Vectors { socket, inside } => (
                tables,
                ReactionModel {
                    log: None,
                    step: StepModel::Read {
                        request: read_pieces(
                            self.tid,
                            reply.map_values(|bytes: Seq<u8>| iovec(bytes)),
                        ),
                        pending: PendingModel::Payload { socket, inside },
                    },
                },
            ),
            PendingModel::Payload { socket, inside } => (
                tables,
                ReactionModel {
                    log: None,
                    step: StepModel::Save {
                        capture: CaptureModel {
                            fd: socket.fd,
                            name: socket.name,
                            inside,
                            data: reply.flatten(),
                        },
                        cont: ContType::Cont(self.tid, None),
                    },
                },
            ),
        }
    }

    /// Asks for pieces of the task's memory.
    fn request(&self, pieces: Vec<RemoteIoVec>) -> (request: ReadRequest)
        ensures
            request@ == read_pieces(self.tid, pieces@),
    {
        ReadRequest { tid: self.tid, buffers: piece_lengths(&pieces), pieces }
    }

    /// Lets the task go on.
    fn go_on(&self) -> (reaction: Reaction)
        ensures
            reaction@ == let_go(self.tid),
    {
        Reaction { log: None, step: Step::Resume { cont: ContType::Cont(self.tid, None) } }
    }

    /// Looks at a system call that gives a socket an address: asks for the address family.
    pub fn check_new_fd(&self, regs: Regs) -> (reaction: Reaction)
        ensures
            reaction@ == self.address_call(regs),
    {
        let request = ReadRequest {
            tid: self.tid,
            buffers: vec![FAMILY_SIZE as u64],
            pieces: vec![RemoteIoVec { base: regs.rsi, len: FAMILY_READ_SIZE }],
        };
        assert(request.buffers@ =~= seq![FAMILY_SIZE as u64]);
        assert(request.pieces@ =~= seq![RemoteIoVec { base: regs.rsi, len: FAMILY_READ_SIZE }]);
        Reaction {
            log: None,
            step: Step::Read {
                request,
                pending: Pending::Family { fd: low_half(regs.rdi), addr: regs.rsi },
            },
        }
    }

    /// Looks at a system call that sends or receives a message made of several buffers.
    pub fn intercept_sendmsg_recvmsg(
        &mut self,
        tables: &FdTables,
        regs: Regs,
        is_sendmsg: bool,
    ) -> (reaction: Reaction)
        requires
            old(self).fd_map < tables@.len(),
        ensures
            (*final(self), reaction@) == old(self).message_call(tables@, regs, is_sendmsg),
    {
        let socket: Socket = match self.get_sock(tables, regs) {
            Some(found) => found,
            None => {
                return self.go_on();
            },
        };
        let line: String;
        if !is_sendmsg {
            if !self.after_syscall {
                self.after_syscall = true;
                return Reaction {
                    log: None,
                    step: Step::Resume { cont: ContType::Syscall(self.tid, None) },
                };
            }
            self.after_syscall = false;
            line = self.log("recvmsg");
        } else {
            line = self.log("sendmsg");
        }
        let pieces: Vec<RemoteIoVec> =
            vec![RemoteIoVec { base: regs.rsi, len: MSGHDR_SIZE as u64 }];
        assert(pieces@ =~= seq![RemoteIoVec { base: regs.rsi, len: MSGHDR_SIZE as u64 }]);
        Reaction {
            log: Some(line),
            step: Step::Read {
                request: self.request(pieces),
                pending: Pending::Header { socket, inside: !is_sendmsg },
            },
        }
    }

    /// Looks at a system call that sends or receives a single buffer.
    pub fn intercept_sendto_recvfrom_write_read(
        &mut self,
        tables: &FdTables,
        regs: Regs,
        is_sendto: bool,
    ) -> (reaction: Reaction)
        requires
            old(self).fd_map < tables@.len(),
        ensures
            (*final(self), reaction@) == old(self).buffer_call(tables@, regs, is_sendto),
    {
        let socket: Socket = match self.get_sock(tables, regs) {
            Some(found) => found,
            None => {
                return self.go_on();
            },
        };
        let line: String;
        if !is_sendto {
            if !self.after_syscall {
                self.after_syscall = true;
                return Reaction {
                    log: None,
                    step: Step::Resume { cont: ContType::Syscall(self.tid, None) },
                };
            }
            self.after_syscall = false;
            line = self.log("recvfrom|read");
        } else {
            line = self.log("sendmsg");
        }
        let pieces: Vec<RemoteIoVec> = vec![RemoteIoVec { base: regs.rsi, len: regs.rdx }];
        assert(pieces@ =~= seq![RemoteIoVec { base: regs.rsi, len: regs.rdx }]);
        Reaction {
            log: Some(line),
            step: Step::Read {
                request: self.request(pieces),
                pending: Pending::Payload { socket, inside: !is_sendto },
            },
        }
    }

    /// Looks at a system call.
    pub fn handle_syscall(&mut self, tables: &FdTables, regs: Regs) -> (reaction: Reaction)
        requires
            old(self).fd_map < tables@.len(),
        ensures
            (*final(self), reaction@) == old(self).syscall_reaction(tables@, regs),
    {
        match classify_syscall(regs.orig_rax) {
            SyscallKind::Address => self.check_new_fd(regs),
            SyscallKind::Send => self.intercept_sendto_recvfrom_write_read(tables, regs, true),
            SyscallKind::Receive => self.intercept_sendto_recvfrom_write_read(tables, regs, false),
            SyscallKind::SendMessage => self.intercept_sendmsg_recvmsg(tables, regs, true),
            SyscallKind::ReceiveMessage => self.intercept_sendmsg_recvmsg(tables, regs, false),
            SyscallKind::Other => {
                let mut message: String = String::new();
                message.append("Unregistered syscall: ");
                push_digits(&mut message, regs.orig_rax);
                assert(message@ =~= "Unregistered syscall: "@ + decimal(regs.orig_rax as int));
                Reaction {
                    log: Some(self.log(message.as_str())),
                    step: Step::Resume { cont: ContType::Cont(self.tid, None) },
                }
            },
        }
    }

    /// Watches a socket if one of its name is wanted.
    pub fn watch(
        &self,
        sock: &Option<String>,
        tables: &mut FdTables,
        fd: i32,
        name: String,
    ) -> (reaction: Reaction)
        requires
            self.fd_map < old(tables)@.len(),
        ensures
            (final(tables)@, reaction@) == self.name_reaction(
                text_view(*sock),
                old(tables)@,
                fd,
                name@,
            ),
    {
        if wants(sock, &name) {
            tables.insert(self.fd_map, Socket { fd, name });
            Reaction {
                log: Some(self.log("New fd")),
                step: Step::Resume { cont: ContType::Cont(self.tid, None) },
            }
        } else {
            self.go_on()
        }
    }

    /// Goes on with a system call once the memory that was asked for has been copied.
    pub fn resume_with(
        &self,
        sock: &Option<String>,
        tables: &mut FdTables,
        pending: Pending,
        reply: &Vec<Vec<u8>>,
    ) -> (reaction: Reaction)
        requires
            self.fd_map < old(tables)@.len(),
            pending@.accepts(contents(reply@)),
        ensures
            (final(tables)@, reaction@) == self.memory_reaction(
                text_view(*sock),
                old(tables)@,
                pending@,
                contents(reply@),
            ),
    {
        let ghost bytes = contents(reply@);
        assert(forall|i: int| 0 <= i < reply@.len() ==> #[trigger] reply@[i]@ == bytes[i]);
        match pending {
            Pending::Family { fd, addr } => {
                if !is_unix_family(reply[0].as_slice()) {
                    return self.go_on();
                }
                let base: u64 = addr.wrapping_add(FAMILY_SIZE as u64);
                let pieces: Vec<RemoteIoVec> =
                    vec![RemoteIoVec { base, len: UNIX_PATH_SIZE as u64 }];
                assert(pieces@ =~= seq![RemoteIoVec { base, len: UNIX_PATH_SIZE as u64 }]);
                Reaction {
                    log: None,
                    step: Step::Read {
                        request: self.request(pieces),
                        pending: Pending::Path { fd },
                    },
                }
            },
            Pending::Path { fd } => {
                let name: String = read_unix_path(reply[0].as_slice());
                self.watch(sock, tables, fd, name)
            },
            Pending::Header { socket, inside } => {
                let pieces = locate_iovecs(read_message_header(reply[0].as_slice()));
                Reaction {
                    log: None,
                    step: Step::Read {
                        request: self.request(pieces),
                        pending: Pending::Vectors { socket, inside },
                    },
                }
            },
            Pending::Vectors { socket, inside } => {
                let pieces = read_iovecs(reply);
                Reaction {
                    log: None,
                    step: Step::Read {
                        request: self.request(pieces),
                        pending: Pending::Payload { socket, inside },
                    },
                }
            },
            Pending::Payload { socket, inside } => {
                let data: Vec<u8> = join_buffers(reply);
                Reaction {
                    log: None,
                    step: Step::Save {
                        capture: Capture { fd: socket.fd, name: socket.name, inside, data },
                        cont: ContType::Cont(self.tid, None),
                    },
                }
            },
        }
    }

    /// Tells what a trace event means.
    pub fn handle_ev(&self, ev: i32) -> (kind: EventKind)
        ensures
            kind == event_kind(ev),
    {
        let codes: EventCodes = event_codes();
        if ev == codes.seccomp {
            EventKind::Syscall
        } else if ev == codes.clone {
            EventKind::NewThread
        } else if ev == codes.fork || ev == codes.vfork {
            EventKind::NewProcess
        } else if ev == codes.execve {
            EventKind::Exec
        } else {
            EventKind::Other
        }
    }

    /// The tracer of a thread that the task has made: it shares the task's sockets.
    pub open spec fn thread(self, newtid: i32) -> Tracer {
        Tracer { tid: newtid, tgid: self.tgid, fd_map: self.fd_map, after_syscall: false }
    }

    /// The tracer of a process that the task has made, if its table has that number.
    pub open spec fn process(newtid: i32, fd_map: usize) -> Tracer {
        Tracer { tid: newtid, tgid: newtid, fd_map, after_syscall: false }
    }

    /// Makes the tracer of a process that the task has made: it starts with a copy of the
    /// task's sockets. `message` is the message of the trace event, the new task's number.
    pub fn new_process(&self, tables: &mut FdTables, message: i64) -> (made: (Tracer, String))
        requires
            self.fd_map < old(tables)@.len(),
        ensures
            final(tables)@ == old(tables)@.push(self.sockets(old(tables)@)),
            made.0 == Tracer::process(
                low_i32(message as int) as i32,
                old(tables)@.len() as usize,
            ),
            made.0.fd_map == old(tables)@.len(),
            made.1@ == log_line(
                self.tid,
                self.tgid,
                "FORK|VFORK: new process "@ + decimal(low_i32(message as int)),
            ),
    {
        let newtid: i32 = low_half_signed(message);
        let mut text: String = String::new();
        text.append("FORK|VFORK: new process ");
        push_decimal(&mut text, newtid);
        assert(text@ =~= "FORK|VFORK: new process "@ + decimal(newtid as int));
        let line: String = self.log(text.as_str());
        let fd_map: usize = tables.add_copy(self.fd_map);
        (Tracer::new(newtid, newtid, Some(fd_map), tables), line)
    }

    /// Makes the tracer of a thread that the task has made. `message` is the message of the
    /// trace event, the new task's number.
    pub fn new_thread(&self, tables: &mut FdTables, message: i64) -> (made: (Tracer, String))
        ensures
            final(tables)@ == old(tables)@,
            made.0 == self.thread(low_i32(message as int) as i32),
            made.1@ == log_line(
                self.tid,
                self.tgid,
                "CLONE: new thread "@ + decimal(low_i32(message as int)),
            ),
    {
        let newtid: i32 = low_half_signed(message);
        let mut text: String = String::new();
        text.append("CLONE: new thread ");
        push_decimal(&mut text, newtid);
        assert(text@ =~= "CLONE: new thread "@ + decimal(newtid as int));
        let line: String = self.log(text.as_str());
        (Tracer::new(newtid, self.tgid, Some(self.fd_map), tables), line)
    }

    /// Gives the task a table of its own with those of its sockets that are still open.
    pub fn rebuild_fd_map(&mut self, tables: &mut FdTables, inherited_fds: &Vec<i32>)
        requires
            old(self).fd_map < old(tables)@.len(),
        ensures
            final(tables)@ == old(tables)@.push(
                old(self).sockets(old(tables)@).restrict(inherited_fds@.to_set()),
            ),
            *final(self) == (Tracer { fd_map: final(self).fd_map, ..*old(self) }),
            final(self).fd_map == old(tables)@.len(),
    {
        self.fd_map = tables.add_restricted(self.fd_map, inherited_fds);
    }
}

/// The low half of a number is the 32-bit number that differs from it by a multiple of two to
/// the power of 32.
pub proof fn law_low_half(value: int, low: i32)
    requires
        (value - low) % 0x1_0000_0000 == 0,
    ensures
        low_i32(value) == low,
{
}

/// The descriptor of a system call is the low half of its first argument.
pub proof fn law_call_fd(regs: Regs, fd: i32)
    requires
        (regs.rdi - fd) % 0x1_0000_0000 == 0,
    ensures
        call_fd(regs) == fd,
{
    law_low_half(regs.rdi as int, fd);
}

/// What each system call means: `bind` and `connect` name a socket, `sendto` and `write` send,
/// `recvfrom` and `read` receive, `sendmsg` and `recvmsg` do so with a message.
pub proof fn law_syscall_kinds(nr: u64)
    ensures
        syscall_kind(nr) == SyscallKind::Address <==> nr == 49 || nr == 42,
        syscall_kind(nr) == SyscallKind::Send <==> nr == 44 || nr == 1,
        syscall_kind(nr) == SyscallKind::Receive <==> nr == 45 || nr == 0,
        syscall_kind(nr) == SyscallKind::SendMessage <==> nr == 46,
        syscall_kind(nr) == SyscallKind::ReceiveMessage <==> nr == 47,
{
}

/// What each trace event means.
pub proof fn law_event_kinds(ev: i32)
    ensures
        event_kind(ev) == EventKind::Syscall <==> ev == 7,
        event_kind(ev) == EventKind::NewThread <==> ev == 3,
        event_kind(ev) == EventKind::NewProcess <==> ev == 1 || ev == 2,
        event_kind(ev) == EventKind::Exec <==> ev == 4,
{
}

/// If no name is given all are wanted, otherwise that one and no other.
pub proof fn law_wanted_is_equal(only: Seq<char>, name: Seq<char>)
    ensures
        is_wanted(None, name),
        is_wanted(Some(only), name) <==> only == name,
{
}

/// The name of a socket is made of the bytes before the first zero of the path field, however
/// many there are.
pub proof fn law_name_ends_at_zero(path: Seq<u8>, field: Seq<u8>)
    requires
        path.len() <= field.len(),
        forall|i: int| 0 <= i < path.len() ==> #[trigger] path[i] == field[i] && path[i] != 0,
        path.len() < field.len() ==> field[path.len() as int] == 0,
    ensures
        valid_utf8(path) ==> socket_name(field) == decode_utf8(path),
        !valid_utf8(path) ==> socket_name(field) == lossy_text(path),
{
    field.index_of_first_ensures(0u8);
    assert(forall|i: int| 0 <= i < path.len() ==> field[i] == path[i]);
    if path.len() < field.len() {
        assert(field.contains(0u8));
    }
    assert(until_zero(field) =~= path);
}

/// A line of the log names the task and its process, and ends with the message.
pub proof fn law_log_line(tid: i32, tgid: i32, message: Seq<char>)
    ensures
        log_line(tid, tgid, message) == seq!['[', 'T', 'I', 'D', ':', ' '] + decimal(tid as int)
            + seq![' ', 'T', 'G', 'I', 'D', ':', ' '] + decimal(tgid as int) + seq![']', ' ']
            + message,
{
    reveal_strlit("[TID: ");
    reveal_strlit(" TGID: ");
    reveal_strlit("] ");
    assert("[TID: "@ =~= seq!['[', 'T', 'I', 'D', ':', ' ']);
    assert(" TGID: "@ =~= seq![' ', 'T', 'G', 'I', 'D', ':', ' ']);
    assert("] "@ =~= seq![']', ' ']);
}

/// The models of the values that pass between a tracer and its caller are whole: each field
/// stands in them as it is.
pub proof fn law_models_are_whole(
    request: ReadRequest,
    capture: Capture,
    reaction: Reaction,
    socket: Socket,
    text: String,
)
    ensures
        request@.tid == request.tid,
        request@.buffers == request.buffers@,
        request@.pieces == request.pieces@,
        capture@.fd == capture.fd,
        capture@.name == capture.name@,
        capture@.inside == capture.inside,
        capture@.data == capture.data@,
        reaction@.log == text_view(reaction.log),
        reaction@.step == reaction.step@,
        socket@.fd == socket.fd,
        socket@.name == socket.name@,
        text_view(Some(text)) == Some(text@),
        text_view(None) is None,
{
}

/// The model of a step is the same step, made of the models of its parts.
pub proof fn law_step_model_is_whole(
    step: Step,
    request: ReadRequest,
    pending: Pending,
    capture: Capture,
    cont: ContType,
)
    ensures
        step == (Step::Read { request, pending }) ==> step@ == (StepModel::Read {
            request: request@,
            pending: pending@,
        }),
        step == (Step::Save { capture, cont }) ==> step@ == (StepModel::Save {
            capture: capture@,
            cont,
        }),
        step == (Step::Resume { cont }) ==> step@ == (StepModel::Resume { cont }),
{
}

/// The model of what memory is wanted for is the same, made of the model of the socket.
pub proof fn law_pending_model_is_whole(
    pending: Pending,
    fd: i32,
    addr: u64,
    socket: Socket,
    inside: bool,
)
    ensures
        pending == (Pending::Family { fd, addr }) ==> pending@ == (PendingModel::Family {
            fd,
            addr,
        }),
        pending == (Pending::Path { fd }) ==> pending@ == (PendingModel::Path { fd }),
        pending == (Pending::Header { socket, inside }) ==> pending@ == (PendingModel::Header {
            socket: socket@,
            inside,
        }),
        pending == (Pending::Vectors { socket, inside }) ==> pending@ == (PendingModel::Vectors {
            socket: socket@,
            inside,
        }),
        pending == (Pending::Payload { socket, inside }) ==> pending@ == (PendingModel::Payload {
            socket: socket@,
            inside,
        }),
{
}

/// Each failure to copy memory is told by its own words.
pub proof fn law_failure_texts(fd: i32, addr: u64, socket: SocketModel, inside: bool)
    ensures
        (PendingModel::Family { fd, addr }).failure_text()
            == "process_vm_readv failed to read socket family"@,
        (PendingModel::Path { fd }).failure_text()
            == "process_vm_readv failed to read unix socket path"@,
        (PendingModel::Header { socket, inside }).failure_text()
            == "process_vm_readv for msghdr failed"@,
        (PendingModel::Vectors { socket, inside }).failure_text()
            == "process_vm_readv for msg_iov array failed"@,
        (PendingModel::Payload { socket, inside }).failure_text()
            == "process_vm_readv for buf failed"@,
{
}

} // verus!
