//! What holds of a session as a whole.
use crate::fd_map::{FdMap, SocketModel};
use crate::memory::{
    address, buffers_fit, encodes_u64, iovec, iovec_array, message_header, u16_at, RemoteIoVec, FAMILY_SIZE,
    IOVEC_SIZE, MSGHDR_SIZE, UNIX_PATH_SIZE,
};
use crate::session::{ActionModel, PhaseModel, ReplyModel, SessionModel, WaitEvent};
use crate::sys::unix_family;
use crate::tracer::{
    call_fd, is_wanted, low_i32, read_pieces, socket_name, syscall_kind, until_zero, CaptureModel,
    ContType, PendingModel, ReadModel, Regs, StepModel, SyscallKind, Tracer, FAMILY_READ_SIZE,
};
use crate::transitions::{
    law_address_call, law_buffer_is_read, law_family_is_known, law_header_is_followed,
    law_header_is_read, law_name_is_known, law_new_process, law_new_thread, law_payload_is_saved,
    law_receive_is_entered, law_saved_is_resumed, law_syscall_stop, law_trace_event,
    law_vectors_are_followed, law_waits_when_ready,
};
use vstd::prelude::*;
use vstd::utf8::*;

verus! {

/// The task that is resumed, if there is one.
pub open spec fn resumed(cont: ContType) -> Option<i32> {
    match cont {
        ContType::Cont(tid, _) => Some(tid),
        ContType::Syscall(tid, _) => Some(tid),
        ContType::Exit => None,
    }
}

/// The task that a session is busy with, if there is one.
pub open spec fn busy_with(phase: PhaseModel) -> Option<i32> {
    match phase {
        PhaseModel::Saving { cont } => resumed(cont),
        _ => phase.stopped(),
    }
}

/// The task whose tracer is made by a reply, if one is.
pub open spec fn made_by(state: SessionModel, reply: ReplyModel) -> Option<i32> {
    match (state.phase, reply) {
        (PhaseModel::ThreadId { .. }, ReplyModel::Message { message }) => Some(
            low_i32(message as int) as i32,
        ),
        (PhaseModel::ProcessId { .. }, ReplyModel::Message { message }) => Some(
            low_i32(message as int) as i32,
        ),
        _ => None,
    }
}

/// The task whose table is built anew by a reply, if one is.
pub open spec fn rebuilt_by(state: SessionModel) -> Option<i32> {
    match state.phase {
        PhaseModel::Descriptors { tid } => Some(tid),
        _ => None,
    }
}

/// Whether two traced tasks share their descriptors.
pub open spec fn share(state: SessionModel, a: i32, b: i32) -> bool {
    &&& state.tracers.contains_key(a)
    &&& state.tracers.contains_key(b)
    &&& state.tracers[a].fd_map == state.tracers[b].fd_map
}

/// How many replies a session is away from resuming a task, at most.
pub open spec fn distance(phase: PhaseModel) -> nat {
    match phase {
        PhaseModel::Ready => 0,
        PhaseModel::Waiting => 6,
        PhaseModel::Registers { .. } => 5,
        PhaseModel::ThreadId { .. } => 1,
        PhaseModel::ProcessId { .. } => 1,
        PhaseModel::Descriptors { .. } => 1,
        PhaseModel::Memory { pending, .. } => match pending {
            PendingModel::Family { .. } => 2,
            PendingModel::Path { .. } => 1,
            PendingModel::Header { .. } => 4,
            PendingModel::Vectors { .. } => 3,
            PendingModel::Payload { .. } => 2,
        },
        PhaseModel::Saving { .. } => 1,
    }
}

/// A change in a task is dealt with in finitely many steps: each reply brings the session
/// nearer to the point at which it resumes a task (or goes on, where there is none to resume).
/// It gets there after at most six.
pub proof fn law_progress(state: SessionModel, reply: ReplyModel)
    requires
        state.accepts(reply),
        state.phase != PhaseModel::Ready,
    ensures
        distance(state.next(reply).0.phase) < distance(state.phase),
        state.next(reply).0.phase == PhaseModel::Ready <==> state.next(reply).1.action is Resume,
{
}

/// A session that is busy with a task stays so until it resumes that very task.
pub proof fn law_resumes_the_stopped_task(state: SessionModel, reply: ReplyModel, tid: i32)
    requires
        state.valid(),
        state.accepts(reply),
        busy_with(state.phase) == Some(tid),
    ensures
        match state.next(reply).1.action {
            ActionModel::Resume { cont } => resumed(cont) == Some(tid),
            _ => busy_with(state.next(reply).0.phase) == Some(tid),
        },
{
}

/// What comes of an action is what the session waits for, whatever it is. Of a wait, that is
/// so if a task that stopped is traced.
pub proof fn law_replies_are_accepted(
    state: SessionModel,
    reply: ReplyModel,
    event: WaitEvent,
    regs: Regs,
    message: i64,
    fds: Set<i32>,
)
    requires
        state.valid(),
        state.accepts(reply),
    ensures
        ({
            let (after, output) = state.next(reply);
            match output.action {
                ActionModel::Wait => (match event {
                    WaitEvent::Event { tid, .. } => after.tracers.contains_key(tid),
                    WaitEvent::Syscall { tid } => after.tracers.contains_key(tid),
                    _ => true,
                }) ==> after.accepts(ReplyModel::Waited { event }),
                ActionModel::GetRegs { .. } => after.accepts(ReplyModel::Registers { regs }),
                ActionModel::GetEvent { .. } => after.accepts(ReplyModel::Message { message }),
                ActionModel::ListFds { .. } => after.accepts(ReplyModel::Fds { fds }),
                ActionModel::Read { .. } => after.phase is Memory,
                ActionModel::Save { .. } => after.accepts(ReplyModel::Done),
                ActionModel::Resume { .. } => after.accepts(ReplyModel::Done),
            }
        }),
{
}

/// Copied memory is what the session waits for if it fills buffers of the sizes that were
/// asked for and, where it is the header of a message, that has no more buffers than can be
/// listed.
pub proof fn law_requested_memory_is_accepted(
    state: SessionModel,
    reply: ReplyModel,
    buffers: Seq<Seq<u8>>,
)
    requires
        state.valid(),
        state.accepts(reply),
        state.next(reply).1.action is Read,
        buffers.len() == state.next(reply).1.action->request.buffers.len(),
        forall|i: int|
            0 <= i < buffers.len() ==> #[trigger] buffers[i].len()
                == state.next(reply).1.action->request.buffers[i],
        state.next(reply).0.phase->pending is Header ==> buffers_fit(
            message_header(buffers[0]).iovlen,
        ),
    ensures
        state.next(reply).0.accepts(ReplyModel::Memory { buffers }),
{
}

/// Where only one socket name is of interest, only data of sockets of that name is saved.
pub proof fn law_only_wanted_data_is_saved(state: SessionModel, reply: ReplyModel)
    requires
        state.valid(),
        state.accepts(reply),
    ensures
        state.next(reply).1.action matches ActionModel::Save { capture } ==> is_wanted(
            state.sock,
            capture.name,
        ),
{
}

/// A new thread belongs to the process of the task that made it, and has its descriptors in
/// common with it.
pub proof fn law_thread_shares(state: SessionModel, tid: i32, message: i64)
    requires
        state.valid(),
        state.phase == (PhaseModel::ThreadId { tid }),
    ensures
        ({
            let newtid = low_i32(message as int) as i32;
            let after = state.next(ReplyModel::Message { message }).0;
            &&& share(after, newtid, tid)
            &&& after.tracers[newtid].tgid == state.tracers[tid].tgid
            &&& after.sockets(newtid) == state.sockets(tid)
        }),
{
}

/// Tasks that share their descriptors go on to do so, whatever happens, until one of them
/// runs a new program or its number is given to a new task.
pub proof fn law_sharing_lasts(state: SessionModel, reply: ReplyModel, a: i32, b: i32)
    requires
        state.valid(),
        state.accepts(reply),
        share(state, a, b),
        made_by(state, reply) != Some(a),
        made_by(state, reply) != Some(b),
        rebuilt_by(state) != Some(a),
        rebuilt_by(state) != Some(b),
    ensures
        share(state.next(reply).0, a, b),
        state.next(reply).0.sockets(a) == state.next(reply).0.sockets(b),
{
}

/// A new process starts with the descriptors of the task that made it, and shares them with
/// no other task.
pub proof fn law_process_copies(state: SessionModel, tid: i32, message: i64, other: i32)
    requires
        state.valid(),
        state.phase == (PhaseModel::ProcessId { tid }),
        other != low_i32(message as int),
    ensures
        ({
            let newtid = low_i32(message as int) as i32;
            let after = state.next(ReplyModel::Message { message }).0;
            &&& after.tracers.contains_key(newtid)
            &&& after.tracers[newtid].tgid == newtid
            &&& after.sockets(newtid) == state.sockets(tid)
            &&& !share(after, newtid, other)
        }),
{
}

/// What happens to a task leaves the descriptors of every task that does not share them with
/// it as they are.
pub proof fn law_tasks_are_isolated(state: SessionModel, reply: ReplyModel, other: i32)
    requires
        state.valid(),
        state.accepts(reply),
        state.tracers.contains_key(other),
        made_by(state, reply) != Some(other),
        state.phase.stopped() matches Some(tid) ==> !share(state, tid, other),
    ensures
        state.next(reply).0.tracers.contains_key(other),
        state.next(reply).0.tracers[other] == state.tracers[other],
        state.next(reply).0.sockets(other) == state.sockets(other),
{
}

/// After a task has started a new program, it watches those of its sockets that are still
/// open, and only those. No other task is affected, not even one that shared its descriptors.
pub proof fn law_exec_keeps_inherited(state: SessionModel, tid: i32, fds: Set<i32>, other: i32)
    requires
        state.valid(),
        state.phase == (PhaseModel::Descriptors { tid }),
        state.tracers.contains_key(other),
        other != tid,
    ensures
        ({
            let after = state.next(ReplyModel::Fds { fds }).0;
            &&& after.sockets(tid) == state.sockets(tid).restrict(fds)
            &&& after.tracers[other] == state.tracers[other]
            &&& after.sockets(other) == state.sockets(other)
            &&& !share(after, tid, other)
        }),
{
}

/// A descriptor that is watched stays so, whatever happens, until its task runs a new program
/// or the task's number is given to a new task.
pub proof fn law_watched_stays_watched(state: SessionModel, reply: ReplyModel, tid: i32, fd: i32)
    requires
        state.valid(),
        state.accepts(reply),
        state.tracers.contains_key(tid),
        state.sockets(tid).contains_key(fd),
        made_by(state, reply) != Some(tid),
        rebuilt_by(state) != Some(tid),
    ensures
        state.next(reply).0.tracers.contains_key(tid),
        state.next(reply).0.sockets(tid).contains_key(fd),
{
}

/// A system call on a socket that is not watched changes nothing: the task is let go.
pub proof fn law_unwatched_is_let_go(state: SessionModel, tid: i32, regs: Regs)
    requires
        state.valid(),
        state.phase == (PhaseModel::Registers { tid }),
        syscall_kind(regs.orig_rax) != SyscallKind::Address,
        !state.sockets(tid).contains_key(call_fd(regs)),
    ensures
        ({
            let (after, output) = state.next(ReplyModel::Registers { regs });
            &&& after == SessionModel { phase: PhaseModel::Ready, ..state }
            &&& output.action == ActionModel::Resume { cont: ContType::Cont(tid, None) }
        }),
{
    let (tracer, reaction) = state.tracers[tid].syscall_reaction(state.tables, regs);
    assert(tracer == state.tracers[tid]);
    assert(state.tracers.insert(tid, tracer) =~= state.tracers);
}

/// Data that is received through a watched socket is looked at once for each system call:
/// when the call is made the task runs on to where it returns, when it returns the data is
/// asked for, and the tracer is again as it was before the call.
pub proof fn law_received_is_read_on_return(tracer: Tracer, tables: Seq<FdMap>, regs: Regs)
    requires
        syscall_kind(regs.orig_rax) == SyscallKind::Receive || syscall_kind(regs.orig_rax)
            == SyscallKind::ReceiveMessage,
        tracer.sockets(tables).contains_key(call_fd(regs)),
        !tracer.after_syscall,
    ensures
        ({
            let (entered, first) = tracer.syscall_reaction(tables, regs);
            let (left, second) = entered.syscall_reaction(tables, regs);
            &&& first.step == StepModel::Resume { cont: ContType::Syscall(tracer.tid, None) }
            &&& second.step is Read
            &&& left == tracer
        }),
{
}

/// Data that is sent through a watched socket is asked for as soon as the call is made.
pub proof fn law_sent_is_read_on_call(tracer: Tracer, tables: Seq<FdMap>, regs: Regs)
    requires
        syscall_kind(regs.orig_rax) == SyscallKind::Send || syscall_kind(regs.orig_rax)
            == SyscallKind::SendMessage,
        tracer.sockets(tables).contains_key(call_fd(regs)),
    ensures
        tracer.syscall_reaction(tables, regs).0 == tracer,
        tracer.syscall_reaction(tables, regs).1.step is Read,
{
}

/// Whether a tracer is about to look at the data of a system call: it is made on a watched
/// socket, and sends, or is on its way back from receiving.
pub open spec fn is_looked_at(tracer: Tracer, tables: Seq<FdMap>, regs: Regs) -> bool {
    &&& tracer.sockets(tables).contains_key(call_fd(regs))
    &&& match syscall_kind(regs.orig_rax) {
        SyscallKind::Send | SyscallKind::SendMessage => true,
        SyscallKind::Receive | SyscallKind::ReceiveMessage => tracer.after_syscall,
        _ => false,
    }
}

/// Whether a system call receives.
pub open spec fn receives(regs: Regs) -> bool {
    syscall_kind(regs.orig_rax) == SyscallKind::Receive || syscall_kind(regs.orig_rax)
        == SyscallKind::ReceiveMessage
}

/// What is saved of a system call.
pub open spec fn capture_of(
    state: SessionModel,
    tid: i32,
    regs: Regs,
    data: Seq<u8>,
) -> CaptureModel {
    CaptureModel {
        fd: call_fd(regs),
        name: state.sockets(tid)[call_fd(regs)].name,
        inside: receives(regs),
        data,
    }
}

/// A socket that is given a Unix-domain address is watched under the name in the address if
/// that name is wanted; otherwise what is watched stays as it is. Either way the task is let
/// go. On the way, the address is read where the system call has it.
pub proof fn law_address_is_looked_at(
    state: SessionModel,
    tid: i32,
    regs: Regs,
    family: Seq<u8>,
    field: Seq<u8>,
)
    requires
        state.valid(),
        state.phase == (PhaseModel::Registers { tid }),
        syscall_kind(regs.orig_rax) == SyscallKind::Address,
        family.len() == FAMILY_SIZE,
        field.len() == UNIX_PATH_SIZE,
    ensures
        ({
            let fd = call_fd(regs);
            let name = socket_name(field);
            let (asked, first) = state.next(ReplyModel::Registers { regs });
            let (told, second) = asked.next(ReplyModel::Memory { buffers: seq![family] });
            let (named, third) = told.next(ReplyModel::Memory { buffers: seq![field] });
            let let_go = ActionModel::Resume { cont: ContType::Cont(tid, None) };
            &&& first.action matches ActionModel::Read { request }
            &&& request.pieces == seq![RemoteIoVec { base: regs.rsi, len: FAMILY_READ_SIZE }]
            &&& asked.accepts(ReplyModel::Memory { buffers: seq![family] })
            &&& if u16_at(family, 0) != unix_family() {
                &&& told == SessionModel { phase: PhaseModel::Ready, ..state }
                &&& second.action == let_go
            } else {
                &&& second.action matches ActionModel::Read { request }
                &&& request.pieces == seq![
                    RemoteIoVec {
                        base: address(regs.rsi, FAMILY_SIZE as int) as u64,
                        len: UNIX_PATH_SIZE as u64,
                    },
                ]
                &&& told.accepts(ReplyModel::Memory { buffers: seq![field] })
                &&& third.action == let_go
                &&& named.sockets(tid) == if is_wanted(state.sock, name) {
                    state.sockets(tid).insert(fd, SocketModel { fd, name })
                } else {
                    state.sockets(tid)
                }
            }
        }),
{
    let (asked, first) = state.next(ReplyModel::Registers { regs });
    assert(state.tracers.insert(tid, state.tracers[tid]) =~= state.tracers);
    let (told, second) = asked.next(ReplyModel::Memory { buffers: seq![family] });
    assert(seq![family][0] == family);
    assert(seq![field][0] == field);
}

/// The data of a system call with a single buffer is saved: the buffer is read, and what was
/// in it is saved under the socket's descriptor and name, and then the task is let go.
pub proof fn law_buffer_is_saved(state: SessionModel, tid: i32, regs: Regs, data: Seq<u8>)
    requires
        state.valid(),
        state.phase == (PhaseModel::Registers { tid }),
        syscall_kind(regs.orig_rax) == SyscallKind::Send || syscall_kind(regs.orig_rax)
            == SyscallKind::Receive,
        is_looked_at(state.tracers[tid], state.tables, regs),
    ensures
        ({
            let (asked, first) = state.next(ReplyModel::Registers { regs });
            let (saving, second) = asked.next(ReplyModel::Memory { buffers: seq![data] });
            let (done, third) = saving.next(ReplyModel::Done);
            &&& first.action == ActionModel::Read {
                request: read_pieces(tid, seq![RemoteIoVec { base: regs.rsi, len: regs.rdx }]),
            }
            &&& asked.accepts(ReplyModel::Memory { buffers: seq![data] })
            &&& second.action == ActionModel::Save { capture: capture_of(state, tid, regs, data) }
            &&& saving.accepts(ReplyModel::Done)
            &&& third.action == ActionModel::Resume { cont: ContType::Cont(tid, None) }
        }),
{
    seq![data].lemma_flatten_one_element();
    assert(seq![data].first() == data);
}

/// The data of a system call with a message is saved: the header is read where the call has
/// it, the descriptors of the buffers where the header has them, and the buffers where the
/// descriptors have them. What was in the buffers is joined in order and saved under the
/// socket's descriptor and name, and then the task is let go.
pub proof fn law_message_is_saved(
    state: SessionModel,
    tid: i32,
    regs: Regs,
    header: Seq<u8>,
    vectors: Seq<Seq<u8>>,
    buffers: Seq<Seq<u8>>,
)
    requires
        state.valid(),
        state.phase == (PhaseModel::Registers { tid }),
        syscall_kind(regs.orig_rax) == SyscallKind::SendMessage || syscall_kind(regs.orig_rax)
            == SyscallKind::ReceiveMessage,
        is_looked_at(state.tracers[tid], state.tables, regs),
        header.len() == MSGHDR_SIZE,
        buffers_fit(message_header(header).iovlen),
        forall|i: int| 0 <= i < vectors.len() ==> #[trigger] vectors[i].len() == IOVEC_SIZE,
    ensures
        ({
            let (asked, first) = state.next(ReplyModel::Registers { regs });
            let (headed, second) = asked.next(ReplyModel::Memory { buffers: seq![header] });
            let (located, third) = headed.next(ReplyModel::Memory { buffers: vectors });
            let (saving, fourth) = located.next(ReplyModel::Memory { buffers });
            let (done, fifth) = saving.next(ReplyModel::Done);
            &&& first.action == ActionModel::Read {
                request: read_pieces(
                    tid,
                    seq![RemoteIoVec { base: regs.rsi, len: MSGHDR_SIZE as u64 }],
                ),
            }
            &&& asked.accepts(ReplyModel::Memory { buffers: seq![header] })
            &&& second.action == ActionModel::Read {
                request: read_pieces(tid, iovec_array(message_header(header))),
            }
            &&& headed.accepts(ReplyModel::Memory { buffers: vectors })
            &&& third.action == ActionModel::Read {
                request: read_pieces(tid, vectors.map_values(|bytes: Seq<u8>| iovec(bytes))),
            }
            &&& located.accepts(ReplyModel::Memory { buffers })
            &&& fourth.action == ActionModel::Save {
                capture: capture_of(state, tid, regs, buffers.flatten()),
            }
            &&& saving.accepts(ReplyModel::Done)
            &&& fifth.action == ActionModel::Resume { cont: ContType::Cont(tid, None) }
        }),
{
    assert(seq![header][0] == header);
}

/// The encoding of a character other than zero has no zero bytes.
proof fn lemma_char_has_no_zero_bytes(c: char)
    requires
        c != '\0',
    ensures
        forall|i: int|
            0 <= i < encode_scalar(c as u32).len() ==> #[trigger] encode_scalar(c as u32)[i] != 0u8,
{
    let scalar = c as u32;
    assert(has_width_1_encoding(scalar) && scalar != 0 ==> leading_byte_width_1(scalar) != 0)
        by (bit_vector);
    assert(leading_byte_width_2(scalar) != 0) by (bit_vector);
    assert(leading_byte_width_3(scalar) != 0) by (bit_vector);
    assert(leading_byte_width_4(scalar) != 0) by (bit_vector);
    assert(last_continuation_byte(scalar) != 0) by (bit_vector);
    assert(second_last_continuation_byte(scalar) != 0) by (bit_vector);
    assert(third_last_continuation_byte(scalar) != 0) by (bit_vector);
}

/// The encoding of text without zero characters has no zero bytes.
proof fn lemma_no_zero_bytes(text: Seq<char>)
    requires
        !text.contains('\0'),
    ensures
        !encode_utf8(text).contains(0u8),
    decreases text.len(),
{
    if text.len() > 0 {
        let rest = text.drop_first();
        assert(!rest.contains('\0')) by {
            if rest.contains('\0') {
                let i = choose|i: int| 0 <= i < rest.len() && rest[i] == '\0';
                assert(text[i + 1] == '\0');
            }
        }
        lemma_no_zero_bytes(rest);
        let first = encode_scalar(text[0] as u32);
        assert(text[0] != '\0');
        lemma_char_has_no_zero_bytes(text[0]);
        let whole = first + encode_utf8(rest);
        assert forall|i: int| 0 <= i < whole.len() implies whole[i] != 0 by {
            if i >= first.len() {
                assert(whole[i] == encode_utf8(rest)[i - first.len()]);
            } else {
                assert(whole[i] == first[i]);
            }
        }
    }
}

/// A socket whose address holds a path, followed by zero bytes if there is room for any, is
/// known by that path.
pub proof fn law_name_is_the_path(path: Seq<char>, field: Seq<u8>)
    requires
        !path.contains('\0'),
        encode_utf8(path).len() <= field.len(),
        field.take(encode_utf8(path).len() as int) == encode_utf8(path),
        encode_utf8(path).len() < field.len() ==> field[encode_utf8(path).len() as int] == 0,
    ensures
        socket_name(field) == path,
{
    let bytes = encode_utf8(path);
    lemma_no_zero_bytes(path);
    field.index_of_first_ensures(0u8);
    assert forall|i: int| 0 <= i < bytes.len() implies field[i] != 0 by {
        assert(field[i] == field.take(bytes.len() as int)[i]);
        assert(bytes.contains(bytes[i]));
    }
    if bytes.len() < field.len() {
        assert(field.contains(0u8));
    }
    assert(until_zero(field) =~= bytes);
    encode_utf8_valid_utf8(path);
    encode_utf8_decode_utf8(path);
}

/// What is true of every session: a tracer is entered under the number of its task and has a
/// table, a socket is entered under its descriptor, and where a socket name was given, every
/// socket in every table and the one whose data is being looked at have exactly that name.
pub proof fn law_only_the_given_name_is_watched(state: SessionModel, only: Seq<char>)
    requires
        state.valid(),
        state.sock == Some(only),
    ensures
        forall|tid: i32| #[trigger]
            state.tracers.contains_key(tid) ==> state.tracers[tid].tid == tid
                && state.tracers[tid].fd_map < state.tables.len(),
        forall|id: int, fd: i32|
            0 <= id < state.tables.len() && #[trigger] state.tables[id].contains_key(fd)
                ==> state.tables[id][fd].fd == fd && state.tables[id][fd].name == only,
        state.phase matches PhaseModel::Memory {
            pending: PendingModel::Payload { socket, .. },
            ..
        } ==> socket.name == only,
        state.phase matches PhaseModel::Memory {
            pending: PendingModel::Header { socket, .. },
            ..
        } ==> socket.name == only,
        state.phase matches PhaseModel::Memory {
            pending: PendingModel::Vectors { socket, .. },
            ..
        } ==> socket.name == only,
{
}

/// Where a socket name was given, that name stays the one of interest, and after every reply
/// every socket in every table, and all data that is saved, has exactly that name.
pub proof fn law_only_the_given_name_is_saved(
    state: SessionModel,
    reply: ReplyModel,
    only: Seq<char>,
)
    requires
        state.valid(),
        state.accepts(reply),
        state.sock == Some(only),
    ensures
        state.next(reply).0.sock == Some(only),
        state.next(reply).1.action matches ActionModel::Save { capture } ==> capture.name == only,
        forall|id: int, fd: i32|
            0 <= id < state.next(reply).0.tables.len()
                && #[trigger] state.next(reply).0.tables[id].contains_key(fd)
                ==> state.next(reply).0.tables[id][fd].name == only,
{
    let after = state.next(reply).0;
    assert forall|id: int, fd: i32|
        0 <= id < after.tables.len() && #[trigger] after.tables[id].contains_key(
            fd,
        ) implies after.tables[id][fd].name == only by {
        if id < state.tables.len() && state.tables[id].contains_key(fd) {
            assert(state.tables[id][fd].name == only);
        }
        match state.phase {
            PhaseModel::ProcessId { tid } => {
                let own = state.tracers[tid].fd_map as int;
                assert(state.tracers.contains_key(tid));
                if state.tables[own].contains_key(fd) {
                    assert(state.tables[own][fd].name == only);
                }
            },
            PhaseModel::Descriptors { tid } => {
                let own = state.tracers[tid].fd_map as int;
                assert(state.tracers.contains_key(tid));
                if state.tables[own].contains_key(fd) {
                    assert(state.tables[own][fd].name == only);
                }
            },
            _ => {},
        }
    }
}

/// Which sockets are of interest never changes.
pub proof fn law_interest_is_kept(state: SessionModel, reply: ReplyModel)
    ensures
        state.next(reply).0.sock == state.sock,
{
}

/// The tracer of a task stays as it is through whatever is learned of other tasks. Only when
/// the task's own registers are read or it runs a new program does it change, or when the
/// task's number is given to a new one.
pub proof fn law_other_tracers_are_kept(state: SessionModel, reply: ReplyModel, tid: i32)
    requires
        state.valid(),
        state.accepts(reply),
        state.tracers.contains_key(tid),
        state.phase != (PhaseModel::Registers { tid }),
        state.phase != (PhaseModel::Descriptors { tid }),
        reply matches ReplyModel::Message { message } ==> (message - tid) % 0x1_0000_0000 != 0,
    ensures
        state.next(reply).0.tracers.contains_key(tid),
        state.next(reply).0.tracers[tid] == state.tracers[tid],
{
}

/// Tables are never taken away, and an entry changes only when the name of a socket becomes
/// known: then only under its descriptor, and only in the table of the task that named it.
pub proof fn law_entries_are_kept(state: SessionModel, reply: ReplyModel, id: int, fd: i32)
    requires
        state.valid(),
        state.accepts(reply),
        0 <= id < state.tables.len(),
        state.phase matches PhaseModel::Memory { tid, pending: PendingModel::Path { fd: named } }
            ==> named != fd || state.tracers[tid].fd_map != id,
    ensures
        id < state.next(reply).0.tables.len(),
        state.next(reply).0.tables[id].contains_key(fd) == state.tables[id].contains_key(fd),
        state.tables[id].contains_key(fd) ==> state.next(reply).0.tables[id][fd]
            == state.tables[id][fd],
{
}

/// The sockets of a task are those in the table that its tracer has.
pub proof fn law_sockets_are_in_the_table(state: SessionModel, tid: i32)
    ensures
        state.sockets(tid) == state.tables[state.tracers[tid].fd_map as int],
        state.tracers[tid].sockets(state.tables) == state.sockets(tid),
{
}

/// After a clone, the new task is traced as a thread of the same process, and the two have
/// their sockets in common, whichever task made it.
pub proof fn law_clone_shares(state: SessionModel, tid: i32, message: i64, newtid: i32)
    requires
        state.valid(),
        state.phase == PhaseModel::Waiting,
        state.tracers.contains_key(tid),
        (message - newtid) % 0x1_0000_0000 == 0,
        newtid != tid,
    ensures
        ({
            let event = WaitEvent::Event { tid, ev: 3 };
            let asked = state.next(ReplyModel::Waited { event }).0;
            let (after, output) = asked.next(ReplyModel::Message { message });
            &&& state.next(ReplyModel::Waited { event }).1.action == ActionModel::GetEvent { tid }
            &&& asked.accepts(ReplyModel::Message { message })
            &&& after.tracers.contains_key(newtid)
            &&& after.tracers[newtid].tgid == state.tracers[tid].tgid
            &&& after.tracers[newtid].fd_map == after.tracers[tid].fd_map
            &&& after.tracers[tid] == state.tracers[tid]
            &&& after.tables == state.tables
            &&& output.action == ActionModel::Resume { cont: ContType::Cont(tid, None) }
        }),
{
    let asked = state.next(ReplyModel::Waited { event: WaitEvent::Event { tid, ev: 3 } }).0;
    law_trace_event(state, tid, 3);
    assert(asked.valid());
    law_new_thread(asked, tid, message, newtid);
}

/// After a fork or a vfork, the new task is traced as a process of its own, and has a copy of
/// the sockets of the one that made it in a table that no other task has.
pub proof fn law_fork_copies(
    state: SessionModel,
    tid: i32,
    ev: i32,
    message: i64,
    newtid: i32,
    other: i32,
)
    requires
        state.valid(),
        state.phase == PhaseModel::Waiting,
        state.tracers.contains_key(tid),
        ev == 1 || ev == 2,
        (message - newtid) % 0x1_0000_0000 == 0,
        state.tracers.contains_key(other),
        other != newtid,
    ensures
        ({
            let event = WaitEvent::Event { tid, ev };
            let asked = state.next(ReplyModel::Waited { event }).0;
            let (after, output) = asked.next(ReplyModel::Message { message });
            &&& state.next(ReplyModel::Waited { event }).1.action == ActionModel::GetEvent { tid }
            &&& asked.accepts(ReplyModel::Message { message })
            &&& after.tracers.contains_key(newtid)
            &&& after.tracers[newtid].tgid == newtid
            &&& after.tracers[newtid].fd_map != after.tracers[other].fd_map
            &&& after.tables[after.tracers[newtid].fd_map as int]
                == state.tables[state.tracers[tid].fd_map as int]
            &&& after.tracers[other] == state.tracers[other]
            &&& output.action == ActionModel::Resume { cont: ContType::Cont(tid, None) }
        }),
{
    let asked = state.next(ReplyModel::Waited { event: WaitEvent::Event { tid, ev } }).0;
    law_trace_event(state, tid, ev);
    assert(asked.valid());
    law_new_process(asked, tid, message, newtid);
}

/// A task that binds or connects a socket to a path, from the stop at the call on: the socket
/// is watched under exactly that path if no name was given or the path is that name.
/// Otherwise no table changes.
pub proof fn law_named_socket_is_watched(
    state: SessionModel,
    tid: i32,
    regs: Regs,
    fd: i32,
    path: Seq<char>,
    field: Seq<u8>,
)
    requires
        state.valid(),
        state.phase == PhaseModel::Waiting,
        state.tracers.contains_key(tid),
        regs.orig_rax == 49 || regs.orig_rax == 42,
        (regs.rdi - fd) % 0x1_0000_0000 == 0,
        !path.contains('\0'),
        field.len() == 108,
        encode_utf8(path).len() <= 108,
        field.take(encode_utf8(path).len() as int) == encode_utf8(path),
        encode_utf8(path).len() < 108 ==> field[encode_utf8(path).len() as int] == 0,
    ensures
        ({
            let event = WaitEvent::Event { tid, ev: 7 };
            let stopped = state.next(ReplyModel::Waited { event }).0;
            let asked = stopped.next(ReplyModel::Registers { regs }).0;
            let told = asked.next(ReplyModel::Memory { buffers: seq![seq![1u8, 0u8]] }).0;
            let (after, output) = told.next(ReplyModel::Memory { buffers: seq![field] });
            let id = state.tracers[tid].fd_map as int;
            &&& after.tracers == state.tracers
            &&& output.action == ActionModel::Resume { cont: ContType::Cont(tid, None) }
            &&& state.sock is None || state.sock == Some(path) ==> after.tables
                == state.tables.update(
                id,
                state.tables[id].insert(fd, SocketModel { fd, name: path }),
            )
            &&& state.sock is Some && state.sock != Some(path) ==> after.tables == state.tables
        }),
{
    let stopped = state.next(ReplyModel::Waited { event: WaitEvent::Event { tid, ev: 7 } }).0;
    law_trace_event(state, tid, 7);
    assert(stopped.valid());
    let asked = stopped.next(ReplyModel::Registers { regs }).0;
    law_address_call(stopped, tid, regs, fd);
    assert(asked.valid());
    let told = asked.next(ReplyModel::Memory { buffers: seq![seq![1u8, 0u8]] }).0;
    law_family_is_known(asked, tid, fd, regs.rsi, 1, 0);
    assert(told.valid());
    law_name_is_known(told, tid, fd, field);
    law_name_is_the_path(path, field);
}

/// A task that returns from a call that received one buffer on a watched descriptor: the
/// buffer is read whole and saved whole as data that came in, and the task is let go.
pub proof fn law_received_buffer_is_saved(
    state: SessionModel,
    tid: i32,
    regs: Regs,
    fd: i32,
    data: Seq<u8>,
)
    requires
        state.valid(),
        state.phase == PhaseModel::Waiting,
        state.tracers.contains_key(tid),
        state.tracers[tid].after_syscall,
        regs.orig_rax == 0 || regs.orig_rax == 45,
        (regs.rdi - fd) % 0x1_0000_0000 == 0,
        state.tables[state.tracers[tid].fd_map as int].contains_key(fd),
    ensures
        ({
            let event = WaitEvent::Syscall { tid };
            let (stopped, first) = state.next(ReplyModel::Waited { event });
            let (asked, second) = stopped.next(ReplyModel::Registers { regs });
            let (saving, third) = asked.next(ReplyModel::Memory { buffers: seq![data] });
            let (after, fourth) = saving.next(ReplyModel::Done);
            let name = state.tables[state.tracers[tid].fd_map as int][fd].name;
            &&& first.action == ActionModel::GetRegs { tid }
            &&& second.action == ActionModel::Read {
                request: ReadModel {
                    tid,
                    buffers: seq![regs.rdx],
                    pieces: seq![RemoteIoVec { base: regs.rsi, len: regs.rdx }],
                },
            }
            &&& third.action == ActionModel::Save {
                capture: CaptureModel { fd, name, inside: true, data },
            }
            &&& fourth.action == ActionModel::Resume { cont: ContType::Cont(tid, None) }
            &&& after.phase == PhaseModel::Ready
            &&& after.tables == state.tables
            &&& after.tracers == state.tracers.insert(
                tid,
                Tracer { after_syscall: false, ..state.tracers[tid] },
            )
        }),
{
    let stopped = state.next(ReplyModel::Waited { event: WaitEvent::Syscall { tid } }).0;
    law_syscall_stop(state, tid);
    assert(stopped.valid());
    let asked = stopped.next(ReplyModel::Registers { regs }).0;
    law_buffer_is_read(stopped, tid, regs, fd);
    stopped.lemma_next_valid(ReplyModel::Registers { regs });
    let socket = state.tables[state.tracers[tid].fd_map as int][fd];
    law_payload_is_saved(asked, tid, socket, true, seq![data]);
    seq![data].lemma_flatten_one_element();
    assert(seq![data].first() == data);
    let saving = asked.next(ReplyModel::Memory { buffers: seq![data] }).0;
    law_saved_is_resumed(saving, ContType::Cont(tid, None));
}

/// A task that receives one buffer on a watched descriptor, from the stop at the call on: it
/// runs on to where the call returns, and what it received is saved then.
pub proof fn law_receiving_is_followed_through(
    state: SessionModel,
    tid: i32,
    regs: Regs,
    fd: i32,
    data: Seq<u8>,
)
    requires
        state.valid(),
        state.phase == PhaseModel::Waiting,
        state.tracers.contains_key(tid),
        !state.tracers[tid].after_syscall,
        regs.orig_rax == 0 || regs.orig_rax == 45,
        (regs.rdi - fd) % 0x1_0000_0000 == 0,
        state.tables[state.tracers[tid].fd_map as int].contains_key(fd),
    ensures
        ({
            let event = WaitEvent::Event { tid, ev: 7 };
            let called = state.next(ReplyModel::Waited { event }).0;
            let (entered, first) = called.next(ReplyModel::Registers { regs });
            let waiting = entered.next(ReplyModel::Done).0;
            let back = WaitEvent::Syscall { tid };
            let returned = waiting.next(ReplyModel::Waited { event: back }).0;
            let asked = returned.next(ReplyModel::Registers { regs }).0;
            let (saving, last) = asked.next(ReplyModel::Memory { buffers: seq![data] });
            let name = state.tables[state.tracers[tid].fd_map as int][fd].name;
            &&& first.action == ActionModel::Resume { cont: ContType::Syscall(tid, None) }
            &&& last.action == ActionModel::Save {
                capture: CaptureModel { fd, name, inside: true, data },
            }
            &&& saving.tracers == state.tracers
            &&& saving.tables == state.tables
        }),
{
    let called = state.next(ReplyModel::Waited { event: WaitEvent::Event { tid, ev: 7 } }).0;
    law_trace_event(state, tid, 7);
    assert(called.valid());
    let entered = called.next(ReplyModel::Registers { regs }).0;
    law_receive_is_entered(called, tid, regs, fd);
    called.lemma_next_valid(ReplyModel::Registers { regs });
    let waiting = entered.next(ReplyModel::Done).0;
    law_waits_when_ready(entered);
    assert(waiting.valid());
    law_received_buffer_is_saved(waiting, tid, regs, fd, data);
    assert(waiting.tracers.insert(tid, state.tracers[tid]) =~= state.tracers);
}

/// A task that returns from a call that received a message on a watched descriptor, or sends
/// one: the header, all descriptors and all buffers are read whole, and the data is saved
/// whole and in order, with its direction.
pub proof fn law_message_is_followed_through(
    state: SessionModel,
    tid: i32,
    regs: Regs,
    fd: i32,
    header: Seq<u8>,
    iov: u64,
    vectors: Seq<Seq<u8>>,
    pieces: Seq<RemoteIoVec>,
    buffers: Seq<Seq<u8>>,
)
    requires
        state.valid(),
        state.phase == (PhaseModel::Registers { tid }),
        regs.orig_rax == 46 || (regs.orig_rax == 47 && state.tracers[tid].after_syscall),
        (regs.rdi - fd) % 0x1_0000_0000 == 0,
        state.tables[state.tracers[tid].fd_map as int].contains_key(fd),
        header.len() == 56,
        24 * pieces.len() <= isize::MAX,
        encodes_u64(header, 16, iov),
        encodes_u64(header, 24, pieces.len() as u64),
        vectors.len() == pieces.len(),
        forall|i: int|
            #![trigger vectors[i]]
            0 <= i < vectors.len() ==> vectors[i].len() == 16 && encodes_u64(
                vectors[i],
                0,
                pieces[i].base,
            ) && encodes_u64(vectors[i], 8, pieces[i].len),
    ensures
        ({
            let asked = state.next(ReplyModel::Registers { regs }).0;
            let (headed, first) = asked.next(ReplyModel::Memory { buffers: seq![header] });
            let (located, second) = headed.next(ReplyModel::Memory { buffers: vectors });
            let (saving, third) = located.next(ReplyModel::Memory { buffers });
            let fourth = saving.next(ReplyModel::Done).1;
            let name = state.tables[state.tracers[tid].fd_map as int][fd].name;
            let inside = regs.orig_rax == 47;
            &&& first.action matches ActionModel::Read { request } && request.pieces.len()
                == pieces.len() && (pieces.len() > 0 ==> request.pieces[0].base == iov)
            &&& second.action matches ActionModel::Read { request } && request.pieces == pieces
            &&& third.action == ActionModel::Save {
                capture: CaptureModel { fd, name, inside, data: buffers.flatten() },
            }
            &&& fourth.action == ActionModel::Resume { cont: ContType::Cont(tid, None) }
        }),
{
    let inside = regs.orig_rax == 47;
    let socket = state.tables[state.tracers[tid].fd_map as int][fd];
    let asked = state.next(ReplyModel::Registers { regs }).0;
    law_header_is_read(state, tid, regs, fd);
    state.lemma_next_valid(ReplyModel::Registers { regs });
    let headed = asked.next(ReplyModel::Memory { buffers: seq![header] }).0;
    law_header_is_followed(asked, tid, socket, inside, header, iov, pieces.len() as u64);
    asked.lemma_next_valid(ReplyModel::Memory { buffers: seq![header] });
    let located = headed.next(ReplyModel::Memory { buffers: vectors }).0;
    law_vectors_are_followed(headed, tid, socket, inside, vectors, pieces);
    headed.lemma_next_valid(ReplyModel::Memory { buffers: vectors });
    law_payload_is_saved(located, tid, socket, inside, buffers);
    let saving = located.next(ReplyModel::Memory { buffers }).0;
    law_saved_is_resumed(saving, ContType::Cont(tid, None));
}

} // verus!
