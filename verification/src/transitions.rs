//! What each reply leads to, whatever the session's state: the next state as a whole, the next
//! action, and what is reported, in the numbers of the kernel interface.
use crate::fd_map::SocketModel;
use crate::memory::{
    encodes_u64, law_buffers_fit, law_iovec_is_read_back, law_iovecs_stand_in_a_row,
    law_message_header_is_read_back, RemoteIoVec,
};
use crate::session::{
    ActionModel, OutputModel, PhaseModel, ReplyModel, SessionModel, WaitEvent,
};
use crate::text::decimal;
use crate::tracer::{
    law_call_fd, law_low_half, log_line, socket_name, CaptureModel, ContType, PendingModel,
    ReadModel, Regs, Tracer,
};
use vstd::prelude::*;

verus! {

/// A session that has resumed a task, or has just started, waits for the next change.
pub proof fn law_waits_when_ready(state: SessionModel)
    requires
        state.phase == PhaseModel::Ready,
    ensures
        state.accepts(ReplyModel::Done),
        state.next(ReplyModel::Done) == (
            SessionModel { phase: PhaseModel::Waiting, ..state },
            OutputModel { log: None, action: ActionModel::Wait },
        ),
{
}

/// A task that a signal stopped, or that goes on, is let run without a signal, and one that a
/// signal ended is handed that signal, whether it is traced or not. Only where a task came to
/// its end or nothing changed is nothing resumed. None of this changes anything else.
pub proof fn law_plain_changes(state: SessionModel, tid: i32, sig: i32)
    requires
        state.phase == PhaseModel::Waiting,
    ensures
        ({
            let after = SessionModel { phase: PhaseModel::Ready, ..state };
            let resume = |cont: ContType|
                (after, OutputModel { log: None, action: ActionModel::Resume { cont } });
            let stopped = ReplyModel::Waited { event: WaitEvent::Stopped { tid } };
            let continued = ReplyModel::Waited { event: WaitEvent::Continued { tid } };
            let signaled = ReplyModel::Waited { event: WaitEvent::Signaled { tid, sig } };
            let exited = ReplyModel::Waited { event: WaitEvent::Exited };
            let unchanged = ReplyModel::Waited { event: WaitEvent::StillAlive };
            &&& state.accepts(stopped) && state.next(stopped) == resume(ContType::Cont(tid, None))
            &&& state.accepts(continued) && state.next(continued) == resume(
                ContType::Cont(tid, None),
            )
            &&& state.accepts(signaled) && state.next(signaled) == resume(
                ContType::Cont(tid, Some(sig)),
            )
            &&& state.accepts(exited) && state.next(exited) == resume(ContType::Exit)
            &&& state.accepts(unchanged) && state.next(unchanged) == resume(ContType::Exit)
        }),
{
}

/// Of every traced task that stops at a system call the registers are read; one that is not
/// traced is not accepted.
pub proof fn law_syscall_stop(state: SessionModel, tid: i32)
    requires
        state.valid(),
        state.phase == PhaseModel::Waiting,
    ensures
        ({
            let reply = ReplyModel::Waited { event: WaitEvent::Syscall { tid } };
            &&& state.accepts(reply) <==> state.tracers.contains_key(tid)
            &&& state.tracers.contains_key(tid) ==> state.next(reply) == (
                SessionModel { phase: PhaseModel::Registers { tid }, ..state },
                OutputModel { log: None, action: ActionModel::GetRegs { tid } },
            )
        }),
{
}

/// What the trace events of every traced task lead to: at a seccomp stop its registers are
/// read, after a clone the number of a new thread, after a fork or vfork that of a new process,
/// and after an exec the descriptors of its process are listed. At any other it is let run.
pub proof fn law_trace_event(state: SessionModel, tid: i32, ev: i32)
    requires
        state.valid(),
        state.phase == PhaseModel::Waiting,
    ensures
        ({
            let reply = ReplyModel::Waited { event: WaitEvent::Event { tid, ev } };
            let tgid = state.tracers[tid].tgid;
            let (after, output) = state.next(reply);
            &&& state.accepts(reply) <==> state.tracers.contains_key(tid)
            &&& state.tracers.contains_key(tid) ==> {
                &&& after == SessionModel { phase: after.phase, ..state }
                &&& ev != 4 ==> output.log is None
                &&& ev == 7 ==> after.phase == (PhaseModel::Registers { tid }) && output.action == (
                ActionModel::GetRegs { tid })
                &&& ev == 3 ==> after.phase == (PhaseModel::ThreadId { tid }) && output.action == (
                ActionModel::GetEvent { tid })
                &&& ev == 1 || ev == 2 ==> after.phase == (PhaseModel::ProcessId { tid })
                    && output.action == (ActionModel::GetEvent { tid })
                &&& ev == 4 ==> after.phase == (PhaseModel::Descriptors { tid }) && output.action
                    == (ActionModel::ListFds { tgid }) && output.log == Some(
                    log_line(tid, tgid, "EXEC: rebuilding fd map"@),
                )
                &&& ev != 7 && ev != 3 && ev != 1 && ev != 2 && ev != 4 ==> after.phase
                    == PhaseModel::Ready && output.action == (ActionModel::Resume {
                    cont: ContType::Cont(tid, None),
                })
            }
        }),
{
}

/// A new thread is traced as one of the process of the task that made it, with that task's
/// table, and has no system call under way. No table changes, and no other tracer.
pub proof fn law_new_thread(state: SessionModel, tid: i32, message: i64, newtid: i32)
    requires
        state.valid(),
        state.phase == (PhaseModel::ThreadId { tid }),
        (message - newtid) % 0x1_0000_0000 == 0,
    ensures
        state.accepts(ReplyModel::Message { message }),
        state.next(ReplyModel::Message { message }) == (
            SessionModel {
                tracers: state.tracers.insert(
                    newtid,
                    Tracer {
                        tid: newtid,
                        tgid: state.tracers[tid].tgid,
                        fd_map: state.tracers[tid].fd_map,
                        after_syscall: false,
                    },
                ),
                phase: PhaseModel::Ready,
                ..state
            },
            OutputModel {
                log: Some(
                    log_line(
                        tid,
                        state.tracers[tid].tgid,
                        "CLONE: new thread "@ + decimal(newtid as int),
                    ),
                ),
                action: ActionModel::Resume { cont: ContType::Cont(tid, None) },
            },
        ),
{
    law_low_half(message as int, newtid);
}

/// A new process is traced as its own, with a table of its own that is a copy of that of the
/// task that made it, and has no system call under way. No other table or tracer changes.
pub proof fn law_new_process(state: SessionModel, tid: i32, message: i64, newtid: i32)
    requires
        state.valid(),
        state.phase == (PhaseModel::ProcessId { tid }),
        (message - newtid) % 0x1_0000_0000 == 0,
    ensures
        state.accepts(ReplyModel::Message { message }),
        ({
            let (after, output) = state.next(ReplyModel::Message { message });
            let made = after.tracers[newtid];
            &&& after == SessionModel {
                tables: state.tables.push(state.tables[state.tracers[tid].fd_map as int]),
                tracers: state.tracers.insert(newtid, made),
                phase: PhaseModel::Ready,
                ..state
            }
            &&& made.tid == newtid
            &&& made.tgid == newtid
            &&& made.fd_map == state.tables.len()
            &&& !made.after_syscall
            &&& output == OutputModel {
                log: Some(
                    log_line(
                        tid,
                        state.tracers[tid].tgid,
                        "FORK|VFORK: new process "@ + decimal(newtid as int),
                    ),
                ),
                action: ActionModel::Resume { cont: ContType::Cont(tid, None) },
            }
        }),
{
    law_low_half(message as int, newtid);
}

/// A new program has a table of its own with exactly those entries of its task's table whose
/// descriptors are still open. Nothing else of its tracer changes, and no other table or
/// tracer does.
pub proof fn law_new_program(state: SessionModel, tid: i32, fds: Set<i32>)
    requires
        state.valid(),
        state.phase == (PhaseModel::Descriptors { tid }),
    ensures
        state.accepts(ReplyModel::Fds { fds }),
        ({
            let (after, output) = state.next(ReplyModel::Fds { fds });
            let task = state.tracers[tid];
            let rebuilt = after.tracers[tid];
            let before = state.tables[task.fd_map as int];
            let kept = after.tables.last();
            &&& after == SessionModel {
                tables: state.tables.push(kept),
                tracers: state.tracers.insert(tid, rebuilt),
                phase: PhaseModel::Ready,
                ..state
            }
            &&& rebuilt == Tracer { fd_map: rebuilt.fd_map, ..task }
            &&& rebuilt.fd_map == state.tables.len()
            &&& forall|fd: i32| #[trigger]
                kept.contains_key(fd) <==> before.contains_key(fd) && fds.contains(fd)
            &&& forall|fd: i32| #[trigger] kept.contains_key(fd) ==> kept[fd] == before[fd]
            &&& output == OutputModel {
                log: None,
                action: ActionModel::Resume { cont: ContType::Cont(tid, None) },
            }
        }),
{
}

/// When a task calls `bind` or `connect`, the two bytes of the family are read at the address
/// that is its second argument. Nothing else changes.
pub proof fn law_address_call(state: SessionModel, tid: i32, regs: Regs, fd: i32)
    requires
        state.valid(),
        state.phase == (PhaseModel::Registers { tid }),
        regs.orig_rax == 49 || regs.orig_rax == 42,
        (regs.rdi - fd) % 0x1_0000_0000 == 0,
    ensures
        state.accepts(ReplyModel::Registers { regs }),
        state.next(ReplyModel::Registers { regs }) == (
            SessionModel {
                phase: PhaseModel::Memory {
                    tid,
                    pending: PendingModel::Family { fd, addr: regs.rsi },
                },
                ..state
            },
            OutputModel {
                log: None,
                action: ActionModel::Read {
                    request: ReadModel {
                        tid,
                        buffers: seq![2u64],
                        pieces: seq![RemoteIoVec { base: regs.rsi, len: 4 }],
                    },
                },
            },
        ),
{
    law_call_fd(regs, fd);
    assert(state.tracers.insert(tid, state.tracers[tid]) =~= state.tracers);
    let (after, output) = state.next(ReplyModel::Registers { regs });
    assert(output.action->request.buffers =~= seq![2u64]);
}

/// A call that sends or receives on a descriptor that is not in the table of its task is let
/// go, and nothing changes or is reported.
pub proof fn law_unwatched_call(state: SessionModel, tid: i32, regs: Regs, fd: i32)
    requires
        state.valid(),
        state.phase == (PhaseModel::Registers { tid }),
        regs.orig_rax == 0 || regs.orig_rax == 1 || 44 <= regs.orig_rax <= 47,
        (regs.rdi - fd) % 0x1_0000_0000 == 0,
        !state.tables[state.tracers[tid].fd_map as int].contains_key(fd),
    ensures
        state.accepts(ReplyModel::Registers { regs }),
        state.next(ReplyModel::Registers { regs }) == (
            SessionModel { phase: PhaseModel::Ready, ..state },
            OutputModel {
                log: None,
                action: ActionModel::Resume { cont: ContType::Cont(tid, None) },
            },
        ),
{
    law_call_fd(regs, fd);
    assert(state.tracers.insert(tid, state.tracers[tid]) =~= state.tracers);
}

/// A call of another kind is reported by its number and let go, and nothing changes.
pub proof fn law_other_call(state: SessionModel, tid: i32, regs: Regs)
    requires
        state.valid(),
        state.phase == (PhaseModel::Registers { tid }),
        regs.orig_rax != 0 && regs.orig_rax != 1,
        !(44 <= regs.orig_rax <= 47),
        regs.orig_rax != 49 && regs.orig_rax != 42,
    ensures
        state.accepts(ReplyModel::Registers { regs }),
        state.next(ReplyModel::Registers { regs }) == (
            SessionModel { phase: PhaseModel::Ready, ..state },
            OutputModel {
                log: Some(
                    log_line(
                        tid,
                        state.tracers[tid].tgid,
                        "Unregistered syscall: "@ + decimal(regs.orig_rax as int),
                    ),
                ),
                action: ActionModel::Resume { cont: ContType::Cont(tid, None) },
            },
        ),
{
    assert(state.tracers.insert(tid, state.tracers[tid]) =~= state.tracers);
}

/// When a task enters a call that receives on a watched descriptor, it runs on to where the
/// call returns, and only that is remembered.
pub proof fn law_receive_is_entered(state: SessionModel, tid: i32, regs: Regs, fd: i32)
    requires
        state.valid(),
        state.phase == (PhaseModel::Registers { tid }),
        regs.orig_rax == 0 || regs.orig_rax == 45 || regs.orig_rax == 47,
        (regs.rdi - fd) % 0x1_0000_0000 == 0,
        state.tables[state.tracers[tid].fd_map as int].contains_key(fd),
        !state.tracers[tid].after_syscall,
    ensures
        state.accepts(ReplyModel::Registers { regs }),
        state.next(ReplyModel::Registers { regs }) == (
            SessionModel {
                tracers: state.tracers.insert(
                    tid,
                    Tracer { after_syscall: true, ..state.tracers[tid] },
                ),
                phase: PhaseModel::Ready,
                ..state
            },
            OutputModel {
                log: None,
                action: ActionModel::Resume { cont: ContType::Syscall(tid, None) },
            },
        ),
{
    law_call_fd(regs, fd);
}

/// When a task sends one buffer on a watched descriptor, or returns from receiving one, the
/// whole buffer is read: as many bytes as the third argument says, where the second says. A
/// return is forgotten by that; nothing else changes.
pub proof fn law_buffer_is_read(state: SessionModel, tid: i32, regs: Regs, fd: i32)
    requires
        state.valid(),
        state.phase == (PhaseModel::Registers { tid }),
        regs.orig_rax == 1 || regs.orig_rax == 44 || ((regs.orig_rax == 0 || regs.orig_rax == 45)
            && state.tracers[tid].after_syscall),
        (regs.rdi - fd) % 0x1_0000_0000 == 0,
        state.tables[state.tracers[tid].fd_map as int].contains_key(fd),
    ensures
        state.accepts(ReplyModel::Registers { regs }),
        ({
            let task = state.tracers[tid];
            let socket = state.tables[task.fd_map as int][fd];
            let inside = regs.orig_rax == 0 || regs.orig_rax == 45;
            let text = if inside {
                "recvfrom|read"@
            } else {
                "sendmsg"@
            };
            let left = if inside {
                Tracer { after_syscall: false, ..task }
            } else {
                task
            };
            state.next(ReplyModel::Registers { regs }) == (
                SessionModel {
                    tracers: state.tracers.insert(tid, left),
                    phase: PhaseModel::Memory {
                        tid,
                        pending: PendingModel::Payload { socket, inside },
                    },
                    ..state
                },
                OutputModel {
                    log: Some(log_line(tid, task.tgid, text)),
                    action: ActionModel::Read {
                        request: ReadModel {
                            tid,
                            buffers: seq![regs.rdx],
                            pieces: seq![RemoteIoVec { base: regs.rsi, len: regs.rdx }],
                        },
                    },
                },
            )
        }),
{
    law_call_fd(regs, fd);
    let (after, output) = state.next(ReplyModel::Registers { regs });
    assert(output.action->request.buffers =~= seq![regs.rdx]);
}

/// When a task sends a message on a watched descriptor, or returns from receiving one, the 56
/// bytes of the header are read where the second argument says. A return is forgotten by
/// that; nothing else changes.
pub proof fn law_header_is_read(state: SessionModel, tid: i32, regs: Regs, fd: i32)
    requires
        state.valid(),
        state.phase == (PhaseModel::Registers { tid }),
        regs.orig_rax == 46 || (regs.orig_rax == 47 && state.tracers[tid].after_syscall),
        (regs.rdi - fd) % 0x1_0000_0000 == 0,
        state.tables[state.tracers[tid].fd_map as int].contains_key(fd),
    ensures
        state.accepts(ReplyModel::Registers { regs }),
        ({
            let task = state.tracers[tid];
            let socket = state.tables[task.fd_map as int][fd];
            let inside = regs.orig_rax == 47;
            let text = if inside {
                "recvmsg"@
            } else {
                "sendmsg"@
            };
            let left = if inside {
                Tracer { after_syscall: false, ..task }
            } else {
                task
            };
            state.next(ReplyModel::Registers { regs }) == (
                SessionModel {
                    tracers: state.tracers.insert(tid, left),
                    phase: PhaseModel::Memory {
                        tid,
                        pending: PendingModel::Header { socket, inside },
                    },
                    ..state
                },
                OutputModel {
                    log: Some(log_line(tid, task.tgid, text)),
                    action: ActionModel::Read {
                        request: ReadModel {
                            tid,
                            buffers: seq![56u64],
                            pieces: seq![RemoteIoVec { base: regs.rsi, len: 56 }],
                        },
                    },
                },
            )
        }),
{
    law_call_fd(regs, fd);
    let (after, output) = state.next(ReplyModel::Registers { regs });
    assert(output.action->request.buffers =~= seq![56u64]);
}

/// Where the family is 1, that of Unix-domain sockets, the 108 bytes of the path are read two
/// bytes further on. Where it is another, the task is let go. Nothing else changes.
pub proof fn law_family_is_known(
    state: SessionModel,
    tid: i32,
    fd: i32,
    addr: u64,
    low: u8,
    high: u8,
)
    requires
        state.valid(),
        state.phase == (PhaseModel::Memory { tid, pending: PendingModel::Family { fd, addr } }),
    ensures
        ({
            let reply = ReplyModel::Memory { buffers: seq![seq![low, high]] };
            let (after, output) = state.next(reply);
            let path = output.action->request.pieces[0];
            &&& state.accepts(reply)
            &&& output.log is None
            &&& low == 1 && high == 0 ==> {
                &&& after == SessionModel {
                    phase: PhaseModel::Memory { tid, pending: PendingModel::Path { fd } },
                    ..state
                }
                &&& output.action == ActionModel::Read {
                    request: ReadModel { tid, buffers: seq![108u64], pieces: seq![path] },
                }
                &&& path.base == (addr + 2) % 0x1_0000_0000_0000_0000
                &&& path.len == 108
            }
            &&& !(low == 1 && high == 0) ==> {
                &&& after == SessionModel { phase: PhaseModel::Ready, ..state }
                &&& output.action == ActionModel::Resume { cont: ContType::Cont(tid, None) }
            }
        }),
{
    let family = seq![low, high];
    assert(seq![family][0] == family);
    let (after, output) = state.next(ReplyModel::Memory { buffers: seq![family] });
    if low == 1 && high == 0 {
        assert(output.action->request.buffers =~= seq![108u64]);
    }
}

/// A socket whose name becomes known is entered in its task's table if no name was given or
/// that very one was, in place of what the descriptor had there. Otherwise nothing changes.
/// Either way the task is let go.
pub proof fn law_name_is_known(state: SessionModel, tid: i32, fd: i32, field: Seq<u8>)
    requires
        state.valid(),
        state.phase == (PhaseModel::Memory { tid, pending: PendingModel::Path { fd } }),
        field.len() == 108,
    ensures
        ({
            let reply = ReplyModel::Memory { buffers: seq![field] };
            let name = socket_name(field);
            let id = state.tracers[tid].fd_map as int;
            let let_go = ActionModel::Resume { cont: ContType::Cont(tid, None) };
            &&& state.accepts(reply)
            &&& state.sock is None || state.sock == Some(name) ==> state.next(reply) == (
                SessionModel {
                    tables: state.tables.update(
                        id,
                        state.tables[id].insert(fd, SocketModel { fd, name }),
                    ),
                    phase: PhaseModel::Ready,
                    ..state
                },
                OutputModel {
                    log: Some(log_line(tid, state.tracers[tid].tgid, "New fd"@)),
                    action: let_go,
                },
            )
            &&& state.sock is Some && state.sock != Some(name) ==> state.next(reply) == (
                SessionModel { phase: PhaseModel::Ready, ..state },
                OutputModel { log: None, action: let_go },
            )
        }),
{
    assert(seq![field][0] == field);
}

/// When the header of a message has been read, so are all the descriptors of its buffers: as
/// many as the header says, sixteen bytes each, one after another from where it says. Nothing
/// else changes. A header with more than can be listed is not accepted.
pub proof fn law_header_is_followed(
    state: SessionModel,
    tid: i32,
    socket: SocketModel,
    inside: bool,
    header: Seq<u8>,
    iov: u64,
    iovlen: u64,
)
    requires
        state.valid(),
        state.phase == (PhaseModel::Memory {
            tid,
            pending: PendingModel::Header { socket, inside },
        }),
        header.len() == 56,
        encodes_u64(header, 16, iov),
        encodes_u64(header, 24, iovlen),
    ensures
        ({
            let reply = ReplyModel::Memory { buffers: seq![header] };
            let (after, output) = state.next(reply);
            let request = output.action->request;
            &&& state.accepts(reply) <==> 24 * iovlen <= isize::MAX
            &&& after == SessionModel {
                phase: PhaseModel::Memory {
                    tid,
                    pending: PendingModel::Vectors { socket, inside },
                },
                ..state
            }
            &&& output == OutputModel { log: None, action: ActionModel::Read { request } }
            &&& request.tid == tid
            &&& request.pieces.len() == iovlen
            &&& request.buffers.len() == iovlen
            &&& forall|i: int| 0 <= i < iovlen ==> #[trigger] request.buffers[i] == 16
            &&& forall|i: int|
                0 <= i < iovlen ==> {
                    let piece = #[trigger] request.pieces[i];
                    &&& piece.len == 16
                    &&& piece.base == (iov + 16 * i) % 0x1_0000_0000_0000_0000
                }
        }),
{
    assert(seq![header][0] == header);
    law_message_header_is_read_back(header, iov, iovlen);
    law_buffers_fit(iovlen);
    law_iovecs_stand_in_a_row(crate::memory::message_header(header));
}

/// When the descriptors of a message's buffers have been read, so are the buffers: each of them
/// whole, where its descriptor says and as long as it says, in the same order. Nothing else
/// changes.
pub proof fn law_vectors_are_followed(
    state: SessionModel,
    tid: i32,
    socket: SocketModel,
    inside: bool,
    vectors: Seq<Seq<u8>>,
    pieces: Seq<RemoteIoVec>,
)
    requires
        state.valid(),
        state.phase == (PhaseModel::Memory {
            tid,
            pending: PendingModel::Vectors { socket, inside },
        }),
        vectors.len() == pieces.len(),
        forall|i: int|
            #![trigger vectors[i]]
            0 <= i < vectors.len() ==> vectors[i].len() == 16 && encodes_u64(
                vectors[i],
                0,
                pieces[i].base,
            ) && encodes_u64(vectors[i], 8, pieces[i].len),
    ensures
        ({
            let reply = ReplyModel::Memory { buffers: vectors };
            let (after, output) = state.next(reply);
            let request = output.action->request;
            &&& state.accepts(reply)
            &&& after == SessionModel {
                phase: PhaseModel::Memory {
                    tid,
                    pending: PendingModel::Payload { socket, inside },
                },
                ..state
            }
            &&& output == OutputModel { log: None, action: ActionModel::Read { request } }
            &&& request.tid == tid
            &&& request.pieces == pieces
            &&& request.buffers.len() == pieces.len()
            &&& forall|i: int|
                0 <= i < pieces.len() ==> #[trigger] request.buffers[i] == pieces[i].len
        }),
{
    let (after, output) = state.next(ReplyModel::Memory { buffers: vectors });
    let request = output.action->request;
    assert forall|i: int| 0 <= i < pieces.len() implies request.pieces[i] == pieces[i] by {
        law_iovec_is_read_back(vectors[i], pieces[i].base, pieces[i].len);
    }
    assert(request.pieces =~= pieces);
}

/// Data that has been read is saved whole, in order, under the descriptor and the name of its
/// socket and with its direction. Nothing else changes.
pub proof fn law_payload_is_saved(
    state: SessionModel,
    tid: i32,
    socket: SocketModel,
    inside: bool,
    buffers: Seq<Seq<u8>>,
)
    requires
        state.valid(),
        state.phase == (PhaseModel::Memory {
            tid,
            pending: PendingModel::Payload { socket, inside },
        }),
    ensures
        state.accepts(ReplyModel::Memory { buffers }),
        state.next(ReplyModel::Memory { buffers }) == (
            SessionModel {
                phase: PhaseModel::Saving { cont: ContType::Cont(tid, None) },
                ..state
            },
            OutputModel {
                log: None,
                action: ActionModel::Save {
                    capture: CaptureModel {
                        fd: socket.fd,
                        name: socket.name,
                        inside,
                        data: buffers.flatten(),
                    },
                },
            },
        ),
{
}

/// When data has been saved the task is resumed, and nothing else changes.
pub proof fn law_saved_is_resumed(state: SessionModel, cont: ContType)
    requires
        state.phase == (PhaseModel::Saving { cont }),
    ensures
        state.accepts(ReplyModel::Done),
        state.next(ReplyModel::Done) == (
            SessionModel { phase: PhaseModel::Ready, ..state },
            OutputModel { log: None, action: ActionModel::Resume { cont } },
        ),
{
}

} // verus!
