use nix::sys::ptrace::Event;
use socktrace::fd_map::{FdTables, Socket};
use socktrace::memory::RemoteIoVec;
use socktrace::tracer::{
    classify_syscall, is_unix_family, low_half, low_half_signed, read_unix_path, wants, Capture,
    ContType, EventKind, Pending, Reaction, ReadRequest, Regs, Step, SyscallKind, Tracer,
};

fn socket(fd: i32, name: &str) -> Socket {
    Socket { fd, name: String::from(name) }
}

fn regs(nr: i64, fd: u64, rsi: u64, rdx: u64) -> Regs {
    Regs { orig_rax: nr as u64, rdi: fd, rsi, rdx }
}

fn cont(tid: i32) -> Step {
    Step::Resume { cont: ContType::Cont(tid, None) }
}

/// A tracer that watches descriptor 5 under the name `/x`.
fn watching() -> (Tracer, FdTables) {
    let mut tables = FdTables::new();
    let tracer = Tracer::new(10, 20, None, &mut tables);
    tables.insert(tracer.fd_map, socket(5, "/x"));
    (tracer, tables)
}

#[test]
fn calls_are_told_apart() {
    for (nr, kind) in [
        (libc::SYS_bind, SyscallKind::Address),
        (libc::SYS_connect, SyscallKind::Address),
        (libc::SYS_sendto, SyscallKind::Send),
        (libc::SYS_write, SyscallKind::Send),
        (libc::SYS_recvfrom, SyscallKind::Receive),
        (libc::SYS_read, SyscallKind::Receive),
        (libc::SYS_sendmsg, SyscallKind::SendMessage),
        (libc::SYS_recvmsg, SyscallKind::ReceiveMessage),
        (libc::SYS_close, SyscallKind::Other),
        (libc::SYS_readv, SyscallKind::Other),
        (-1, SyscallKind::Other),
    ] {
        assert_eq!(classify_syscall(nr as u64), kind);
    }
}

#[test]
fn events_are_told_apart() {
    let (tracer, _) = watching();
    for (ev, kind) in [
        (Event::PTRACE_EVENT_SECCOMP as i32, EventKind::Syscall),
        (Event::PTRACE_EVENT_CLONE as i32, EventKind::NewThread),
        (Event::PTRACE_EVENT_FORK as i32, EventKind::NewProcess),
        (Event::PTRACE_EVENT_VFORK as i32, EventKind::NewProcess),
        (Event::PTRACE_EVENT_EXEC as i32, EventKind::Exec),
        (Event::PTRACE_EVENT_EXIT as i32, EventKind::Other),
        (Event::PTRACE_EVENT_STOP as i32, EventKind::Other),
        (0, EventKind::Other),
    ] {
        assert_eq!(tracer.handle_ev(ev), kind);
    }
}

#[test]
fn low_halves_are_signed() {
    assert_eq!(low_half(5), 5);
    assert_eq!(low_half(0xffff_ffff), -1);
    assert_eq!(low_half(0x1_8000_0000), i32::MIN);
    assert_eq!(low_half(0xabcd_0000_0007), 7);
    for value in [0, 1, -1, 4711, i64::MIN, i64::MAX, 0x1_0000_0002, -0x1_0000_0002] {
        assert_eq!(low_half_signed(value), value as i32);
    }
}

#[test]
fn only_the_unix_family_is_recognised() {
    assert!(is_unix_family(&(libc::AF_UNIX as u16).to_le_bytes()));
    assert!(!is_unix_family(&(libc::AF_INET as u16).to_le_bytes()));
    assert!(!is_unix_family(&[0, 0]));
    assert!(!is_unix_family(&[1, 1]));
    assert!(!is_unix_family(&[0xff, 0xff]));
}

#[test]
fn paths_end_at_the_first_zero() {
    let mut field = vec![0u8; 108];
    field[..6].copy_from_slice(b"/a/b\0c");
    assert_eq!(read_unix_path(&field), "/a/b");
    assert_eq!(read_unix_path(&[0; 108]), "");
    assert_eq!(read_unix_path(&[b'x'; 108]), "x".repeat(108));
    assert_eq!(read_unix_path(&[0, b'a', b'b', 0]), "");
}

#[test]
fn paths_that_are_not_text_are_read_as_far_as_possible() {
    assert_eq!(read_unix_path("/ü€😀\0".as_bytes()), "/ü€😀");
    assert_eq!(read_unix_path(b"/\xff/a\0"), "/\u{fffd}/a");
    assert_eq!(read_unix_path(b"a\xe2\x82\0"), "a\u{fffd}");
}

#[test]
fn all_or_one_name_is_wanted() {
    let name = String::from("/x");
    assert!(wants(&None, &name));
    assert!(wants(&Some(String::from("/x")), &name));
    assert!(!wants(&Some(String::from("/y")), &name));
    assert!(!wants(&Some(String::from("/x/")), &name));
}

#[test]
fn log_lines_name_the_task() {
    let (tracer, _) = watching();
    assert_eq!(tracer.log("New fd"), "[TID: 10 TGID: 20] New fd");
}

#[test]
fn new_tracer_has_the_given_table_or_its_own() {
    let mut tables = FdTables::new();
    let first = Tracer::new(1, 1, None, &mut tables);
    let second = Tracer::new(2, 2, None, &mut tables);
    let third = Tracer::new(3, 1, Some(first.fd_map), &mut tables);
    assert!(first.fd_map != second.fd_map);
    assert_eq!(first.fd_map, third.fd_map);
    assert!(!first.after_syscall);
    tables.insert(first.fd_map, socket(4, "/s"));
    assert_eq!(third.get_sock(&tables, regs(0, 4, 0, 0)), Some(socket(4, "/s")));
    assert_eq!(second.get_sock(&tables, regs(0, 4, 0, 0)), None);
}

#[test]
fn sockets_are_found_by_the_low_half_of_the_register() {
    let (tracer, tables) = watching();
    assert_eq!(tracer.get_sock(&tables, regs(0, 0x1_0000_0005, 0, 0)), Some(socket(5, "/x")));
    assert_eq!(tracer.get_sock(&tables, regs(0, 6, 0, 0)), None);
}

#[test]
fn address_call_asks_for_the_family() {
    let (mut tracer, tables) = watching();
    for nr in [libc::SYS_bind, libc::SYS_connect] {
        assert_eq!(
            tracer.handle_syscall(&tables, regs(nr, 7, 0x1000, 16)),
            Reaction {
                log: None,
                step: Step::Read {
                    request: ReadRequest {
                        tid: 10,
                        buffers: vec![2],
                        pieces: vec![RemoteIoVec { base: 0x1000, len: 4 }],
                    },
                    pending: Pending::Family { fd: 7, addr: 0x1000 },
                },
            }
        );
    }
}

#[test]
fn unix_address_asks_for_the_path() {
    let (tracer, mut tables) = watching();
    let pending = Pending::Family { fd: 7, addr: 0x1000 };
    assert_eq!(
        tracer.resume_with(&None, &mut tables, pending, &vec![vec![1, 0]]),
        Reaction {
            log: None,
            step: Step::Read {
                request: ReadRequest {
                    tid: 10,
                    buffers: vec![108],
                    pieces: vec![RemoteIoVec { base: 0x1002, len: 108 }],
                },
                pending: Pending::Path { fd: 7 },
            },
        }
    );
}

#[test]
fn other_address_is_let_go() {
    let (tracer, mut tables) = watching();
    let pending = Pending::Family { fd: 7, addr: 0x1000 };
    let reaction = tracer.resume_with(&None, &mut tables, pending, &vec![vec![2, 0]]);
    assert_eq!(reaction, Reaction { log: None, step: cont(10) });
    assert_eq!(tables.get(tracer.fd_map, 7), None);
}

#[test]
fn path_beyond_the_address_space_wraps_around() {
    let (tracer, mut tables) = watching();
    let pending = Pending::Family { fd: 7, addr: u64::MAX };
    match tracer.resume_with(&None, &mut tables, pending, &vec![vec![1, 0]]).step {
        Step::Read { request, .. } => assert_eq!(request.pieces[0].base, 1),
        _ => panic!(),
    }
}

#[test]
fn wanted_path_is_watched() {
    let mut field = vec![0u8; 108];
    field[..4].copy_from_slice(b"/new");
    for sock in [None, Some(String::from("/new"))] {
        let (tracer, mut tables) = watching();
        let reaction =
            tracer.resume_with(&sock, &mut tables, Pending::Path { fd: 7 }, &vec![field.clone()]);
        assert_eq!(
            reaction,
            Reaction { log: Some(String::from("[TID: 10 TGID: 20] New fd")), step: cont(10) }
        );
        assert_eq!(tables.get(tracer.fd_map, 7), Some(socket(7, "/new")));
        assert_eq!(tables.get(tracer.fd_map, 5), Some(socket(5, "/x")));
    }
}

#[test]
fn unwanted_path_is_not_watched() {
    let (tracer, mut tables) = watching();
    let sock = Some(String::from("/other"));
    let reaction = tracer.watch(&sock, &mut tables, 7, String::from("/new"));
    assert_eq!(reaction, Reaction { log: None, step: cont(10) });
    assert_eq!(tables.get(tracer.fd_map, 7), None);
}

#[test]
fn new_address_replaces_the_name() {
    let (tracer, mut tables) = watching();
    tracer.watch(&None, &mut tables, 5, String::from("/y"));
    assert_eq!(tables.get(tracer.fd_map, 5), Some(socket(5, "/y")));
}

#[test]
fn sent_buffer_is_asked_for_at_once() {
    for nr in [libc::SYS_write, libc::SYS_sendto] {
        let (mut tracer, tables) = watching();
        let before = tracer;
        assert_eq!(
            tracer.handle_syscall(&tables, regs(nr, 5, 0x2000, 3)),
            Reaction {
                log: Some(String::from("[TID: 10 TGID: 20] sendmsg")),
                step: Step::Read {
                    request: ReadRequest {
                        tid: 10,
                        buffers: vec![3],
                        pieces: vec![RemoteIoVec { base: 0x2000, len: 3 }],
                    },
                    pending: Pending::Payload { socket: socket(5, "/x"), inside: false },
                },
            }
        );
        assert_eq!(tracer, before);
    }
}

#[test]
fn received_buffer_is_asked_for_on_return() {
    for nr in [libc::SYS_read, libc::SYS_recvfrom] {
        let (mut tracer, tables) = watching();
        let before = tracer;
        let call = regs(nr, 5, 0x2000, 3);
        assert_eq!(
            tracer.handle_syscall(&tables, call),
            Reaction { log: None, step: Step::Resume { cont: ContType::Syscall(10, None) } }
        );
        assert!(tracer.after_syscall);
        assert_eq!(
            tracer.handle_syscall(&tables, call),
            Reaction {
                log: Some(String::from("[TID: 10 TGID: 20] recvfrom|read")),
                step: Step::Read {
                    request: ReadRequest {
                        tid: 10,
                        buffers: vec![3],
                        pieces: vec![RemoteIoVec { base: 0x2000, len: 3 }],
                    },
                    pending: Pending::Payload { socket: socket(5, "/x"), inside: true },
                },
            }
        );
        assert_eq!(tracer, before);
    }
}

#[test]
fn return_from_a_call_on_a_forgotten_socket_is_let_go() {
    let (mut tracer, mut tables) = watching();
    let call = regs(libc::SYS_read, 5, 0x2000, 3);
    tracer.handle_syscall(&tables, call);
    tracer.rebuild_fd_map(&mut tables, &vec![]);
    assert_eq!(tracer.handle_syscall(&tables, call), Reaction { log: None, step: cont(10) });
    assert!(tracer.after_syscall);
}

#[test]
fn message_header_is_asked_for() {
    let (mut tracer, tables) = watching();
    let request = || ReadRequest {
        tid: 10,
        buffers: vec![56],
        pieces: vec![RemoteIoVec { base: 0x3000, len: 56 }],
    };
    assert_eq!(
        tracer.handle_syscall(&tables, regs(libc::SYS_sendmsg, 5, 0x3000, 0)),
        Reaction {
            log: Some(String::from("[TID: 10 TGID: 20] sendmsg")),
            step: Step::Read {
                request: request(),
                pending: Pending::Header { socket: socket(5, "/x"), inside: false },
            },
        }
    );
    let call = regs(libc::SYS_recvmsg, 5, 0x3000, 0);
    assert_eq!(
        tracer.handle_syscall(&tables, call).step,
        Step::Resume { cont: ContType::Syscall(10, None) }
    );
    assert_eq!(
        tracer.handle_syscall(&tables, call),
        Reaction {
            log: Some(String::from("[TID: 10 TGID: 20] recvmsg")),
            step: Step::Read {
                request: request(),
                pending: Pending::Header { socket: socket(5, "/x"), inside: true },
            },
        }
    );
    assert!(!tracer.after_syscall);
}

#[test]
fn calls_on_other_descriptors_are_let_go() {
    for nr in [
        libc::SYS_write,
        libc::SYS_sendto,
        libc::SYS_read,
        libc::SYS_recvfrom,
        libc::SYS_sendmsg,
        libc::SYS_recvmsg,
    ] {
        let (mut tracer, tables) = watching();
        let before = tracer;
        assert_eq!(
            tracer.handle_syscall(&tables, regs(nr, 6, 0x2000, 3)),
            Reaction { log: None, step: cont(10) }
        );
        assert_eq!(tracer, before);
    }
}

#[test]
fn other_calls_are_reported() {
    let (mut tracer, tables) = watching();
    assert_eq!(
        tracer.handle_syscall(&tables, regs(libc::SYS_close, 5, 0, 0)),
        Reaction {
            log: Some(String::from("[TID: 10 TGID: 20] Unregistered syscall: 3")),
            step: cont(10),
        }
    );
    assert_eq!(
        tracer.handle_syscall(&tables, regs(-1, 5, 0, 0)).log,
        Some(String::from("[TID: 10 TGID: 20] Unregistered syscall: 18446744073709551615"))
    );
}

#[test]
fn payload_is_saved() {
    let (tracer, mut tables) = watching();
    let pending = Pending::Payload { socket: socket(5, "/x"), inside: true };
    assert_eq!(
        tracer.resume_with(&None, &mut tables, pending, &vec![vec![1, 2], vec![3]]),
        Reaction {
            log: None,
            step: Step::Save {
                capture: Capture {
                    fd: 5,
                    name: String::from("/x"),
                    inside: true,
                    data: vec![1, 2, 3],
                },
                cont: ContType::Cont(10, None),
            },
        }
    );
}

#[test]
fn failures_are_told_apart() {
    let socket = || socket(5, "/x");
    for (pending, text) in [
        (
            Pending::Family { fd: 1, addr: 2 },
            "process_vm_readv failed to read socket family",
        ),
        (Pending::Path { fd: 1 }, "process_vm_readv failed to read unix socket path"),
        (
            Pending::Header { socket: socket(), inside: true },
            "process_vm_readv for msghdr failed",
        ),
        (
            Pending::Vectors { socket: socket(), inside: true },
            "process_vm_readv for msg_iov array failed",
        ),
        (
            Pending::Payload { socket: socket(), inside: true },
            "process_vm_readv for buf failed",
        ),
    ] {
        assert_eq!(pending.failure(), text);
    }
}

#[test]
fn new_process_gets_a_copy() {
    let (tracer, mut tables) = watching();
    let (made, line) = tracer.new_process(&mut tables, 0x7_0000_0063);
    assert_eq!(line, "[TID: 10 TGID: 20] FORK|VFORK: new process 99");
    assert_eq!((made.tid, made.tgid, made.after_syscall), (99, 99, false));
    assert_eq!(tables.get(made.fd_map, 5), Some(socket(5, "/x")));
    tables.insert(made.fd_map, socket(6, "/child"));
    tables.insert(tracer.fd_map, socket(7, "/parent"));
    assert_eq!(tables.get(tracer.fd_map, 6), None);
    assert_eq!(tables.get(made.fd_map, 7), None);
}

#[test]
fn new_thread_shares() {
    let (tracer, mut tables) = watching();
    let (made, line) = tracer.new_thread(&mut tables, 99);
    assert_eq!(line, "[TID: 10 TGID: 20] CLONE: new thread 99");
    assert_eq!((made.tid, made.tgid, made.after_syscall), (99, 20, false));
    tables.insert(made.fd_map, socket(6, "/child"));
    assert_eq!(tables.get(tracer.fd_map, 6), Some(socket(6, "/child")));
}

#[test]
fn rebuilding_keeps_inherited_sockets() {
    let (mut tracer, mut tables) = watching();
    tables.insert(tracer.fd_map, socket(6, "/y"));
    tables.insert(tracer.fd_map, socket(7, "/z"));
    let shared = tracer.fd_map;
    tracer.rebuild_fd_map(&mut tables, &vec![0, 7, 5, 7]);
    assert_eq!(tables.get(tracer.fd_map, 5), Some(socket(5, "/x")));
    assert_eq!(tables.get(tracer.fd_map, 6), None);
    assert_eq!(tables.get(tracer.fd_map, 7), Some(socket(7, "/z")));
    assert_eq!(tables.get(tracer.fd_map, 0), None);
    assert_eq!(tables.get(shared, 6), Some(socket(6, "/y")));
}
