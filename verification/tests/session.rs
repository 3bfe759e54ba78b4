use socktrace::memory::RemoteIoVec;
use socktrace::session::{Action, Reply, Session, WaitEvent};
use socktrace::tracer::{Capture, ContType, ReadRequest, Regs};

const SECCOMP: i32 = 7;
const CLONE: i32 = 3;
const FORK: i32 = 1;
const VFORK: i32 = 2;
const EXEC: i32 = 4;

fn regs(nr: i64, fd: u64, rsi: u64, rdx: u64) -> Reply {
    Reply::Registers { regs: Regs { orig_rax: nr as u64, rdi: fd, rsi, rdx } }
}

fn memory(buffers: Vec<Vec<u8>>) -> Reply {
    Reply::Memory { buffers }
}

fn read(tid: i32, pieces: Vec<(u64, u64)>) -> Action {
    Action::Read {
        request: ReadRequest {
            tid,
            buffers: pieces.iter().map(|p| p.1).collect(),
            pieces: pieces.iter().map(|p| RemoteIoVec { base: p.0, len: p.1 }).collect(),
        },
    }
}

fn go_on(tid: i32) -> Action {
    Action::Resume { cont: ContType::Cont(tid, None) }
}

/// Hands a reply over, and returns the next action.
fn next(session: &mut Session, reply: Reply) -> Action {
    assert!(session.accepts(&reply));
    session.trace(reply).action
}

/// Starts waiting, and reports a change.
fn change(session: &mut Session, event: WaitEvent) -> Action {
    assert_eq!(next(session, Reply::Done), Action::Wait);
    next(session, Reply::Waited { event })
}

fn started(sock: Option<&str>) -> Session {
    let mut session = Session::new(sock.map(String::from));
    assert_eq!(session.attach(100), "[TID: 100 TGID: 100] Tracer attached");
    session
}

/// Lets a task give a socket a Unix-domain address.
fn connect(session: &mut Session, tid: i32, fd: u64, path: &str) {
    let action = change(session, WaitEvent::Event { tid, ev: SECCOMP });
    assert_eq!(action, Action::GetRegs { tid });
    next(session, regs(libc::SYS_connect, fd, 0x1000, 110));
    assert_eq!(next(session, memory(vec![vec![1, 0]])), read(tid, vec![(0x1002, 108)]));
    let mut field = path.as_bytes().to_vec();
    field.resize(108, 0);
    assert_eq!(next(session, memory(vec![field])), go_on(tid));
}

/// Lets a task make another.
fn make(session: &mut Session, tid: i32, ev: i32, new: i64) {
    assert_eq!(change(session, WaitEvent::Event { tid, ev }), Action::GetEvent { tid });
    assert_eq!(next(session, Reply::Message { message: new }), go_on(tid));
}

fn name_of(session: &Session, tid: i32, fd: i32) -> Option<String> {
    session.watched_name(tid, fd)
}

#[test]
fn session_starts_by_waiting() {
    let mut session = started(None);
    assert_eq!(next(&mut session, Reply::Done), Action::Wait);
}

#[test]
fn stops_without_meaning_are_resumed() {
    let mut session = started(None);
    for (event, cont) in [
        (WaitEvent::Signaled { tid: 5, sig: 9 }, ContType::Cont(5, Some(9))),
        (WaitEvent::Stopped { tid: 5 }, ContType::Cont(5, None)),
        (WaitEvent::Continued { tid: 6 }, ContType::Cont(6, None)),
        (WaitEvent::StillAlive, ContType::Exit),
        (WaitEvent::Exited, ContType::Exit),
        (WaitEvent::Event { tid: 100, ev: 128 }, ContType::Cont(100, None)),
    ] {
        assert_eq!(change(&mut session, event), Action::Resume { cont });
    }
}

#[test]
fn untraced_tasks_are_not_accepted() {
    let mut session = started(None);
    assert_eq!(next(&mut session, Reply::Done), Action::Wait);
    for event in [
        WaitEvent::Event { tid: 101, ev: SECCOMP },
        WaitEvent::Syscall { tid: 101 },
    ] {
        assert!(!session.accepts(&Reply::Waited { event }));
    }
    assert!(!session.is_traced(101));
    assert!(session.is_traced(100));
}

#[test]
fn replies_are_held_to_what_was_asked() {
    let mut session = started(None);
    assert!(!session.accepts(&Reply::Message { message: 1 }));
    assert!(!session.accepts(&memory(vec![])));
    change(&mut session, WaitEvent::Syscall { tid: 100 });
    assert!(!session.accepts(&Reply::Done));
    assert_eq!(session.failure(), None);
    next(&mut session, regs(libc::SYS_bind, 3, 0x1000, 16));
    assert_eq!(session.failure(), Some("process_vm_readv failed to read socket family"));
    assert!(!session.accepts(&memory(vec![vec![1, 0, 0]])));
    assert!(!session.accepts(&memory(vec![])));
    assert!(session.accepts(&memory(vec![vec![1, 0]])));
    next(&mut session, memory(vec![vec![1, 0]]));
    assert!(!session.accepts(&memory(vec![vec![1, 0]])));
    assert!(session.accepts(&memory(vec![vec![0; 108]])));
}

#[test]
fn address_is_watched() {
    let mut session = started(None);
    connect(&mut session, 100, 3, "/run/bus");
    assert_eq!(name_of(&session, 100, 3), Some(String::from("/run/bus")));
    assert_eq!(name_of(&session, 100, 4), None);
}

#[test]
fn only_the_wanted_address_is_watched() {
    let mut session = started(Some("/run/bus"));
    connect(&mut session, 100, 3, "/run/other");
    connect(&mut session, 100, 4, "/run/bus");
    assert_eq!(name_of(&session, 100, 3), None);
    assert_eq!(name_of(&session, 100, 4), Some(String::from("/run/bus")));
}

#[test]
fn address_of_another_family_is_let_go() {
    let mut session = started(None);
    change(&mut session, WaitEvent::Event { tid: 100, ev: SECCOMP });
    next(&mut session, regs(libc::SYS_bind, 3, 0x1000, 16));
    assert_eq!(next(&mut session, memory(vec![vec![2, 0]])), go_on(100));
    assert_eq!(name_of(&session, 100, 3), None);
}

#[test]
fn sent_buffer_is_saved() {
    let mut session = started(None);
    connect(&mut session, 100, 3, "/s");
    change(&mut session, WaitEvent::Event { tid: 100, ev: SECCOMP });
    assert_eq!(
        next(&mut session, regs(libc::SYS_write, 3, 0x2000, 2)),
        read(100, vec![(0x2000, 2)])
    );
    assert_eq!(
        next(&mut session, memory(vec![vec![7, 8]])),
        Action::Save {
            capture: Capture { fd: 3, name: String::from("/s"), inside: false, data: vec![7, 8] },
        }
    );
    assert_eq!(next(&mut session, Reply::Done), go_on(100));
    assert_eq!(next(&mut session, Reply::Done), Action::Wait);
}

#[test]
fn received_buffer_is_saved_on_return() {
    let mut session = started(None);
    connect(&mut session, 100, 3, "/s");
    change(&mut session, WaitEvent::Event { tid: 100, ev: SECCOMP });
    assert_eq!(
        next(&mut session, regs(libc::SYS_read, 3, 0x2000, 2)),
        Action::Resume { cont: ContType::Syscall(100, None) }
    );
    assert_eq!(
        change(&mut session, WaitEvent::Syscall { tid: 100 }),
        Action::GetRegs { tid: 100 }
    );
    assert_eq!(
        next(&mut session, regs(libc::SYS_read, 3, 0x2000, 2)),
        read(100, vec![(0x2000, 2)])
    );
    assert_eq!(
        next(&mut session, memory(vec![vec![7, 8]])),
        Action::Save {
            capture: Capture { fd: 3, name: String::from("/s"), inside: true, data: vec![7, 8] },
        }
    );
    assert_eq!(next(&mut session, Reply::Done), go_on(100));
}

#[test]
fn message_is_saved() {
    let mut session = started(None);
    connect(&mut session, 100, 3, "/s");
    change(&mut session, WaitEvent::Event { tid: 100, ev: SECCOMP });
    assert_eq!(
        next(&mut session, regs(libc::SYS_sendmsg, 3, 0x2000, 0)),
        read(100, vec![(0x2000, 56)])
    );
    let mut header = vec![0u8; 56];
    header[16..24].copy_from_slice(&0x3000u64.to_le_bytes());
    header[24..32].copy_from_slice(&2u64.to_le_bytes());
    assert_eq!(
        next(&mut session, memory(vec![header])),
        read(100, vec![(0x3000, 16), (0x3010, 16)])
    );
    let vector = |base: u64, len: u64| [base.to_le_bytes(), len.to_le_bytes()].concat();
    assert_eq!(
        next(&mut session, memory(vec![vector(0x4000, 3), vector(0x5000, 1)])),
        read(100, vec![(0x4000, 3), (0x5000, 1)])
    );
    assert_eq!(
        next(&mut session, memory(vec![vec![1, 2, 3], vec![4]])),
        Action::Save {
            capture: Capture {
                fd: 3,
                name: String::from("/s"),
                inside: false,
                data: vec![1, 2, 3, 4],
            },
        }
    );
    assert_eq!(next(&mut session, Reply::Done), go_on(100));
}

#[test]
fn message_with_too_many_buffers_is_not_accepted() {
    let mut session = started(None);
    connect(&mut session, 100, 3, "/s");
    change(&mut session, WaitEvent::Event { tid: 100, ev: SECCOMP });
    next(&mut session, regs(libc::SYS_sendmsg, 3, 0x2000, 0));
    assert!(!session.accepts(&memory(vec![vec![0xff; 56]])));
    assert!(session.accepts(&memory(vec![vec![0; 56]])));
    assert_eq!(next(&mut session, memory(vec![vec![0; 56]])), read(100, vec![]));
    assert!(!session.accepts(&memory(vec![vec![0; 15]])));
    assert!(session.accepts(&memory(vec![])));
}

#[test]
fn unwatched_calls_are_let_go() {
    let mut session = started(None);
    for nr in [libc::SYS_write, libc::SYS_read, libc::SYS_recvmsg, libc::SYS_close] {
        change(&mut session, WaitEvent::Event { tid: 100, ev: SECCOMP });
        assert_eq!(next(&mut session, regs(nr, 3, 0x2000, 2)), go_on(100));
    }
}

#[test]
fn threads_share_their_sockets() {
    let mut session = started(None);
    connect(&mut session, 100, 3, "/before");
    make(&mut session, 100, CLONE, 101);
    assert_eq!(name_of(&session, 101, 3), Some(String::from("/before")));
    connect(&mut session, 101, 4, "/after");
    assert_eq!(name_of(&session, 100, 4), Some(String::from("/after")));
}

#[test]
fn processes_have_copies() {
    let mut session = started(None);
    connect(&mut session, 100, 3, "/before");
    make(&mut session, 100, FORK, 101);
    make(&mut session, 101, VFORK, 102);
    for tid in [101, 102] {
        assert_eq!(name_of(&session, tid, 3), Some(String::from("/before")));
    }
    connect(&mut session, 101, 4, "/after");
    assert_eq!(name_of(&session, 100, 4), None);
    assert_eq!(name_of(&session, 102, 4), None);
    assert_eq!(name_of(&session, 101, 4), Some(String::from("/after")));
}

#[test]
fn new_program_keeps_inherited_sockets() {
    let mut session = started(None);
    connect(&mut session, 100, 3, "/kept");
    connect(&mut session, 100, 4, "/closed");
    make(&mut session, 100, CLONE, 101);
    assert_eq!(next(&mut session, Reply::Done), Action::Wait);
    let output = session.trace(Reply::Waited { event: WaitEvent::Event { tid: 101, ev: EXEC } });
    assert_eq!(output.log, Some(String::from("[TID: 101 TGID: 100] EXEC: rebuilding fd map")));
    assert_eq!(output.action, Action::ListFds { tgid: 100 });
    assert_eq!(next(&mut session, Reply::Fds { fds: vec![0, 1, 2, 3] }), go_on(101));
    assert_eq!(name_of(&session, 101, 3), Some(String::from("/kept")));
    assert_eq!(name_of(&session, 101, 4), None);
    assert_eq!(name_of(&session, 100, 4), Some(String::from("/closed")));
}

#[test]
fn watched_socket_stays_watched_when_closed() {
    let mut session = started(None);
    connect(&mut session, 100, 3, "/s");
    change(&mut session, WaitEvent::Event { tid: 100, ev: SECCOMP });
    assert_eq!(next(&mut session, regs(libc::SYS_close, 3, 0, 0)), go_on(100));
    assert_eq!(name_of(&session, 100, 3), Some(String::from("/s")));
}

#[test]
fn new_tasks_are_reported() {
    let mut session = started(None);
    change(&mut session, WaitEvent::Event { tid: 100, ev: CLONE });
    assert_eq!(
        session.trace(Reply::Message { message: 7 }).log,
        Some(String::from("[TID: 100 TGID: 100] CLONE: new thread 7"))
    );
    change(&mut session, WaitEvent::Event { tid: 100, ev: FORK });
    assert_eq!(
        session.trace(Reply::Message { message: 8 }).log,
        Some(String::from("[TID: 100 TGID: 100] FORK|VFORK: new process 8"))
    );
    assert!(session.is_traced(7) && session.is_traced(8));
}

#[test]
fn names_that_are_not_text_are_kept_as_far_as_possible() {
    let mut session = started(None);
    change(&mut session, WaitEvent::Event { tid: 100, ev: SECCOMP });
    next(&mut session, regs(libc::SYS_bind, 3, 0x1000, 110));
    next(&mut session, memory(vec![vec![1, 0]]));
    let mut field = b"/a\xff".to_vec();
    field.resize(108, 0);
    next(&mut session, memory(vec![field]));
    assert_eq!(name_of(&session, 100, 3), Some(String::from("/a\u{fffd}")));
}
