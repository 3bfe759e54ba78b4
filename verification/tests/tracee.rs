use socktrace::tracee::{build_trace_prog, install_filter, jeq, stmt, traced_syscalls, SockFilter};
use socktrace::tracer::{classify_syscall, SyscallKind};

const LOAD: u16 = (libc::BPF_LD | libc::BPF_W | libc::BPF_ABS) as u16;
const JUMP: u16 = (libc::BPF_JMP | libc::BPF_JEQ | libc::BPF_K) as u16;
const RETURN: u16 = libc::BPF_RET as u16;

fn answer(prog: &[SockFilter], nr: u32) -> u32 {
    let mut pc: usize = 0;
    let mut word: u32 = 0;
    loop {
        let insn = prog[pc];
        pc += 1;
        if insn.code == LOAD {
            assert_eq!(insn.k, 0);
            word = nr;
        } else if insn.code == JUMP {
            pc += if word == insn.k { insn.jt } else { insn.jf } as usize;
        } else {
            assert_eq!(insn.code, RETURN);
            return insn.k;
        }
    }
}

#[test]
fn instructions_have_their_fields() {
    assert_eq!(stmt(0x20, 7), SockFilter { code: 0x20, jt: 0, jf: 0, k: 7 });
    assert_eq!(jeq(41, 2, 3), SockFilter { code: JUMP, jt: 2, jf: 3, k: 41 });
    assert_eq!(JUMP, 0x15);
}

#[test]
fn program_is_laid_out_in_pairs() {
    assert_eq!(
        build_trace_prog(&[9, 5]),
        vec![
            SockFilter { code: LOAD, jt: 0, jf: 0, k: 0 },
            SockFilter { code: JUMP, jt: 0, jf: 1, k: 9 },
            SockFilter { code: RETURN, jt: 0, jf: 0, k: libc::SECCOMP_RET_TRACE },
            SockFilter { code: JUMP, jt: 0, jf: 1, k: 5 },
            SockFilter { code: RETURN, jt: 0, jf: 0, k: libc::SECCOMP_RET_TRACE },
            SockFilter { code: RETURN, jt: 0, jf: 0, k: libc::SECCOMP_RET_ALLOW },
        ]
    );
}

#[test]
fn program_without_calls_allows_all() {
    let prog = build_trace_prog(&[]);
    assert_eq!(prog.len(), 2);
    for nr in [0, 1, 500, u32::MAX] {
        assert_eq!(answer(&prog, nr), libc::SECCOMP_RET_ALLOW);
    }
}

#[test]
fn program_selects_the_given_calls() {
    let list: [u32; 4] = [3, 400, 3, u32::MAX];
    let prog = build_trace_prog(&list);
    for nr in (0..1000).chain([u32::MAX - 1, u32::MAX]) {
        let expected = if list.contains(&nr) {
            libc::SECCOMP_RET_TRACE
        } else {
            libc::SECCOMP_RET_ALLOW
        };
        assert_eq!(answer(&prog, nr), expected);
    }
}

#[test]
fn traced_calls_are_those_that_move_data_or_name_sockets() {
    let expected: Vec<u32> = vec![
        libc::SYS_sendmsg as u32,
        libc::SYS_recvmsg as u32,
        libc::SYS_sendto as u32,
        libc::SYS_recvfrom as u32,
        libc::SYS_read as u32,
        libc::SYS_write as u32,
        libc::SYS_readv as u32,
        libc::SYS_writev as u32,
        libc::SYS_sendfile as u32,
        libc::SYS_splice as u32,
        libc::SYS_vmsplice as u32,
        libc::SYS_tee as u32,
        libc::SYS_copy_file_range as u32,
        libc::SYS_bind as u32,
        libc::SYS_connect as u32,
        libc::SYS_close as u32,
    ];
    assert_eq!(traced_syscalls(), expected);
}

#[test]
fn installed_filter_selects_the_traced_calls() {
    let prog = install_filter();
    assert_eq!(prog.len(), 34);
    let list = traced_syscalls();
    for nr in 0..1000 {
        let stopped = answer(&prog, nr) == libc::SECCOMP_RET_TRACE;
        assert_eq!(stopped, list.contains(&nr));
        if classify_syscall(nr as u64) != SyscallKind::Other {
            assert!(stopped);
        }
    }
}
