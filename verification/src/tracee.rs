//! The seccomp filter that makes the kernel stop a tracee at the system calls of interest.
use crate::sys::{
    bpf_codes, bpf_table, seccomp_actions, seccomp_table, syscall_numbers, syscall_table, BpfCodes,
    SyscallNumbers,
};
use crate::tracer::{syscall_kind, SyscallKind};
use vstd::prelude::*;

verus! {

/// Where the number of the system call stands in the data that a filter looks at.
pub const SECCOMP_DATA_NR_OFFSET: u32 = 0;

/// An instruction of a classic BPF program.
#[derive(Clone, Copy, Debug, PartialEq, Eq, Structural)]
pub struct SockFilter {
    pub code: u16,
    pub jt: u8,
    pub jf: u8,
    pub k: u32,
}

/// The code that loads a word of the data.
pub open spec fn load_code() -> int {
    bpf_table().ld + bpf_table().w + bpf_table().abs
}

/// The code that jumps depending on whether the loaded word is a constant.
pub open spec fn jump_code() -> int {
    bpf_table().jmp + bpf_table().jeq + bpf_table().k
}

/// The code that ends the program with an answer.
pub open spec fn return_code() -> int {
    bpf_table().ret as int
}

/// An instruction that does not jump.
pub open spec fn stmt_insn(code: u16, k: u32) -> SockFilter {
    SockFilter { code, jt: 0, jf: 0, k }
}

/// An instruction that skips `jt` instructions if the loaded word is `k`, else `jf`.
pub open spec fn jeq_insn(k: u32, jt: u8, jf: u8) -> SockFilter {
    SockFilter { code: jump_code() as u16, jt, jf, k }
}

/// The program that asks for a stop at the given system calls and lets all others through:
/// it loads the number of the system call, compares it with each of those given, and after
/// each comparison either asks for the stop or skips that answer.
pub open spec fn trace_prog(syscalls: Seq<u32>) -> Seq<SockFilter> {
    Seq::new(
        2 * syscalls.len() + 2,
        |i: int|
            if i == 0 {
                stmt_insn(load_code() as u16, SECCOMP_DATA_NR_OFFSET)
            } else if i == 2 * syscalls.len() + 1 {
                stmt_insn(return_code() as u16, seccomp_table().allow)
            } else if i % 2 == 1 {
                jeq_insn(syscalls[i / 2], 0, 1)
            } else {
                stmt_insn(return_code() as u16, seccomp_table().trace)
            },
    )
}

/// The answer of a program to a system call, from the instruction at `pc` on, with `word` as
/// the loaded word. There is none if the program ends without one, or holds an instruction
/// that is none of the above.
pub open spec fn run(prog: Seq<SockFilter>, nr: u32, pc: int, word: u32) -> Option<u32>
    decreases prog.len() - pc,
{
    if pc < 0 || pc >= prog.len() {
        None
    } else if prog[pc].code == load_code() {
        if prog[pc].k == SECCOMP_DATA_NR_OFFSET {
            run(prog, nr, pc + 1, nr)
        } else {
            None
        }
    } else if prog[pc].code == jump_code() {
        let skipped = if word == prog[pc].k {
            prog[pc].jt
        } else {
            prog[pc].jf
        };
        if pc + 1 + skipped < prog.len() {
            run(prog, nr, pc + 1 + skipped, word)
        } else {
            None
        }
    } else if prog[pc].code == return_code() {
        Some(prog[pc].k)
    } else {
        None
    }
}

/// The answer of a program to a system call.
pub open spec fn answer(prog: Seq<SockFilter>, nr: u32) -> Option<u32> {
    run(prog, nr, 0, 0)
}

/// The system calls that a tracee is stopped at.
pub open spec fn traced() -> Seq<u32> {
    let table = syscall_table();
    seq![
        table.sendmsg as u32,
        table.recvmsg as u32,
        table.sendto as u32,
        table.recvfrom as u32,
        table.read as u32,
        table.write as u32,
        table.readv as u32,
        table.writev as u32,
        table.sendfile as u32,
        table.splice as u32,
        table.vmsplice as u32,
        table.tee as u32,
        table.copy_file_range as u32,
        table.bind as u32,
        table.connect as u32,
        table.close as u32,
    ]
}

/// Makes an instruction that does not jump.
pub fn stmt(code: u16, k: u32) -> (insn: SockFilter)
    ensures
        insn == stmt_insn(code, k),
{
    SockFilter { code, jt: 0, jf: 0, k }
}

/// Makes an instruction that skips `jt` instructions if the loaded word is `k`, else `jf`.
pub fn jeq(k: u32, jt: u8, jf: u8) -> (insn: SockFilter)
    ensures
        insn == jeq_insn(k, jt, jf),
{
    let codes: BpfCodes = bpf_codes();
    proof {
        assert(0x05u32 | 0x10u32 | 0x00u32 == 0x15u32) by (bit_vector);
    }
    SockFilter { code: (codes.jmp | codes.jeq | codes.k) as u16, jt, jf, k }
}

/// Makes the program that asks for a stop at the given system calls.
pub fn build_trace_prog(syscalls: &[u32]) -> (prog: Vec<SockFilter>)
    requires
        (2 * syscalls@.len() + 3) * 8 <= isize::MAX,
    ensures
        prog@ == trace_prog(syscalls@),
{
    let codes: BpfCodes = bpf_codes();
    let trace: u32 = seccomp_actions().trace;
    let allow: u32 = seccomp_actions().allow;
    let mut prog: Vec<SockFilter> = Vec::with_capacity(2 + syscalls.len() * 2 + 1);
    proof {
        assert(0x00u32 | 0x00u32 | 0x20u32 == 0x20u32) by (bit_vector);
    }
    prog.push(stmt((codes.ld | codes.w | codes.abs) as u16, SECCOMP_DATA_NR_OFFSET));
    let mut i: usize = 0;
    while i < syscalls.len()
        invariant
            i <= syscalls@.len(),
            codes == bpf_table(),
            trace == seccomp_table().trace,
            prog@ == trace_prog(syscalls@).take(2 * i + 1),
        decreases syscalls@.len() - i,
    {
        prog.push(jeq(syscalls[i], 0, 1));
        prog.push(stmt(codes.ret as u16, trace));
        i = i + 1;
    }
    prog.push(stmt(codes.ret as u16, allow));
    assert(prog@ =~= trace_prog(syscalls@));
    prog
}

/// Lists the system calls that a tracee is stopped at.
pub fn traced_syscalls() -> (list: Vec<u32>)
    ensures
        list@ == traced(),
{
    let numbers: SyscallNumbers = syscall_numbers();
    let list: Vec<u32> = vec![
        numbers.sendmsg as u32,
        numbers.recvmsg as u32,
        numbers.sendto as u32,
        numbers.recvfrom as u32,
        numbers.read as u32,
        numbers.write as u32,
        numbers.readv as u32,
        numbers.writev as u32,
        numbers.sendfile as u32,
        numbers.splice as u32,
        numbers.vmsplice as u32,
        numbers.tee as u32,
        numbers.copy_file_range as u32,
        numbers.bind as u32,
        numbers.connect as u32,
        numbers.close as u32,
    ];
    assert(list@ =~= traced());
    list
}

/// Makes the program that a tracee is to be filtered with.
pub fn install_filter() -> (prog: Vec<SockFilter>)
    ensures
        prog@ == trace_prog(traced()),
        prog@.len() <= u16::MAX,
{
    let list: Vec<u32> = traced_syscalls();
    build_trace_prog(list.as_slice())
}

/// From the comparison at `i` on, the program finds out whether one of those left matches.
proof fn lemma_run_from(syscalls: Seq<u32>, nr: u32, i: int)
    requires
        0 <= i <= syscalls.len(),
    ensures
        run(trace_prog(syscalls), nr, 2 * i + 1, nr) == Some(
            if syscalls.skip(i).contains(nr) {
                seccomp_table().trace
            } else {
                seccomp_table().allow
            },
        ),
    decreases syscalls.len() - i,
{
    let prog = trace_prog(syscalls);
    if i < syscalls.len() {
        assert(prog[2 * i + 1] == jeq_insn(syscalls[i], 0, 1));
        assert(prog[2 * i + 2] == stmt_insn(return_code() as u16, seccomp_table().trace));
        lemma_run_from(syscalls, nr, i + 1);
        assert(syscalls.skip(i)[0] == syscalls[i]);
        if syscalls[i] == nr {
            reveal_with_fuel(run, 2);
            assert(syscalls.skip(i).contains(nr));
        } else {
            let here = syscalls.skip(i);
            let rest = syscalls.skip(i + 1);
            assert(here.contains(nr) <==> rest.contains(nr)) by {
                if here.contains(nr) {
                    let j = choose|j: int| 0 <= j < here.len() && here[j] == nr;
                    assert(rest[j - 1] == nr);
                }
                if rest.contains(nr) {
                    let j = choose|j: int| 0 <= j < rest.len() && rest[j] == nr;
                    assert(here[j + 1] == nr);
                }
            }
        }
    }
}

/// The program asks for a stop at exactly the system calls that it was made for, and lets all
/// others through.
pub proof fn law_program_selects(syscalls: Seq<u32>, nr: u32)
    ensures
        answer(trace_prog(syscalls), nr) == Some(
            if syscalls.contains(nr) {
                seccomp_table().trace
            } else {
                seccomp_table().allow
            },
        ),
{
    lemma_run_from(syscalls, nr, 0);
    assert(syscalls.skip(0) =~= syscalls);
    assert(trace_prog(syscalls)[0] == stmt_insn(load_code() as u16, SECCOMP_DATA_NR_OFFSET));
}

/// A tracee is stopped at every system call that means something to a tracer.
pub proof fn law_handled_are_traced(nr: u32)
    requires
        syscall_kind(nr as u64) != SyscallKind::Other,
    ensures
        answer(trace_prog(traced()), nr) == Some(seccomp_table().trace),
{
    law_program_selects(traced(), nr);
    let list = traced();
    assert(list[0] == 46 && list[1] == 47 && list[2] == 44 && list[3] == 45 && list[4] == 0
        && list[5] == 1 && list[13] == 49 && list[14] == 42);
}

/// The program, instruction by instruction: one that loads the number of the call, for each
/// call one that skips the next unless the number is that of the call and one that asks for a
/// stop, and at the end one that lets the call through.
pub proof fn law_program_by_instruction(syscalls: Seq<u32>)
    ensures
        trace_prog(syscalls).len() == 2 * syscalls.len() + 2,
        trace_prog(syscalls)[0] == (SockFilter { code: 0x20, jt: 0, jf: 0, k: 0 }),
        forall|i: int|
            #![trigger syscalls[i]]
            0 <= i < syscalls.len() ==> {
                &&& trace_prog(syscalls)[2 * i + 1] == SockFilter {
                    code: 0x15,
                    jt: 0,
                    jf: 1,
                    k: syscalls[i],
                }
                &&& trace_prog(syscalls)[2 * i + 2] == SockFilter {
                    code: 0x06,
                    jt: 0,
                    jf: 0,
                    k: 0x7ff0_0000,
                }
            },
        trace_prog(syscalls).last() == (SockFilter {
            code: 0x06,
            jt: 0,
            jf: 0,
            k: 0x7fff_0000,
        }),
{
}

/// A tracee is stopped at exactly these calls: read, write, close, readv, writev, sendfile,
/// connect, sendto, recvfrom, sendmsg, recvmsg, bind, splice, tee, vmsplice and
/// copy_file_range. All others are let through.
pub proof fn law_filter_by_number(nr: u32)
    ensures
        traced() == seq![46u32, 47, 44, 45, 0, 1, 19, 20, 40, 275, 278, 276, 326, 49, 42, 3],
        answer(trace_prog(traced()), nr) == Some(
            if nr == 0 || nr == 1 || nr == 3 || nr == 19 || nr == 20 || nr == 40 || nr == 42 || nr
                == 44 || nr == 45 || nr == 46 || nr == 47 || nr == 49 || nr == 275 || nr == 276 || nr
                == 278 || nr == 326 {
                0x7ff0_0000u32
            } else {
                0x7fff_0000u32
            },
        ),
{
    law_program_selects(traced(), nr);
    let list = traced();
    assert(list =~= seq![
        46u32,
        47,
        44,
        45,
        0,
        1,
        19,
        20,
        40,
        275,
        278,
        276,
        326,
        49,
        42,
        3,
    ]);
    assert(list[0] == 46 && list[1] == 47 && list[2] == 44 && list[3] == 45 && list[4] == 0
        && list[5] == 1 && list[6] == 19 && list[7] == 20 && list[8] == 40 && list[9] == 275
        && list[10] == 278 && list[11] == 276 && list[12] == 326 && list[13] == 49 && list[14] == 42
        && list[15] == 3);
}

/// How a program is run: a load of the number goes on with it as the word, a comparison skips
/// as many instructions as it says, and a return gives its constant.
pub proof fn law_run_by_instruction(prog: Seq<SockFilter>, nr: u32, pc: int, word: u32)
    requires
        0 <= pc < prog.len(),
    ensures
        prog[pc].code == 0x20 && prog[pc].k == 0 ==> run(prog, nr, pc, word) == run(
            prog,
            nr,
            pc + 1,
            nr,
        ),
        prog[pc].code == 0x15 && word == prog[pc].k && pc + 1 + prog[pc].jt < prog.len() ==> run(
            prog,
            nr,
            pc,
            word,
        ) == run(prog, nr, pc + 1 + prog[pc].jt, word),
        prog[pc].code == 0x15 && word != prog[pc].k && pc + 1 + prog[pc].jf < prog.len() ==> run(
            prog,
            nr,
            pc,
            word,
        ) == run(prog, nr, pc + 1 + prog[pc].jf, word),
        prog[pc].code == 0x06 ==> run(prog, nr, pc, word) == Some(prog[pc].k),
        answer(prog, nr) == run(prog, nr, 0, 0),
{
}

/// The two makers of instructions put each argument in its field.
pub proof fn law_instruction_fields(code: u16, k: u32, jt: u8, jf: u8)
    ensures
        stmt_insn(code, k) == (SockFilter { code, jt: 0, jf: 0, k }),
        jeq_insn(k, jt, jf) == (SockFilter { code: 0x15, jt, jf, k }),
{
}

} // verus!
