# socktrace

Runs a program and writes what passes through its Unix-domain sockets to files, one file for
each socket, descriptor, second and direction. x86-64 Linux only.

    socktrace [--sock PATH] OUTDIR PROGRAM [ARGUMENTS]...

With `--sock`, only sockets of that path are watched. The settings can also be given as
`SOCKTRACE_OUT`, `SOCKTRACE_TARGET` and `SOCKTRACE_SOCK`.

## Layout

- `src/` is the library, verified with Verus. It decides everything and touches nothing.
  - `tracee`: the seccomp filter, with a model of how the kernel runs it
  - `tracer`: the handling of one stopped task
  - `session`: the handling of all tasks, as a machine of replies and actions
  - `fd_map`: the watched sockets of each process
  - `memory`: the structures that are copied out of a task's memory
  - `output`, `outman`: the names of capture files
  - `proc_fd`, `text`, `locks`, `sys`: descriptors in `/proc`, numbers as text, locks, and the
    numbers of the kernel interface
  - `laws`: what holds of a session as a whole
- `app/` is the program: it performs the actions.
- `tests/` runs the library on concrete values.

## What is trusted

The values of the constants that `libc` and `nix` define (`sys`), and what `String::push`,
`char::is_control`, `i32::from_str_radix` and `String::from_utf8_lossy` return. Of the locks of
the standard library nothing is claimed.
