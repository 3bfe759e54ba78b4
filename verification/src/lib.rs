//! The logic of a tracer of Unix-domain socket traffic on x86-64 Linux.
//!
//! A program is run under a seccomp filter ([`tracee`]) that stops it, and all that it starts,
//! at the system calls that name sockets or move data. A [`session::Session`] is told of each
//! stop and answers with what is to be done next: read registers, copy memory, save data,
//! resume a task. What passes through a watched socket is saved in files of its own
//! ([`output`]).
//!
//! Nothing here touches a process or a file: that is left to the caller.
pub mod fd_map;
pub mod laws;
pub mod locks;
pub mod memory;
pub mod outman;
pub mod output;
pub mod proc_fd;
pub mod session;
pub mod sys;
pub mod text;
pub mod tracee;
pub mod tracer;
pub mod transitions;
