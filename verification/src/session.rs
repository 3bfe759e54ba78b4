//! The tracing of a tree of tasks, as a machine that is told what happened and answers with
//! what is to be done next.
//!
//! The caller performs each action, and hands back what came of it, until one fails.
use crate::fd_map::{FdMap, FdTables, SocketModel};
use crate::memory::{
    can_buffer, contents, read_message_header, FAMILY_SIZE, IOVEC_SIZE, MSGHDR_SIZE, UNIX_PATH_SIZE,
};
use crate::text::decimal;
use crate::tracer::{
    event_kind, is_wanted, log_line, low_i32, text_view, Capture, CaptureModel, ContType,
    EventKind, Pending, PendingModel, Reaction, ReactionModel, ReadModel, ReadRequest, Regs, Step,
    StepModel, Tracer,
};
use std::collections::HashMap;
use vstd::prelude::*;

verus! {

broadcast use vstd::std_specs::hash::group_hash_axioms;

/// What the wait for a change in any task has brought.
#[derive(Clone, Copy, Debug, PartialEq, Eq, Structural)]
pub enum WaitEvent {
    /// A signal ended the task.
    Signaled { tid: i32, sig: i32 },
    /// The task stopped at a trace event.
    Event { tid: i32, ev: i32 },
    /// The task stopped as it entered or left a system call.
    Syscall { tid: i32 },
    /// A signal stopped the task.
    Stopped { tid: i32 },
    /// The task goes on after a stop.
    Continued { tid: i32 },
    /// Nothing changed.
    StillAlive,
    /// A task came to its end.
    Exited,
}

/// What is to be done next.
#[derive(Debug, PartialEq, Eq)]
pub enum Action {
    /// Wait for a change in any task.
    Wait,
    /// Read the task's registers.
    GetRegs { tid: i32 },
    /// Read the message of the task's trace event.
    GetEvent { tid: i32 },
    /// List the descriptors that the process has open.
    ListFds { tgid: i32 },
    /// Copy some of a task's memory.
    Read { request: ReadRequest },
    /// Write data to a file.
    Save { capture: Capture },
    /// Resume a task.
    Resume { cont: ContType },
}

/// An `Action`, made of models.
#[verifier::ext_equal]
pub enum ActionModel {
    Wait,
    GetRegs { tid: i32 },
    GetEvent { tid: i32 },
    ListFds { tgid: i32 },
    Read { request: ReadModel },
    Save { capture: CaptureModel },
    Resume { cont: ContType },
}

impl View for Action {
    type V = ActionModel;

    open spec fn view(&self) -> ActionModel {
        match *self {
            Action::Wait => ActionModel::Wait,
            Action::GetRegs { tid } => ActionModel::GetRegs { tid },
            Action::GetEvent { tid } => ActionModel::GetEvent { tid },
            Action::ListFds { tgid } => ActionModel::ListFds { tgid },
            Action::Read { request } => ActionModel::Read { request: request@ },
            Action::Save { capture } => ActionModel::Save { capture: capture@ },
            Action::Resume { cont } => ActionModel::Resume { cont },
        }
    }
}

/// What came of an action.
#[derive(Debug, PartialEq, Eq)]
pub enum Reply {
    /// The data was written, or the task resumed. Also what the session is started with.
    Done,
    /// What the wait has brought.
    Waited { event: WaitEvent },
    /// The registers.
    Registers { regs: Regs },
    /// The message of the trace event.
    Message { message: i64 },
    /// The open descriptors.
    Fds { fds: Vec<i32> },
    /// The buffers that the memory was copied into.
    Memory { buffers: Vec<Vec<u8>> },
}

/// A `Reply`, made of models.
#[verifier::ext_equal]
pub enum ReplyModel {
    Done,
    Waited { event: WaitEvent },
    Registers { regs: Regs },
    Message { message: i64 },
    Fds { fds: Set<i32> },
    Memory { buffers: Seq<Seq<u8>> },
}

impl View for Reply {
    type V = ReplyModel;

    open spec fn view(&self) -> ReplyModel {
        match *self {
            Reply::Done => ReplyModel::Done,
            Reply::Waited { event } => ReplyModel::Waited { event },
            Reply::Registers { regs } => ReplyModel::Registers { regs },
            Reply::Message { message } => ReplyModel::Message { message },
            Reply::Fds { fds } => ReplyModel::Fds { fds: fds@.to_set() },
            Reply::Memory { buffers } => ReplyModel::Memory { buffers: contents(buffers@) },
        }
    }
}

/// What a session waits for.
#[derive(Debug)]
enum Phase {
    Ready,
    Waiting,
    Registers { tid: i32 },
    ThreadId { tid: i32 },
    ProcessId { tid: i32 },
    Descriptors { tid: i32 },
    Memory { tid: i32, pending: Pending },
    Saving { cont: ContType },
}

/// What a session waits for: that a task has been resumed (or the session started), a change
/// in any task, or something about the stopped task `tid`.
#[verifier::ext_equal]
pub enum PhaseModel {
    Ready,
    Waiting,
    Registers { tid: i32 },
    ThreadId { tid: i32 },
    ProcessId { tid: i32 },
    Descriptors { tid: i32 },
    Memory { tid: i32, pending: PendingModel },
    Saving { cont: ContType },
}

/// The next action, and what there is to report.
#[derive(Debug, PartialEq, Eq)]
pub struct Output {
    pub log: Option<String>,
    pub action: Action,
}

/// An `Output`, made of models.
#[verifier::ext_equal]
pub struct OutputModel {
    pub log: Option<Seq<char>>,
    pub action: ActionModel,
}

impl View for Output {
    type V = OutputModel;

    open spec fn view(&self) -> OutputModel {
        OutputModel { log: text_view(self.log), action: self.action@ }
    }
}

/// The tracing of a tree of tasks.
pub struct Session {
    sock: Option<String>,
    tables: FdTables,
    tracers: HashMap<i32, Tracer>,
    phase: Phase,
}

/// The state of a `Session`.
#[verifier::ext_equal]
pub struct SessionModel {
    /// The only socket name of interest, if there is one.
    pub sock: Option<Seq<char>>,
    /// The tables of descriptors.
    pub tables: Seq<FdMap>,
    /// The tracers, by task.
    pub tracers: Map<i32, Tracer>,
    /// What is waited for.
    pub phase: PhaseModel,
}

impl Phase {
    spec fn model(self) -> PhaseModel {
        match self {
            Phase::Ready => PhaseModel::Ready,
            Phase::Waiting => PhaseModel::Waiting,
            Phase::Registers { tid } => PhaseModel::Registers { tid },
            Phase::ThreadId { tid } => PhaseModel::ThreadId { tid },
            Phase::ProcessId { tid } => PhaseModel::ProcessId { tid },
            Phase::Descriptors { tid } => PhaseModel::Descriptors { tid },
            Phase::Memory { tid, pending } => PhaseModel::Memory { tid, pending: pending@ },
            Phase::Saving { cont } => PhaseModel::Saving { cont },
        }
    }
}

impl View for Session {
    type V = SessionModel;

    closed spec fn view(&self) -> SessionModel {
        SessionModel {
            sock: text_view(self.sock),
            tables: self.tables@,
            tracers: self.tracers@,
            phase: self.phase.model(),
        }
    }
}

impl PhaseModel {
    /// The stopped task, if the session waits for something about one.
    pub open spec fn stopped(self) -> Option<i32> {
        match self {
            PhaseModel::Registers { tid } => Some(tid),
            PhaseModel::ThreadId { tid } => Some(tid),
            PhaseModel::ProcessId { tid } => Some(tid),
            PhaseModel::Descriptors { tid } => Some(tid),
            PhaseModel::Memory { tid, .. } => Some(tid),
            _ => None,
        }
    }

    /// The socket whose data is being looked at, if one is.
    pub open spec fn socket(self) -> Option<SocketModel> {
        match self {
            PhaseModel::Memory { pending: PendingModel::Header { socket, .. }, .. } => Some(socket),
            PhaseModel::Memory { pending: PendingModel::Vectors { socket, .. }, .. } => Some(
                socket,
            ),
            PhaseModel::Memory { pending: PendingModel::Payload { socket, .. }, .. } => Some(
                socket,
            ),
            _ => None,
        }
    }
}

impl SessionModel {
    /// What holds of every session.
    pub open spec fn valid(self) -> bool {
        // Tables can be numbered.
        &&& self.tables.len() <= usize::MAX
        // A tracer is entered under its task, and has a table.
        &&& forall|tid: i32| #[trigger]
            self.tracers.contains_key(tid) ==> self.tracers[tid].tid == tid
                && self.tracers[tid].fd_map < self.tables.len()
        // A socket is entered under its descriptor, and is wanted.
        &&& forall|id: int, fd: i32|
            0 <= id < self.tables.len() && #[trigger] self.tables[id].contains_key(fd)
                ==> self.tables[id][fd].fd == fd && is_wanted(
                self.sock,
                self.tables[id][fd].name,
            )
        // A task that something is to be learned of is traced.
        &&& self.phase.stopped() matches Some(tid) ==> self.tracers.contains_key(tid)
        // Only the data of wanted sockets is looked at.
        &&& self.phase.socket() matches Some(socket) ==> is_wanted(self.sock, socket.name)
    }

    /// Whether that is what the session waits for.
    pub open spec fn accepts(self, reply: ReplyModel) -> bool {
        match (self.phase, reply) {
            (PhaseModel::Ready, ReplyModel::Done) => true,
            (PhaseModel::Waiting, ReplyModel::Waited { event }) => match event {
                WaitEvent::Event { tid, .. } => self.tracers.contains_key(tid),
                WaitEvent::Syscall { tid } => self.tracers.contains_key(tid),
                _ => true,
            },
            (PhaseModel::Registers { .. }, ReplyModel::Registers { .. }) => true,
            (PhaseModel::ThreadId { .. }, ReplyModel::Message { .. }) => true,
            (PhaseModel::ProcessId { .. }, ReplyModel::Message { .. }) => true,
            (PhaseModel::Descriptors { .. }, ReplyModel::Fds { .. }) => true,
            (PhaseModel::Memory { pending, .. }, ReplyModel::Memory { buffers }) => pending.accepts(
                buffers,
            ),
            (PhaseModel::Saving { .. }, ReplyModel::Done) => true,
            _ => false,
        }
    }

    /// The watched sockets that a traced task has open.
    pub open spec fn sockets(self, tid: i32) -> FdMap {
        self.tracers[tid].sockets(self.tables)
    }

    /// Waits for something, and asks for it.
    pub open spec fn ask(
        self,
        phase: PhaseModel,
        log: Option<Seq<char>>,
        action: ActionModel,
    ) -> (SessionModel, OutputModel) {
        (SessionModel { phase, ..self }, OutputModel { log, action })
    }

    /// Resumes a task, or goes on where there is none to resume.
    pub open spec fn finish(self, log: Option<Seq<char>>, cont: ContType) -> (
        SessionModel,
        OutputModel,
    ) {
        self.ask(PhaseModel::Ready, log, ActionModel::Resume { cont })
    }

    /// Does what a tracer wants.
    pub open spec fn follow(self, tid: i32, reaction: ReactionModel) -> (
        SessionModel,
        OutputModel,
    ) {
        match reaction.step {
            StepModel::Read { request, pending } => self.ask(
                PhaseModel::Memory { tid, pending },
                reaction.log,
                ActionModel::Read { request },
            ),
            StepModel::Save { capture, cont } => self.ask(
                PhaseModel::Saving { cont },
                reaction.log,
                ActionModel::Save { capture },
            ),
            StepModel::Resume { cont } => self.finish(reaction.log, cont),
        }
    }

    /// What a change in a task leads to.
    pub open spec fn on_wait(self, event: WaitEvent) -> (SessionModel, OutputModel) {
        match event {
            WaitEvent::Signaled { tid, sig } => self.finish(None, ContType::Cont(tid, Some(sig))),
            WaitEvent::Event { tid, ev } => self.on_event(tid, ev),
            WaitEvent::Syscall { tid } => self.ask(
                PhaseModel::Registers { tid },
                None,
                ActionModel::GetRegs { tid: self.tracers[tid].tid },
            ),
            WaitEvent::Stopped { tid } => self.finish(None, ContType::Cont(tid, None)),
            WaitEvent::Continued { tid } => self.finish(None, ContType::Cont(tid, None)),
            WaitEvent::StillAlive => self.finish(None, ContType::Exit),
            WaitEvent::Exited => self.finish(None, ContType::Exit),
        }
    }

    /// What a trace event leads to.
    pub open spec fn on_event(self, tid: i32, ev: i32) -> (SessionModel, OutputModel) {
        let tracer = self.tracers[tid];
        match event_kind(ev) {
            EventKind::Syscall => self.ask(
                PhaseModel::Registers { tid },
                None,
                ActionModel::GetRegs { tid: tracer.tid },
            ),
            EventKind::NewThread => self.ask(
                PhaseModel::ThreadId { tid },
                None,
                ActionModel::GetEvent { tid: tracer.tid },
            ),
            EventKind::NewProcess => self.ask(
                PhaseModel::ProcessId { tid },
                None,
                ActionModel::GetEvent { tid: tracer.tid },
            ),
            EventKind::Exec => self.ask(
                PhaseModel::Descriptors { tid },
                Some(log_line(tracer.tid, tracer.tgid, "EXEC: rebuilding fd map"@)),
                ActionModel::ListFds { tgid: tracer.tgid },
            ),
            EventKind::Other => self.finish(None, ContType::Cont(tracer.tid, None)),
        }
    }

    /// What a task's registers lead to.
    pub open spec fn on_registers(self, tid: i32, regs: Regs) -> (SessionModel, OutputModel) {
        let (tracer, reaction) = self.tracers[tid].syscall_reaction(self.tables, regs);
        SessionModel { tracers: self.tracers.insert(tid, tracer), ..self }.follow(tid, reaction)
    }

    /// What a copy of a task's memory leads to.
    pub open spec fn on_memory(self, tid: i32, pending: PendingModel, buffers: Seq<Seq<u8>>) -> (
        SessionModel,
        OutputModel,
    ) {
        let (tables, reaction) = self.tracers[tid].memory_reaction(
            self.sock,
            self.tables,
            pending,
            buffers,
        );
        SessionModel { tables, ..self }.follow(tid, reaction)
    }

    /// What the number of a new thread leads to.
    pub open spec fn on_thread(self, tid: i32, newtid: i32) -> (SessionModel, OutputModel) {
        let tracer = self.tracers[tid];
        SessionModel {
            tracers: self.tracers.insert(newtid, tracer.thread(newtid)),
            ..self
        }.finish(
            Some(
                log_line(
                    tracer.tid,
                    tracer.tgid,
                    "CLONE: new thread "@ + decimal(newtid as int),
                ),
            ),
            ContType::Cont(tracer.tid, None),
        )
    }

    /// What the number of a new process leads to.
    pub open spec fn on_process(self, tid: i32, newtid: i32) -> (SessionModel, OutputModel) {
        let tracer = self.tracers[tid];
        SessionModel {
            tables: self.tables.push(tracer.sockets(self.tables)),
            tracers: self.tracers.insert(
                newtid,
                Tracer::process(newtid, self.tables.len() as usize),
            ),
            ..self
        }.finish(
            Some(
                log_line(
                    tracer.tid,
                    tracer.tgid,
                    "FORK|VFORK: new process "@ + decimal(newtid as int),
                ),
            ),
            ContType::Cont(tracer.tid, None),
        )
    }

    /// What the descriptors that a new program has inherited lead to.
    pub open spec fn on_descriptors(self, tid: i32, fds: Set<i32>) -> (SessionModel, OutputModel) {
        let tracer = self.tracers[tid];
        SessionModel {
            tables: self.tables.push(tracer.sockets(self.tables).restrict(fds)),
            tracers: self.tracers.insert(
                tid,
                Tracer { fd_map: self.tables.len() as usize, ..tracer },
            ),
            ..self
        }.finish(None, ContType::Cont(tracer.tid, None))
    }

    /// The next state and action of a session that accepts the reply.
    pub open spec fn next(self, reply: ReplyModel) -> (SessionModel, OutputModel) {
        match (self.phase, reply) {
            (PhaseModel::Ready, ReplyModel::Done) => self.ask(
                PhaseModel::Waiting,
                None,
                ActionModel::Wait,
            ),
            (PhaseModel::Waiting, ReplyModel::Waited { event }) => self.on_wait(event),
            (PhaseModel::Registers { tid }, ReplyModel::Registers { regs }) => self.on_registers(
                tid,
                regs,
            ),
            (PhaseModel::ThreadId { tid }, ReplyModel::Message { message }) => self.on_thread(
                tid,
                low_i32(message as int) as i32,
            ),
            (PhaseModel::ProcessId { tid }, ReplyModel::Message { message }) => self.on_process(
                tid,
                low_i32(message as int) as i32,
            ),
            (PhaseModel::Descriptors { tid }, ReplyModel::Fds { fds }) => self.on_descriptors(
                tid,
                fds,
            ),
            (PhaseModel::Memory { tid, pending }, ReplyModel::Memory { buffers }) => self.on_memory(
                tid,
                pending,
                buffers,
            ),
            (PhaseModel::Saving { cont }, ReplyModel::Done) => self.finish(None, cont),
            _ => self.ask(self.phase, None, ActionModel::Wait),
        }
    }
}

impl SessionModel {
    /// Doing what a tracer wants keeps a session valid, if the tracer looks only at wanted
    /// sockets.
    proof fn lemma_follow_valid(self, tid: i32, reaction: ReactionModel)
        requires
            (SessionModel { phase: PhaseModel::Ready, ..self }).valid(),
            self.tracers.contains_key(tid),
            self.follow(tid, reaction).0.phase.socket() matches Some(socket) ==> is_wanted(
                self.sock,
                socket.name,
            ),
        ensures
            self.follow(tid, reaction).0.valid(),
    {
        let ready = SessionModel { phase: PhaseModel::Ready, ..self };
        let after = self.follow(tid, reaction).0;
        assert forall|task: i32| #[trigger] after.tracers.contains_key(task) implies
            after.tracers[task].tid == task && after.tracers[task].fd_map < after.tables.len() by {
            assert(ready.tracers.contains_key(task));
        }
    }

    /// A valid session that goes on with a reply that it waits for is valid again.
    pub proof fn lemma_next_valid(self, reply: ReplyModel)
        requires
            self.valid(),
            self.accepts(reply),
            self.next(reply).0.tables.len() <= usize::MAX,
        ensures
            self.next(reply).0.valid(),
    {
        match (self.phase, reply) {
            (PhaseModel::Registers { tid }, ReplyModel::Registers { regs }) => {
                let (tracer, reaction) = self.tracers[tid].syscall_reaction(self.tables, regs);
                let state = SessionModel { tracers: self.tracers.insert(tid, tracer), ..self };
                state.lemma_follow_valid(tid, reaction);
            },
            (PhaseModel::Memory { tid, pending }, ReplyModel::Memory { buffers }) => {
                let (tables, reaction) = self.tracers[tid].memory_reaction(
                    self.sock,
                    self.tables,
                    pending,
                    buffers,
                );
                let state = SessionModel { tables, ..self };
                state.lemma_follow_valid(tid, reaction);
            },
            _ => {},
        }
    }
}

impl Session {
    /// A session without tasks, for the sockets of one name or, if none is given, for all.
    pub fn new(sock: Option<String>) -> (session: Self)
        ensures
            session@ == (SessionModel {
                sock: text_view(sock),
                tables: Seq::empty(),
                tracers: Map::empty(),
                phase: PhaseModel::Ready,
            }),
            session@.valid(),
    {
        Session { sock, tables: FdTables::new(), tracers: HashMap::new(), phase: Phase::Ready }
    }

    /// Takes on a process that has no watched sockets yet, and returns a line for the log.
    pub fn attach(&mut self, pid: i32) -> (line: String)
        requires
            old(self)@.valid(),
        ensures
            final(self)@ == (SessionModel {
                tables: old(self)@.tables.push(Map::empty()),
                tracers: old(self)@.tracers.insert(
                    pid,
                    Tracer::process(pid, old(self)@.tables.len() as usize),
                ),
                ..old(self)@
            }),
            final(self)@.valid(),
            line@ == log_line(pid, pid, "Tracer attached"@),
    {
        let tracer: Tracer = Tracer::new(pid, pid, None, &mut self.tables);
        let line: String = tracer.log("Tracer attached");
        self.tracers.insert(pid, tracer);
        proof {
            self.tables.lemma_numbered();
        }
        line
    }

    /// Tells whether a task is traced.
    pub fn is_traced(&self, tid: i32) -> (traced: bool)
        ensures
            traced == self@.tracers.contains_key(tid),
    {
        self.tracers.contains_key(&tid)
    }

    /// The name under which a traced task's descriptor is watched, if it is.
    pub fn watched_name(&self, tid: i32, fd: i32) -> (name: Option<String>)
        requires
            self@.valid(),
            self@.tracers.contains_key(tid),
        ensures
            match name {
                Some(found) => self@.sockets(tid).contains_key(fd) && found@ == self@.sockets(
                    tid,
                )[fd].name,
                None => !self@.sockets(tid).contains_key(fd),
            },
    {
        let tracer: Tracer = self.tracer(tid);
        match self.tables.get(tracer.fd_map, fd) {
            Some(socket) => Some(socket.name),
            None => None,
        }
    }

    /// The tracer of a traced task.
    fn tracer(&self, tid: i32) -> (tracer: Tracer)
        requires
            self@.tracers.contains_key(tid),
        ensures
            tracer == self@.tracers[tid],
    {
        match self.tracers.get(&tid) {
            Some(tracer) => *tracer,
            None => {
                assert(false);
                Tracer { tid, tgid: tid, fd_map: 0, after_syscall: false }
            },
        }
    }

    /// Tells whether a reply is what the session waits for.
    pub fn accepts(&self, reply: &Reply) -> (accepted: bool)
        ensures
            accepted == self@.accepts(reply@),
    {
        match (&self.phase, reply) {
            (Phase::Ready, Reply::Done) => true,
            (Phase::Waiting, Reply::Waited { event }) => match event {
                WaitEvent::Event { tid, .. } => self.is_traced(*tid),
                WaitEvent::Syscall { tid } => self.is_traced(*tid),
                _ => true,
            },
            (Phase::Registers { .. }, Reply::Registers { .. }) => true,
            (Phase::ThreadId { .. }, Reply::Message { .. }) => true,
            (Phase::ProcessId { .. }, Reply::Message { .. }) => true,
            (Phase::Descriptors { .. }, Reply::Fds { .. }) => true,
            (Phase::Memory { pending, .. }, Reply::Memory { buffers }) => has_shape(
                pending,
                buffers,
            ),
            (Phase::Saving { .. }, Reply::Done) => true,
            _ => false,
        }
    }

    /// Says what went wrong when the memory that the session waits for could not be copied.
    /// There is nothing to say while it waits for something else.
    pub fn failure(&self) -> (text: Option<&'static str>)
        ensures
            match (self@.phase, text) {
                (PhaseModel::Memory { pending, .. }, Some(said)) => said@
                    == pending.failure_text(),
                (PhaseModel::Memory { .. }, None) => false,
                (_, Some(_)) => false,
                (_, None) => true,
            },
    {
        match &self.phase {
            Phase::Memory { pending, .. } => Some(pending.failure()),
            _ => None,
        }
    }

    /// Waits for something, and asks for it.
    fn ask(&mut self, phase: Phase, log: Option<String>, action: Action) -> (output: Output)
        ensures
            (final(self)@, output@) == old(self)@.ask(phase.model(), text_view(log), action@),
    {
        self.phase = phase;
        Output { log, action }
    }

    /// Resumes a task, or goes on where there is none to resume.
    fn finish(&mut self, log: Option<String>, cont: ContType) -> (output: Output)
        ensures
            (final(self)@, output@) == old(self)@.finish(text_view(log), cont),
    {
        self.ask(Phase::Ready, log, Action::Resume { cont })
    }

    /// Does what a tracer wants.
    fn follow(&mut self, tid: i32, reaction: Reaction) -> (output: Output)
        ensures
            (final(self)@, output@) == old(self)@.follow(tid, reaction@),
    {
        match reaction.step {
            Step::Read { request, pending } => self.ask(
                Phase::Memory { tid, pending },
                reaction.log,
                Action::Read { request },
            ),
            Step::Save { capture, cont } => self.ask(
                Phase::Saving { cont },
                reaction.log,
                Action::Save { capture },
            ),
            Step::Resume { cont } => self.finish(reaction.log, cont),
        }
    }

    /// Reacts to a trace event.
    fn handle_event(&mut self, tid: i32, ev: i32) -> (output: Output)
        requires
            old(self)@.tracers.contains_key(tid),
        ensures
            (final(self)@, output@) == old(self)@.on_event(tid, ev),
    {
        let tracer: Tracer = self.tracer(tid);
        match tracer.handle_ev(ev) {
            EventKind::Syscall => self.ask(
                Phase::Registers { tid },
                None,
                Action::GetRegs { tid: tracer.tid },
            ),
            EventKind::NewThread => self.ask(
                Phase::ThreadId { tid },
                None,
                Action::GetEvent { tid: tracer.tid },
            ),
            EventKind::NewProcess => self.ask(
                Phase::ProcessId { tid },
                None,
                Action::GetEvent { tid: tracer.tid },
            ),
            EventKind::Exec => {
                let line: String = tracer.log("EXEC: rebuilding fd map");
                self.ask(
                    Phase::Descriptors { tid },
                    Some(line),
                    Action::ListFds { tgid: tracer.tgid },
                )
            },
            EventKind::Other => self.finish(None, ContType::Cont(tracer.tid, None)),
        }
    }

    /// Reacts to a change in a task.
    fn handle_wait(&mut self, event: WaitEvent) -> (output: Output)
        requires
            event matches WaitEvent::Event { tid, .. } ==> old(self)@.tracers.contains_key(tid),
            event matches WaitEvent::Syscall { tid } ==> old(self)@.tracers.contains_key(tid),
        ensures
            (final(self)@, output@) == old(self)@.on_wait(event),
    {
        match event {
            WaitEvent::Signaled { tid, sig } => self.finish(None, ContType::Cont(tid, Some(sig))),
            WaitEvent::Event { tid, ev } => self.handle_event(tid, ev),
            WaitEvent::Syscall { tid } => {
                let tracer: Tracer = self.tracer(tid);
                self.ask(Phase::Registers { tid }, None, Action::GetRegs { tid: tracer.tid })
            },
            WaitEvent::Stopped { tid } => self.finish(None, ContType::Cont(tid, None)),
            WaitEvent::Continued { tid } => self.finish(None, ContType::Cont(tid, None)),
            WaitEvent::StillAlive => self.finish(None, ContType::Exit),
            WaitEvent::Exited => self.finish(None, ContType::Exit),
        }
    }

    /// Goes on with what came of the last action (`Reply::Done` to start with), and says what
    /// is to be done next.
    pub fn trace(&mut self, reply: Reply) -> (output: Output)
        requires
            old(self)@.valid(),
            old(self)@.accepts(reply@),
        ensures
            (final(self)@, output@) == old(self)@.next(reply@),
            final(self)@.valid(),
    {
        let mut phase: Phase = Phase::Ready;
        std::mem::swap(&mut phase, &mut self.phase);
        let ghost replied = reply@;
        let output: Output = match (phase, reply) {
            (Phase::Ready, _) => self.ask(Phase::Waiting, None, Action::Wait),
            (Phase::Waiting, Reply::Waited { event }) => self.handle_wait(event),
            (Phase::Registers { tid }, Reply::Registers { regs }) => {
                let mut tracer: Tracer = self.tracer(tid);
                let reaction: Reaction = tracer.handle_syscall(&self.tables, regs);
                self.tracers.insert(tid, tracer);
                self.follow(tid, reaction)
            },
            (Phase::ThreadId { tid }, Reply::Message { message }) => {
                let tracer: Tracer = self.tracer(tid);
                let (made, line) = tracer.new_thread(&mut self.tables, message);
                self.tracers.insert(made.tid, made);
                self.finish(Some(line), ContType::Cont(tracer.tid, None))
            },
            (Phase::ProcessId { tid }, Reply::Message { message }) => {
                let tracer: Tracer = self.tracer(tid);
                let (made, line) = tracer.new_process(&mut self.tables, message);
                self.tracers.insert(made.tid, made);
                self.finish(Some(line), ContType::Cont(tracer.tid, None))
            },
            (Phase::Descriptors { tid }, Reply::Fds { fds }) => {
                let mut tracer: Tracer = self.tracer(tid);
                tracer.rebuild_fd_map(&mut self.tables, &fds);
                self.tracers.insert(tid, tracer);
                self.finish(None, ContType::Cont(tracer.tid, None))
            },
            (Phase::Memory { tid, pending }, Reply::Memory { buffers }) => {
                let tracer: Tracer = self.tracer(tid);
                let reaction: Reaction = tracer.resume_with(
                    &self.sock,
                    &mut self.tables,
                    pending,
                    &buffers,
                );
                self.follow(tid, reaction)
            },
            (Phase::Saving { cont }, _) => self.finish(None, cont),
            _ => {
                assert(false);
                self.finish(None, ContType::Exit)
            },
        };
        proof {
            self.tables.lemma_numbered();
            old(self)@.lemma_next_valid(replied);
        }
        output
    }
}

/// Tells whether copied memory has the shape that was asked for.
fn has_shape(pending: &Pending, buffers: &Vec<Vec<u8>>) -> (fits: bool)
    ensures
        fits == pending@.accepts(contents(buffers@)),
{
    let ghost bytes = contents(buffers@);
    assert(forall|i: int| 0 <= i < buffers@.len() ==> #[trigger] buffers@[i]@ == bytes[i]);
    match pending {
        Pending::Family { .. } => buffers.len() == 1 && buffers[0].len() == FAMILY_SIZE,
        Pending::Path { .. } => buffers.len() == 1 && buffers[0].len() == UNIX_PATH_SIZE,
        Pending::Header { .. } => buffers.len() == 1 && buffers[0].len() == MSGHDR_SIZE
            && can_buffer(read_message_header(buffers[0].as_slice()).iovlen),
        Pending::Vectors { .. } => {
            let mut i: usize = 0;
            while i < buffers.len()
                invariant
                    i <= buffers@.len(),
                    bytes == contents(buffers@),
                    pending is Vectors,
                    forall|j: int| 0 <= j < i ==> #[trigger] bytes[j].len() == IOVEC_SIZE,
                decreases buffers@.len() - i,
            {
                if buffers[i].len() != IOVEC_SIZE {
                    assert(bytes[i as int].len() != IOVEC_SIZE);
                    return false;
                }
                i = i + 1;
            }
            true
        },
        Pending::Payload { .. } => true,
    }
}

/// The models of what a session is told and answers are whole: each part stands in them as it
/// is, but that of a list of descriptors only what is in it counts.
pub proof fn law_reply_models_are_whole(
    event: WaitEvent,
    regs: Regs,
    message: i64,
    fds: Vec<i32>,
    buffers: Vec<Vec<u8>>,
    output: Output,
)
    ensures
        Reply::Done@ == ReplyModel::Done,
        (Reply::Waited { event })@ == (ReplyModel::Waited { event }),
        (Reply::Registers { regs })@ == (ReplyModel::Registers { regs }),
        (Reply::Message { message })@ == (ReplyModel::Message { message }),
        (Reply::Fds { fds })@ matches ReplyModel::Fds { fds: set } && forall|fd: i32| #[trigger]
            set.contains(fd) <==> fds@.contains(fd),
        (Reply::Memory { buffers })@ matches ReplyModel::Memory { buffers: copied } && copied.len()
            == buffers@.len() && forall|i: int|
            0 <= i < copied.len() ==> #[trigger] copied[i] == buffers@[i]@,
        output@.log == text_view(output.log),
        output@.action == output.action@,
{
}

/// The model of an action is the same action, made of the models of its parts.
pub proof fn law_action_model_is_whole(
    action: Action,
    number: i32,
    request: ReadRequest,
    capture: Capture,
    cont: ContType,
)
    ensures
        action == Action::Wait ==> action@ == ActionModel::Wait,
        action == (Action::GetRegs { tid: number }) ==> action@ == (ActionModel::GetRegs {
            tid: number,
        }),
        action == (Action::GetEvent { tid: number }) ==> action@ == (ActionModel::GetEvent {
            tid: number,
        }),
        action == (Action::ListFds { tgid: number }) ==> action@ == (ActionModel::ListFds {
            tgid: number,
        }),
        action == (Action::Read { request }) ==> action@ == (ActionModel::Read {
            request: request@,
        }),
        action == (Action::Save { capture }) ==> action@ == (ActionModel::Save {
            capture: capture@,
        }),
        action == (Action::Resume { cont }) ==> action@ == (ActionModel::Resume { cont }),
{
}

} // verus!
