//! The sockets that each traced process has open, by file descriptor.
//!
//! The threads of a process share one table of descriptors, so tables are kept apart from
//! the tracers and are referred to by number. A number stays good for as long as the tables
//! live: none is taken away.
use std::collections::HashMap;
use vstd::prelude::*;

verus! {

broadcast use vstd::std_specs::hash::group_hash_axioms;

/// A socket that is being watched.
#[derive(Debug, PartialEq, Eq)]
pub struct Socket {
    pub fd: i32,
    pub name: String,
}

/// A socket, with its name as a sequence of characters.
#[verifier::ext_equal]
pub struct SocketModel {
    pub fd: i32,
    pub name: Seq<char>,
}

impl View for Socket {
    type V = SocketModel;

    open spec fn view(&self) -> SocketModel {
        SocketModel { fd: self.fd, name: self.name@ }
    }
}

impl Clone for Socket {
    fn clone(&self) -> (copy: Self)
        ensures
            copy@ == self@,
    {
        Socket { fd: self.fd, name: self.name.clone() }
    }
}

/// A table of descriptors.
pub type FdMap = Map<i32, SocketModel>;

/// All tables of descriptors.
pub struct FdTables {
    tables: Vec<HashMap<i32, Socket>>,
}

/// What a hash map of sockets holds.
pub closed spec fn table_view(table: Map<i32, Socket>) -> FdMap {
    table.map_values(|socket: Socket| socket@)
}

impl View for FdTables {
    type V = Seq<FdMap>;

    closed spec fn view(&self) -> Seq<FdMap> {
        self.tables@.map_values(|table: HashMap<i32, Socket>| table_view(table@))
    }
}

impl FdTables {
    /// There are no more tables than can be numbered.
    pub proof fn lemma_numbered(&self)
        ensures
            self@.len() <= usize::MAX,
    {
        assert(self.tables.len() == self.tables@.len());
    }

    /// No tables.
    pub fn new() -> (tables: Self)
        ensures
            tables@ == Seq::<FdMap>::empty(),
    {
        let tables = FdTables { tables: Vec::new() };
        assert(tables@ =~= Seq::<FdMap>::empty());
        tables
    }

    /// Adds a table without entries, and returns its number.
    pub fn add_empty(&mut self) -> (id: usize)
        ensures
            final(self)@ == old(self)@.push(Map::empty()),
            id == old(self)@.len(),
    {
        let id: usize = self.tables.len();
        let table: HashMap<i32, Socket> = HashMap::new();
        proof {
            assert(table_view(table@) =~= Map::empty());
        }
        self.tables.push(table);
        assert(self@ =~= old(self)@.push(Map::empty()));
        id
    }

    /// Adds a copy of a table, and returns the copy's number.
    pub fn add_copy(&mut self, of: usize) -> (id: usize)
        requires
            of < old(self)@.len(),
        ensures
            final(self)@ == old(self)@.push(old(self)@[of as int]),
            id == old(self)@.len(),
    {
        let id: usize = self.tables.len();
        let table: HashMap<i32, Socket> = self.tables[of].clone();
        self.tables.push(table);
        assert(self@ =~= old(self)@.push(old(self)@[of as int]));
        id
    }

    /// Looks a descriptor up in a table.
    pub fn get(&self, id: usize, fd: i32) -> (socket: Option<Socket>)
        requires
            id < self@.len(),
        ensures
            match socket {
                Some(found) => self@[id as int].contains_key(fd) && found@ == self@[id as int][fd],
                None => !self@[id as int].contains_key(fd),
            },
    {
        match self.tables[id].get(&fd) {
            Some(socket) => Some(socket.clone()),
            None => None,
        }
    }

    /// Enters a socket under its descriptor.
    pub fn insert(&mut self, id: usize, socket: Socket)
        requires
            id < old(self)@.len(),
        ensures
            final(self)@ == old(self)@.update(
                id as int,
                old(self)@[id as int].insert(socket.fd, socket@),
            ),
    {
        let ghost before = self.tables@[id as int]@;
        let ghost entry = socket@;
        let fd: i32 = socket.fd;
        self.tables[id].insert(fd, socket);
        proof {
            assert(table_view(self.tables@[id as int]@) =~= table_view(before).insert(fd, entry));
            assert(self@ =~= old(self)@.update(id as int, old(self)@[id as int].insert(fd, entry)));
        }
    }

    /// Adds a table with those entries of another whose descriptors are listed, and returns
    /// its number.
    pub fn add_restricted(&mut self, of: usize, fds: &Vec<i32>) -> (id: usize)
        requires
            of < old(self)@.len(),
        ensures
            final(self)@ == old(self)@.push(old(self)@[of as int].restrict(fds@.to_set())),
            id == old(self)@.len(),
    {
        let id: usize = self.tables.len();
        let mut table: HashMap<i32, Socket> = HashMap::new();
        let ghost whole = self@[of as int];
        let mut i: usize = 0;
        proof {
            assert(table_view(table@) =~= whole.restrict(fds@.take(0).to_set()));
        }
        while i < fds.len()
            invariant
                of < self@.len(),
                self@ == old(self)@,
                whole == self@[of as int],
                id == self.tables@.len(),
                i <= fds@.len(),
                table_view(table@) == whole.restrict(fds@.take(i as int).to_set()),
            decreases fds@.len() - i,
        {
            let fd: i32 = fds[i];
            let ghost before = table@;
            proof {
                let earlier = fds@.take(i as int);
                let now = fds@.take(i + 1);
                assert(now =~= earlier.push(fd));
                assert forall|k: i32| now.contains(k) <==> earlier.contains(k) || k == fd by {
                    if earlier.contains(k) {
                        let j = choose|j: int| 0 <= j < earlier.len() && earlier[j] == k;
                        assert(now[j] == k);
                    }
                    assert(now[i as int] == fd);
                }
            }
            match self.get(of, fd) {
                Some(socket) => {
                    let ghost entry = socket@;
                    table.insert(fd, socket);
                    assert(table_view(table@) =~= table_view(before).insert(fd, entry));
                },
                None => {},
            }
            i = i + 1;
            assert(table_view(table@) =~= whole.restrict(fds@.take(i as int).to_set()));
        }
        proof {
            assert(fds@.take(i as int) =~= fds@);
        }
        self.tables.push(table);
        assert(self@ =~= old(self)@.push(whole.restrict(fds@.to_set())));
        id
    }
}

} // verus!
