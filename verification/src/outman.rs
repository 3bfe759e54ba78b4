//! The names of capture files in their plain form, with the socket's name as it is.
use crate::text::{decimal, digits, push_decimal, push_digits};
use vstd::prelude::*;
use vstd::string::*;

verus! {

/// How a truth value is written.
pub open spec fn truth(value: bool) -> Seq<char> {
    if value {
        "true"@
    } else {
        "false"@
    }
}

/// The plain name of the file for data that passed through a socket at a time.
pub open spec fn plain_file_name(name: Seq<char>, fd: i32, t: u64, inside: bool) -> Seq<char> {
    name + seq!['.'] + decimal(fd as int) + seq!['.'] + digits(t as nat) + seq!['.'] + truth(inside)
}

/// Names the file for data that passed through a socket at a time, in seconds since the
/// epoch. The name is not made safe.
pub fn plain_sock_file_name(name: &String, fd: i32, t: u64, inside: bool) -> (file: String)
    ensures
        file@ == plain_file_name(name@, fd, t, inside),
{
    let mut file: String = name.clone();
    file.push('.');
    push_decimal(&mut file, fd);
    file.push('.');
    push_digits(&mut file, t);
    file.push('.');
    if inside {
        file.append("true");
    } else {
        file.append("false");
    }
    assert(file@ =~= plain_file_name(name@, fd, t, inside));
    file
}

/// A plain file name is the socket's name as it is, the descriptor, the seconds and whether
/// the data came in, with dots between them.
pub proof fn law_plain_file_name_parts(name: Seq<char>, fd: i32, t: u64, inside: bool)
    ensures
        plain_file_name(name, fd, t, inside) == name + seq!['.'] + decimal(fd as int) + seq!['.']
            + decimal(t as int) + (if inside {
            seq!['.', 't', 'r', 'u', 'e']
        } else {
            seq!['.', 'f', 'a', 'l', 's', 'e']
        }),
{
    reveal_strlit("true");
    reveal_strlit("false");
    assert(seq!['.'] + "true"@ =~= seq!['.', 't', 'r', 'u', 'e']);
    assert(seq!['.'] + "false"@ =~= seq!['.', 'f', 'a', 'l', 's', 'e']);
    let head = name + seq!['.'] + decimal(fd as int) + seq!['.'] + digits(t as nat);
    assert(head + seq!['.'] + truth(inside) =~= head + (seq!['.'] + truth(inside)));
}

} // verus!
