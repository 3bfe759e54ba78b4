//! The names of the files that captured data is written to.
use crate::text::{decimal, digits, push_decimal, push_digits};
use crate::text::{lemma_decimal_form, lemma_decimal_injective};
use crate::text::{lemma_digits_form, lemma_digits_injective};
use vstd::prelude::*;
use vstd::string::*;
use vstd::utf8::{encode_scalar, encode_utf8};

verus! {

/// A name is cut once it takes this many bytes.
pub const MAX_LEN: usize = 255;

/// The control characters: those of the Unicode category Cc.
pub open spec fn is_control(c: char) -> bool {
    c as u32 <= 0x1f || 0x7f <= c as u32 <= 0x9f
}

/// Whether a character has no place in a file name.
pub open spec fn is_unsafe(c: char) -> bool {
    c == '/' || c == '\\' || c == ':' || c == '*' || c == '?' || c == '"' || c == '<' || c == '>'
        || c == '|' || is_control(c)
}

/// The character that stands for another in a file name.
pub open spec fn safe_char(c: char) -> char {
    if is_unsafe(c) {
        '_'
    } else {
        c
    }
}

/// The number of bytes that text takes.
pub open spec fn byte_len(text: Seq<char>) -> nat {
    encode_utf8(text).len()
}

/// Text without those last characters before which there are at least `MAX_LEN` bytes.
pub open spec fn cut(text: Seq<char>) -> Seq<char>
    decreases text.len(),
{
    if text.len() == 0 || byte_len(text.drop_last()) < MAX_LEN {
        text
    } else {
        cut(text.drop_last())
    }
}

/// The form of a socket's name that is fit for a file name.
pub open spec fn safe_text(input: Seq<char>) -> Seq<char> {
    if input.len() == 0 {
        seq!['_']
    } else {
        cut(input.map_values(|c: char| safe_char(c)))
    }
}

/// How the direction of data is written.
pub open spec fn direction(inside: bool) -> Seq<char> {
    if inside {
        "in"@
    } else {
        "out"@
    }
}

/// The name of the file for data that passed through a socket at a time.
pub open spec fn file_name(name: Seq<char>, fd: i32, t: u64, inside: bool) -> Seq<char> {
    safe_text(name) + seq!['.'] + decimal(fd as int) + seq!['.'] + digits(t as nat) + seq!['.']
        + direction(inside)
}

/// Specifies `char::is_control` of the standard library: it tells whether a character is in
/// the Unicode category Cc, which holds U+0000 to U+001F and U+007F to U+009F.
pub assume_specification[ char::is_control ](c: char) -> (control: bool)
    ensures
        control == is_control(c),
;

/// The encoding of joined text is the joined encodings.
proof fn lemma_encode_concat(a: Seq<char>, b: Seq<char>)
    ensures
        encode_utf8(a + b) == encode_utf8(a) + encode_utf8(b),
    decreases a.len(),
{
    if a.len() == 0 {
        assert(a + b =~= b);
        assert(encode_utf8(a) + encode_utf8(b) =~= encode_utf8(b));
    } else {
        lemma_encode_concat(a.drop_first(), b);
        assert((a + b).drop_first() =~= a.drop_first() + b);
        assert((a + b)[0] == a[0]);
        assert(encode_utf8(a + b) =~= encode_utf8(a) + encode_utf8(b));
    }
}

/// One more character takes one to four more bytes.
proof fn lemma_byte_len_push(text: Seq<char>, c: char)
    ensures
        byte_len(text) < byte_len(text.push(c)) <= byte_len(text) + 4,
{
    let last = seq![c];
    lemma_encode_concat(text, last);
    assert(text + last =~= text.push(c));
    assert(last.drop_first() =~= Seq::<char>::empty());
    assert(encode_utf8(last.drop_first()) =~= Seq::<u8>::empty());
    assert(encode_utf8(last) =~= encode_scalar(c as u32));
}

/// A prefix takes no more bytes than the whole.
proof fn lemma_byte_len_prefix(text: Seq<char>, n: int)
    requires
        0 <= n <= text.len(),
    ensures
        byte_len(text.take(n)) <= byte_len(text),
{
    lemma_encode_concat(text.take(n), text.skip(n));
    assert(text.take(n) + text.skip(n) =~= text);
}

/// Text that is cut ends where `MAX_LEN` is reached.
proof fn lemma_cut_at(text: Seq<char>, n: int)
    requires
        0 < n <= text.len(),
        byte_len(text.take(n - 1)) < MAX_LEN,
        n == text.len() || byte_len(text.take(n)) >= MAX_LEN,
    ensures
        cut(text) == text.take(n),
    decreases text.len(),
{
    if n == text.len() {
        assert(text.drop_last() =~= text.take(n - 1));
        assert(text.take(n) =~= text);
    } else {
        let shorter = text.drop_last();
        assert(shorter.take(n) =~= text.take(n));
        assert(shorter.take(n - 1) =~= text.take(n - 1));
        lemma_byte_len_prefix(shorter, n);
        lemma_cut_at(shorter, n);
    }
}

/// Makes a socket's name fit for a file name.
pub fn safe_name(input: &str) -> (out: String)
    ensures
        out@ == safe_text(input@),
{
    let mut out: String = String::new();
    let ghost text = input@.map_values(|c: char| safe_char(c));
    assert(out@ =~= text.take(0));
    assert(encode_utf8(out@) =~= Seq::<u8>::empty());
    for c in it: input.chars()
        invariant
            it.seq() == input@,
            text == input@.map_values(|c: char| safe_char(c)),
            out@ == text.take(it.index()),
            byte_len(out@) < MAX_LEN,
            it.index() > 0 ==> byte_len(text.take(it.index() - 1)) < MAX_LEN,
    {
        let safe: char = match c {
            '/' | '\\' => '_',
            ':' | '*' | '?' | '"' | '<' | '>' | '|' => '_',
            _ => if c.is_control() {
                '_'
            } else {
                c
            },
        };
        proof {
            assert(safe == text[it.index()]);
            assert(text.take(it.index() + 1) =~= text.take(it.index()).push(safe));
            lemma_byte_len_push(out@, safe);
        }
        out.push(safe);
        if out.as_str().len() >= MAX_LEN {
            proof {
                lemma_cut_at(text, it.index() + 1);
            }
            return out;
        }
    }
    if input.is_empty() {
        let mut name: String = String::new();
        name.push('_');
        assert(name@ =~= seq!['_']);
        return name;
    }
    proof {
        assert(text.take(text.len() as int) =~= text);
        lemma_cut_at(text, text.len() as int);
    }
    out
}

/// Names the file for data that passed through a socket at a time, in seconds since the
/// epoch.
pub fn sock_file_name(name: &String, fd: i32, t: u64, inside: bool) -> (file: String)
    ensures
        file@ == file_name(name@, fd, t, inside),
{
    let mut file: String = safe_name(name.as_str());
    file.push('.');
    push_decimal(&mut file, fd);
    file.push('.');
    push_digits(&mut file, t);
    file.push('.');
    if inside {
        file.append("in");
    } else {
        file.append("out");
    }
    assert(file@ =~= file_name(name@, fd, t, inside));
    file
}

/// Text that is cut is a prefix of the whole, is empty only if that is, and before its last
/// character there are fewer than `MAX_LEN` bytes.
proof fn lemma_cut_form(text: Seq<char>)
    ensures
        cut(text).len() <= text.len(),
        cut(text) == text.take(cut(text).len() as int),
        text.len() > 0 ==> cut(text).len() > 0,
        text.len() > 0 ==> byte_len(cut(text).drop_last()) < MAX_LEN,
    decreases text.len(),
{
    if text.len() == 0 || byte_len(text.drop_last()) < MAX_LEN {
        assert(text.take(text.len() as int) =~= text);
    } else {
        let shorter = text.drop_last();
        if shorter.len() == 0 {
            assert(encode_utf8(shorter) =~= Seq::<u8>::empty());
        }
        lemma_cut_form(shorter);
        assert(shorter.take(cut(text).len() as int) =~= text.take(cut(text).len() as int));
    }
}

/// The safe form of a name is not empty and holds no unsafe character.
pub proof fn law_safe_text_is_safe(name: Seq<char>)
    ensures
        safe_text(name).len() > 0,
        forall|i: int| 0 <= i < safe_text(name).len() ==> !is_unsafe(#[trigger] safe_text(name)[i]),
{
    lemma_cut_form(name.map_values(|c: char| safe_char(c)));
}

/// The safe form of a name takes at most three bytes more than the length at which names are
/// cut, namely where its last character crosses that length.
pub proof fn law_safe_text_is_short(name: Seq<char>)
    ensures
        byte_len(safe_text(name)) <= MAX_LEN + 3,
{
    let text = name.map_values(|c: char| safe_char(c));
    let safe = safe_text(name);
    lemma_cut_form(text);
    if name.len() == 0 {
        assert(safe.drop_last() =~= Seq::<char>::empty());
        assert(encode_utf8(safe.drop_last()) =~= Seq::<u8>::empty());
    }
    assert(safe.drop_last().push(safe.last()) =~= safe);
    lemma_byte_len_push(safe.drop_last(), safe.last());
}

/// A name without unsafe characters that is not long is its own safe form.
pub proof fn law_safe_text_keeps(name: Seq<char>)
    requires
        name.len() > 0,
        byte_len(name) <= MAX_LEN,
        forall|i: int| 0 <= i < name.len() ==> !is_unsafe(#[trigger] name[i]),
    ensures
        safe_text(name) == name,
{
    let text = name.map_values(|c: char| safe_char(c));
    assert(text =~= name);
    assert(name.drop_last().push(name.last()) =~= name);
    lemma_byte_len_push(name.drop_last(), name.last());
}

/// The safe form of a safe form is that form.
pub proof fn law_safe_text_idempotent(name: Seq<char>)
    ensures
        safe_text(safe_text(name)) == safe_text(name),
{
    let safe = safe_text(name);
    law_safe_text_is_safe(name);
    lemma_cut_form(name.map_values(|c: char| safe_char(c)));
    assert(safe.map_values(|c: char| safe_char(c)) =~= safe);
    if name.len() == 0 {
        assert(safe.drop_last() =~= Seq::<char>::empty());
        assert(encode_utf8(safe.drop_last()) =~= Seq::<u8>::empty());
    }
}

/// A file name is a single component of a path: it holds no separator and no zero character,
/// and is neither of the two names that stand for directories.
pub proof fn law_file_name_is_component(name: Seq<char>, fd: i32, t: u64, inside: bool)
    ensures
        forall|i: int|
            0 <= i < file_name(name, fd, t, inside).len() ==> !is_unsafe(
                #[trigger] file_name(name, fd, t, inside)[i],
            ),
        !file_name(name, fd, t, inside).contains('/'),
        !file_name(name, fd, t, inside).contains('\0'),
        file_name(name, fd, t, inside) != "."@,
        file_name(name, fd, t, inside) != ".."@,
{
    reveal_strlit("in");
    reveal_strlit("out");
    reveal_strlit(".");
    reveal_strlit("..");
    law_safe_text_is_safe(name);
    lemma_decimal_form(fd as int);
    lemma_digits_form(t as nat);
    let file = file_name(name, fd, t, inside);
    assert(file.len() > "."@.len() && file.len() > ".."@.len());
    assert forall|i: int| 0 <= i < file.len() implies !is_unsafe(#[trigger] file[i]) by {
        let safe = safe_text(name);
        let number = decimal(fd as int);
        let time = digits(t as nat);
        if i >= safe.len() {
            let j = i - safe.len() - 1;
            if 0 <= j < number.len() {
                assert(file[i] == number[j]);
            } else {
                let k = j - number.len() - 1;
                if 0 <= k < time.len() {
                    assert(file[i] == time[k]);
                }
            }
        }
    }
}

/// Where the last `.` stands.
proof fn lemma_last_dot(a: Seq<char>, b: Seq<char>, c: Seq<char>, d: Seq<char>)
    requires
        a + seq!['.'] + b == c + seq!['.'] + d,
        !b.contains('.'),
        !d.contains('.'),
    ensures
        a == c,
        b == d,
{
    let left = a + seq!['.'] + b;
    let right = c + seq!['.'] + d;
    assert(left.len() == a.len() + 1 + b.len());
    assert(right.len() == c.len() + 1 + d.len());
    assert(left[a.len() as int] == '.');
    assert(right[c.len() as int] == '.');
    if a.len() < c.len() {
        assert(left[c.len() as int] == b[c.len() - a.len() - 1]);
    } else if c.len() < a.len() {
        assert(right[a.len() as int] == d[a.len() - c.len() - 1]);
    }
    assert(left.take(a.len() as int) =~= a);
    assert(right.take(c.len() as int) =~= c);
    assert(left.skip(a.len() as int + 1) =~= b);
    assert(right.skip(c.len() as int + 1) =~= d);
}

/// A file name tells the safe form of the socket's name, the descriptor, the time and the
/// direction: captures that differ in one of these go to different files.
pub proof fn law_file_name_injective(
    name1: Seq<char>,
    fd1: i32,
    t1: u64,
    inside1: bool,
    name2: Seq<char>,
    fd2: i32,
    t2: u64,
    inside2: bool,
)
    requires
        file_name(name1, fd1, t1, inside1) == file_name(name2, fd2, t2, inside2),
    ensures
        safe_text(name1) == safe_text(name2),
        fd1 == fd2,
        t1 == t2,
        inside1 == inside2,
{
    reveal_strlit("in");
    reveal_strlit("out");
    lemma_decimal_form(fd1 as int);
    lemma_decimal_form(fd2 as int);
    lemma_digits_form(t1 as nat);
    lemma_digits_form(t2 as nat);
    let head1 = safe_text(name1) + seq!['.'] + decimal(fd1 as int);
    let head2 = safe_text(name2) + seq!['.'] + decimal(fd2 as int);
    let dated1 = head1 + seq!['.'] + digits(t1 as nat);
    let dated2 = head2 + seq!['.'] + digits(t2 as nat);
    lemma_last_dot(dated1, direction(inside1), dated2, direction(inside2));
    lemma_last_dot(head1, digits(t1 as nat), head2, digits(t2 as nat));
    lemma_last_dot(
        safe_text(name1),
        decimal(fd1 as int),
        safe_text(name2),
        decimal(fd2 as int),
    );
    lemma_digits_injective(t1 as nat, t2 as nat);
    lemma_decimal_injective(fd1 as int, fd2 as int);
    assert(direction(inside1).len() == direction(inside2).len());
}

/// The safe form of a name has, in place of each of the first characters of the name, `_` if
/// that is a separator, one of `\\ : * ? " < > |` or a control character, and that character
/// itself otherwise. It ends with the name, or with the character that brings it to 255 bytes.
pub proof fn law_safe_text_by_character(name: Seq<char>)
    requires
        name.len() > 0,
    ensures
        0 < safe_text(name).len() <= name.len(),
        forall|i: int|
            0 <= i < safe_text(name).len() ==> #[trigger] safe_text(name)[i] == {
                let c = name[i];
                if c == '/' || c == '\\' || c == ':' || c == '*' || c == '?' || c == '"' || c == '<'
                    || c == '>' || c == '|' || c as u32 <= 0x1f || 0x7f <= c as u32 <= 0x9f {
                    '_'
                } else {
                    c
                }
            },
        encode_utf8(safe_text(name).drop_last()).len() < 255,
        safe_text(name).len() < name.len() ==> encode_utf8(safe_text(name)).len() >= 255,
{
    let text = name.map_values(|c: char| safe_char(c));
    lemma_cut_form(text);
    lemma_cut_is_full(text);
}

/// The safe form of the empty name is `_`.
pub proof fn law_safe_text_of_nothing(name: Seq<char>)
    requires
        name.len() == 0,
    ensures
        safe_text(name) == seq!['_'],
{
}

/// Text that is cut takes at least `MAX_LEN` bytes.
proof fn lemma_cut_is_full(text: Seq<char>)
    ensures
        cut(text).len() < text.len() ==> byte_len(cut(text)) >= MAX_LEN,
    decreases text.len(),
{
    if text.len() > 0 && byte_len(text.drop_last()) >= MAX_LEN {
        lemma_cut_is_full(text.drop_last());
        lemma_cut_form(text.drop_last());
        if cut(text).len() == text.len() - 1 {
            assert(cut(text) =~= text.drop_last());
        }
    }
}

/// A file name is the safe form of the socket's name, the descriptor, the seconds and the
/// direction, with dots between them: taking the last three parts off leaves the first.
pub proof fn law_file_name_parts(name: Seq<char>, fd: i32, t: u64, inside: bool)
    ensures
        file_name(name, fd, t, inside) == safe_text(name) + seq!['.'] + decimal(fd as int)
            + seq!['.'] + decimal(t as int) + (if inside {
            seq!['.', 'i', 'n']
        } else {
            seq!['.', 'o', 'u', 't']
        }),
{
    reveal_strlit("in");
    reveal_strlit("out");
    assert("in"@ =~= seq!['i', 'n']);
    assert("out"@ =~= seq!['o', 'u', 't']);
    assert(seq!['.'] + "in"@ =~= seq!['.', 'i', 'n']);
    assert(seq!['.'] + "out"@ =~= seq!['.', 'o', 'u', 't']);
    let head = safe_text(name) + seq!['.'] + decimal(fd as int) + seq!['.'] + digits(t as nat);
    assert(head + seq!['.'] + direction(inside) =~= head + (seq!['.'] + direction(inside)));
}

} // verus!
