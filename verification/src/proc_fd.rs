//! The directory in which the kernel lists the open descriptors of a process.
use crate::text::{decimal, digit, digits, lemma_digits_form, push_decimal};
use std::num::ParseIntError;
use vstd::prelude::*;
use vstd::string::*;

verus! {

/// The path of the directory of a process.
pub open spec fn fd_dir_path(tgid: i32) -> Seq<char> {
    "/proc/"@ + decimal(tgid as int) + "/fd"@
}

/// Whether text is made of decimal digits only.
pub open spec fn all_digits(text: Seq<char>) -> bool {
    forall|i: int| 0 <= i < text.len() ==> '0' <= #[trigger] text[i] <= '9'
}

/// The number that decimal digits stand for.
pub open spec fn digits_value(text: Seq<char>) -> nat
    decreases text.len(),
{
    if text.len() == 0 {
        0
    } else {
        digits_value(text.drop_last()) * 10 + (text.last() as nat - '0' as nat) as nat
    }
}

/// The integer that text stands for: one or more decimal digits, with or without a sign
/// before them.
pub open spec fn decimal_value(text: Seq<char>) -> Option<int> {
    let signed = text.len() > 0 && (text[0] == '-' || text[0] == '+');
    let figures = if signed {
        text.skip(1)
    } else {
        text
    };
    if figures.len() == 0 || !all_digits(figures) {
        None
    } else if signed && text[0] == '-' {
        Some(-(digits_value(figures) as int))
    } else {
        Some(digits_value(figures) as int)
    }
}

/// The descriptor that a name stands for.
pub open spec fn fd_named(name: Seq<char>) -> Option<i32> {
    match decimal_value(name) {
        Some(value) => if i32::MIN <= value <= i32::MAX {
            Some(value as i32)
        } else {
            None
        },
        None => None,
    }
}

/// Declares `std::num::ParseIntError`.
#[verifier::external_type_specification]
#[verifier::external_body]
pub struct ExParseIntError(std::num::ParseIntError);

/// Specifies `i32::from_str_radix` of the standard library, for base ten: the text is to be an
/// optional sign followed by digits only, and the number is to fit. Bases out of the range
/// from 2 to 36, on which it panics, are left out.
pub assume_specification[ i32::from_str_radix ](src: &str, radix: u32) -> (result: Result<
    i32,
    ParseIntError,
>)
    requires
        2 <= radix <= 36,
    ensures
        radix == 10 ==> match result {
            Ok(value) => fd_named(src@) == Some(value),
            Err(_) => fd_named(src@) is None,
        },
;

/// A file in the directory that is not named like a descriptor.
#[derive(Debug, PartialEq, Eq)]
pub struct FdNameError {
    pub error: ParseIntError,
}

/// Names the directory of a process.
pub fn fd_dir(tgid: i32) -> (path: String)
    ensures
        path@ == fd_dir_path(tgid),
{
    let mut path: String = String::new();
    path.append("/proc/");
    push_decimal(&mut path, tgid);
    path.append("/fd");
    assert(path@ =~= fd_dir_path(tgid));
    path
}

/// Reads the name of a file in the directory as a descriptor. The error of a name that is
/// none is that which `i32::from_str_radix` has given for it.
pub fn fd_from_name(name: &str) -> (result: Result<i32, FdNameError>)
    ensures
        match result {
            Ok(fd) => fd_named(name@) == Some(fd),
            Err(wrong) => fd_named(name@) is None && call_ensures(
                i32::from_str_radix,
                (name, 10u32),
                Err::<i32, ParseIntError>(wrong.error),
            ),
        },
{
    let outcome: Result<i32, ParseIntError> = i32::from_str_radix(name, 10);
    assert(call_ensures(i32::from_str_radix, (name, 10u32), outcome));
    match outcome {
        Ok(fd) => Ok(fd),
        Err(error) => Err(FdNameError { error }),
    }
}

/// The digits of a number stand for that number.
proof fn lemma_digits_value(n: nat)
    ensures
        digits_value(digits(n)) == n,
    decreases n,
{
    let text = digits(n);
    if n < 10 {
        assert(text.drop_last() =~= Seq::<char>::empty());
        assert(digits_value(text.drop_last()) == 0);
        assert(text.last() == digit(n as int));
    } else {
        lemma_digits_value(n / 10);
        assert(text.drop_last() =~= digits(n / 10));
        assert(text.last() == digit((n % 10) as int));
    }
}

/// A descriptor written in decimal is read back as itself.
pub proof fn law_fd_name_round_trip(fd: i32)
    ensures
        fd_named(decimal(fd as int)) == Some(fd),
{
    let text = decimal(fd as int);
    let n = (if fd < 0 {
        -fd
    } else {
        fd as int
    }) as nat;
    lemma_digits_form(n);
    lemma_digits_value(n);
    assert(fd < 0 ==> text.skip(1) =~= digits(n));
}

/// The directory of a process is `fd` below the one that is named by its number in `/proc`.
pub proof fn law_fd_dir_path(tgid: i32)
    ensures
        fd_dir_path(tgid) == seq!['/', 'p', 'r', 'o', 'c', '/'] + decimal(tgid as int) + seq![
            '/',
            'f',
            'd',
        ],
{
    reveal_strlit("/proc/");
    reveal_strlit("/fd");
    assert("/proc/"@ =~= seq!['/', 'p', 'r', 'o', 'c', '/']);
    assert("/fd"@ =~= seq!['/', 'f', 'd']);
}

/// A name that stands for a descriptor is made of digits, but for a sign at its start.
pub proof fn law_fd_name_form(name: Seq<char>)
    requires
        fd_named(name) is Some,
    ensures
        name.len() > 0,
        forall|i: int| 0 < i < name.len() ==> '0' <= #[trigger] name[i] <= '9',
        '0' <= name[0] <= '9' || (name.len() > 1 && (name[0] == '-' || name[0] == '+')),
{
    let signed = name[0] == '-' || name[0] == '+';
    if signed {
        assert forall|i: int| 0 < i < name.len() implies '0' <= #[trigger] name[i] <= '9' by {
            assert(name.skip(1)[i - 1] == name[i]);
        }
    }
}

/// A number that is not that of a descriptor, being too large or too small, is not read as
/// one.
pub proof fn law_fd_name_out_of_range(value: int)
    requires
        value < -0x8000_0000 || value > 0x7fff_ffff,
    ensures
        fd_named(decimal(value)) is None,
{
    let n = (if value < 0 {
        -value
    } else {
        value
    }) as nat;
    lemma_digits_form(n);
    lemma_digits_value(n);
    assert(value < 0 ==> decimal(value).skip(1) =~= digits(n));
}

/// A `+` or zeros before the digits of a descriptor make no difference.
pub proof fn law_fd_name_lead(fd: i32)
    requires
        fd >= 0,
    ensures
        fd_named(seq!['+'] + decimal(fd as int)) == Some(fd),
        fd_named(seq!['0'] + decimal(fd as int)) == Some(fd),
{
    let text = digits(fd as nat);
    lemma_digits_form(fd as nat);
    lemma_digits_value(fd as nat);
    lemma_leading_zero(text);
    assert((seq!['+'] + text).skip(1) =~= text);
    let padded = seq!['0'] + text;
    assert forall|i: int| 0 <= i < padded.len() implies '0' <= #[trigger] padded[i] <= '9' by {
        if i > 0 {
            assert(padded[i] == text[i - 1]);
        }
    }
}

/// A zero before digits does not change what they stand for.
proof fn lemma_leading_zero(text: Seq<char>)
    ensures
        digits_value(seq!['0'] + text) == digits_value(text),
    decreases text.len(),
{
    let padded = seq!['0'] + text;
    if text.len() == 0 {
        assert(padded.drop_last() =~= Seq::<char>::empty());
        assert(digits_value(padded.drop_last()) == 0);
    } else {
        lemma_leading_zero(text.drop_last());
        assert(padded.drop_last() =~= seq!['0'] + text.drop_last());
        assert(padded.last() == text.last());
    }
}

} // verus!
