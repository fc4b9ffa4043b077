//! Finding the home directory of the user who started the program, also
//! where the program runs under an elevation helper as another user.

use vstd::prelude::*;
use vstd::string::*;
use crate::config::opt_text;

verus! {

/// `c` is a decimal digit.
pub open spec fn is_digit(c: char) -> bool {
    '0' <= c <= '9'
}

/// The number that a run of decimal digits writes.
pub open spec fn digits_value(digits: Seq<char>) -> nat
    decreases digits.len(),
{
    if digits.len() == 0 {
        0
    } else {
        digits_value(digits.drop_last()) * 10 + (digits.last() as u32 - '0' as u32) as nat
    }
}

/// The digits of a numeral: the numeral without the plus sign that may
/// stand in front of it.
pub open spec fn unsigned_part(text: Seq<char>) -> Seq<char> {
    if text.len() > 0 && text[0] == '+' {
        text.drop_first()
    } else {
        text
    }
}

/// The number that `text` writes, if it writes one that fits 32 bits: an
/// optional plus sign followed by one or more decimal digits and nothing
/// else.
pub open spec fn parsed_u32(text: Seq<char>) -> Option<u32> {
    let digits = unsigned_part(text);
    if digits.len() > 0 && (forall|i: int| 0 <= i < digits.len() ==> is_digit(#[trigger] digits[i]))
        && digits_value(digits) <= u32::MAX {
        Some(digits_value(digits) as u32)
    } else {
        None
    }
}

/// A run of digits is worth at least as much as any run it starts with.
proof fn digits_value_grows(digits: Seq<char>, k: int)
    requires
        0 <= k <= digits.len(),
        forall|i: int| 0 <= i < digits.len() ==> is_digit(#[trigger] digits[i]),
    ensures
        digits_value(digits.take(k)) <= digits_value(digits),
    decreases digits.len() - k,
{
    if k == digits.len() {
        assert(digits.take(k) =~= digits);
    } else {
        digits_value_grows(digits, k + 1);
        let longer = digits.take(k + 1);
        assert(longer.drop_last() =~= digits.take(k));
        assert(is_digit(digits[k]));
        assert(longer.last() == digits[k]);
    }
}

/// Reads a number off `text`.
pub fn parse_u32(text: &str) -> (value: Option<u32>)
    ensures
        value == parsed_u32(text@),
{
    let n = text.unicode_len();
    let start: usize = if n > 0 && text.get_char(0) == '+' {
        1
    } else {
        0
    };
    if start == n {
        return None;
    }
    let ghost digits = unsigned_part(text@);
    assert(digits.len() == n - start);
    assert(forall|i: int| 0 <= i < digits.len() ==> digits[i] == text@[start + i]);
    let mut value: u64 = 0;
    let mut i: usize = start;
    assert(digits.take(0) =~= Seq::<char>::empty());
    while i < n
        invariant
            start <= i <= n,
            n == text@.len(),
            digits == unsigned_part(text@),
            digits.len() == n - start,
            forall|j: int| 0 <= j < digits.len() ==> digits[j] == text@[start + j],
            forall|j: int| 0 <= j < i - start ==> is_digit(#[trigger] digits[j]),
            value == digits_value(digits.take(i - start)),
            value <= u32::MAX,
        decreases n - i,
    {
        let c = text.get_char(i);
        if c < '0' || c > '9' {
            assert(!is_digit(digits[i - start]));
            return None;
        }
        let d: u64 = (c as u32 - '0' as u32) as u64;
        let next = value * 10 + d;
        proof {
            let longer = digits.take(i - start + 1);
            assert(longer.drop_last() =~= digits.take(i - start));
            assert(longer.last() == digits[i - start]);
            assert(next == digits_value(longer));
        }
        if next > 0xffff_ffff {
            proof {
                if forall|j: int| 0 <= j < digits.len() ==> is_digit(#[trigger] digits[j]) {
                    digits_value_grows(digits, i - start + 1);
                }
            }
            return None;
        }
        value = next;
        i = i + 1;
    }
    assert(digits.take(n - start) =~= digits);
    Some(value as u32)
}

/// Where the home directory is to be looked up.
#[derive(Debug, PartialEq, Eq)]
pub enum HomeSource {
    /// In the user database, by the number of the user who called the
    /// elevation helper.
    Uid(u32),
    /// Nowhere: the helper's variable is set and holds no user number.
    Nowhere,
    /// In the user database, by the name of the user who called `sudo`.
    Name(String),
    /// In this process's own environment.
    Environment,
}

/// Mathematical value of a [`HomeSource`].
pub enum HomeSourceView {
    Uid(u32),
    Nowhere,
    Name(Seq<char>),
    Environment,
}

impl View for HomeSource {
    type V = HomeSourceView;

    open spec fn view(&self) -> HomeSourceView {
        match self {
            HomeSource::Uid(uid) => HomeSourceView::Uid(*uid),
            HomeSource::Nowhere => HomeSourceView::Nowhere,
            HomeSource::Name(name) => HomeSourceView::Name(name@),
            HomeSource::Environment => HomeSourceView::Environment,
        }
    }
}

/// View of an optional string slice.
pub open spec fn opt_str(s: Option<&str>) -> Option<Seq<char>> {
    match s {
        Some(text) => Some(text@),
        None => None,
    }
}

/// The source to use: the elevation helper's variable wins over `sudo`'s,
/// and that over the process's own environment.
pub open spec fn source_for(pkexec_uid: Option<Seq<char>>, sudo_user: Option<Seq<char>>)
    -> HomeSourceView {
    match pkexec_uid {
        Some(text) => match parsed_u32(text) {
            Some(uid) => HomeSourceView::Uid(uid),
            None => HomeSourceView::Nowhere,
        },
        None => match sudo_user {
            Some(name) => HomeSourceView::Name(name),
            None => HomeSourceView::Environment,
        },
    }
}

/// Decides where to look the home directory up, given the values of the
/// elevation helper's and of `sudo`'s variable, where they are set.
pub fn home_source(pkexec_uid: Option<&str>, sudo_user: Option<&str>) -> (source: HomeSource)
    ensures
        source@ == source_for(opt_str(pkexec_uid), opt_str(sudo_user)),
{
    match pkexec_uid {
        Some(text) => match parse_u32(text) {
            Some(uid) => HomeSource::Uid(uid),
            None => HomeSource::Nowhere,
        },
        None => match sudo_user {
            Some(name) => HomeSource::Name(String::from_str(name)),
            None => HomeSource::Environment,
        },
    }
}

/// `nix::unistd::User::from_uid`: the home directory that the user database
/// holds for a user number, if it holds the user and the directory's name
/// is valid text. The database is the host's, so nothing is claimed of the
/// answer.
#[verifier::external_body]
fn home_of_uid(uid: u32) -> (home: Option<String>) {
    nix::unistd::User::from_uid(nix::unistd::Uid::from_raw(uid)).ok().flatten().and_then(
        |user| user.dir.into_os_string().into_string().ok(),
    )
}

/// `nix::unistd::User::from_name`: the home directory that the user
/// database holds for a user name, if it holds the user and the directory's
/// name is valid text. The database is the host's, so nothing is claimed of
/// the answer.
#[verifier::external_body]
fn home_of_name(name: &str) -> (home: Option<String>) {
    nix::unistd::User::from_name(name).ok().flatten().and_then(
        |user| user.dir.into_os_string().into_string().ok(),
    )
}

/// The home directory of the user who started the program. `pkexec_uid`
/// and `sudo_user` are the values of the two helpers' variables where they
/// are set, `home` is the process's own home directory where it is known.
/// The user database is asked where a helper's variable names a user; what
/// it answers is the host's affair.
pub fn get_original_user_home(pkexec_uid: Option<&str>, sudo_user: Option<&str>, home: Option<&str>)
    -> (found: Option<String>)
    ensures
        match source_for(opt_str(pkexec_uid), opt_str(sudo_user)) {
            HomeSourceView::Nowhere => found is None,
            HomeSourceView::Environment => opt_text(found) == opt_str(home),
            _ => true,
        },
{
    match home_source(pkexec_uid, sudo_user) {
        HomeSource::Uid(uid) => home_of_uid(uid),
        HomeSource::Nowhere => None,
        HomeSource::Name(name) => home_of_name(name.as_str()),
        HomeSource::Environment => match home {
            Some(dir) => Some(String::from_str(dir)),
            None => None,
        },
    }
}

/// What is shown for a variable that is set to nothing.
pub const EMPTY_STRING: &'static str = "EMPTY_STRING";

/// What is shown for a variable that is not set.
pub const NOT_PRESENT: &'static str = "NOT_PRESENT";

/// The text to show for a variable's value: the value itself, or a word
/// that says that it is empty or absent.
pub fn get_value(value: Option<&str>) -> (shown: String)
    ensures
        shown@ == (match value {
            Some(text) => if text@.len() == 0 {
                EMPTY_STRING@
            } else {
                text@
            },
            None => NOT_PRESENT@,
        }),
{
    match value {
        Some(text) => {
            if text.is_empty() {
                String::from_str(EMPTY_STRING)
            } else {
                String::from_str(text)
            }
        },
        None => String::from_str(NOT_PRESENT),
    }
}

} // verus!
