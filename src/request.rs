use vstd::prelude::*;
use crate::store::TaskError;
use crate::task::{CreateTask, text_view};

verus! {

/// The fields of a creation body as decoded, each present or absent.
#[derive(Debug)]
pub struct CreateBody {
    pub title: Option<String>,
    pub description: Option<String>,
}

pub open spec fn is_digit(c: char) -> bool {
    '0' <= c && c <= '9'
}

/// The value of a run of decimal digits.
pub open spec fn digits_value(s: Seq<char>) -> int
    decreases s.len(),
{
    if s.len() == 0 {
        0
    } else {
        10 * digits_value(s.drop_last()) + (s.last() as int - '0' as int)
    }
}

/// How many characters of `s` a leading sign takes.
pub open spec fn sign_len(s: Seq<char>) -> int {
    if s.len() > 0 && (s[0] == '-' || s[0] == '+') {
        1
    } else {
        0
    }
}

pub open spec fn id_digits(s: Seq<char>) -> Seq<char> {
    s.skip(sign_len(s))
}

/// The signed value that `s` writes in decimal.
pub open spec fn id_value(s: Seq<char>) -> int {
    if sign_len(s) == 1 && s[0] == '-' {
        -digits_value(id_digits(s))
    } else {
        digits_value(id_digits(s))
    }
}

/// Whether `s` is an optional sign and at least one digit, with a value
/// that fits in an `i32`.
pub open spec fn is_id(s: Seq<char>) -> bool {
    &&& id_digits(s).len() > 0
    &&& forall|i: int| 0 <= i < id_digits(s).len() ==> is_digit(#[trigger] id_digits(s)[i])
    &&& i32::MIN <= id_value(s) <= i32::MAX
}

/// A value clipped just above the magnitude of `i32::MIN`.
pub open spec fn clipped(v: int) -> int {
    if v > 0x8000_0000 {
        0x8000_0001
    } else {
        v
    }
}

/// Reads the task id of a request path segment.
pub fn parse_task_id(segment: &str) -> (r: Result<i32, TaskError>)
    ensures
        match r {
            Ok(id) => is_id(segment@) && id as int == id_value(segment@),
            Err(e) => !is_id(segment@) && e == TaskError::Validation,
        },
{
    let n = segment.unicode_len();
    let mut start: usize = 0;
    let mut negative = false;
    if n > 0 {
        let c = segment.get_char(0);
        if c == '-' {
            negative = true;
            start = 1;
        } else if c == '+' {
            start = 1;
        }
    }
    let ghost s = segment@;
    let ghost ds = id_digits(s);
    assert(start as int == sign_len(s));
    assert(negative == (sign_len(s) == 1 && s[0] == '-'));
    if start == n {
        return Err(TaskError::Validation);
    }
    let mut acc: i64 = 0;
    let mut k: usize = start;
    while k < n
        invariant
            n as int == s.len(),
            s == segment@,
            ds == s.skip(start as int),
            ds == id_digits(s),
            start as int == sign_len(s),
            negative == (sign_len(s) == 1 && s[0] == '-'),
            start <= k <= n,
            forall|i: int| 0 <= i < k - start ==> is_digit(#[trigger] ds[i]),
            digits_value(ds.take(k - start)) >= 0,
            acc as int == clipped(digits_value(ds.take(k - start))),
        decreases n - k,
    {
        let c = segment.get_char(k);
        if !('0' <= c && c <= '9') {
            assert(ds[k - start] == c);
            assert(!is_digit(id_digits(s)[k - start]));
            return Err(TaskError::Validation);
        }
        let d = (c as u32 - '0' as u32) as i64;
        let next = acc * 10 + d;
        acc = if next > 0x8000_0001 {
            0x8000_0001
        } else {
            next
        };
        proof {
            let j = (k - start) as int;
            assert(ds.take(j + 1).drop_last() =~= ds.take(j));
            assert(ds.take(j + 1).last() == c);
        }
        k = k + 1;
    }
    assert(ds.take(n - start) =~= ds);
    if negative {
        if acc > 0x8000_0000 {
            Err(TaskError::Validation)
        } else {
            Ok((-acc) as i32)
        }
    } else {
        if acc > 0x7fff_ffff {
            Err(TaskError::Validation)
        } else {
            Ok(acc as i32)
        }
    }
}

/// The task that a creation body asks for; the title is required.
pub fn new_task(body: CreateBody) -> (r: Result<CreateTask, TaskError>)
    ensures
        match r {
            Ok(t) => body.title is Some && t.title@ == body.title->0@
                && text_view(t.description) == text_view(body.description),
            Err(e) => body.title is None && e == TaskError::Validation,
        },
{
    match body.title {
        Some(title) => Ok(CreateTask { title, description: body.description }),
        None => Err(TaskError::Validation),
    }
}

} // verus!
