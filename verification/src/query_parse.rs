//! Shared rules for reading optional query-string values.
use vstd::prelude::*;

use crate::text::{
    chars_of, lower, lower_chars, parse_i64, parse_i64_spec, parse_unsigned, parse_usize, trim,
    trim_chars,
};

verus! {

/// A request rejected for a bad parameter: a machine-readable reason and,
/// for some routes, a human-readable message.
#[derive(Debug)]
pub struct RequestRejection {
    pub reason: String,
    pub message: Option<String>,
}

/// `value.map(str::trim).filter(|v| !v.is_empty())`.
pub open spec fn present(value: Option<Seq<char>>) -> Option<Seq<char>> {
    match value {
        Some(v) => if trim(v).len() > 0 {
            Some(trim(v))
        } else {
            None
        },
        None => None,
    }
}

pub open spec fn opt_view(value: Option<&str>) -> Option<Seq<char>> {
    match value {
        Some(v) => Some(v@),
        None => None,
    }
}

/// The trimmed value, when it is given and not blank.
pub fn present_exec(value: Option<&str>) -> (r: Option<Vec<char>>)
    ensures
        match r {
            Some(v) => present(opt_view(value)) == Some(v@),
            None => present(opt_view(value)) is None,
        },
{
    match value {
        Some(v) => {
            let t = trim_chars(&chars_of(v));
            if t.len() > 0 {
                Some(t)
            } else {
                None
            }
        },
        None => None,
    }
}

pub open spec fn bool_word(v: Seq<char>) -> Option<bool> {
    let l = lower(v);
    if l == "true"@ || l == "1"@ || l == "yes"@ {
        Some(true)
    } else if l == "false"@ || l == "0"@ || l == "no"@ {
        Some(false)
    } else {
        None
    }
}

/// Reads true/1/yes or false/0/no, ignoring case.
pub fn bool_word_exec(v: &Vec<char>) -> (r: Option<bool>)
    ensures
        r == bool_word(v@),
{
    let l = lower_chars(v);
    if crate::text::eq_str(&l, "true") || crate::text::eq_str(&l, "1") || crate::text::eq_str(
        &l,
        "yes",
    ) {
        Some(true)
    } else if crate::text::eq_str(&l, "false") || crate::text::eq_str(&l, "0")
        || crate::text::eq_str(&l, "no") {
        Some(false)
    } else {
        None
    }
}

pub open spec fn clamp_spec(v: int, lo: int, hi: int) -> int {
    if v < lo {
        lo
    } else if v > hi {
        hi
    } else {
        v
    }
}

pub fn clamp_usize(v: usize, lo: usize, hi: usize) -> (r: usize)
    requires
        lo <= hi,
    ensures
        r == clamp_spec(v as int, lo as int, hi as int),
{
    if v < lo {
        lo
    } else if v > hi {
        hi
    } else {
        v
    }
}

/// Reads a positive page size: absent or blank means `default`; a number
/// is clamped to `1..=max`; anything else is an error.
pub open spec fn limit_spec(value: Option<Seq<char>>, default: int, max: int) -> Option<int> {
    match present(value) {
        None => Some(default),
        Some(v) => match parse_unsigned(v, usize::MAX as int) {
            Some(n) => Some(clamp_spec(n, 1, max)),
            None => None,
        },
    }
}

pub fn parse_limit_value(value: Option<&str>, default: usize, max: usize) -> (r: Option<usize>)
    requires
        1 <= max,
    ensures
        match r {
            Some(n) => limit_spec(opt_view(value), default as int, max as int) == Some(n as int),
            None => limit_spec(opt_view(value), default as int, max as int) is None,
        },
{
    match present_exec(value) {
        None => Some(default),
        Some(v) => match parse_usize(&v) {
            Some(n) => Some(clamp_usize(n, 1, max)),
            None => None,
        },
    }
}

/// Reads an optional offset: absent or blank means 0.
pub open spec fn offset_spec(value: Option<Seq<char>>) -> Option<int> {
    match present(value) {
        None => Some(0),
        Some(v) => parse_unsigned(v, usize::MAX as int),
    }
}

pub fn parse_offset_value(value: Option<&str>) -> (r: Option<usize>)
    ensures
        match r {
            Some(n) => offset_spec(opt_view(value)) == Some(n as int),
            None => offset_spec(opt_view(value)) is None,
        },
{
    match present_exec(value) {
        None => Some(0),
        Some(v) => parse_usize(&v),
    }
}

/// Reads an optional signed integer: absent or blank means none.
pub open spec fn opt_i64_spec(value: Option<Seq<char>>) -> Option<Option<int>> {
    match present(value) {
        None => Some(None),
        Some(v) => match parse_i64_spec(v) {
            Some(n) => Some(Some(n)),
            None => None,
        },
    }
}

pub fn parse_opt_i64_value(value: Option<&str>) -> (r: Option<Option<i64>>)
    ensures
        match r {
            Some(Some(n)) => opt_i64_spec(opt_view(value)) == Some(Some(n as int)),
            Some(None) => opt_i64_spec(opt_view(value)) == Some(None::<int>),
            None => opt_i64_spec(opt_view(value)) is None,
        },
{
    match present_exec(value) {
        None => Some(None),
        Some(v) => match parse_i64(&v) {
            Some(n) => Some(Some(n)),
            None => None,
        },
    }
}

/// Reads an optional boolean word: absent or blank means none.
pub open spec fn opt_bool_spec(value: Option<Seq<char>>) -> Option<Option<bool>> {
    match present(value) {
        None => Some(None),
        Some(v) => match bool_word(v) {
            Some(b) => Some(Some(b)),
            None => None,
        },
    }
}

pub fn parse_opt_bool_value(value: Option<&str>) -> (r: Option<Option<bool>>)
    ensures
        r == opt_bool_spec(opt_view(value)),
{
    match present_exec(value) {
        None => Some(None),
        Some(v) => match bool_word_exec(&v) {
            Some(b) => Some(Some(b)),
            None => None,
        },
    }
}

} // verus!
