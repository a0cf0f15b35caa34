//! API versions of the form `vMAJOR.MINOR`.

use vstd::prelude::*;

use crate::text::{
    chars_of, decimal, is_digit, lemma_decimal_value, parse_u8, parse_u8_spec, push_decimal,
    without_plus,
};

pub mod is_04;

verus! {

/// A version of one of the NMOS APIs.
#[derive(Debug, Clone, Copy, PartialEq, Eq, Structural)]
pub struct APIVersion {
    pub major: u8,
    pub minor: u8,
}

/// The text of a version: `v`, the major number, a dot, the minor number.
pub open spec fn version_text(v: APIVersion) -> Seq<char> {
    seq!['v'] + decimal(v.major as nat) + seq!['.'] + decimal(v.minor as nat)
}

/// The version that `s` spells, if it spells one: a leading `v`, then two
/// 8-bit numbers with a single dot between them.
pub open spec fn parse_version(s: Seq<char>) -> Option<APIVersion> {
    if s.len() > 0 && s[0] == 'v' {
        let body = s.skip(1);
        match body.index_of_first('.') {
            Some(dot) => match (
                parse_u8_spec(body.take(dot)),
                parse_u8_spec(body.skip(dot + 1)),
            ) {
                (Some(major), Some(minor)) => Some(APIVersion { major, minor }),
                _ => None,
            },
            None => None,
        }
    } else {
        None
    }
}

/// The versions that this node implements: `v1.0` only.
pub open spec fn supported(v: APIVersion) -> bool {
    v == (APIVersion { major: 1, minor: 0 })
}

impl APIVersion {
    /// Reads a version from the characters of `v` from `from` up to `to`.
    pub fn parse_chars(v: &Vec<char>, from: usize, to: usize) -> (r: Option<APIVersion>)
        requires
            from <= to <= v.len(),
        ensures
            r == parse_version(v@.subrange(from as int, to as int)),
    {
        let ghost s = v@.subrange(from as int, to as int);
        if from == to || v[from] != 'v' {
            return None;
        }
        let ghost body = s.skip(1);
        let mut dot: usize = from + 1;
        while dot < to && v[dot] != '.'
            invariant
                from + 1 <= dot <= to <= v.len(),
                s == v@.subrange(from as int, to as int),
                body == s.skip(1),
                forall|j: int| 0 <= j < dot - from - 1 ==> body[j] != '.',
            decreases to - dot,
        {
            dot = dot + 1;
        }
        proof {
            body.index_of_first_ensures('.');
        }
        if dot == to {
            assert(!body.contains('.'));
            return None;
        }
        proof {
            let at = dot - from - 1;
            assert(body[at] == '.');
            assert(body.index_of_first('.') == Some(at)) by {
                let k = body.index_of_first('.').unwrap();
                if k < at {
                    assert(body[k] != '.');
                }
            }
            assert(body.take(at) =~= v@.subrange(from + 1, dot as int));
            assert(body.skip(at + 1) =~= v@.subrange(dot + 1, to as int));
        }
        let major = parse_u8(v, from + 1, dot);
        let minor = parse_u8(v, dot + 1, to);
        match (major, minor) {
            (Some(major), Some(minor)) => Some(APIVersion { major, minor }),
            _ => None,
        }
    }

    /// Reads a version from its text.
    pub fn parse(s: &str) -> (r: Option<APIVersion>)
        ensures
            r == parse_version(s@),
    {
        let v = chars_of(s);
        assert(v@.subrange(0, v.len() as int) =~= s@);
        APIVersion::parse_chars(&v, 0, v.len())
    }

    /// Writes the version as text.
    pub fn to_string(&self) -> (s: String)
        ensures
            s@ == version_text(*self),
    {
        proof {
            reveal_strlit("v");
            reveal_strlit(".");
        }
        let mut s = String::from_str("v");
        push_decimal(&mut s, self.major as u64);
        s.append(".");
        push_decimal(&mut s, self.minor as u64);
        assert(s@ =~= version_text(*self));
        s
    }

    /// Whether this node implements the version.
    pub fn is_supported(&self) -> (r: bool)
        ensures
            r == supported(*self),
    {
        self.major == 1 && self.minor == 0
    }
}

/// Reading the text of a version gives the version back.
pub proof fn lemma_parse_format(v: APIVersion)
    ensures
        parse_version(version_text(v)) == Some(v),
{
    let major = decimal(v.major as nat);
    let minor = decimal(v.minor as nat);
    let s = version_text(v);
    let body = s.skip(1);
    lemma_decimal_value(v.major as nat);
    lemma_decimal_value(v.minor as nat);
    assert(body =~= major + seq!['.'] + minor);
    assert(body[major.len() as int] == '.');
    assert forall|j: int| 0 <= j < major.len() implies body[j] != '.' by {
        assert(body[j] == major[j]);
    }
    body.index_of_first_ensures('.');
    let dot = body.index_of_first('.').unwrap();
    assert(dot == major.len()) by {
        if dot < major.len() {
            assert(body[dot] != '.');
        }
    }
    assert(body.take(dot) =~= major);
    assert(body.skip(dot + 1) =~= minor);
    assert(without_plus(major) == major) by {
        assert(is_digit(major[0]));
    }
    assert(without_plus(minor) == minor) by {
        assert(is_digit(minor[0]));
    }
    assert(parse_u8_spec(major) == Some(v.major));
    assert(parse_u8_spec(minor) == Some(v.minor));
}

} // verus!
