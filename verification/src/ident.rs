//! Typed program and function identifiers.
//!
//! Program and function names arrive as raw strings. They are validated once,
//! here, into typed values; every later rule (in particular the fee
//! exemption's exact-identifier match) operates on these types, never on raw
//! strings.

use vstd::prelude::*;

verus! {

/// Greatest number of bytes an identifier may hold.
pub const MAX_IDENT_LEN: usize = 31;

/// A lowercase ASCII letter.
pub open spec fn is_lower(c: char) -> bool {
    'a' as u32 <= c as u32 <= 'z' as u32
}

/// An ASCII letter, either case.
pub open spec fn is_letter(c: char) -> bool {
    is_lower(c) || ('A' as u32 <= c as u32 <= 'Z' as u32)
}

/// An ASCII digit.
pub open spec fn is_digit(c: char) -> bool {
    '0' as u32 <= c as u32 <= '9' as u32
}

/// A character allowed inside a function identifier.
pub open spec fn is_ident_char(c: char) -> bool {
    is_letter(c) || is_digit(c) || c == '_'
}

/// A character allowed inside a program name (lowercase only).
pub open spec fn is_name_char(c: char) -> bool {
    is_lower(c) || is_digit(c) || c == '_'
}

/// The literal type names the runtime reserves: an identifier may not be one
/// of them.
pub open spec fn is_reserved_type_name(s: Seq<char>) -> bool {
    ||| s == "address"@
    ||| s == "boolean"@
    ||| s == "field"@
    ||| s == "group"@
    ||| s == "i8"@
    ||| s == "i16"@
    ||| s == "i32"@
    ||| s == "i64"@
    ||| s == "i128"@
    ||| s == "u8"@
    ||| s == "u16"@
    ||| s == "u32"@
    ||| s == "u64"@
    ||| s == "u128"@
    ||| s == "scalar"@
    ||| s == "signature"@
    ||| s == "string"@
    ||| s == "identifier"@
}

/// A valid function identifier: nonempty, at most `MAX_IDENT_LEN` characters,
/// starts with a letter, then letters, digits and underscores, and not a
/// reserved literal type name.
pub open spec fn valid_identifier(s: Seq<char>) -> bool {
    &&& 1 <= s.len() <= MAX_IDENT_LEN
    &&& is_letter(s[0])
    &&& forall|i: int| 0 <= i < s.len() ==> is_ident_char(#[trigger] s[i])
    &&& !is_reserved_type_name(s)
}

/// A valid program name: nonempty, at most `MAX_IDENT_LEN` characters, starts
/// with a lowercase letter, then lowercase letters, digits and underscores,
/// and not a reserved literal type name.
pub open spec fn valid_program_name(s: Seq<char>) -> bool {
    &&& 1 <= s.len() <= MAX_IDENT_LEN
    &&& is_lower(s[0])
    &&& forall|i: int| 0 <= i < s.len() ==> is_name_char(#[trigger] s[i])
    &&& !is_reserved_type_name(s)
}

/// A valid program identifier: `{name}.aleo` where `{name}` is a valid
/// program name.
pub open spec fn valid_program_id(s: Seq<char>) -> bool {
    &&& s.len() >= 6
    &&& valid_program_name(s.subrange(0, s.len() - 5))
    &&& s.subrange(s.len() - 5, s.len() as int) == seq!['.', 'a', 'l', 'e', 'o']
}

/// A validated function identifier.
#[derive(Debug)]
pub struct FunctionName {
    text: String,
}

impl View for FunctionName {
    type V = Seq<char>;

    closed spec fn view(&self) -> Seq<char> {
        self.text@
    }
}

impl FunctionName {
    /// The validated text is a well-formed identifier.
    pub open spec fn wf(&self) -> bool {
        valid_identifier(self@)
    }

    /// Validates a raw string as a function identifier.
    pub fn parse(s: &str) -> (r: Option<FunctionName>)
        ensures
            r is Some <==> valid_identifier(s@),
            r matches Some(f) ==> f@ == s@ && f.wf(),
    {
        let n = s.unicode_len();
        if n < 1 || n > MAX_IDENT_LEN {
            return None;
        }
        let c0 = s.get_char(0);
        if !char_is_letter(c0) {
            return None;
        }
        let mut i: usize = 0;
        while i < n
            invariant
                0 <= i <= n,
                n == s@.len(),
                forall|j: int| 0 <= j < i ==> is_ident_char(#[trigger] s@[j]),
            decreases n - i,
        {
            let c = s.get_char(i);
            if !(char_is_letter(c) || char_is_digit(c) || c == '_') {
                return None;
            }
            i += 1;
        }
        if reserved_type_name(s) {
            return None;
        }
        Some(FunctionName { text: s.to_owned() })
    }

    /// The identifier as a string slice.
    pub fn as_str(&self) -> (r: &str)
        ensures
            r@ == self@,
    {
        self.text.as_str()
    }
}

/// A validated program identifier of the form `{name}.aleo`.
#[derive(Debug)]
pub struct ProgramId {
    text: String,
}

impl View for ProgramId {
    type V = Seq<char>;

    closed spec fn view(&self) -> Seq<char> {
        self.text@
    }
}

impl ProgramId {
    /// The validated text is a well-formed program identifier.
    pub open spec fn wf(&self) -> bool {
        valid_program_id(self@)
    }

    /// Validates a raw string as a program identifier.
    pub fn parse(s: &str) -> (r: Option<ProgramId>)
        ensures
            r is Some <==> valid_program_id(s@),
            r matches Some(p) ==> p@ == s@ && p.wf(),
    {
        let n = s.unicode_len();
        if n < 6 {
            return None;
        }
        let name_len = n - 5;
        if name_len > MAX_IDENT_LEN {
            assert(!valid_program_id(s@)) by {
                assert(s@.subrange(0, s@.len() - 5).len() > MAX_IDENT_LEN);
            }
            return None;
        }
        let c0 = s.get_char(0);
        if !char_is_lower(c0) {
            assert(s@.subrange(0, s@.len() - 5)[0] == s@[0]);
            return None;
        }
        let mut i: usize = 0;
        while i < name_len
            invariant
                0 <= i <= name_len,
                name_len == n - 5,
                n == s@.len(),
                n >= 6,
                forall|j: int| 0 <= j < i ==> is_name_char(#[trigger] s@[j]),
            decreases name_len - i,
        {
            let c = s.get_char(i);
            if !(char_is_lower(c) || char_is_digit(c) || c == '_') {
                assert(s@.subrange(0, s@.len() - 5)[i as int] == s@[i as int]);
                return None;
            }
            i += 1;
        }
        let suffix_ok = s.get_char(n - 5) == '.' && s.get_char(n - 4) == 'a'
            && s.get_char(n - 3) == 'l' && s.get_char(n - 2) == 'e' && s.get_char(n - 1) == 'o';
        if !suffix_ok {
            assert(s@.subrange(s@.len() - 5, s@.len() as int) != seq!['.', 'a', 'l', 'e', 'o'])
                by {
                let tail = s@.subrange(s@.len() - 5, s@.len() as int);
                let lit = seq!['.', 'a', 'l', 'e', 'o'];
                if tail == lit {
                    assert(tail[0] == s@[s@.len() - 5]);
                    assert(tail[1] == s@[s@.len() - 4]);
                    assert(tail[2] == s@[s@.len() - 3]);
                    assert(tail[3] == s@[s@.len() - 2]);
                    assert(tail[4] == s@[s@.len() - 1]);
                }
            }
            return None;
        }
        let name_reserved = prefix_is(s, name_len, "address") || prefix_is(s, name_len, "boolean")
            || prefix_is(s, name_len, "field") || prefix_is(s, name_len, "group") || prefix_is(
            s,
            name_len,
            "i8",
        ) || prefix_is(s, name_len, "i16") || prefix_is(s, name_len, "i32") || prefix_is(
            s,
            name_len,
            "i64",
        ) || prefix_is(s, name_len, "i128") || prefix_is(s, name_len, "u8") || prefix_is(
            s,
            name_len,
            "u16",
        ) || prefix_is(s, name_len, "u32") || prefix_is(s, name_len, "u64") || prefix_is(
            s,
            name_len,
            "u128",
        ) || prefix_is(s, name_len, "scalar") || prefix_is(s, name_len, "signature") || prefix_is(
            s,
            name_len,
            "string",
        ) || prefix_is(s, name_len, "identifier");
        if name_reserved {
            proof {
                assert(is_reserved_type_name(s@.subrange(0, s@.len() - 5)));
            }
            return None;
        }
        proof {
            let name = s@.subrange(0, s@.len() - 5);
            assert(!is_reserved_type_name(name));
            assert(forall|j: int| 0 <= j < name.len() ==> name[j] == s@[j]);
            let tail = s@.subrange(s@.len() - 5, s@.len() as int);
            let lit = seq!['.', 'a', 'l', 'e', 'o'];
            assert(tail[0] == s@[s@.len() - 5]);
            assert(tail[1] == s@[s@.len() - 4]);
            assert(tail[2] == s@[s@.len() - 3]);
            assert(tail[3] == s@[s@.len() - 2]);
            assert(tail[4] == s@[s@.len() - 1]);
            assert(tail =~= lit);
        }
        Some(ProgramId { text: s.to_owned() })
    }

    /// The full identifier, including the `.aleo` suffix, as a string slice.
    pub fn as_str(&self) -> (r: &str)
        ensures
            r@ == self@,
    {
        self.text.as_str()
    }

    /// A copy of the identifier.
    pub fn clone_id(&self) -> (r: ProgramId)
        ensures
            r@ == self@,
    {
        ProgramId { text: self.text.clone() }
    }
}

/// Whether the first `len` characters of `s` spell exactly `t`.
fn prefix_is(s: &str, len: usize, t: &str) -> (r: bool)
    requires
        len <= s@.len(),
    ensures
        r == (s@.subrange(0, len as int) == t@),
{
    let tn = t.unicode_len();
    if tn != len {
        proof {
            assert(s@.subrange(0, len as int).len() == len);
        }
        return false;
    }
    let mut i: usize = 0;
    while i < len
        invariant
            0 <= i <= len,
            len <= s@.len(),
            len == t@.len(),
            forall|j: int| 0 <= j < i ==> s@[j] == t@[j],
        decreases len - i,
    {
        if s.get_char(i) != t.get_char(i) {
            proof {
                assert(s@.subrange(0, len as int)[i as int] == s@[i as int]);
            }
            return false;
        }
        i += 1;
    }
    proof {
        assert(s@.subrange(0, len as int) =~= t@);
    }
    true
}

/// Whether the string is one of the runtime's reserved literal type names.
pub fn reserved_type_name(s: &str) -> (r: bool)
    ensures
        r == is_reserved_type_name(s@),
{
    str_eq(s, "address") || str_eq(s, "boolean") || str_eq(s, "field") || str_eq(s, "group")
        || str_eq(s, "i8") || str_eq(s, "i16") || str_eq(s, "i32") || str_eq(s, "i64") || str_eq(
        s,
        "i128",
    ) || str_eq(s, "u8") || str_eq(s, "u16") || str_eq(s, "u32") || str_eq(s, "u64") || str_eq(
        s,
        "u128",
    ) || str_eq(s, "scalar") || str_eq(s, "signature") || str_eq(s, "string") || str_eq(
        s,
        "identifier",
    )
}

/// Character class check mirroring `is_lower`.
pub fn char_is_lower(c: char) -> (r: bool)
    ensures
        r == is_lower(c),
{
    c >= 'a' && c <= 'z'
}

/// Character class check mirroring `is_letter`.
pub fn char_is_letter(c: char) -> (r: bool)
    ensures
        r == is_letter(c),
{
    (c >= 'a' && c <= 'z') || (c >= 'A' && c <= 'Z')
}

/// Character class check mirroring `is_digit`.
pub fn char_is_digit(c: char) -> (r: bool)
    ensures
        r == is_digit(c),
{
    c >= '0' && c <= '9'
}

/// Equality of two string slices, by contents.
pub fn str_eq(a: &str, b: &str) -> (r: bool)
    ensures
        r <==> a@ == b@,
{
    let na = a.unicode_len();
    let nb = b.unicode_len();
    if na != nb {
        return false;
    }
    let mut i: usize = 0;
    while i < na
        invariant
            0 <= i <= na,
            na == a@.len(),
            na == b@.len(),
            forall|j: int| 0 <= j < i ==> a@[j] == b@[j],
        decreases na - i,
    {
        if a.get_char(i) != b.get_char(i) {
            return false;
        }
        i += 1;
    }
    proof {
        assert(a@ =~= b@);
    }
    true
}

} // verus!
