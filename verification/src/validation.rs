//! Validation of user-proposed secret names.
//!
//! A name is checked locally, before any remote call: it must be non-empty,
//! at most 255 characters, start with an ASCII letter, hold only ASCII
//! letters, digits, `_` and `-`, and not end with a hyphen. The first broken
//! rule decides the error message.

use vstd::prelude::*;

use crate::text::{char_to_string, concat3};

verus! {

/// Whether `c` is an ASCII letter.
pub open spec fn is_ascii_letter(c: char) -> bool {
    ('a' as u32 <= c as u32 && c as u32 <= 'z' as u32) || ('A' as u32 <= c as u32 && c as u32
        <= 'Z' as u32)
}

/// Whether `c` is an ASCII digit.
pub open spec fn is_ascii_digit(c: char) -> bool {
    '0' as u32 <= c as u32 && c as u32 <= '9' as u32
}

/// Whether `c` may appear in a secret name.
pub open spec fn is_name_char(c: char) -> bool {
    is_ascii_letter(c) || is_ascii_digit(c) || c == '_' || c == '-'
}

/// The first character of `s` that may not appear in a secret name, if any.
pub open spec fn first_invalid_char(s: Seq<char>) -> Option<char>
    decreases s.len(),
{
    if s.len() == 0 {
        None
    } else if !is_name_char(s[0]) {
        Some(s[0])
    } else {
        first_invalid_char(s.subrange(1, s.len() as int))
    }
}

/// Whether `s` is a well-formed secret name.
pub open spec fn valid_secret_name(s: Seq<char>) -> bool {
    &&& s.len() > 0
    &&& s.len() <= 255
    &&& is_ascii_letter(s[0])
    &&& (forall|i: int| 0 <= i < s.len() ==> is_name_char(#[trigger] s[i]))
    &&& s[s.len() - 1] != '-'
}

/// The error message for an ill-formed name: the first broken rule, in
/// checking order, decides it. Meaningful only when `s` is not valid.
pub open spec fn name_error(s: Seq<char>) -> Seq<char> {
    if s.len() == 0 {
        "Secret name cannot be empty"@
    } else if s.len() > 255 {
        "Secret name must be 255 characters or less"@
    } else if !is_ascii_letter(s[0]) {
        "Secret name must start with a letter"@
    } else {
        match first_invalid_char(s) {
            Some(c) => "Secret name can only contain letters, digits, underscores, and hyphens. Found: '"@
                + seq![c] + "'"@,
            None => "Secret name cannot end with a hyphen"@,
        }
    }
}

proof fn lemma_first_invalid_at(s: Seq<char>, i: int)
    requires
        0 <= i <= s.len(),
        forall|k: int| 0 <= k < i ==> is_name_char(#[trigger] s[k]),
    ensures
        i < s.len() && !is_name_char(s[i]) ==> first_invalid_char(s) == Some(s[i]),
        i == s.len() ==> first_invalid_char(s) is None,
    decreases s.len(),
{
    if s.len() == 0 {
    } else if !is_name_char(s[0]) {
    } else {
        let t = s.subrange(1, s.len() as int);
        assert(forall|k: int| 0 <= k < t.len() ==> t[k] == s[k + 1]);
        if i > 0 {
            lemma_first_invalid_at(t, i - 1);
        } else {
            lemma_first_invalid_at(t, 0);
        }
    }
}

/// Checks a proposed secret name; `Ok` exactly on valid names, and the error
/// carries the first broken rule.
pub fn validate_secret_name(name: &str) -> (r: Result<(), String>)
    ensures
        r is Ok <==> valid_secret_name(name@),
        r matches Err(e) ==> e@ == name_error(name@),
{
    let n = name.unicode_len();
    if n == 0 {
        return Err("Secret name cannot be empty".to_owned());
    }
    if n > 255 {
        return Err("Secret name must be 255 characters or less".to_owned());
    }
    let first = name.get_char(0);
    let fu = first as u32;
    if !((97 <= fu && fu <= 122) || (65 <= fu && fu <= 90)) {
        proof {
            assert(97 == 'a' as u32 && 122 == 'z' as u32 && 65 == 'A' as u32 && 90 == 'Z' as u32);
        }
        return Err("Secret name must start with a letter".to_owned());
    }
    proof {
        assert(97 == 'a' as u32 && 122 == 'z' as u32 && 65 == 'A' as u32 && 90 == 'Z' as u32);
        assert(is_ascii_letter(name@[0]));
    }
    let mut i: usize = 0;
    while i < n
        invariant
            i <= n,
            n == name@.len(),
            0 < n <= 255,
            is_ascii_letter(name@[0]),
            forall|k: int| 0 <= k < i ==> is_name_char(#[trigger] name@[k]),
        decreases n - i,
    {
        let c = name.get_char(i);
        let u = c as u32;
        let letter = (97 <= u && u <= 122) || (65 <= u && u <= 90);
        let digit = 48 <= u && u <= 57;
        if !(letter || digit || c == '_' || c == '-') {
            proof {
                assert(97 == 'a' as u32 && 122 == 'z' as u32 && 65 == 'A' as u32 && 90 == 'Z'
                    as u32);
                assert(48 == '0' as u32 && 57 == '9' as u32);
                assert(!is_name_char(name@[i as int]));
                lemma_first_invalid_at(name@, i as int);
            }
            let shown = char_to_string(c);
            let msg = concat3(
                "Secret name can only contain letters, digits, underscores, and hyphens. Found: '",
                shown.as_str(),
                "'",
            );
            return Err(msg);
        }
        i = i + 1;
    }
    proof {
        lemma_first_invalid_at(name@, n as int);
    }
    if name.get_char(n - 1) == '-' {
        return Err("Secret name cannot end with a hyphen".to_owned());
    }
    Ok(())
}

} // verus!
