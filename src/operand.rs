//! Decoders from operand names to the small integers that a word holds.
use vstd::prelude::*;
use crate::token::ErrorKind;
use vstd::std_specs::iter::IteratorSpec;

verus! {

broadcast use vstd::string::axiom_spec_iter, vstd::string::next_postcondition;

/// The value of a decimal digit character.
pub open spec fn digit_value(c: char) -> int {
    c as int - '0' as int
}

/// Whether `c` is one of `0`..`9`.
pub open spec fn is_digit(c: char) -> bool {
    '0' as int <= c as int <= '9' as int
}

/// The index of the register that `s` names: `r` followed by the decimal
/// numeral of 0 to 15, written without a leading zero.
pub open spec fn register_of(s: Seq<char>) -> Option<u32> {
    if s.len() == 2 && s[0] == 'r' && is_digit(s[1]) {
        Some(digit_value(s[1]) as u32)
    } else if s.len() == 3 && s[0] == 'r' && s[1] == '1' && is_digit(s[2]) && digit_value(s[2]) <= 5 {
        Some((10 + digit_value(s[2])) as u32)
    } else {
        None
    }
}

/// The characters of `s`, in order.
pub fn chars_of(s: &String) -> (r: Vec<char>)
    ensures
        r@ == s@,
{
    let mut it = s.as_str().chars();
    let mut r: Vec<char> = Vec::new();
    loop
        invariant
            s@ == r@ + it.remaining(),
            it.decrease() is Some,
        ensures
            s@ == r@,
        decreases it.decrease()->0,
    {
        match it.next() {
            Some(c) => {
                assert(s@ =~= r@.push(c) + it.remaining());
                r.push(c);
            },
            None => {
                assert(s@ =~= r@);
                break;
            },
        }
    }
    r
}

/// Decodes a register name `r0`..`r15` to its index.
pub fn parse_reg(id: &String) -> (r: Result<u32, ErrorKind>)
    ensures
        r == (match register_of(id@) {
            Some(n) => Ok(n),
            None => Err(ErrorKind::InvalidRegister),
        }),
{
    let c = chars_of(id);
    if c.len() == 2 && c[0] == 'r' && '0' <= c[1] && c[1] <= '9' {
        Ok(c[1] as u32 - '0' as u32)
    } else if c.len() == 3 && c[0] == 'r' && c[1] == '1' && '0' <= c[2] && c[2] <= '5' {
        Ok(10 + (c[2] as u32 - '0' as u32))
    } else {
        Err(ErrorKind::InvalidRegister)
    }
}

/// Whether the text of `id` is `name`.
pub fn is_name(id: &String, name: &str) -> (b: bool)
    ensures
        b == (id@ == name@),
{
    let owned: String = name.to_owned();
    id.eq(&owned)
}

/// The index of the output slot that `s` names.
pub open spec fn output_of(s: Seq<char>) -> Option<u32> {
    if s == "pos"@ {
        Some(0)
    } else if s == "tex"@ {
        Some(1)
    } else if s == "col"@ {
        Some(2)
    } else if s == "ocol"@ {
        Some(3)
    } else {
        None
    }
}

/// Decodes an output slot name (`pos`, `tex`, `col`, `ocol`) to its index.
pub fn parse_output(id: &String) -> (r: Result<u32, ErrorKind>)
    ensures
        r == (match output_of(id@) {
            Some(n) => Ok(n),
            None => Err(ErrorKind::InvalidOutput),
        }),
{
    if is_name(id, "pos") {
        Ok(0)
    } else if is_name(id, "tex") {
        Ok(1)
    } else if is_name(id, "col") {
        Ok(2)
    } else if is_name(id, "ocol") {
        Ok(3)
    } else {
        Err(ErrorKind::InvalidOutput)
    }
}

/// The vector component that a swizzle letter selects: `x`/`r` 0, `y`/`g` 1,
/// `z`/`b` 2, `w`/`a` 3.
pub open spec fn component_of(c: char) -> Option<u32> {
    if c == 'x' || c == 'r' {
        Some(0)
    } else if c == 'y' || c == 'g' {
        Some(1)
    } else if c == 'z' || c == 'b' {
        Some(2)
    } else if c == 'w' || c == 'a' {
        Some(3)
    } else {
        None
    }
}

/// Decodes one swizzle letter to the component it selects.
pub fn parse_sub(ch: char) -> (r: Result<u32, ErrorKind>)
    ensures
        r == (match component_of(ch) {
            Some(n) => Ok(n),
            None => Err(ErrorKind::InvalidSwizzle),
        }),
{
    if ch == 'x' || ch == 'r' {
        Ok(0)
    } else if ch == 'y' || ch == 'g' {
        Ok(1)
    } else if ch == 'z' || ch == 'b' {
        Ok(2)
    } else if ch == 'w' || ch == 'a' {
        Ok(3)
    } else {
        Err(ErrorKind::InvalidSwizzle)
    }
}

/// The four components that the swizzle `s` selects: `s` has exactly four
/// characters, each a swizzle letter, decoded one by one.
pub open spec fn swizzle_of(s: Seq<char>) -> Option<(u32, u32, u32, u32)> {
    if s.len() == 4 && component_of(s[0]) is Some && component_of(s[1]) is Some
        && component_of(s[2]) is Some && component_of(s[3]) is Some {
        Some(
            (
                component_of(s[0])->0,
                component_of(s[1])->0,
                component_of(s[2])->0,
                component_of(s[3])->0,
            ),
        )
    } else {
        None
    }
}

/// Decodes a four-letter swizzle name such as `xyzw` or `rgba`.
pub fn parse_swizzle(id: &String) -> (r: Result<(u32, u32, u32, u32), ErrorKind>)
    ensures
        r == (match swizzle_of(id@) {
            Some(t) => Ok(t),
            None => Err(ErrorKind::InvalidSwizzle),
        }),
{
    let c = chars_of(id);
    if c.len() != 4 {
        return Err(ErrorKind::InvalidSwizzle);
    }
    let x = parse_sub(c[0])?;
    let y = parse_sub(c[1])?;
    let z = parse_sub(c[2])?;
    let w = parse_sub(c[3])?;
    Ok((x, y, z, w))
}

} // verus!
