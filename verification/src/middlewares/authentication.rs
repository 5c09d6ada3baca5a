use vstd::prelude::*;
use vstd::string::*;
use crate::route_utils::STATUS_UNAUTHORIZED;
use crate::text::{chars_of, text_between};

verus! {

/// The position of the first space of `text` at or after `from`; the
/// length of the text where there is none.
pub open spec fn space_from(text: Seq<char>, from: int) -> int
    decreases text.len() - from,
{
    if from < 0 || from >= text.len() {
        text.len() as int
    } else if text[from] == ' ' {
        from
    } else {
        space_from(text, from + 1)
    }
}

/// The second of the pieces into which the spaces cut `header`: what
/// stands between its first space and its next one, or its end. `None`
/// where the header has no space.
pub open spec fn second_segment(header: Seq<char>) -> Option<Seq<char>> {
    let first = space_from(header, 0);
    if first < header.len() {
        Some(header.subrange(first + 1, space_from(header, first + 1)))
    } else {
        None
    }
}

/// The first space of `chars` at or after `from`.
fn find_space(chars: &Vec<char>, from: usize) -> (position: usize)
    requires
        from <= chars@.len(),
    ensures
        position == space_from(chars@, from as int),
        from <= position <= chars@.len(),
{
    let mut position = from;
    while position < chars.len() && chars[position] != ' '
        invariant
            from <= position <= chars@.len(),
            space_from(chars@, from as int) == space_from(chars@, position as int),
        decreases chars@.len() - position,
    {
        position += 1;
    }
    position
}

/// The token of an authorization header: the piece that follows the
/// scheme.
pub fn bearer_token(header: &str) -> (token: Option<String>)
    ensures
        match second_segment(header@) {
            Some(segment) => token matches Some(text) && text@ == segment,
            None => token is None,
        },
{
    let chars = chars_of(header);
    let first = find_space(&chars, 0);
    if first >= chars.len() {
        return None;
    }
    let next = find_space(&chars, first + 1);
    Some(text_between(&chars, first + 1, next))
}

/// The token of a request, or the status that refuses the request: a
/// request without a header, with an empty one or with one that holds no
/// token is not authorized.
pub fn authorization_token(header: Option<&str>) -> (token: Result<String, u16>)
    ensures
        match header {
            Some(value) => match second_segment(value@) {
                Some(segment) => token matches Ok(text) && text@ == segment,
                None => token == Err::<String, u16>(STATUS_UNAUTHORIZED),
            },
            None => token == Err::<String, u16>(STATUS_UNAUTHORIZED),
        },
{
    let value = match header {
        Some(value) => value,
        None => return Err(STATUS_UNAUTHORIZED),
    };
    if value.is_empty() {
        return Err(STATUS_UNAUTHORIZED);
    }
    match bearer_token(value) {
        Some(token) => Ok(token),
        None => Err(STATUS_UNAUTHORIZED),
    }
}

/// What a step of the authentication yielded, or the status that refuses
/// the request where it yielded nothing.
pub fn authorized<T>(yielded: Option<T>) -> (passed: Result<T, u16>)
    ensures
        passed == match yielded {
            Some(value) => Ok::<T, u16>(value),
            None => Err::<T, u16>(STATUS_UNAUTHORIZED),
        },
{
    match yielded {
        Some(value) => Ok(value),
        None => Err(STATUS_UNAUTHORIZED),
    }
}

} // verus!
