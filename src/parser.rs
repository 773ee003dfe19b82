use vstd::prelude::*;

use core::marker::PhantomData;

use crate::cursor::Cursor;
use crate::rule::Deserialize;

verus! {

/// Drives one top-level rule over a whole buffer.
pub struct Parser<MainRule, InputType> {
    _rule: PhantomData<MainRule>,
    _input: PhantomData<InputType>,
}

impl<MainRule: Deserialize<Cursor<InputType>>, InputType> Parser<MainRule, InputType> {
    /// Puts a cursor at the start of `input` and, when the rule matches there, deserializes
    /// the rule from it. `None` when `input` is empty or the rule does not match; nothing is
    /// deserialized then.
    pub fn parse(input: Vec<InputType>) -> (r: Option<MainRule>)
        ensures
            input@.len() == 0 ==> r is None,
            input@.len() > 0 ==> r == if MainRule::valid((input@, 0nat)) {
                Some(MainRule::value((input@, 0nat)))
            } else {
                None::<MainRule>
            },
    {
        let mut cursor = match Cursor::new(input) {
            Some(cursor) => cursor,
            None => return None,
        };
        if !MainRule::data_is_valid(&cursor) {
            return None;
        }
        Some(MainRule::deserialize(&mut cursor))
    }
}

} // verus!
