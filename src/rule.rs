use vstd::prelude::*;

use crate::cursor::Cursor;

verus! {

/// A production that is read from its input in place.
///
/// `data_is_valid` decides, without consuming anything, whether the production starts where the
/// input stands; `deserialize` is called only after it said so, and consumes what the production
/// spans to make its value.
pub trait Deserialize<DataType: View>: Sized {
    /// Whether the production starts where `input` stands. Left open unless the impl states it.
    open spec fn valid(input: DataType::V) -> bool {
        arbitrary()
    }

    /// The value that deserializing from `input` makes. Left open unless the impl states it.
    open spec fn value(input: DataType::V) -> Self {
        arbitrary()
    }

    fn data_is_valid(input: &DataType) -> (r: bool)
        ensures
            r == Self::valid(input@),
    ;

    fn deserialize(input: &mut DataType) -> (r: Self)
        requires
            Self::valid(old(input)@),
        ensures
            r == Self::value(old(input)@),
    ;
}

/// A value that can be written back out as input.
pub trait Serialize<DataType> {
    fn serialize(self) -> DataType;
}

/// A production that consumes from a shared cursor and reports either its output or an error.
/// It reads the cursor's buffer and never changes it.
pub trait Rule<In, Out, Error> {
    fn process(input: &mut Cursor<In>) -> (r: Result<Out, Error>)
        ensures
            final(input).items() == old(input).items(),
    ;
}

} // verus!
