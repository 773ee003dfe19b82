use vstd::prelude::*;

use core::marker::PhantomData;

use crate::cursor::Cursor;

verus! {

/// A token that is carved out of the input through a shared cursor.
///
/// `tokenize` is called while a value follows the current one; it moves the cursor forward past
/// what the token spans and never changes the buffer. Where it leaves the cursor, and which
/// token it makes, depend on the buffer and the index alone.
pub trait Tokenizer<InputType>: Sized {
    /// The index at which tokenizing from index `pos` of `items` leaves the cursor. Left open
    /// unless the impl states it.
    open spec fn step(items: Seq<InputType>, pos: nat) -> nat {
        arbitrary()
    }

    /// The token that tokenizing from index `pos` of `items` makes. Left open unless the impl
    /// states it.
    open spec fn token(items: Seq<InputType>, pos: nat) -> Self {
        arbitrary()
    }

    fn tokenize(input: &mut Cursor<InputType>) -> (r: Self)
        requires
            old(input).index() + 1 < old(input).items().len(),
        ensures
            final(input).items() == old(input).items(),
            final(input).index() == Self::step(old(input).items(), old(input).index()),
            old(input).index() < final(input).index(),
            r == Self::token(old(input).items(), old(input).index()),
    ;
}

/// The tokens that the driver makes of `items` from index `pos` on: one token at each index
/// that a value follows, as long as the tokenizer moves forward within the buffer.
pub open spec fn tokens_from<I, T: Tokenizer<I>>(items: Seq<I>, pos: nat) -> Seq<T>
    decreases items.len() - pos,
{
    let next = T::step(items, pos);
    if pos + 1 < items.len() && pos < next < items.len() {
        seq![T::token(items, pos)] + tokens_from::<I, T>(items, next)
    } else {
        Seq::empty()
    }
}

/// Whether the tokenizer carves `k` values at a time out of `items`, and whatever is left at
/// the end in one last token.
pub open spec fn carves_chunks<I, T: Tokenizer<I>>(items: Seq<I>, k: nat) -> bool {
    forall|p: nat|
        p + 1 < items.len() ==> #[trigger] T::step(items, p) == if p + k < items.len() {
            p + k
        } else {
            (items.len() - 1) as nat
        }
}

proof fn lemma_chunks_from<I, T: Tokenizer<I>>(items: Seq<I>, k: nat, j: nat)
    requires
        k >= 2,
        items.len() % k == 0,
        carves_chunks::<I, T>(items, k),
        j * k < items.len(),
    ensures
        tokens_from::<I, T>(items, j * k).len() == items.len() / k - j,
    decreases items.len() - j * k,
{
    let len = items.len();
    let m = len / k;
    let pos = j * k;
    assert(len == m * k) by (nonlinear_arith)
        requires
            len % k == 0,
            m == len / k,
            k >= 2,
    ;
    assert(j < m) by (nonlinear_arith)
        requires
            j * k < m * k,
            k >= 2,
    ;
    assert((j + 1) * k == pos + k) by (nonlinear_arith)
        requires
            pos == j * k,
    ;
    assert(pos + k <= len) by (nonlinear_arith)
        requires
            j < m,
            len == m * k,
            pos == j * k,
    ;
    if pos + k < len {
        lemma_chunks_from::<I, T>(items, k, j + 1);
    } else {
        assert(j + 1 == m) by (nonlinear_arith)
            requires
                (j + 1) * k == len,
                len == m * k,
                k >= 2,
        ;
        assert(tokens_from::<I, T>(items, (len - 1) as nat).len() == 0);
    }
}

/// A tokenizer that carves `k` values at a time out of a buffer whose length `k` divides, and
/// the values left at the end in one last token, makes `len / k` tokens of it. (The value at
/// index 0 is where the cursor starts, so the last token holds `k - 1` values.)
pub proof fn lemma_token_count_of_chunks<I, T: Tokenizer<I>>(items: Seq<I>, k: nat)
    requires
        k >= 2,
        items.len() % k == 0,
        carves_chunks::<I, T>(items, k),
    ensures
        tokens_from::<I, T>(items, 0).len() == items.len() / k,
{
    if items.len() > 0 {
        lemma_chunks_from::<I, T>(items, k, 0);
    }
}

/// Drives a tokenizer over a whole buffer.
pub struct TokenParser<InputType, TokenType> {
    _input: PhantomData<InputType>,
    _token: PhantomData<TokenType>,
}

impl<InputType, TokenType: Tokenizer<InputType>> TokenParser<InputType, TokenType> {
    /// Puts a cursor at the start of `input` and calls the tokenizer while a value follows the
    /// current one, collecting the tokens in the order they were made.
    pub fn parse(input: Vec<InputType>) -> (r: Vec<TokenType>)
        ensures
            r@ == tokens_from::<InputType, TokenType>(input@, 0),
    {
        let ghost items = input@;
        let mut tokens: Vec<TokenType> = Vec::new();
        let mut cursor = match Cursor::new(input) {
            Some(cursor) => cursor,
            None => return tokens,
        };
        while cursor.peek_next_value().is_some()
            invariant
                cursor.items() == items,
                cursor.index() < items.len(),
                tokens@ + tokens_from::<InputType, TokenType>(items, cursor.index())
                    == tokens_from::<InputType, TokenType>(items, 0),
            decreases items.len() - cursor.index(),
        {
            let ghost pos = cursor.index();
            let token = TokenType::tokenize(&mut cursor);
            // The index stays within the buffer, as `pos` states.
            let _ = cursor.pos();
            proof {
                let rest = tokens_from::<InputType, TokenType>(items, cursor.index());
                assert(tokens_from::<InputType, TokenType>(items, pos) == seq![token] + rest);
                assert(tokens@.push(token) + rest == tokens@ + (seq![token] + rest));
            }
            tokens.push(token);
        }
        tokens
    }
}

} // verus!
