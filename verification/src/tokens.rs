//! Source text as a run of tokens, gathered in a `quote::Tokens`.
//!
//! The functions in the first half are not verified: each hands its work to
//! one function of `quote`, and its contract says what that function does.

use vstd::prelude::*;

verus! {

/// `quote::Tokens`, the accumulator of emitted tokens. Nothing is known of a
/// value but its text.
#[verifier::external_type_specification]
#[verifier::external_body]
pub struct ExTokens(quote::Tokens);

/// The text that a `quote::Tokens` has gathered.
pub uninterp spec fn token_text(tokens: quote::Tokens) -> Seq<char>;

/// The text after one more token: the token follows the text, after one
/// space where neither is empty.
pub open spec fn spaced(text: Seq<char>, token: Seq<char>) -> Seq<char> {
    if text.len() > 0 && token.len() > 0 {
        text + " "@ + token
    } else {
        text + token
    }
}

/// The text after each of the tokens in turn.
pub open spec fn spaced_all(text: Seq<char>, tokens: Seq<Seq<char>>) -> Seq<char>
    decreases tokens.len(),
{
    if tokens.len() == 0 {
        text
    } else {
        spaced(spaced_all(text, tokens.drop_last()), tokens.last())
    }
}

/// `quote::Tokens::new`: the accumulator that has gathered nothing, whose
/// text is empty.
#[verifier::external_body]
pub(crate) fn no_tokens() -> (tokens: quote::Tokens)
    ensures
        token_text(tokens) == Seq::<char>::empty(),
{
    quote::Tokens::new()
}

/// `quote::Tokens::append`: adds `token` to the text, after a single space
/// unless the text or the token is empty.
#[verifier::external_body]
pub(crate) fn push_token(tokens: &mut quote::Tokens, token: &str)
    ensures
        token_text(*final(tokens)) == spaced(token_text(*old(tokens)), token@),
{
    tokens.append(token)
}

/// `quote::Tokens::into_string`: hands out the gathered text.
#[verifier::external_body]
pub(crate) fn into_text(tokens: quote::Tokens) -> (text: String)
    ensures
        text@ == token_text(tokens),
{
    tokens.into_string()
}

/// Tokens taken in two runs give the text of the whole run.
pub proof fn lemma_spaced_in_runs(text: Seq<char>, first: Seq<Seq<char>>, second: Seq<Seq<char>>)
    ensures
        spaced_all(text, first + second) == spaced_all(spaced_all(text, first), second),
    decreases second.len(),
{
    if second.len() == 0 {
        assert(first + second =~= first);
    } else {
        lemma_spaced_in_runs(text, first, second.drop_last());
        assert((first + second).drop_last() =~= first + second.drop_last());
        assert((first + second).last() == second.last());
    }
}

/// Adds one token, and keeps account of the run that has been added.
pub(crate) fn emit(
    tokens: &mut quote::Tokens,
    token: &str,
    Ghost(start): Ghost<Seq<char>>,
    run: &mut Ghost<Seq<Seq<char>>>,
)
    requires
        token_text(*old(tokens)) == spaced_all(start, old(run)@),
    ensures
        final(run)@ == old(run)@.push(token@),
        token_text(*final(tokens)) == spaced_all(start, final(run)@),
{
    push_token(tokens, token);
    proof {
        assert(run@.push(token@).drop_last() =~= run@);
        *run = Ghost(run@.push(token@));
    }
}

} // verus!
