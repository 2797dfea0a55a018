//! Class lists: ordered sets of class tokens, kept by the host framework's `Classes`.
use vstd::prelude::*;
use yew::virtual_dom::Classes;
use crate::text::{join_with_space, split_whitespace};

verus! {

/// The host framework's class list. Nothing inside a value of it is visible here; what it
/// holds is spoken of through [`class_tokens`].
#[verifier::external_type_specification]
#[verifier::external_body]
pub struct ExClasses(yew::virtual_dom::Classes);

/// The tokens that a class list holds, in the order in which they were first added.
pub uninterp spec fn class_tokens(classes: Classes) -> Seq<Seq<char>>;

/// `list` with `token` added at the end, unless `list` holds it already.
pub open spec fn with_token(list: Seq<Seq<char>>, token: Seq<char>) -> Seq<Seq<char>> {
    if list.contains(token) {
        list
    } else {
        list.push(token)
    }
}

/// `list` with each of `tokens` added in turn: those it holds keep their place, the others
/// follow in the order of their first occurrence.
pub open spec fn with_tokens(list: Seq<Seq<char>>, tokens: Seq<Seq<char>>) -> Seq<Seq<char>>
    decreases tokens.len(),
{
    if tokens.len() == 0 {
        list
    } else {
        with_tokens(with_token(list, tokens[0]), tokens.drop_first())
    }
}

/// Whether no token occurs twice in `list`.
pub open spec fn no_token_twice(list: Seq<Seq<char>>) -> bool {
    forall|i: int, j: int| 0 <= i < j < list.len() ==> list[i] != list[j]
}

/// Adding tokens to a list keeps the list as it was at the front, holds every token added,
/// and holds nothing else.
pub proof fn lemma_with_tokens(list: Seq<Seq<char>>, tokens: Seq<Seq<char>>)
    ensures
        list.len() <= with_tokens(list, tokens).len(),
        with_tokens(list, tokens).take(list.len() as int) == list,
        forall|t: Seq<char>| tokens.contains(t) ==> with_tokens(list, tokens).contains(t),
        forall|t: Seq<char>|
            with_tokens(list, tokens).contains(t) ==> list.contains(t) || tokens.contains(t),
        no_token_twice(list) ==> no_token_twice(with_tokens(list, tokens)),
    decreases tokens.len(),
{
    if tokens.len() > 0 {
        let all = with_tokens(list, tokens);
        let first = tokens[0];
        let grown = with_token(list, first);
        let others = tokens.drop_first();
        lemma_with_tokens(grown, others);
        assert(all.take(list.len() as int) =~= all.take(grown.len() as int).take(
            list.len() as int,
        ));
        assert(grown.contains(first)) by {
            if !list.contains(first) {
                assert(grown[list.len() as int] == first);
            }
        }
        assert forall|t: Seq<char>| tokens.contains(t) implies all.contains(t) by {
            let i = choose|i: int| 0 <= i < tokens.len() && tokens[i] == t;
            if i == 0 {
                let k = choose|k: int| 0 <= k < grown.len() && grown[k] == first;
                assert(all.take(grown.len() as int)[k] == first);
                assert(all[k] == t);
            } else {
                assert(others[i - 1] == t);
                assert(others.contains(t));
            }
        }
        assert forall|t: Seq<char>| all.contains(t) implies list.contains(t) || tokens.contains(
            t,
        ) by {
            if grown.contains(t) {
                let k = choose|k: int| 0 <= k < grown.len() && grown[k] == t;
                if k < list.len() {
                    assert(list[k] == t);
                } else {
                    assert(tokens[0] == t);
                }
            } else {
                let i = choose|i: int| 0 <= i < others.len() && others[i] == t;
                assert(tokens[i + 1] == t);
            }
        }
    }
}

/// Adding one more token after others is adding it to what the others gave.
pub proof fn lemma_with_tokens_push(list: Seq<Seq<char>>, tokens: Seq<Seq<char>>, last: Seq<char>)
    ensures
        with_tokens(list, tokens.push(last)) == with_token(with_tokens(list, tokens), last),
    decreases tokens.len(),
{
    let all = tokens.push(last);
    if tokens.len() == 0 {
        assert(all.drop_first() =~= tokens);
        assert(with_tokens(with_token(list, last), tokens) == with_token(list, last));
    } else {
        assert(all.drop_first() =~= tokens.drop_first().push(last));
        lemma_with_tokens_push(with_token(list, tokens[0]), tokens.drop_first(), last);
    }
}

/// Adding a list that was itself put together token by token is adding its parts in turn:
/// tokens that come twice count once either way.
pub proof fn lemma_with_tokens_nested(
    list: Seq<Seq<char>>,
    seen: Seq<Seq<char>>,
    tokens: Seq<Seq<char>>,
)
    ensures
        with_tokens(list, with_tokens(seen, tokens)) == with_tokens(
            with_tokens(list, seen),
            tokens,
        ),
    decreases tokens.len(),
{
    if tokens.len() > 0 {
        let first = tokens[0];
        lemma_with_tokens_nested(list, with_token(seen, first), tokens.drop_first());
        if seen.contains(first) {
            lemma_with_tokens(list, seen);
        } else {
            lemma_with_tokens_push(list, seen, first);
        }
    }
}

/// Calls `Classes::from` on a string slice: the new list holds the tokens of `text`, each
/// once, in the order of their first occurrence.
#[verifier::external_body]
pub(crate) fn classes_from(text: &str) -> (classes: Classes)
    ensures
        class_tokens(classes) == with_tokens(Seq::empty(), split_whitespace(text@)),
{
    Classes::from(text)
}

/// Calls `Classes::push`, which makes a list of `text` as `Classes::from` does and adds what
/// that list holds to `classes`: tokens that `classes` lacks go behind those it holds.
#[verifier::external_body]
pub(crate) fn classes_push(classes: &mut Classes, text: &str)
    ensures
        class_tokens(*final(classes)) == with_tokens(
            class_tokens(*old(classes)),
            with_tokens(Seq::empty(), split_whitespace(text@)),
        ),
{
    classes.push(text)
}

/// Calls `Classes::extend` with a second list: the union of both, the tokens of `classes`
/// first.
#[verifier::external_body]
pub(crate) fn classes_extend(classes: Classes, other: Classes) -> (merged: Classes)
    ensures
        class_tokens(merged) == with_tokens(class_tokens(classes), class_tokens(other)),
{
    classes.extend(other)
}

/// Calls `Classes::to_string`: the tokens in order, a single space between neighbours.
#[verifier::external_body]
pub(crate) fn classes_to_string(classes: &Classes) -> (text: String)
    ensures
        text@ == join_with_space(class_tokens(*classes)),
{
    classes.to_string()
}

} // verus!
