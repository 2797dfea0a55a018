//! Text as sequences of characters: white space, tokens and joining.
use vstd::prelude::*;

verus! {

/// The text that an optional string holds, if any.
pub open spec fn text_of(value: Option<String>) -> Option<Seq<char>> {
    match value {
        Some(text) => Some(text@),
        None => None,
    }
}

/// Whether `c` is white space: the characters that carry the Unicode property `White_Space`.
pub open spec fn is_whitespace(c: char) -> bool {
    let n = c as u32;
    ||| 0x09 <= n <= 0x0D
    ||| n == 0x20
    ||| n == 0x85
    ||| n == 0xA0
    ||| n == 0x1680
    ||| 0x2000 <= n <= 0x200A
    ||| n == 0x2028
    ||| n == 0x2029
    ||| n == 0x202F
    ||| n == 0x205F
    ||| n == 0x3000
}

/// Whether `s` holds no white space at all.
pub open spec fn has_no_whitespace(s: Seq<char>) -> bool {
    forall|i: int| 0 <= i < s.len() ==> !is_whitespace(#[trigger] s[i])
}

/// Whether `s` can stand as one token: not empty, and free of white space.
pub open spec fn is_token(s: Seq<char>) -> bool {
    s.len() > 0 && has_no_whitespace(s)
}

/// `word` as a list of tokens: the one token, or nothing where `word` is empty.
pub open spec fn finished_word(word: Seq<char>) -> Seq<Seq<char>> {
    if word.len() > 0 {
        seq![word]
    } else {
        Seq::empty()
    }
}

/// The tokens found by reading `rest` from left to right, where `word` holds the characters
/// of a token that began just before `rest`.
pub open spec fn tokens_after(word: Seq<char>, rest: Seq<char>) -> Seq<Seq<char>>
    decreases rest.len(),
{
    if rest.len() == 0 {
        finished_word(word)
    } else if is_whitespace(rest[0]) {
        finished_word(word) + tokens_after(Seq::empty(), rest.drop_first())
    } else {
        tokens_after(word.push(rest[0]), rest.drop_first())
    }
}

/// The tokens of `s`: its longest runs of characters that are not white space, in order.
pub open spec fn split_whitespace(s: Seq<char>) -> Seq<Seq<char>> {
    tokens_after(Seq::empty(), s)
}

/// The tokens written one after another with a single space between neighbours.
pub open spec fn join_with_space(tokens: Seq<Seq<char>>) -> Seq<char>
    decreases tokens.len(),
{
    if tokens.len() == 0 {
        Seq::empty()
    } else if tokens.len() == 1 {
        tokens[0]
    } else {
        tokens[0] + seq![' '] + join_with_space(tokens.drop_first())
    }
}

/// The character that writes the digit `d`, for `d` below ten.
pub open spec fn digit(d: nat) -> char {
    ((48 + d) as u8) as char
}

/// The decimal writing of `n`, without leading zeros.
pub open spec fn decimal_text(n: nat) -> Seq<char>
    decreases n,
{
    if n < 10 {
        seq![digit(n)]
    } else {
        decimal_text(n / 10).push(digit(n % 10))
    }
}

/// Whether every entry of `tokens` can stand as a token.
pub open spec fn all_tokens(tokens: Seq<Seq<char>>) -> bool {
    forall|i: int| 0 <= i < tokens.len() ==> is_token(#[trigger] tokens[i])
}

/// Reading on through text without white space only lengthens the token at hand.
pub proof fn lemma_tokens_after_run(word: Seq<char>, run: Seq<char>, rest: Seq<char>)
    requires
        has_no_whitespace(run),
    ensures
        tokens_after(word, run + rest) == tokens_after(word + run, rest),
    decreases run.len(),
{
    if run.len() == 0 {
        assert(run + rest =~= rest);
        assert(word + run =~= word);
    } else {
        let tail = run.drop_first();
        assert(!is_whitespace(run[0]));
        assert(has_no_whitespace(tail)) by {
            assert forall|i: int| 0 <= i < tail.len() implies !is_whitespace(
                #[trigger] tail[i],
            ) by {
                assert(tail[i] == run[i + 1]);
            }
        }
        assert((run + rest)[0] == run[0]);
        assert((run + rest).drop_first() =~= tail + rest);
        lemma_tokens_after_run(word.push(run[0]), tail, rest);
        assert(word.push(run[0]) + tail =~= word + run);
    }
}

/// A text that is one token splits into just that token.
pub proof fn lemma_split_one_token(s: Seq<char>)
    requires
        is_token(s),
    ensures
        split_whitespace(s) == seq![s],
{
    let none = Seq::<char>::empty();
    lemma_tokens_after_run(none, s, none);
    assert(s + none =~= s);
    assert(none + s =~= s);
}

/// The empty text has no tokens.
pub proof fn lemma_split_empty()
    ensures
        split_whitespace(Seq::empty()) == Seq::<Seq<char>>::empty(),
{
}

/// Whatever reading finds is a token, given that the token at hand holds no white space.
pub proof fn lemma_tokens_after_are_tokens(word: Seq<char>, rest: Seq<char>)
    requires
        has_no_whitespace(word),
    ensures
        all_tokens(tokens_after(word, rest)),
    decreases rest.len(),
{
    if rest.len() > 0 {
        if is_whitespace(rest[0]) {
            lemma_tokens_after_are_tokens(Seq::empty(), rest.drop_first());
        } else {
            lemma_tokens_after_are_tokens(word.push(rest[0]), rest.drop_first());
        }
    }
}

/// Every token that [`split_whitespace`] returns is not empty and free of white space.
pub proof fn lemma_split_gives_tokens(s: Seq<char>)
    ensures
        all_tokens(split_whitespace(s)),
{
    lemma_tokens_after_are_tokens(Seq::empty(), s);
}

/// Joining tokens with spaces and splitting the result gives the tokens back.
pub proof fn lemma_split_join(tokens: Seq<Seq<char>>)
    requires
        all_tokens(tokens),
    ensures
        split_whitespace(join_with_space(tokens)) == tokens,
    decreases tokens.len(),
{
    let none = Seq::<char>::empty();
    if tokens.len() == 0 {
        assert(tokens =~= Seq::<Seq<char>>::empty());
    } else if tokens.len() == 1 {
        assert(is_token(tokens[0]));
        lemma_split_one_token(tokens[0]);
        assert(tokens =~= seq![tokens[0]]);
    } else {
        let first = tokens[0];
        let others = tokens.drop_first();
        let tail = seq![' '] + join_with_space(others);
        assert(is_token(first));
        assert(all_tokens(others)) by {
            assert forall|i: int| 0 <= i < others.len() implies is_token(#[trigger] others[i]) by {
                assert(others[i] == tokens[i + 1]);
            }
        }
        lemma_split_join(others);
        assert(join_with_space(tokens) =~= first + tail);
        lemma_tokens_after_run(none, first, tail);
        assert(none + first =~= first);
        assert(is_whitespace(tail[0]));
        assert(tail.drop_first() =~= join_with_space(others));
        assert(tokens_after(first, tail) == seq![first] + split_whitespace(
            join_with_space(others),
        ));
        assert(seq![first] + others =~= tokens);
    }
}

} // verus!
