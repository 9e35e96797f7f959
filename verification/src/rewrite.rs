use vstd::prelude::*;

verus! {

/// Relies on std's `String::push`: appends the given character to the
/// end of the string.
pub assume_specification[ String::push ](s: &mut String, ch: char)
    ensures
        final(s)@ == old(s)@.push(ch),
;

/// The decimal digit character for one digit value.
pub open spec fn digit_char(d: nat) -> char {
    if d == 0 {
        '0'
    } else if d == 1 {
        '1'
    } else if d == 2 {
        '2'
    } else if d == 3 {
        '3'
    } else if d == 4 {
        '4'
    } else if d == 5 {
        '5'
    } else if d == 6 {
        '6'
    } else if d == 7 {
        '7'
    } else if d == 8 {
        '8'
    } else {
        '9'
    }
}

/// The decimal digit string of a number, most significant digit first.
pub open spec fn dec_digits(n: nat) -> Seq<char>
    decreases n,
{
    if n < 10 {
        seq![digit_char(n)]
    } else {
        dec_digits(n / 10).push(digit_char(n % 10))
    }
}

/// The protocol's positional-parameter token for the 1-based ordinal
/// `i`: an at sign, the letter p, then the ordinal in decimal.
pub open spec fn param_token(i: nat) -> Seq<char> {
    seq!['@', 'p'] + dec_digits(i)
}

/// One step per character: the text with its placeholders replaced by
/// positional tokens, left to right, after `used` replacements have
/// already happened out of a budget of `count`. A placeholder met once
/// the budget is exhausted stays as it is.
pub open spec fn rewrite_from(s: Seq<char>, used: nat, count: nat) -> Seq<char>
    decreases s.len(),
{
    if s.len() == 0 {
        Seq::<char>::empty()
    } else if s[0] == '?' && used < count {
        param_token(used + 1) + rewrite_from(s.drop_first(), used + 1, count)
    } else {
        seq![s[0]] + rewrite_from(s.drop_first(), used, count)
    }
}

/// The rewritten statement text: the first `count` placeholder
/// characters replaced by the tokens for ordinals 1 through `count`.
pub open spec fn rewrite_spec(s: Seq<char>, count: nat) -> Seq<char> {
    rewrite_from(s, 0, count)
}

/// How many placeholder characters the text holds.
pub open spec fn placeholder_count(s: Seq<char>) -> nat
    decreases s.len(),
{
    if s.len() == 0 {
        0
    } else {
        (if s[0] == '?' {
            1nat
        } else {
            0nat
        }) + placeholder_count(s.drop_first())
    }
}

/// The maximal placeholder-free segments of the text, in order: one
/// more segment than there are placeholders.
pub open spec fn split_placeholders(s: Seq<char>) -> Seq<Seq<char>>
    decreases s.len(),
{
    if s.len() == 0 {
        seq![Seq::<char>::empty()]
    } else if s[0] == '?' {
        seq![Seq::<char>::empty()] + split_placeholders(s.drop_first())
    } else {
        let rest = split_placeholders(s.drop_first());
        seq![seq![s[0]] + rest[0]] + rest.drop_first()
    }
}

/// The segments joined back together with the positional tokens for the
/// ordinals `next`, `next + 1`, ... spliced between them.
pub open spec fn join_with_tokens(segs: Seq<Seq<char>>, next: nat) -> Seq<char>
    decreases segs.len(),
{
    if segs.len() == 0 {
        Seq::<char>::empty()
    } else if segs.len() == 1 {
        segs[0]
    } else {
        segs[0] + param_token(next) + join_with_tokens(segs.drop_first(), next + 1)
    }
}

fn digit_to_char(d: usize) -> (c: char)
    requires
        d < 10,
    ensures
        c == digit_char(d as nat),
{
    if d == 0 {
        '0'
    } else if d == 1 {
        '1'
    } else if d == 2 {
        '2'
    } else if d == 3 {
        '3'
    } else if d == 4 {
        '4'
    } else if d == 5 {
        '5'
    } else if d == 6 {
        '6'
    } else if d == 7 {
        '7'
    } else if d == 8 {
        '8'
    } else {
        '9'
    }
}

/// The decimal digit string of `n`.
fn dec_string(n: usize) -> (r: String)
    ensures
        r@ == dec_digits(n as nat),
    decreases n,
{
    if n < 10 {
        let mut r = String::new();
        r.push(digit_to_char(n));
        proof {
            assert(r@ =~= seq![digit_char(n as nat)]);
        }
        r
    } else {
        let mut r = dec_string(n / 10);
        r.push(digit_to_char(n % 10));
        r
    }
}

/// Rewrites the statement text for transmission: scanning left to
/// right, the i-th placeholder character (1-indexed), for i up to
/// `param_count`, is replaced by the positional token for ordinal i.
/// Placeholders beyond `param_count` are left as they are; every other
/// character is kept unchanged, in order.
pub fn rewrite(sql: &str, param_count: usize) -> (r: String)
    ensures
        r@ == rewrite_spec(sql@, param_count as nat),
{
    let len: usize = sql.unicode_len();
    let mut r = String::new();
    let mut used: usize = 0;
    let mut i: usize = 0;
    proof {
        assert(sql@.skip(0) =~= sql@);
        assert(r@ + rewrite_from(sql@, 0, param_count as nat) =~= rewrite_from(
            sql@,
            0,
            param_count as nat,
        ));
    }
    while i < len
        invariant
            len == sql@.len(),
            i <= len,
            used <= param_count,
            r@ + rewrite_from(sql@.skip(i as int), used as nat, param_count as nat)
                == rewrite_spec(sql@, param_count as nat),
        decreases len - i,
    {
        let ghost r0: Seq<char> = r@;
        let ghost used0: nat = used as nat;
        let ghost suffix: Seq<char> = sql@.skip(i as int);
        proof {
            assert(suffix.len() > 0);
            assert(suffix[0] == sql@[i as int]);
            assert(suffix.drop_first() =~= sql@.skip(i as int + 1));
        }
        let c = sql.get_char(i);
        if c == '?' && used < param_count {
            used = used + 1;
            r.append("@p");
            let d = dec_string(used);
            r.append(d.as_str());
            proof {
                reveal_strlit("@p");
                assert(("@p")@ =~= seq!['@', 'p']);
                assert(r@ =~= r0 + param_token(used0 + 1));
                assert(rewrite_from(suffix, used0, param_count as nat) == param_token(used0 + 1)
                    + rewrite_from(suffix.drop_first(), used0 + 1, param_count as nat));
                assert((r0 + param_token(used0 + 1)) + rewrite_from(
                    suffix.drop_first(),
                    used0 + 1,
                    param_count as nat,
                ) =~= r0 + (param_token(used0 + 1) + rewrite_from(
                    suffix.drop_first(),
                    used0 + 1,
                    param_count as nat,
                )));
            }
        } else {
            r.push(c);
            proof {
                assert(r@ =~= r0 + seq![c]);
                assert(rewrite_from(suffix, used0, param_count as nat) == seq![suffix[0]]
                    + rewrite_from(suffix.drop_first(), used0, param_count as nat));
                assert((r0 + seq![c]) + rewrite_from(
                    suffix.drop_first(),
                    used0,
                    param_count as nat,
                ) =~= r0 + (seq![c] + rewrite_from(
                    suffix.drop_first(),
                    used0,
                    param_count as nat,
                )));
            }
        }
        i = i + 1;
    }
    proof {
        assert(sql@.skip(len as int) =~= Seq::<char>::empty());
        assert(r@ + Seq::<char>::empty() =~= r@);
    }
    r
}

/// Placeholder counting distributes over concatenation.
pub proof fn lemma_count_concat(a: Seq<char>, b: Seq<char>)
    ensures
        placeholder_count(a + b) == placeholder_count(a) + placeholder_count(b),
    decreases a.len(),
{
    if a.len() == 0 {
        assert(a + b =~= b);
    } else {
        assert((a + b).drop_first() =~= a.drop_first() + b);
        lemma_count_concat(a.drop_first(), b);
    }
}

proof fn lemma_singleton_count(c: char)
    ensures
        placeholder_count(seq![c]) == (if c == '?' {
            1nat
        } else {
            0nat
        }),
{
    let s = seq![c];
    assert(s.len() == 1);
    assert(s[0] == c);
    assert(s.drop_first() =~= Seq::<char>::empty());
    assert(placeholder_count(Seq::<char>::empty()) == 0);
}

proof fn lemma_dec_digits_clean(n: nat)
    ensures
        placeholder_count(dec_digits(n)) == 0,
    decreases n,
{
    if n < 10 {
        lemma_singleton_count(digit_char(n));
    } else {
        lemma_dec_digits_clean(n / 10);
        assert(dec_digits(n) =~= dec_digits(n / 10) + seq![digit_char(n % 10)]);
        lemma_count_concat(dec_digits(n / 10), seq![digit_char(n % 10)]);
        lemma_singleton_count(digit_char(n % 10));
    }
}

/// A positional token holds no placeholder character.
pub proof fn lemma_token_clean(i: nat)
    ensures
        placeholder_count(param_token(i)) == 0,
{
    lemma_dec_digits_clean(i);
    assert(seq!['@', 'p'].drop_first() =~= seq!['p']);
    lemma_singleton_count('p');
    assert(placeholder_count(seq!['@', 'p']) == 0);
    lemma_count_concat(seq!['@', 'p'], dec_digits(i));
}

proof fn lemma_rewrite_from_clean(s: Seq<char>, used: nat, count: nat)
    requires
        used + placeholder_count(s) <= count,
    ensures
        placeholder_count(rewrite_from(s, used, count)) == 0,
    decreases s.len(),
{
    if s.len() == 0 {
    } else if s[0] == '?' {
        lemma_token_clean(used + 1);
        lemma_rewrite_from_clean(s.drop_first(), used + 1, count);
        lemma_count_concat(
            param_token(used + 1),
            rewrite_from(s.drop_first(), used + 1, count),
        );
    } else {
        lemma_rewrite_from_clean(s.drop_first(), used, count);
        lemma_singleton_count(s[0]);
        lemma_count_concat(seq![s[0]], rewrite_from(s.drop_first(), used, count));
    }
}

proof fn lemma_split_len(s: Seq<char>)
    ensures
        split_placeholders(s).len() == placeholder_count(s) + 1,
    decreases s.len(),
{
    if s.len() == 0 {
    } else {
        lemma_split_len(s.drop_first());
    }
}

proof fn lemma_rewrite_join(s: Seq<char>, used: nat, count: nat)
    requires
        used + placeholder_count(s) == count,
    ensures
        rewrite_from(s, used, count) == join_with_tokens(split_placeholders(s), used + 1),
    decreases s.len(),
{
    lemma_split_len(s);
    if s.len() == 0 {
    } else if s[0] == '?' {
        lemma_rewrite_join(s.drop_first(), used + 1, count);
        lemma_split_len(s.drop_first());
        let segs = split_placeholders(s);
        let rest = split_placeholders(s.drop_first());
        assert(segs.drop_first() =~= rest);
        assert(segs[0] =~= Seq::<char>::empty());
        assert(segs.len() >= 2);
        assert(join_with_tokens(segs, used + 1) == segs[0] + param_token(used + 1)
            + join_with_tokens(rest, used + 2));
        assert(segs[0] + param_token(used + 1) =~= param_token(used + 1));
        assert(rewrite_from(s, used, count) == param_token(used + 1) + rewrite_from(
            s.drop_first(),
            used + 1,
            count,
        ));
    } else {
        lemma_rewrite_join(s.drop_first(), used, count);
        lemma_split_len(s.drop_first());
        let segs = split_placeholders(s);
        let rest = split_placeholders(s.drop_first());
        assert(segs[0] == seq![s[0]] + rest[0]);
        assert(segs.drop_first() =~= rest.drop_first());
        assert(rewrite_from(s, used, count) == seq![s[0]] + join_with_tokens(rest, used + 1));
        if rest.len() == 1 {
            assert(segs.len() == 1);
            assert(join_with_tokens(segs, used + 1) == segs[0]);
            assert(join_with_tokens(rest, used + 1) == rest[0]);
        } else {
            assert(segs.len() >= 2);
            assert(join_with_tokens(segs, used + 1) == segs[0] + param_token(used + 1)
                + join_with_tokens(segs.drop_first(), used + 2));
            assert(join_with_tokens(rest, used + 1) == rest[0] + param_token(used + 1)
                + join_with_tokens(rest.drop_first(), used + 2));
            assert(seq![s[0]] + (rest[0] + param_token(used + 1) + join_with_tokens(
                rest.drop_first(),
                used + 2,
            )) =~= (seq![s[0]] + rest[0]) + param_token(used + 1) + join_with_tokens(
                rest.drop_first(),
                used + 2,
            ));
        }
    }
}

/// Once the replacement budget is exhausted, the rest of the text is
/// copied unchanged: a trailing placeholder survives as it is.
pub proof fn lemma_rewrite_exhausted(s: Seq<char>, count: nat)
    ensures
        rewrite_from(s, count, count) == s,
    decreases s.len(),
{
    if s.len() == 0 {
        assert(rewrite_from(s, count, count) =~= s);
    } else {
        lemma_rewrite_exhausted(s.drop_first(), count);
        assert(seq![s[0]] + s.drop_first() =~= s);
    }
}

proof fn lemma_rewrite_from_surplus(s: Seq<char>, used: nat, count: nat)
    requires
        used <= count,
        used + placeholder_count(s) >= count,
    ensures
        placeholder_count(rewrite_from(s, used, count)) == used + placeholder_count(s) - count,
    decreases s.len(),
{
    if s.len() == 0 {
    } else if s[0] == '?' && used < count {
        lemma_token_clean(used + 1);
        lemma_rewrite_from_surplus(s.drop_first(), used + 1, count);
        lemma_count_concat(
            param_token(used + 1),
            rewrite_from(s.drop_first(), used + 1, count),
        );
    } else {
        lemma_rewrite_from_surplus(s.drop_first(), used, count);
        lemma_singleton_count(s[0]);
        lemma_count_concat(seq![s[0]], rewrite_from(s.drop_first(), used, count));
    }
}

/// With more placeholder characters than parameters, exactly the
/// trailing surplus survives the rewriting.
pub proof fn lemma_rewrite_surplus(s: Seq<char>, count: nat)
    requires
        placeholder_count(s) >= count,
    ensures
        placeholder_count(rewrite_spec(s, count)) == placeholder_count(s) - count,
{
    lemma_rewrite_from_surplus(s, 0, count);
}

/// Rewriting a statement that holds exactly `count` placeholder
/// characters leaves no placeholder in the result, and the result is
/// precisely the statement's placeholder-free segments with the
/// positional tokens for ordinals 1 through `count` spliced between
/// them, in left-to-right order.
pub proof fn lemma_rewrite_exact(s: Seq<char>, count: nat)
    requires
        placeholder_count(s) == count,
    ensures
        placeholder_count(rewrite_spec(s, count)) == 0,
        split_placeholders(s).len() == count + 1,
        rewrite_spec(s, count) == join_with_tokens(split_placeholders(s), 1),
{
    lemma_rewrite_from_clean(s, 0, count);
    lemma_rewrite_join(s, 0, count);
    lemma_split_len(s);
}

} // verus!
