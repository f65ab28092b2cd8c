//! Normalisation of free text into label values.
use vstd::prelude::*;
use vstd::utf8::is_ascii_chars;

verus! {

/// The lowercase form that `str::to_lowercase` gives a character sequence.
pub uninterp spec fn lowercase_of(s: Seq<char>) -> Seq<char>;

/// Calls `str::to_lowercase`, which returns the lowercase equivalent of the
/// string as a new string. The result is a function of the characters alone;
/// the contract names it and says nothing more of it.
#[verifier::external_body]
fn to_lowercase(s: &str) -> (r: String)
    ensures
        r@ == lowercase_of(s@),
{
    s.to_lowercase()
}

/// The characters that are written as an underscore.
pub open spec fn is_separator(c: char) -> bool {
    c == ' ' || c == '-' || c == '(' || c == ')'
}

/// The lowercase form of an ASCII capital; any other character is kept.
pub open spec fn ascii_lower_char(c: char) -> char {
    if 'A' <= c <= 'Z' {
        ((c as u8) + 32) as char
    } else {
        c
    }
}

/// Every ASCII capital replaced by its lowercase form.
pub open spec fn ascii_lowercase(s: Seq<char>) -> Seq<char> {
    s.map_values(|c: char| ascii_lower_char(c))
}

/// The lowercase form of a label: computed character by character where the
/// label is ASCII, and left to `str::to_lowercase` where it is not.
pub open spec fn lowered(s: Seq<char>) -> Seq<char> {
    if is_ascii_chars(s) {
        ascii_lowercase(s)
    } else {
        lowercase_of(s)
    }
}

/// Every separator replaced by an underscore.
pub open spec fn replace_separators(s: Seq<char>) -> Seq<char> {
    s.map_values(
        |c: char|
            if is_separator(c) {
                '_'
            } else {
                c
            },
    )
}

/// Every run of adjacent underscores replaced by a single underscore.
pub open spec fn collapse_runs(s: Seq<char>) -> Seq<char>
    decreases s.len(),
{
    if s.len() < 2 {
        s
    } else if s[0] == '_' && s[1] == '_' {
        collapse_runs(s.skip(1))
    } else {
        seq![s[0]] + collapse_runs(s.skip(1))
    }
}

/// The sequence without the underscores at its end.
pub open spec fn trim_underscores(s: Seq<char>) -> Seq<char>
    decreases s.len(),
{
    if s.len() > 0 && s.last() == '_' {
        trim_underscores(s.drop_last())
    } else {
        s
    }
}

/// What becomes of a lowercase label: separators become underscores, every
/// run of underscores becomes a single one, and an underscore at the end is
/// dropped.
pub open spec fn normalize(s: Seq<char>) -> Seq<char> {
    trim_underscores(collapse_runs(replace_separators(s)))
}

/// The label value that stands for a piece of free text.
pub open spec fn sanitized(s: Seq<char>) -> Seq<char> {
    normalize(lowered(s))
}

fn lower_char(c: char) -> (r: char)
    ensures
        r == ascii_lower_char(c),
{
    if 'A' <= c && c <= 'Z' {
        ((c as u8) + 32) as char
    } else {
        c
    }
}

fn lower_ascii(s: &str) -> (r: String)
    ensures
        r@ == ascii_lowercase(s@),
{
    let mut out = String::new();
    for c in it: s.chars()
        invariant
            it.seq() == s@,
            out@ =~= ascii_lowercase(s@.take(it.index() as int)),
    {
        proof {
            assert(s@.take(it.index() + 1) =~= s@.take(it.index() as int).push(c));
        }
        out.push(lower_char(c));
    }
    assert(s@.take(s@.len() as int) =~= s@);
    out
}

fn underscore_separators(s: &str) -> (r: String)
    ensures
        r@ == replace_separators(s@),
{
    let mut out = String::new();
    for c in it: s.chars()
        invariant
            it.seq() == s@,
            out@ =~= replace_separators(s@.take(it.index() as int)),
    {
        proof {
            assert(s@.take(it.index() + 1) =~= s@.take(it.index() as int).push(c));
        }
        if c == ' ' || c == '-' || c == '(' || c == ')' {
            out.push('_');
        } else {
            out.push(c);
        }
    }
    assert(s@.take(s@.len() as int) =~= s@);
    out
}

/// The underscore that the scan holds back, if it holds one.
spec fn held_back(held: bool) -> Seq<char> {
    if held {
        seq!['_']
    } else {
        Seq::empty()
    }
}

fn collapse(s: &str) -> (r: String)
    ensures
        r@ == collapse_runs(s@),
{
    let mut out = String::new();
    let mut held = false;
    proof {
        assert(held_back(false) + s@.skip(0) =~= s@);
        assert(out@ + collapse_runs(s@) =~= collapse_runs(s@));
    }
    for c in it: s.chars()
        invariant
            it.seq() == s@,
            collapse_runs(s@) == out@ + collapse_runs(
                held_back(held) + s@.skip(it.index() as int),
            ),
    {
        let ghost i = it.index() as int;
        let ghost rest = s@.skip(i);
        let ghost next = s@.skip(i + 1);
        let ghost before = held_back(held) + rest;
        let ghost prev = out@;
        proof {
            assert(rest.skip(1) =~= next);
            assert(rest[0] == c);
            if held {
                assert(before.skip(1) =~= rest);
            } else {
                assert(before =~= rest);
            }
            if c == '_' {
                assert(held_back(true) + next =~= rest);
            } else {
                assert(held_back(false) + next =~= next);
                if rest.len() < 2 {
                    assert(next =~= Seq::empty());
                    assert(collapse_runs(rest) =~= seq![c] + collapse_runs(next));
                }
                assert(collapse_runs(rest) == seq![c] + collapse_runs(next));
            }
        }
        if c == '_' {
            held = true;
        } else {
            if held {
                out.push('_');
            }
            out.push(c);
            held = false;
            proof {
                if before.len() != rest.len() {
                    assert(out@ + collapse_runs(next) =~= prev + (seq!['_'] + (seq![c]
                        + collapse_runs(next))));
                } else {
                    assert(out@ + collapse_runs(next) =~= prev + (seq![c] + collapse_runs(next)));
                }
            }
        }
    }
    proof {
        assert(s@.skip(s@.len() as int) =~= Seq::empty());
        assert(held_back(held) + Seq::<char>::empty() =~= held_back(held));
    }
    if held {
        out.push('_');
    }
    assert(out@ =~= collapse_runs(s@));
    out
}

/// Trailing underscores are all dropped, and nothing else.
proof fn lemma_trim_tail(head: Seq<char>, tail: Seq<char>)
    requires
        head.len() == 0 || head.last() != '_',
        forall|j: int| 0 <= j < tail.len() ==> tail[j] == '_',
    ensures
        trim_underscores(head + tail) == head,
    decreases tail.len(),
{
    if tail.len() == 0 {
        assert(head + tail =~= head);
    } else {
        assert((head + tail).drop_last() =~= head + tail.drop_last());
        lemma_trim_tail(head, tail.drop_last());
    }
}

fn trim_trailing(s: &str) -> (r: String)
    ensures
        r@ == trim_underscores(s@),
{
    let mut out = String::new();
    let mut pending = String::new();
    for c in it: s.chars()
        invariant
            it.seq() == s@,
            out@ + pending@ =~= s@.take(it.index() as int),
            out@.len() == 0 || out@.last() != '_',
            forall|j: int| 0 <= j < pending@.len() ==> pending@[j] == '_',
    {
        proof {
            assert(s@.take(it.index() + 1) =~= s@.take(it.index() as int).push(c));
        }
        if c == '_' {
            pending.push(c);
        } else {
            out.append(pending.as_str());
            out.push(c);
            pending = String::new();
        }
    }
    proof {
        assert(s@.take(s@.len() as int) =~= s@);
        lemma_trim_tail(out@, pending@);
    }
    out
}

/// Normalises a label that is already in lowercase: separators become
/// underscores, every run of underscores becomes a single one, and an
/// underscore at the end is dropped. The result holds no separator and no
/// two adjacent underscores, and does not end in an underscore.
pub fn normalize_label(label: &str) -> (r: String)
    ensures
        r@ == normalize(label@),
        is_clean(r@),
{
    let replaced = underscore_separators(label);
    let collapsed = collapse(replaced.as_str());
    proof {
        lemma_normalize_is_clean(label@);
    }
    trim_trailing(collapsed.as_str())
}

/// Turns free text into a label value: the text is put in lowercase and then
/// normalised as [`normalize_label`] does.
pub fn sanitize_label(label: String) -> (r: String)
    ensures
        r@ == sanitized(label@),
        is_clean(r@),
{
    let lower = if label.as_str().is_ascii() {
        lower_ascii(label.as_str())
    } else {
        to_lowercase(label.as_str())
    };
    normalize_label(lower.as_str())
}

/// Two adjacent underscores occur somewhere in the sequence.
pub open spec fn has_double_underscore(s: Seq<char>) -> bool {
    exists|i: int| 0 <= i && i + 1 < s.len() && #[trigger] s[i] == '_' && s[i + 1] == '_'
}

/// The characters that a clean label value is made of: lowercase ASCII
/// letters, digits and the underscore.
pub open spec fn is_label_char(c: char) -> bool {
    'a' <= c <= 'z' || '0' <= c <= '9' || c == '_'
}

/// The characters that sanitizing turns into label characters: ASCII letters,
/// digits, the underscore and the separators.
pub open spec fn is_plain_char(c: char) -> bool {
    'a' <= c <= 'z' || 'A' <= c <= 'Z' || '0' <= c <= '9' || c == '_' || is_separator(c)
}

/// Every character of the sequence satisfies the predicate.
pub open spec fn all_chars(s: Seq<char>, p: spec_fn(char) -> bool) -> bool {
    forall|i: int| 0 <= i < s.len() ==> p(#[trigger] s[i])
}

/// A clean label value: it holds no separator and no two adjacent
/// underscores, and it does not end in an underscore.
pub open spec fn is_clean(s: Seq<char>) -> bool {
    &&& all_chars(s, |c: char| !is_separator(c))
    &&& !has_double_underscore(s)
    &&& (s.len() == 0 || s.last() != '_')
}

proof fn lemma_collapse_keeps(s: Seq<char>, p: spec_fn(char) -> bool)
    requires
        all_chars(s, p),
    ensures
        all_chars(collapse_runs(s), p),
        collapse_runs(s).len() <= s.len(),
        s.len() > 0 ==> collapse_runs(s).len() > 0 && collapse_runs(s)[0] == s[0],
    decreases s.len(),
{
    if s.len() >= 2 {
        let rest = s.skip(1);
        assert(all_chars(rest, p)) by {
            assert forall|i: int| 0 <= i < rest.len() implies p(#[trigger] rest[i]) by {
                assert(rest[i] == s[i + 1]);
            }
        }
        lemma_collapse_keeps(rest, p);
    }
}

proof fn lemma_collapse_single(s: Seq<char>)
    ensures
        !has_double_underscore(collapse_runs(s)),
    decreases s.len(),
{
    if s.len() >= 2 {
        let rest = s.skip(1);
        let tail = collapse_runs(rest);
        let whole = collapse_runs(s);
        lemma_collapse_single(rest);
        lemma_collapse_keeps(rest, |c: char| true);
        if !(s[0] == '_' && s[1] == '_') {
            assert(whole =~= seq![s[0]] + tail);
            if has_double_underscore(whole) {
                let i = choose|i: int|
                    0 <= i && i + 1 < whole.len() && #[trigger] whole[i] == '_' && whole[i + 1]
                        == '_';
                if i == 0 {
                    assert(tail[0] == rest[0]);
                    assert(rest[0] == s[1]);
                } else {
                    assert(tail[i - 1] == '_' && tail[i - 1 + 1] == '_');
                }
            }
        }
    }
}

proof fn lemma_collapse_fixed(s: Seq<char>)
    requires
        !has_double_underscore(s),
    ensures
        collapse_runs(s) == s,
    decreases s.len(),
{
    if s.len() >= 2 {
        assert(!(s[0] == '_' && s[1] == '_'));
        let rest = s.skip(1);
        if has_double_underscore(rest) {
            let i = choose|i: int|
                0 <= i && i + 1 < rest.len() && #[trigger] rest[i] == '_' && rest[i + 1] == '_';
            assert(s[i + 1] == '_' && s[i + 2] == '_');
        }
        lemma_collapse_fixed(rest);
        assert(seq![s[0]] + rest =~= s);
    }
}

proof fn lemma_trim_prefix(s: Seq<char>)
    ensures
        trim_underscores(s).len() <= s.len(),
        trim_underscores(s) == s.take(trim_underscores(s).len() as int),
        trim_underscores(s).len() == 0 || trim_underscores(s).last() != '_',
    decreases s.len(),
{
    if s.len() > 0 && s.last() == '_' {
        lemma_trim_prefix(s.drop_last());
        let t = trim_underscores(s);
        assert(t =~= s.take(t.len() as int));
    } else {
        assert(s =~= s.take(s.len() as int));
    }
}

/// Whatever predicate holds of every character of a text after its
/// separators are replaced holds of every character of its normal form.
proof fn lemma_normalize_keeps(s: Seq<char>, p: spec_fn(char) -> bool)
    requires
        all_chars(replace_separators(s), p),
    ensures
        all_chars(normalize(s), p),
{
    let collapsed = collapse_runs(replace_separators(s));
    lemma_collapse_keeps(replace_separators(s), p);
    lemma_trim_prefix(collapsed);
    assert forall|i: int| 0 <= i < normalize(s).len() implies p(#[trigger] normalize(s)[i]) by {
        assert(normalize(s)[i] == collapsed[i]);
    }
}

/// The normal form of any text is clean.
pub proof fn lemma_normalize_is_clean(s: Seq<char>)
    ensures
        is_clean(normalize(s)),
{
    let replaced = replace_separators(s);
    let collapsed = collapse_runs(replaced);
    let t = normalize(s);
    assert(all_chars(replaced, |c: char| !is_separator(c)));
    lemma_normalize_keeps(s, |c: char| !is_separator(c));
    lemma_collapse_single(replaced);
    lemma_trim_prefix(collapsed);
    if has_double_underscore(t) {
        let i = choose|i: int|
            0 <= i && i + 1 < t.len() && #[trigger] t[i] == '_' && t[i + 1] == '_';
        assert(collapsed[i] == '_' && collapsed[i + 1] == '_');
    }
}

/// A clean text is its own normal form.
pub proof fn lemma_clean_is_normal(s: Seq<char>)
    requires
        is_clean(s),
    ensures
        normalize(s) == s,
{
    assert(replace_separators(s) =~= s) by {
        assert forall|i: int| 0 <= i < s.len() implies replace_separators(s)[i] == s[i] by {
            assert((|c: char| !is_separator(c))(s[i]));
        }
    }
    lemma_collapse_fixed(s);
}

/// A sanitized label is clean, whatever the text was: it holds no separator,
/// every underscore in it is single, and it does not end in an underscore.
pub proof fn lemma_sanitized_is_clean(s: Seq<char>)
    ensures
        is_clean(sanitized(s)),
{
    lemma_normalize_is_clean(lowered(s));
}

/// Normalising twice is normalising once, for every text.
pub proof fn lemma_normalize_idempotent(s: Seq<char>)
    ensures
        normalize(normalize(s)) == normalize(s),
{
    lemma_normalize_is_clean(s);
    lemma_clean_is_normal(normalize(s));
}

/// Sanitizing twice is sanitizing once wherever putting the sanitized label
/// in lowercase changes nothing. Beyond ASCII that is a matter of
/// `str::to_lowercase`, of which only the result is named.
pub proof fn lemma_sanitize_idempotent_where_lowercase_is(s: Seq<char>)
    ensures
        lowered(sanitized(s)) == sanitized(s) ==> sanitized(sanitized(s)) == sanitized(s),
{
    lemma_sanitized_is_clean(s);
    lemma_clean_is_normal(sanitized(s));
}

/// Sanitizing twice is sanitizing once, for ASCII text.
pub proof fn lemma_sanitize_idempotent(s: Seq<char>)
    requires
        is_ascii_chars(s),
    ensures
        sanitized(sanitized(s)) == sanitized(s),
{
    let p = |c: char| '\0' <= c <= '\u{7f}' && !('A' <= c <= 'Z');
    let t = sanitized(s);
    assert(all_chars(replace_separators(ascii_lowercase(s)), p));
    lemma_normalize_keeps(ascii_lowercase(s), p);
    assert(is_ascii_chars(t)) by {
        assert forall|i: int| 0 <= i < t.len() implies '\0' <= #[trigger] t[i] <= '\u{7f}' by {
            assert(p(t[i]));
        }
    }
    assert(ascii_lowercase(t) =~= t) by {
        assert forall|i: int| 0 <= i < t.len() implies ascii_lowercase(t)[i] == t[i] by {
            assert(p(t[i]));
        }
    }
    lemma_normalize_idempotent(ascii_lowercase(s));
}

/// For text made of ASCII letters, digits, underscores and separators, the
/// sanitized label is made of lowercase letters, digits and single
/// underscores, does not end in an underscore, and sanitizing it again
/// changes nothing.
pub proof fn lemma_sanitized_plain_text(s: Seq<char>)
    requires
        all_chars(s, |c: char| is_plain_char(c)),
    ensures
        all_chars(sanitized(s), |c: char| is_label_char(c)),
        is_clean(sanitized(s)),
        sanitized(sanitized(s)) == sanitized(s),
{
    let p = |c: char| is_label_char(c);
    assert(is_ascii_chars(s)) by {
        assert forall|i: int| 0 <= i < s.len() implies '\0' <= #[trigger] s[i] <= '\u{7f}' by {
            assert((|c: char| is_plain_char(c))(s[i]));
        }
    }
    assert(all_chars(replace_separators(ascii_lowercase(s)), p)) by {
        assert forall|i: int| 0 <= i < s.len() implies p(
            #[trigger] replace_separators(ascii_lowercase(s))[i],
        ) by {
            assert((|c: char| is_plain_char(c))(s[i]));
        }
    }
    lemma_normalize_keeps(ascii_lowercase(s), p);
    lemma_sanitized_is_clean(s);
    lemma_sanitize_idempotent(s);
}

} // verus!
