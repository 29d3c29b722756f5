use vstd::prelude::*;

verus! {

broadcast use vstd::string::group_string_axioms;

/// Whether `c` has the Unicode `White_Space` property, the set that
/// `char::is_whitespace` documents.
pub open spec fn is_white_space(c: char) -> bool {
    ||| '\u{9}' <= c <= '\u{d}'
    ||| c == ' '
    ||| c == '\u{85}'
    ||| c == '\u{a0}'
    ||| c == '\u{1680}'
    ||| '\u{2000}' <= c <= '\u{200a}'
    ||| c == '\u{2028}'
    ||| c == '\u{2029}'
    ||| c == '\u{202f}'
    ||| c == '\u{205f}'
    ||| c == '\u{3000}'
}

/// `s` without its trailing white space.
pub open spec fn trim_end(s: Seq<char>) -> Seq<char>
    decreases s.len(),
{
    if s.len() > 0 && is_white_space(s.last()) {
        trim_end(s.drop_last())
    } else {
        s
    }
}

/// Whether `s` begins with `prefix`.
pub open spec fn has_prefix(s: Seq<char>, prefix: Seq<char>) -> bool {
    prefix.len() <= s.len() && s.subrange(0, prefix.len() as int) == prefix
}

/// The pieces of `s` between the occurrences of `sep`, as `str::split`
/// with a `char` gives them: one more piece than there are separators.
pub open spec fn split_on(s: Seq<char>, sep: char) -> Seq<Seq<char>>
    decreases s.len(),
{
    if s.len() == 0 {
        seq![Seq::<char>::empty()]
    } else {
        let pieces = split_on(s.drop_last(), sep);
        if s.last() == sep {
            pieces.push(Seq::<char>::empty())
        } else {
            pieces.update(pieces.len() - 1, pieces.last().push(s.last()))
        }
    }
}

/// The pieces joined back together with `sep` between neighbours.
pub open spec fn join_with(pieces: Seq<Seq<char>>, sep: char) -> Seq<char>
    decreases pieces.len(),
{
    if pieces.len() == 0 {
        Seq::<char>::empty()
    } else if pieces.len() == 1 {
        pieces[0]
    } else {
        join_with(pieces.drop_last(), sep).push(sep) + pieces.last()
    }
}

/// `s` with every occurrence of `pattern` removed, matched from left to
/// right without overlap, as `str::replace(pattern, "")` does.
pub open spec fn remove_all(s: Seq<char>, pattern: Seq<char>) -> Seq<char>
    recommends
        pattern.len() > 0,
    decreases s.len(),
{
    if s.len() == 0 || pattern.len() == 0 {
        s
    } else if has_prefix(s, pattern) {
        remove_all(s.skip(pattern.len() as int), pattern)
    } else {
        seq![s[0]] + remove_all(s.skip(1), pattern)
    }
}

/// Appends `c` to `s` (`String::push`).
#[verifier::external_body]
fn push_char(s: &mut String, c: char)
    ensures
        final(s)@ == old(s)@.push(c),
{
    s.push(c);
}

/// Whether `c` is white space, as `char::is_whitespace` decides.
pub fn is_whitespace(c: char) -> (r: bool)
    ensures
        r == is_white_space(c),
{
    ('\u{9}' <= c && c <= '\u{d}') || c == ' ' || c == '\u{85}' || c == '\u{a0}' || c
        == '\u{1680}' || ('\u{2000}' <= c && c <= '\u{200a}') || c == '\u{2028}' || c
        == '\u{2029}' || c == '\u{202f}' || c == '\u{205f}' || c == '\u{3000}'
}

/// The characters of `s`, in order.
pub fn chars_of(s: &str) -> (r: Vec<char>)
    ensures
        r@ == s@,
{
    let mut out: Vec<char> = Vec::new();
    for c in it: s.chars()
        invariant
            it.seq() == s@,
            out@ == it.seq().take(it.index() as int),
    {
        out.push(c);
    }
    out
}

/// The string made of `chars[from..to]`.
pub fn string_of(chars: &[char], from: usize, to: usize) -> (r: String)
    requires
        from <= to <= chars@.len(),
    ensures
        r@ == chars@.subrange(from as int, to as int),
{
    let mut out = String::new();
    let mut i = from;
    while i < to
        invariant
            from <= i <= to <= chars@.len(),
            out@ == chars@.subrange(from as int, i as int),
        decreases to - i,
    {
        push_char(&mut out, chars[i]);
        i = i + 1;
    }
    out
}

/// Whether `a` and `b` hold the same text.
pub fn same_text(a: &str, b: &str) -> (r: bool)
    ensures
        r == (a@ == b@),
{
    a.to_owned() == b.to_owned()
}

/// Whether `chars[at..]` begins with `prefix`.
pub fn chars_have_prefix_at(chars: &[char], at: usize, prefix: &[char]) -> (r: bool)
    requires
        at <= chars@.len(),
    ensures
        r == has_prefix(chars@.skip(at as int), prefix@),
{
    if prefix.len() > chars.len() - at {
        return false;
    }
    let mut i: usize = 0;
    while i < prefix.len()
        invariant
            at + prefix@.len() <= chars@.len(),
            at + prefix.len() <= chars.len(),
            i <= prefix@.len(),
            forall|j: int| 0 <= j < i ==> chars@[at + j] == prefix@[j],
        decreases prefix.len() - i,
    {
        assert(at + i < chars@.len());
        if chars[at + i] != prefix[i] {
            assert(chars@.skip(at as int).subrange(0, prefix@.len() as int)[i as int] != prefix@[i as int]);
            return false;
        }
        i = i + 1;
    }
    assert(chars@.skip(at as int).subrange(0, prefix@.len() as int) =~= prefix@);
    true
}

/// Whether `s` begins with `prefix` (`str::starts_with`).
pub fn starts_with(s: &str, prefix: &str) -> (r: bool)
    ensures
        r == has_prefix(s@, prefix@),
{
    let chars = chars_of(s);
    let pre = chars_of(prefix);
    let r = chars_have_prefix_at(chars.as_slice(), 0, pre.as_slice());
    assert(chars@.skip(0) =~= chars@);
    r
}

/// `s` without its trailing white space (`str::trim_end`).
pub fn trim_end_of(s: &str) -> (r: String)
    ensures
        r@ == trim_end(s@),
{
    let chars = chars_of(s);
    let mut end = chars.len();
    assert(chars@.subrange(0, end as int) =~= chars@);
    while end > 0 && is_whitespace(chars[end - 1])
        invariant
            end <= chars@.len(),
            trim_end(chars@.subrange(0, end as int)) == trim_end(chars@),
        decreases end,
    {
        assert(chars@.subrange(0, end as int).drop_last() =~= chars@.subrange(0, end - 1));
        end = end - 1;
    }
    assert(chars@.subrange(0, chars@.len() as int) =~= chars@);
    string_of(chars.as_slice(), 0, end)
}

/// The pieces of `s` between the `sep` characters (`str::split`).
pub fn split_by(s: &str, sep: char) -> (r: Vec<String>)
    ensures
        r@.len() == split_on(s@, sep).len(),
        forall|i: int| 0 <= i < r@.len() ==> #[trigger] r@[i]@ == split_on(s@, sep)[i],
{
    let chars = chars_of(s);
    let mut out: Vec<String> = Vec::new();
    let mut start: usize = 0;
    let mut i: usize = 0;
    while i < chars.len()
        invariant
            start <= i <= chars@.len(),
            split_on(chars@.subrange(0, i as int), sep).len() == out@.len() + 1,
            forall|k: int| 0 <= k < out@.len() ==>
                #[trigger] out@[k]@ == split_on(chars@.subrange(0, i as int), sep)[k],
            split_on(chars@.subrange(0, i as int), sep).last() == chars@.subrange(start as int, i as int),
        decreases chars.len() - i,
    {
        assert(chars@.subrange(0, i + 1).drop_last() =~= chars@.subrange(0, i as int));
        if chars[i] == sep {
            out.push(string_of(chars.as_slice(), start, i));
            start = i + 1;
        }
        assert(chars@.subrange(start as int, i + 1) =~= if chars@[i as int] == sep {
            Seq::<char>::empty()
        } else {
            chars@.subrange(start as int, i as int).push(chars@[i as int])
        });
        i = i + 1;
    }
    out.push(string_of(chars.as_slice(), start, i));
    assert(chars@.subrange(0, chars@.len() as int) =~= chars@);
    out
}

/// `s` with every occurrence of `pattern` removed (`str::replace(pattern, "")`).
pub fn remove_all_of(s: &str, pattern: &str) -> (r: String)
    requires
        pattern@.len() > 0,
    ensures
        r@ == remove_all(s@, pattern@),
{
    let chars = chars_of(s);
    let pat = chars_of(pattern);
    let mut out = String::new();
    let mut i: usize = 0;
    assert(chars@.skip(0) =~= chars@);
    assert(out@ + remove_all(chars@.skip(0), pat@) =~= remove_all(chars@, pat@));
    while i < chars.len()
        invariant
            i <= chars@.len(),
            pat@ == pattern@,
            pat@.len() > 0,
            out@ + remove_all(chars@.skip(i as int), pat@) == remove_all(chars@, pat@),
        decreases chars.len() - i,
    {
        if chars_have_prefix_at(chars.as_slice(), i, pat.as_slice()) {
            assert(chars@.skip(i as int).skip(pat@.len() as int) =~= chars@.skip(i + pat@.len()));
            i = i + pat.len();
        } else {
            assert(chars@.skip(i as int).skip(1) =~= chars@.skip(i + 1));
            assert(chars@.skip(i as int)[0] == chars@[i as int]);
            let ghost before = out@;
            push_char(&mut out, chars[i]);
            assert(before + (seq![chars@[i as int]] + remove_all(chars@.skip(i + 1), pat@))
                =~= out@ + remove_all(chars@.skip(i + 1), pat@));
            i = i + 1;
        }
    }
    assert(chars@.skip(chars@.len() as int) =~= Seq::<char>::empty());
    assert(chars@.skip(0) =~= chars@);
    out
}

/// Splitting at `sep` and joining the pieces with `sep` gives back the text.
pub proof fn lemma_split_join(s: Seq<char>, sep: char)
    ensures
        join_with(split_on(s, sep), sep) == s,
        split_on(s, sep).len() >= 1,
    decreases s.len(),
{
    if s.len() > 0 {
        lemma_split_join(s.drop_last(), sep);
        let pieces = split_on(s.drop_last(), sep);
        if s.last() == sep {
            assert(pieces.push(Seq::<char>::empty()).drop_last() =~= pieces);
            assert(s =~= s.drop_last().push(sep) + Seq::<char>::empty());
        } else {
            let upd = pieces.update(pieces.len() - 1, pieces.last().push(s.last()));
            if pieces.len() == 1 {
                assert(s =~= pieces[0].push(s.last()));
            } else {
                assert(upd.drop_last() =~= pieces.drop_last());
                assert(join_with(pieces, sep) == join_with(pieces.drop_last(), sep).push(sep) + pieces.last());
                assert(s =~= s.drop_last().push(s.last()));
                assert(s =~= join_with(pieces.drop_last(), sep).push(sep) + pieces.last().push(s.last()));
            }
        }
    }
}

/// No piece of a split holds the separator.
pub proof fn lemma_split_pieces_free_of_sep(s: Seq<char>, sep: char)
    ensures
        forall|i: int| 0 <= i < split_on(s, sep).len() ==> !(#[trigger] split_on(s, sep)[i]).contains(sep),
    decreases s.len(),
{
    if s.len() > 0 {
        lemma_split_pieces_free_of_sep(s.drop_last(), sep);
        let pieces = split_on(s.drop_last(), sep);
        lemma_split_join(s.drop_last(), sep);
        if s.last() != sep {
            assert forall|i: int| 0 <= i < split_on(s, sep).len() implies !(#[trigger] split_on(s, sep)[i]).contains(sep) by {
                if i == pieces.len() - 1 {
                    let p = pieces.last().push(s.last());
                    if p.contains(sep) {
                        let k = choose|k: int| 0 <= k < p.len() && p[k] == sep;
                        if k < p.len() - 1 {
                            assert(pieces.last()[k] == sep);
                        }
                    }
                }
            }
        } else {
            assert forall|i: int| 0 <= i < split_on(s, sep).len() implies !(#[trigger] split_on(s, sep)[i]).contains(sep) by {
                if i < pieces.len() {
                    assert(split_on(s, sep)[i] == pieces[i]);
                }
            }
        }
    }
}

/// What is left after trimming ends in a character that is not white space,
/// and what was cut off is all white space.
pub proof fn lemma_trim_end(s: Seq<char>)
    ensures
        has_prefix(s, trim_end(s)),
        trim_end(s).len() > 0 ==> !is_white_space(trim_end(s).last()),
        forall|i: int| trim_end(s).len() <= i < s.len() ==> is_white_space(#[trigger] s[i]),
    decreases s.len(),
{
    if s.len() > 0 && is_white_space(s.last()) {
        lemma_trim_end(s.drop_last());
        let t = trim_end(s.drop_last());
        assert(s.subrange(0, t.len() as int) =~= s.drop_last().subrange(0, t.len() as int));
        assert forall|i: int| t.len() <= i < s.len() implies is_white_space(#[trigger] s[i]) by {
            if i < s.len() - 1 {
                assert(s[i] == s.drop_last()[i]);
            }
        }
    } else {
        assert(s.subrange(0, s.len() as int) =~= s);
    }
}

/// Removing a pattern from a text in which it never starts changes nothing.
pub proof fn lemma_remove_all_absent(s: Seq<char>, pattern: Seq<char>)
    requires
        pattern.len() > 0,
        forall|i: int| 0 <= i <= s.len() ==> !has_prefix(#[trigger] s.skip(i), pattern),
    ensures
        remove_all(s, pattern) == s,
    decreases s.len(),
{
    if s.len() > 0 {
        assert(s.skip(0) =~= s);
        assert forall|i: int| 0 <= i <= s.skip(1).len() implies !has_prefix(#[trigger] s.skip(1).skip(i), pattern) by {
            assert(s.skip(1).skip(i) =~= s.skip(1 + i));
        }
        lemma_remove_all_absent(s.skip(1), pattern);
        assert(seq![s[0]] + s.skip(1) =~= s);
    }
}

/// A text that starts with the pattern loses that occurrence first.
pub proof fn lemma_remove_all_leading(s: Seq<char>, pattern: Seq<char>)
    requires
        pattern.len() > 0,
    ensures
        remove_all(pattern + s, pattern) == remove_all(s, pattern),
{
    let t = pattern + s;
    assert(t.subrange(0, pattern.len() as int) =~= pattern);
    assert(t.skip(pattern.len() as int) =~= s);
}

/// A text in which `c` never occurs holds no occurrence of a pattern that
/// contains `c`.
pub proof fn lemma_pattern_absent(s: Seq<char>, pattern: Seq<char>, c: char)
    requires
        pattern.contains(c),
        !s.contains(c),
    ensures
        forall|i: int| 0 <= i <= s.len() ==> !has_prefix(#[trigger] s.skip(i), pattern),
{
    assert forall|i: int| 0 <= i <= s.len() implies !has_prefix(#[trigger] s.skip(i), pattern) by {
        if has_prefix(s.skip(i), pattern) {
            let k = choose|k: int| 0 <= k < pattern.len() && pattern[k] == c;
            assert(s.skip(i).subrange(0, pattern.len() as int)[k] == c);
            assert(s[i + k] == c);
        }
    }
}

} // verus!
