use vstd::prelude::*;

verus! {

broadcast use vstd::string::group_string_axioms;

/// `text` with each occurrence of `pattern`, found from the left without
/// overlapping, replaced by `replacement`. An empty pattern changes nothing.
pub open spec fn replaced(text: Seq<char>, pattern: Seq<char>, replacement: Seq<char>) -> Seq<char>
    decreases text.len(),
{
    if text.len() == 0 {
        Seq::empty()
    } else if pattern.len() > 0 && pattern.is_prefix_of(text) {
        replacement + replaced(text.skip(pattern.len() as int), pattern, replacement)
    } else {
        seq![text[0]] + replaced(text.drop_first(), pattern, replacement)
    }
}

/// The parts, in order, with `separator` between each two of them.
pub open spec fn joined(parts: Seq<Seq<char>>, separator: Seq<char>) -> Seq<char>
    decreases parts.len(),
{
    if parts.len() == 0 {
        Seq::empty()
    } else if parts.len() == 1 {
        parts[0]
    } else {
        joined(parts.drop_last(), separator) + separator + parts.last()
    }
}

/// The texts of some strings.
pub open spec fn texts(strings: Seq<String>) -> Seq<Seq<char>> {
    strings.map_values(|s: String| s@)
}

/// The characters of `text`, in order.
pub fn chars_of(text: &str) -> (chars: Vec<char>)
    ensures
        chars@ == text@,
{
    let mut chars: Vec<char> = Vec::new();
    for c in iter: text.chars()
        invariant
            chars@ == iter.seq().take(iter.index() as int),
            iter.seq() == text@,
    {
        chars.push(c);
    }
    chars
}

/// Whether `pattern` occurs in `chars` at position `at`.
fn occurs_at(chars: &Vec<char>, at: usize, pattern: &Vec<char>) -> (found: bool)
    requires
        at <= chars@.len(),
    ensures
        found == pattern@.is_prefix_of(chars@.skip(at as int)),
{
    if pattern.len() > chars.len() - at {
        return false;
    }
    let mut k: usize = 0;
    while k < pattern.len()
        invariant
            k <= pattern@.len(),
            at + pattern@.len() <= chars@.len(),
            chars@.len() <= usize::MAX,
            forall|j: int| 0 <= j < k ==> pattern@[j] == chars@[at + j],
        decreases pattern@.len() - k,
    {
        assert(at + k < chars@.len());
        if pattern[k] != chars[at + k] {
            assert(chars@.skip(at as int).subrange(0, pattern@.len() as int)[k as int] == chars@[at + k]);
            return false;
        }
        k = k + 1;
    }
    assert(pattern@ =~= chars@.skip(at as int).subrange(0, pattern@.len() as int));
    true
}

/// `text` with every occurrence of `pattern` replaced by `replacement`.
pub fn replace_all(text: &str, pattern: &str, replacement: &str) -> (result: String)
    ensures
        result@ == replaced(text@, pattern@, replacement@),
{
    let chars = chars_of(text);
    let pat = chars_of(pattern);
    let n = chars.len();
    let mut result = String::new();
    let mut last: usize = 0;
    let mut i: usize = 0;
    assert(text@.skip(0) =~= text@);
    assert(text@.subrange(0, 0) =~= Seq::<char>::empty());
    while i < n
        invariant
            last <= i <= n,
            n == text@.len(),
            chars@ == text@,
            pat@ == pattern@,
            replaced(text@, pattern@, replacement@) == result@ + text@.subrange(last as int, i as int)
                + replaced(text@.skip(i as int), pattern@, replacement@),
        decreases n - i,
    {
        let ghost rest = text@.skip(i as int);
        if pat.len() > 0 && occurs_at(&chars, i, &pat) {
            let ghost before = result@;
            let ghost pending = text@.subrange(last as int, i as int);
            result.append(text.substring_char(last, i));
            result.append(replacement);
            assert(rest.skip(pattern@.len() as int) =~= text@.skip(i + pattern@.len()));
            i = i + pat.len();
            last = i;
            assert(text@.subrange(last as int, i as int) =~= Seq::<char>::empty());
            assert(result@ =~= before + pending + replacement@);
        } else {
            assert(rest.drop_first() =~= text@.skip(i + 1));
            assert(text@.subrange(last as int, i as int) + seq![rest[0]] =~= text@.subrange(last as int, i + 1));
            i = i + 1;
        }
    }
    let ghost before = result@;
    result.append(text.substring_char(last, n));
    assert(text@.skip(n as int) =~= Seq::<char>::empty());
    result
}

/// The strings joined by `separator`.
pub fn join_strings(parts: &[String], separator: &str) -> (result: String)
    ensures
        result@ == joined(texts(parts@), separator@),
{
    let mut result = String::new();
    let n = parts.len();
    let ghost all = texts(parts@);
    for i in 0..n
        invariant
            n == parts@.len(),
            all == texts(parts@),
            result@ == joined(all.take(i as int), separator@),
    {
        if i != 0 {
            result.append(separator);
        }
        result.append(parts[i].as_str());
        assert(all.take(i + 1).drop_last() =~= all.take(i as int));
    }
    assert(all.take(n as int) =~= all);
    result
}

} // verus!
