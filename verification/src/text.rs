//! Text helpers over Unicode scalar sequences: whitespace trimming,
//! blank checks, exact comparison and case mapping.

use vstd::prelude::*;
use vstd::string::*;

verus! {

/// Whether `c` has the Unicode `White_Space` property: the controls from tab
/// to carriage return, space, next line, no-break space, ogham space mark,
/// the spaces from en quad to hair space, the line and paragraph separators,
/// narrow no-break space, medium mathematical space and ideographic space.
pub open spec fn white_space(c: char) -> bool {
    let n = c as u32;
    ||| 0x09 <= n <= 0x0D
    ||| n == 0x20
    ||| n == 0x85
    ||| n == 0xA0
    ||| n == 0x1680
    ||| 0x2000 <= n <= 0x200A
    ||| n == 0x2028
    ||| n == 0x2029
    ||| n == 0x202F
    ||| n == 0x205F
    ||| n == 0x3000
}

/// Whether `c` is whitespace, as `char::is_whitespace` reports it.
pub(crate) fn is_white_space(c: char) -> (r: bool)
    ensures
        r == white_space(c),
{
    let n = c as u32;
    (0x09 <= n && n <= 0x0D) || n == 0x20 || n == 0x85 || n == 0xA0 || n == 0x1680 || (0x2000 <= n
        && n <= 0x200A) || n == 0x2028 || n == 0x2029 || n == 0x202F || n == 0x205F || n == 0x3000
}

/// Every scalar of `s` is whitespace (the empty text included).
pub open spec fn is_blank(s: Seq<char>) -> bool {
    forall|i: int| 0 <= i < s.len() ==> white_space(#[trigger] s[i])
}

/// `s` without its leading whitespace.
pub open spec fn trim_start(s: Seq<char>) -> Seq<char>
    decreases s.len(),
{
    if s.len() > 0 && white_space(s[0]) {
        trim_start(s.subrange(1, s.len() as int))
    } else {
        s
    }
}

/// `s` without its trailing whitespace.
pub open spec fn trim_end(s: Seq<char>) -> Seq<char>
    decreases s.len(),
{
    if s.len() > 0 && white_space(s[s.len() - 1]) {
        trim_end(s.subrange(0, s.len() - 1))
    } else {
        s
    }
}

/// `s` without leading and trailing whitespace, as `str::trim` gives it.
pub open spec fn trimmed(s: Seq<char>) -> Seq<char> {
    trim_end(trim_start(s))
}

/// Removes leading and trailing whitespace.
pub fn trim(s: &str) -> (r: &str)
    ensures
        r@ == trimmed(s@),
{
    let n = s.unicode_len();
    let mut i: usize = 0;
    assert(s@.subrange(0, n as int) =~= s@);
    while i < n && is_white_space(s.get_char(i))
        invariant
            n == s@.len(),
            i <= n,
            trim_start(s@) == trim_start(s@.subrange(i as int, n as int)),
        decreases n - i,
    {
        assert(s@.subrange(i as int, n as int).subrange(1, (n - i) as int) =~= s@.subrange(
            i + 1,
            n as int,
        ));
        i = i + 1;
    }
    assert(trim_start(s@) == s@.subrange(i as int, n as int)) by {
        if i == n {
            assert(s@.subrange(i as int, n as int).len() == 0);
        }
    }
    let mut j: usize = n;
    while j > i && is_white_space(s.get_char(j - 1))
        invariant
            n == s@.len(),
            i <= j <= n,
            trim_end(s@.subrange(i as int, n as int)) == trim_end(
                s@.subrange(i as int, j as int),
            ),
        decreases j,
    {
        assert(s@.subrange(i as int, j as int).subrange(0, (j - i - 1) as int) =~= s@.subrange(
            i as int,
            j - 1,
        ));
        j = j - 1;
    }
    s.substring_char(i, j)
}

/// The texts held by an optional string.
pub open spec fn opt_text(o: Option<String>) -> Option<Seq<char>> {
    match o {
        Some(s) => Some(s@),
        None => None,
    }
}

/// Whether every scalar of `s` is whitespace, i.e. `s.trim().is_empty()`.
pub fn is_blank_text(s: &str) -> (r: bool)
    ensures
        r == is_blank(s@),
{
    let n = s.unicode_len();
    let mut i: usize = 0;
    while i < n
        invariant
            n == s@.len(),
            i <= n,
            forall|k: int| 0 <= k < i ==> white_space(#[trigger] s@[k]),
        decreases n - i,
    {
        if !is_white_space(s.get_char(i)) {
            return false;
        }
        i = i + 1;
    }
    true
}

/// Exact equality of two texts, scalar by scalar.
pub fn text_eq(a: &str, b: &str) -> (r: bool)
    ensures
        r == (a@ == b@),
{
    let n = a.unicode_len();
    if n != b.unicode_len() {
        return false;
    }
    let mut i: usize = 0;
    while i < n
        invariant
            n == a@.len(),
            n == b@.len(),
            i <= n,
            forall|k: int| 0 <= k < i ==> a@[k] == b@[k],
        decreases n - i,
    {
        if a.get_char(i) != b.get_char(i) {
            return false;
        }
        i = i + 1;
    }
    assert(a@ =~= b@);
    true
}

/// What `str::to_uppercase` returns for a text.
pub uninterp spec fn uppercase(s: Seq<char>) -> Seq<char>;

/// What `str::to_lowercase` returns for a text.
pub uninterp spec fn lowercase(s: Seq<char>) -> Seq<char>;

/// Calls `str::to_uppercase`; its result is named `uppercase(s@)`, a function
/// of the text alone (Unicode case mapping, which may change the length).
#[verifier::external_body]
pub(crate) fn to_upper(s: &str) -> (r: String)
    ensures
        r@ == uppercase(s@),
{
    s.to_uppercase()
}

/// Calls `str::to_lowercase`; its result is named `lowercase(s@)`, a function
/// of the text alone.
#[verifier::external_body]
pub(crate) fn to_lower(s: &str) -> (r: String)
    ensures
        r@ == lowercase(s@),
{
    s.to_lowercase()
}

/// `trim_start` removes a (possibly empty) prefix of whitespace and stops at a
/// non-whitespace scalar.
pub proof fn lemma_trim_start(s: Seq<char>)
    ensures
        trim_start(s) =~= s.subrange(s.len() - trim_start(s).len(), s.len() as int),
        trim_start(s).len() <= s.len(),
        forall|k: int| 0 <= k < s.len() - trim_start(s).len() ==> white_space(#[trigger] s[k]),
        trim_start(s).len() > 0 ==> !white_space(trim_start(s)[0]),
    decreases s.len(),
{
    if s.len() > 0 && white_space(s[0]) {
        let t = s.subrange(1, s.len() as int);
        lemma_trim_start(t);
        assert forall|k: int| 0 <= k < s.len() - trim_start(s).len() implies white_space(
            #[trigger] s[k],
        ) by {
            if k > 0 {
                assert(s[k] == t[k - 1]);
            }
        }
    }
}

/// `trim_end` removes a (possibly empty) suffix of whitespace and stops at a
/// non-whitespace scalar.
pub proof fn lemma_trim_end(s: Seq<char>)
    ensures
        trim_end(s) =~= s.subrange(0, trim_end(s).len() as int),
        trim_end(s).len() <= s.len(),
        forall|k: int| trim_end(s).len() <= k < s.len() ==> white_space(#[trigger] s[k]),
        trim_end(s).len() > 0 ==> !white_space(trim_end(s)[trim_end(s).len() - 1]),
    decreases s.len(),
{
    if s.len() > 0 && white_space(s[s.len() - 1]) {
        let t = s.subrange(0, s.len() - 1);
        lemma_trim_end(t);
        assert forall|k: int| trim_end(s).len() <= k < s.len() implies white_space(
            #[trigger] s[k],
        ) by {
            if k < s.len() - 1 {
                assert(s[k] == t[k]);
            }
        }
    }
}

/// A text trims to nothing exactly when it is blank.
pub proof fn lemma_trimmed_empty_iff_blank(s: Seq<char>)
    ensures
        (trimmed(s).len() == 0) == is_blank(s),
{
    lemma_trim_start(s);
    let t = trim_start(s);
    lemma_trim_end(t);
    if is_blank(s) {
        if t.len() > 0 {
            assert(t[0] == s[s.len() - t.len()]);
        }
    } else {
        if t.len() == 0 {
            assert(false);
        }
        if trim_end(t).len() == 0 {
            assert(white_space(t[0]));
        }
    }
}

/// A trimmed text neither starts nor ends with whitespace.
pub proof fn lemma_trimmed_edges(s: Seq<char>)
    ensures
        trimmed(s).len() > 0 ==> !white_space(trimmed(s)[0]),
        trimmed(s).len() > 0 ==> !white_space(trimmed(s)[trimmed(s).len() - 1]),
{
    lemma_trim_start(s);
    let t = trim_start(s);
    lemma_trim_end(t);
    if trimmed(s).len() > 0 {
        assert(trimmed(s)[0] == t[0]);
    }
}

/// Trimming is idempotent: a trimmed text trims to itself.
pub proof fn lemma_trim_idempotent(s: Seq<char>)
    ensures
        trimmed(trimmed(s)) == trimmed(s),
{
    let r = trimmed(s);
    lemma_trimmed_edges(s);
    assert(trim_start(r) == r);
    assert(trim_end(r) == r);
}

/// Lexicographic order of texts by Unicode scalar value, the order in which
/// `String`s compare (UTF-8 preserves scalar order byte by byte).
pub open spec fn text_lt(a: Seq<char>, b: Seq<char>) -> bool
    decreases a.len(),
{
    if a.len() == 0 {
        b.len() > 0
    } else if b.len() == 0 {
        false
    } else if a[0] == b[0] {
        text_lt(a.subrange(1, a.len() as int), b.subrange(1, b.len() as int))
    } else {
        (a[0] as u32) < (b[0] as u32)
    }
}

/// The outcome of comparing two texts.
#[derive(Clone, Copy, Debug, PartialEq, Eq, Structural)]
pub enum TextOrder {
    Less,
    Equal,
    Greater,
}

/// No text precedes itself.
pub proof fn lemma_text_lt_irreflexive(a: Seq<char>)
    ensures
        !text_lt(a, a),
    decreases a.len(),
{
    if a.len() > 0 {
        lemma_text_lt_irreflexive(a.subrange(1, a.len() as int));
    }
}

/// Of two different texts, one precedes the other, and never both.
pub proof fn lemma_text_lt_total(a: Seq<char>, b: Seq<char>)
    ensures
        a != b ==> (text_lt(a, b) || text_lt(b, a)),
        !(text_lt(a, b) && text_lt(b, a)),
    decreases a.len(),
{
    if a.len() > 0 && b.len() > 0 {
        let a1 = a.subrange(1, a.len() as int);
        let b1 = b.subrange(1, b.len() as int);
        lemma_text_lt_total(a1, b1);
        if a[0] == b[0] && a1 == b1 {
            assert forall|k: int| 0 <= k < a.len() implies a[k] == b[k] by {
                if k > 0 {
                    assert(a[k] == a1[k - 1]);
                    assert(b[k] == b1[k - 1]);
                }
            }
            assert(a =~= b);
        }
        if a[0] != b[0] {
            vstd::utf8::char_u32_cast(a[0], a[0] as u32);
            vstd::utf8::char_u32_cast(b[0], b[0] as u32);
            assert((a[0] as u32) != (b[0] as u32));
        }
    } else if a.len() == 0 && b.len() == 0 {
        assert(a =~= b);
    }
}

/// The order of texts is transitive.
pub proof fn lemma_text_lt_transitive(a: Seq<char>, b: Seq<char>, c: Seq<char>)
    requires
        text_lt(a, b),
        text_lt(b, c),
    ensures
        text_lt(a, c),
    decreases a.len(),
{
    if a.len() > 0 && b.len() > 0 && c.len() > 0 {
        let a1 = a.subrange(1, a.len() as int);
        let b1 = b.subrange(1, b.len() as int);
        let c1 = c.subrange(1, c.len() as int);
        if a[0] == b[0] && b[0] == c[0] {
            lemma_text_lt_transitive(a1, b1, c1);
        }
    }
}

/// Compares two texts in the order of `text_lt`.
pub fn compare_text(a: &str, b: &str) -> (r: TextOrder)
    ensures
        r == TextOrder::Less <==> text_lt(a@, b@),
        r == TextOrder::Equal <==> a@ == b@,
        r == TextOrder::Greater <==> text_lt(b@, a@),
{
    proof {
        lemma_text_lt_total(a@, b@);
        lemma_text_lt_irreflexive(a@);
    }
    let la = a.unicode_len();
    let lb = b.unicode_len();
    let mut i: usize = 0;
    assert(a@.subrange(0, la as int) =~= a@);
    assert(b@.subrange(0, lb as int) =~= b@);
    while i < la && i < lb && a.get_char(i) == b.get_char(i)
        invariant
            la == a@.len(),
            lb == b@.len(),
            i <= la,
            i <= lb,
            forall|k: int| 0 <= k < i ==> a@[k] == b@[k],
            text_lt(a@, b@) == text_lt(a@.subrange(i as int, la as int), b@.subrange(i as int, lb as int)),
            text_lt(b@, a@) == text_lt(b@.subrange(i as int, lb as int), a@.subrange(i as int, la as int)),
        decreases la - i,
    {
        let ghost sa = a@.subrange(i as int, la as int);
        let ghost sb = b@.subrange(i as int, lb as int);
        assert(sa.subrange(1, sa.len() as int) =~= a@.subrange(i + 1, la as int));
        assert(sb.subrange(1, sb.len() as int) =~= b@.subrange(i + 1, lb as int));
        i = i + 1;
    }
    if i == la && i == lb {
        assert(a@ =~= b@);
        TextOrder::Equal
    } else if i == la {
        TextOrder::Less
    } else if i == lb {
        TextOrder::Greater
    } else {
        let ca = a.get_char(i);
        let cb = b.get_char(i);
        if (ca as u32) < (cb as u32) {
            TextOrder::Less
        } else {
            TextOrder::Greater
        }
    }
}

/// The texts of a sequence of strings.
pub open spec fn texts(v: Seq<String>) -> Seq<Seq<char>> {
    v.map_values(|s: String| s@)
}

/// Strictly ascending in the order of texts (so no text occurs twice).
pub open spec fn strictly_ascending(s: Seq<Seq<char>>) -> bool {
    forall|i: int, j: int| 0 <= i < j < s.len() ==> text_lt(#[trigger] s[i], #[trigger] s[j])
}

/// Adds a text to a strictly ascending list unless it is already there,
/// keeping the list strictly ascending.
pub fn insert_sorted_unique(v: &mut Vec<String>, s: String)
    requires
        strictly_ascending(texts(old(v)@)),
    ensures
        strictly_ascending(texts(final(v)@)),
        texts(final(v)@).to_set() == texts(old(v)@).to_set().insert(s@),
{
    let ghost old_texts = texts(v@);
    let n = v.len();
    let mut i: usize = 0;
    while i < n && compare_text(v[i].as_str(), s.as_str()) == TextOrder::Less
        invariant
            n == v.len(),
            v@ == old(v)@,
            i <= n,
            forall|k: int| 0 <= k < i ==> text_lt(#[trigger] texts(v@)[k], s@),
        decreases n - i,
    {
        i = i + 1;
    }
    if i < n && compare_text(v[i].as_str(), s.as_str()) == TextOrder::Equal {
        assert(texts(v@).to_set().insert(s@) =~= texts(v@).to_set()) by {
            assert(texts(v@)[i as int] == s@);
        }
        return;
    }
    let ghost sv = s@;
    v.insert(i, s);
    let ghost new_texts = texts(v@);
    assert(new_texts =~= old_texts.insert(i as int, sv));
    assert forall|a: int, b: int| 0 <= a < b < new_texts.len() implies text_lt(
        #[trigger] new_texts[a],
        #[trigger] new_texts[b],
    ) by {
        if b == i {
            assert(new_texts[a] == old_texts[a]);
        } else if a == i {
            assert(new_texts[b] == old_texts[b - 1]);
            if b - 1 > i {
                assert(text_lt(old_texts[i as int], old_texts[b - 1]));
                lemma_text_lt_transitive(sv, old_texts[i as int], old_texts[b - 1]);
            }
        } else if a > i {
            assert(new_texts[a] == old_texts[a - 1]);
            assert(new_texts[b] == old_texts[b - 1]);
        } else if b > i {
            assert(new_texts[a] == old_texts[a]);
            assert(new_texts[b] == old_texts[b - 1]);
        } else {
            assert(new_texts[a] == old_texts[a]);
            assert(new_texts[b] == old_texts[b]);
        }
    }
    assert(new_texts.to_set() =~= old_texts.to_set().insert(sv)) by {
        assert forall|t: Seq<char>| new_texts.to_set().contains(t) implies old_texts.to_set().insert(
            sv,
        ).contains(t) by {
            let k = choose|k: int| 0 <= k < new_texts.len() && new_texts[k] == t;
            if k < i {
                assert(old_texts[k] == t);
            } else if k > i {
                assert(old_texts[k - 1] == t);
            }
        }
        assert forall|t: Seq<char>| old_texts.to_set().insert(sv).contains(t) implies new_texts.to_set().contains(t) by {
            if t == sv {
                assert(new_texts[i as int] == t);
            } else {
                let k = choose|k: int| 0 <= k < old_texts.len() && old_texts[k] == t;
                if k < i {
                    assert(new_texts[k] == t);
                } else {
                    assert(new_texts[k + 1] == t);
                }
            }
        }
    }
}

} // verus!
