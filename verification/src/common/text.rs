//! Text operations of the standard library, each with the contract that its
//! documentation gives, and the mathematical functions those contracts use.

use vstd::prelude::*;
use vstd::string::{StrSliceExecFns, StringExecFns};
use vstd::utf8::{decode_utf8, valid_utf8};

verus! {

/// The characters with the Unicode property `White_Space`.
pub open spec fn is_white_space(c: char) -> bool {
    let u = c as u32;
    ||| 0x09 <= u <= 0x0D
    ||| u == 0x20
    ||| u == 0x85
    ||| u == 0xA0
    ||| u == 0x1680
    ||| 0x2000 <= u <= 0x200A
    ||| u == 0x2028
    ||| u == 0x2029
    ||| u == 0x202F
    ||| u == 0x205F
    ||| u == 0x3000
}

/// `s` without its leading white space.
pub open spec fn trim_start_of(s: Seq<char>) -> Seq<char>
    decreases s.len(),
{
    if s.len() > 0 && is_white_space(s[0]) {
        trim_start_of(s.drop_first())
    } else {
        s
    }
}

/// `s` without its trailing white space.
pub open spec fn trim_end_of(s: Seq<char>) -> Seq<char>
    decreases s.len(),
{
    if s.len() > 0 && is_white_space(s.last()) {
        trim_end_of(s.drop_last())
    } else {
        s
    }
}

/// `s` without leading and trailing white space.
pub open spec fn trimmed(s: Seq<char>) -> Seq<char> {
    trim_end_of(trim_start_of(s))
}

/// The pieces of `s` between occurrences of `sep`: one more piece than there
/// are separators, empty pieces included.
pub open spec fn split_on(s: Seq<char>, sep: char) -> Seq<Seq<char>>
    decreases s.len(),
{
    if s.len() == 0 {
        seq![Seq::<char>::empty()]
    } else {
        let rest = split_on(s.drop_first(), sep);
        if s[0] == sep {
            seq![Seq::<char>::empty()] + rest
        } else {
            seq![seq![s[0]] + rest[0]] + rest.drop_first()
        }
    }
}

/// The texts of `strings`, in order.
pub open spec fn texts(strings: Seq<String>) -> Seq<Seq<char>> {
    Seq::new(strings.len(), |i: int| strings[i]@)
}

/// The order of texts: character by character, by code point; a text comes
/// before every text that it is a proper beginning of.
pub open spec fn text_lt(a: Seq<char>, b: Seq<char>) -> bool
    decreases a.len(),
{
    if b.len() == 0 {
        false
    } else if a.len() == 0 {
        true
    } else if a[0] != b[0] {
        (a[0] as u32) < (b[0] as u32)
    } else {
        text_lt(a.drop_first(), b.drop_first())
    }
}

/// Every text is strictly before the one that follows it.
pub open spec fn strictly_ascending(list: Seq<Seq<char>>) -> bool {
    forall|i: int| 0 <= i < list.len() - 1 ==> text_lt(#[trigger] list[i], list[i + 1])
}

/// The character that writes the digit `d`.
pub open spec fn digit_char(d: int) -> char {
    if d == 0 {
        '0'
    } else if d == 1 {
        '1'
    } else if d == 2 {
        '2'
    } else if d == 3 {
        '3'
    } else if d == 4 {
        '4'
    } else if d == 5 {
        '5'
    } else if d == 6 {
        '6'
    } else if d == 7 {
        '7'
    } else if d == 8 {
        '8'
    } else {
        '9'
    }
}

/// The decimal digits of `n`, without leading zeros.
pub open spec fn decimal_text(n: nat) -> Seq<char>
    decreases n,
{
    if n < 10 {
        seq![digit_char(n as int)]
    } else {
        decimal_text(n / 10).push(digit_char((n % 10) as int))
    }
}

/// The decimal text of an integer: a minus sign before the digits of a
/// negative one.
pub open spec fn signed_decimal_text(n: int) -> Seq<char> {
    if n < 0 {
        seq!['-'] + decimal_text((-n) as nat)
    } else {
        decimal_text(n as nat)
    }
}

/// `text` with zeros before it, as many as it takes to reach `width`
/// characters.
pub open spec fn zero_padded(text: Seq<char>, width: nat) -> Seq<char>
    decreases width - text.len(),
{
    if text.len() >= width {
        text
    } else {
        zero_padded(seq!['0'] + text, width)
    }
}

/// The text of a truth value.
pub open spec fn truth_text(b: bool) -> Seq<char> {
    if b {
        "true"@
    } else {
        "false"@
    }
}

/// `s` without every leading repetition of `pattern`.
pub open spec fn without_leading(s: Seq<char>, pattern: Seq<char>) -> Seq<char>
    decreases s.len(),
{
    if pattern.len() > 0 && has_prefix(s, pattern) {
        without_leading(s.subrange(pattern.len() as int, s.len() as int), pattern)
    } else {
        s
    }
}

/// `s` without every trailing repetition of `pattern`.
pub open spec fn without_trailing(s: Seq<char>, pattern: Seq<char>) -> Seq<char>
    decreases s.len(),
{
    if pattern.len() > 0 && has_suffix(s, pattern) {
        without_trailing(s.subrange(0, s.len() - pattern.len()), pattern)
    } else {
        s
    }
}

/// The index of the last occurrence of `c` in `s`, if there is one.
pub open spec fn last_index_of(s: Seq<char>, c: char) -> Option<int>
    decreases s.len(),
{
    if s.len() == 0 {
        None
    } else if s.last() == c {
        Some(s.len() - 1)
    } else {
        last_index_of(s.drop_last(), c)
    }
}

/// What `str::to_uppercase` makes of a text, by the Unicode rules for upper
/// case.
pub uninterp spec fn uppercased(s: Seq<char>) -> Seq<char>;

/// `s` begins with `prefix`.
pub open spec fn has_prefix(s: Seq<char>, prefix: Seq<char>) -> bool {
    prefix.len() <= s.len() && s.subrange(0, prefix.len() as int) == prefix
}

/// `s` ends with `suffix`.
pub open spec fn has_suffix(s: Seq<char>, suffix: Seq<char>) -> bool {
    suffix.len() <= s.len() && s.subrange(s.len() - suffix.len(), s.len() as int) == suffix
}

/// `needle` occurs in `s` as a contiguous run of characters.
pub open spec fn has_infix(s: Seq<char>, needle: Seq<char>) -> bool {
    exists|i: int|
        0 <= i && i + needle.len() <= s.len() && #[trigger] s.subrange(i, i + needle.len())
            == needle
}

/// `list` with `item` added at the end, unless it holds `item` already.
pub open spec fn with_new(list: Seq<Seq<char>>, item: Seq<char>) -> Seq<Seq<char>> {
    if list.contains(item) {
        list
    } else {
        list.push(item)
    }
}

/// `list` with every text of `items` added, in order, that it does not hold
/// by then.
pub open spec fn with_all_new(list: Seq<Seq<char>>, items: Seq<Seq<char>>) -> Seq<Seq<char>>
    decreases items.len(),
{
    if items.len() == 0 {
        list
    } else {
        with_new(with_all_new(list, items.drop_last()), items.last())
    }
}

/// No text occurs twice.
pub open spec fn distinct(list: Seq<Seq<char>>) -> bool {
    forall|i: int, j: int| 0 <= i < j < list.len() ==> list[i] != list[j]
}

/// Whether `list` holds the text `item`.
pub fn contains_string(list: &[String], item: &str) -> (found: bool)
    ensures
        found == texts(list@).contains(item@),
{
    let mut i: usize = 0;
    while i < list.len()
        invariant
            i <= list@.len(),
            forall|j: int| 0 <= j < i ==> texts(list@)[j] != item@,
        decreases list@.len() - i,
    {
        if str_eq(list[i].as_str(), item) {
            assert(texts(list@)[i as int] == item@);
            return true;
        }
        i = i + 1;
    }
    false
}

/// Some text of `a` is in `b`.
pub open spec fn intersects(a: Seq<Seq<char>>, b: Seq<Seq<char>>) -> bool {
    exists|i: int| 0 <= i < a.len() && b.contains(#[trigger] a[i])
}

/// Whether some string of `a` is in `b`.
pub fn shares_string(a: &[String], b: &[String]) -> (shared: bool)
    ensures
        shared == intersects(texts(a@), texts(b@)),
{
    let mut i: usize = 0;
    while i < a.len()
        invariant
            i <= a@.len(),
            forall|j: int| 0 <= j < i ==> !texts(b@).contains(#[trigger] texts(a@)[j]),
        decreases a@.len() - i,
    {
        if contains_string(b, a[i].as_str()) {
            assert(texts(a@)[i as int] == a@[i as int]@);
            return true;
        }
        i = i + 1;
    }
    false
}

/// Adds `item` at the end of `list`, unless `list` holds it already.
pub fn push_new(list: &mut Vec<String>, item: &str)
    ensures
        texts(final(list)@) == with_new(texts(old(list)@), item@),
{
    if !contains_string(list.as_slice(), item) {
        let ghost before = texts(list@);
        list.push(String::from_str(item));
        assert(texts(list@) =~= before.push(item@));
    }
}

/// Adds every string of `items` to `list`, in order, that `list` does not
/// hold by then.
pub fn push_all_new(list: &mut Vec<String>, items: &Vec<String>)
    ensures
        texts(final(list)@) == with_all_new(texts(old(list)@), texts(items@)),
{
    let mut i: usize = 0;
    assert(texts(items@).subrange(0, 0) =~= Seq::<Seq<char>>::empty());
    while i < items.len()
        invariant
            i <= items.len(),
            texts(list@) == with_all_new(texts(old(list)@), texts(items@).subrange(0, i as int)),
        decreases items.len() - i,
    {
        assert(texts(items@).subrange(0, i + 1).drop_last() =~= texts(items@).subrange(
            0,
            i as int,
        ));
        assert(texts(items@).subrange(0, i + 1).last() == items[i as int]@);
        push_new(list, items[i].as_str());
        i = i + 1;
    }
    assert(texts(items@).subrange(0, i as int) =~= texts(items@));
}

/// Adding what is new keeps a list free of duplicates.
pub proof fn lemma_with_new_distinct(list: Seq<Seq<char>>, item: Seq<char>)
    requires
        distinct(list),
    ensures
        distinct(with_new(list, item)),
        forall|t: Seq<char>| with_new(list, item).contains(t) <==> list.contains(t) || t == item,
{
    let after = with_new(list, item);
    if !list.contains(item) {
        assert(after[list.len() as int] == item);
        assert forall|t: Seq<char>| after.contains(t) implies list.contains(t) || t == item by {
            let i = choose|i: int| 0 <= i < after.len() && after[i] == t;
            if i < list.len() {
                assert(list[i] == t);
            }
        }
        assert forall|t: Seq<char>| list.contains(t) || t == item implies after.contains(t) by {
            if list.contains(t) {
                let i = choose|i: int| 0 <= i < list.len() && list[i] == t;
                assert(after[i] == t);
            }
        }
    }
}

/// A list built by adding what is new, from a list without duplicates, has
/// none, and holds exactly what the list and the items hold.
pub proof fn lemma_with_all_new_distinct(list: Seq<Seq<char>>, items: Seq<Seq<char>>)
    requires
        distinct(list),
    ensures
        distinct(with_all_new(list, items)),
        forall|t: Seq<char>|
            with_all_new(list, items).contains(t) <==> list.contains(t) || items.contains(t),
    decreases items.len(),
{
    if items.len() > 0 {
        let head = items.drop_last();
        lemma_with_all_new_distinct(list, head);
        lemma_with_new_distinct(with_all_new(list, head), items.last());
        assert forall|t: Seq<char>| items.contains(t) <==> head.contains(t) || t
            == items.last() by {
            if items.contains(t) {
                let i = choose|i: int| 0 <= i < items.len() && items[i] == t;
                if i < head.len() {
                    assert(head[i] == t);
                }
            }
            if head.contains(t) {
                let i = choose|i: int| 0 <= i < head.len() && head[i] == t;
                assert(items[i] == t);
            }
            if t == items.last() {
                assert(items[items.len() - 1] == t);
            }
        }
    }
}

/// A concatenation holds what its parts hold.
pub proof fn lemma_concat_contains(a: Seq<Seq<char>>, b: Seq<Seq<char>>)
    ensures
        forall|t: Seq<char>| (a + b).contains(t) <==> a.contains(t) || b.contains(t),
{
    assert forall|t: Seq<char>| (a + b).contains(t) <==> a.contains(t) || b.contains(t) by {
        if (a + b).contains(t) {
            let i = choose|i: int| 0 <= i < (a + b).len() && (a + b)[i] == t;
            if i < a.len() {
                assert(a[i] == t);
            } else {
                assert(b[i - a.len()] == t);
            }
        }
        if a.contains(t) {
            let i = choose|i: int| 0 <= i < a.len() && a[i] == t;
            assert((a + b)[i] == t);
        }
        if b.contains(t) {
            let i = choose|i: int| 0 <= i < b.len() && b[i] == t;
            assert((a + b)[a.len() + i] == t);
        }
    }
}

/// Of two different texts, one comes before the other.
pub proof fn lemma_text_order_total(a: Seq<char>, b: Seq<char>)
    ensures
        text_lt(a, b) || a == b || text_lt(b, a),
    decreases a.len(),
{
    if a.len() == 0 || b.len() == 0 {
        if a.len() == 0 && b.len() == 0 {
            assert(a =~= b);
        }
    } else if a[0] == b[0] {
        lemma_text_order_total(a.drop_first(), b.drop_first());
        if a.drop_first() == b.drop_first() {
            assert(a =~= seq![a[0]] + a.drop_first());
            assert(b =~= seq![b[0]] + b.drop_first());
        }
    } else {
        vstd::utf8::char_u32_cast(a[0], a[0] as u32);
        vstd::utf8::char_u32_cast(b[0], b[0] as u32);
    }
}

/// Adds `item` to the ascending list `list` at its place, unless `list`
/// holds it already.
pub fn insert_ascending(list: &mut Vec<String>, item: &str)
    requires
        strictly_ascending(texts(old(list)@)),
    ensures
        strictly_ascending(texts(final(list)@)),
        forall|t: Seq<char>|
            #![trigger texts(final(list)@).contains(t)]
            texts(final(list)@).contains(t) <==> texts(old(list)@).contains(t) || t == item@,
{
    let mut at: usize = 0;
    while at < list.len() && str_lt(list[at].as_str(), item)
        invariant
            at <= list.len(),
            list@ == old(list)@,
            forall|j: int| 0 <= j < at ==> text_lt(#[trigger] texts(list@)[j], item@),
        decreases list.len() - at,
    {
        at = at + 1;
    }
    let ghost before = texts(list@);
    if at < list.len() && str_eq(list[at].as_str(), item) {
        assert(before[at as int] == item@);
        return ;
    }
    proof {
        if at < list.len() {
            lemma_text_order_total(before[at as int], item@);
        }
    }
    list.insert(at, String::from_str(item));
    let ghost after = texts(list@);
    assert(after =~= before.insert(at as int, item@));
    assert forall|i: int| 0 <= i < after.len() - 1 implies text_lt(
        #[trigger] after[i],
        after[i + 1],
    ) by {
        if i + 1 < at {
            assert(after[i] == before[i] && after[i + 1] == before[i + 1]);
        } else if i + 1 == at {
            assert(after[i] == before[i]);
        } else if i == at {
            assert(after[i + 1] == before[i]);
        } else {
            assert(after[i] == before[i - 1] && after[i + 1] == before[i]);
            assert(text_lt(before[i - 1], before[i - 1 + 1]));
        }
    }
    assert forall|t: Seq<char>| after.contains(t) <==> before.contains(t) || t == item@ by {
        if after.contains(t) {
            let i = choose|i: int| 0 <= i < after.len() && after[i] == t;
            if i < at {
                assert(before[i] == t);
            } else if i > at {
                assert(before[i - 1] == t);
            }
        }
        if before.contains(t) {
            let i = choose|i: int| 0 <= i < before.len() && before[i] == t;
            if i < at {
                assert(after[i] == t);
            } else {
                assert(after[i + 1] == t);
            }
        }
        if t == item@ {
            assert(after[at as int] == t);
        }
    }
}

/// Adds every string of `items` to the ascending list `list` at its place,
/// unless `list` holds it by then.
pub fn insert_all_ascending(list: &mut Vec<String>, items: &Vec<String>)
    requires
        strictly_ascending(texts(old(list)@)),
    ensures
        strictly_ascending(texts(final(list)@)),
        forall|t: Seq<char>|
            #![trigger texts(final(list)@).contains(t)]
            texts(final(list)@).contains(t) <==> texts(old(list)@).contains(t) || texts(
                items@,
            ).contains(t),
{
    let mut i: usize = 0;
    while i < items.len()
        invariant
            i <= items.len(),
            strictly_ascending(texts(list@)),
            forall|t: Seq<char>|
                #![trigger texts(list@).contains(t)]
                texts(list@).contains(t) <==> texts(old(list)@).contains(t) || texts(
                    items@,
                ).subrange(0, i as int).contains(t),
        decreases items.len() - i,
    {
        let ghost before = texts(list@);
        let ghost seen = texts(items@).subrange(0, i as int);
        let ghost next = texts(items@).subrange(0, i + 1);
        insert_ascending(list, items[i].as_str());
        assert forall|t: Seq<char>| next.contains(t) <==> seen.contains(t) || t
            == items[i as int]@ by {
            if next.contains(t) {
                let k = choose|k: int| 0 <= k < next.len() && next[k] == t;
                if k < i {
                    assert(seen[k] == t);
                }
            }
            if seen.contains(t) {
                let k = choose|k: int| 0 <= k < seen.len() && seen[k] == t;
                assert(next[k] == t);
            }
            if t == items[i as int]@ {
                assert(next[i as int] == t);
            }
        }
        i = i + 1;
    }
    assert(texts(items@).subrange(0, i as int) =~= texts(items@));
}

/// Appends a copy of every string in `source` to `target`.
pub fn extend_with_clones(target: &mut Vec<String>, source: &Vec<String>)
    ensures
        texts(final(target)@) == texts(old(target)@) + texts(source@),
{
    let mut i: usize = 0;
    assert(texts(target@) =~= texts(old(target)@) + texts(source@).subrange(0, 0));
    while i < source.len()
        invariant
            i <= source.len(),
            texts(target@) == texts(old(target)@) + texts(source@).subrange(0, i as int),
        decreases source.len() - i,
    {
        let ghost before = texts(target@);
        target.push(source[i].clone());
        assert(texts(target@) =~= before.push(source[i as int]@));
        assert(texts(source@).subrange(0, i + 1) =~= texts(source@).subrange(0, i as int).push(
            source[i as int]@,
        ));
        assert(texts(target@) =~= texts(old(target)@) + texts(source@).subrange(0, i + 1));
        i = i + 1;
    }
    assert(texts(source@).subrange(0, i as int) =~= texts(source@));
}

/// `str::eq`: two string slices are equal when they hold the same
/// characters.
#[verifier::external_body]
pub(crate) fn str_eq(a: &str, b: &str) -> (equal: bool)
    ensures
        equal == (a@ == b@),
{
    a.eq(b)
}

/// `str::trim`: the slice without leading and trailing white space, as the
/// Unicode property `White_Space` defines it.
#[verifier::external_body]
pub(crate) fn trim(s: &str) -> (out: &str)
    ensures
        out@ == trimmed(s@),
{
    s.trim()
}

/// `str::split` with a character as the separator: the pieces between the
/// separators, in order, each as an owned string.
#[verifier::external_body]
pub(crate) fn split_char(s: &str, sep: char) -> (pieces: Vec<String>)
    ensures
        texts(pieces@) == split_on(s@, sep),
{
    s.split(sep).map(|piece| piece.to_string()).collect()
}

/// `str::strip_prefix` with a string as the pattern: what follows the
/// prefix if the slice starts with it, else nothing.
#[verifier::external_body]
pub(crate) fn strip_prefix<'a>(s: &'a str, prefix: &str) -> (rest: Option<&'a str>)
    ensures
        rest is Some == has_prefix(s@, prefix@),
        rest matches Some(r) ==> r@ == s@.subrange(prefix@.len() as int, s@.len() as int),
{
    s.strip_prefix(prefix)
}

/// `str::strip_suffix` with a string as the pattern: what precedes the
/// suffix if the slice ends with it, else nothing.
#[verifier::external_body]
pub(crate) fn strip_suffix<'a>(s: &'a str, suffix: &str) -> (rest: Option<&'a str>)
    ensures
        rest is Some == has_suffix(s@, suffix@),
        rest matches Some(r) ==> r@ == s@.subrange(0, s@.len() - suffix@.len()),
{
    s.strip_suffix(suffix)
}

/// `str::lt`: whether `a` comes strictly before `b` in the order of strings,
/// which goes by bytes and so by code points.
#[verifier::external_body]
pub(crate) fn str_lt(a: &str, b: &str) -> (before: bool)
    ensures
        before == text_lt(a@, b@),
{
    a < b
}

/// `str::contains` with a string as the pattern: whether the pattern occurs
/// in the slice.
#[verifier::external_body]
pub(crate) fn contains_text(s: &str, needle: &str) -> (found: bool)
    ensures
        found == has_infix(s@, needle@),
{
    s.contains(needle)
}

/// `str::trim_start_matches` with a string as the pattern, which must not be
/// empty: the slice without every leading repetition of the pattern.
#[verifier::external_body]
pub(crate) fn trim_start_matches<'a>(s: &'a str, pattern: &str) -> (out: &'a str)
    requires
        pattern@.len() > 0,
    ensures
        out@ == without_leading(s@, pattern@),
{
    s.trim_start_matches(pattern)
}

/// `str::trim_end_matches` with a string as the pattern, which must not be
/// empty: the slice without every trailing repetition of the pattern.
#[verifier::external_body]
pub(crate) fn trim_end_matches<'a>(s: &'a str, pattern: &str) -> (out: &'a str)
    requires
        pattern@.len() > 0,
    ensures
        out@ == without_trailing(s@, pattern@),
{
    s.trim_end_matches(pattern)
}

/// `str::to_uppercase`: the upper case form of the text. It depends on the
/// text alone, so it has a name, `uppercased`.
#[verifier::external_body]
pub(crate) fn to_uppercase(s: &str) -> (out: String)
    ensures
        out@ == uppercased(s@),
{
    s.to_uppercase()
}

/// `u64::to_string`: the decimal digits of the number.
#[verifier::external_body]
pub(crate) fn u64_to_string(n: u64) -> (out: String)
    ensures
        out@ == decimal_text(n as nat),
{
    n.to_string()
}

/// `i64::to_string`: the decimal digits of the number, after a minus sign if
/// it is negative.
#[verifier::external_body]
pub(crate) fn i64_to_string(n: i64) -> (out: String)
    ensures
        out@ == signed_decimal_text(n as int),
{
    n.to_string()
}

/// Puts zeros before `text`, as many as it takes to reach `width`
/// characters.
pub fn pad_with_zeros(text: &str, width: usize) -> (padded: String)
    ensures
        padded@ == zero_padded(text@, width as nat),
{
    let mut padded = String::from_str(text);
    let mut length: usize = text.unicode_len();
    while length < width
        invariant
            length == padded@.len(),
            zero_padded(text@, width as nat) == zero_padded(padded@, width as nat),
        decreases width - length,
    {
        proof {
            reveal_strlit("0");
            assert("0"@ =~= seq!['0']);
        }
        padded = String::from_str("0").concat(padded.as_str());
        length = length + 1;
    }
    padded
}

/// The text of a truth value.
pub fn bool_to_string(b: bool) -> (text: String)
    ensures
        text@ == truth_text(b),
{
    if b {
        String::from_str("true")
    } else {
        String::from_str("false")
    }
}

/// The number of characters before the last occurrence of `c` in `s`.
pub fn last_char_index(s: &str, c: char) -> (index: Option<usize>)
    ensures
        index is Some == last_index_of(s@, c) is Some,
        index matches Some(i) ==> Some(i as int) == last_index_of(s@, c) && i < s@.len(),
{
    let mut end: usize = s.unicode_len();
    assert(s@.subrange(0, end as int) =~= s@);
    while end > 0
        invariant
            end <= s@.len(),
            last_index_of(s@, c) == last_index_of(s@.subrange(0, end as int), c),
        decreases end,
    {
        let ghost head = s@.subrange(0, end as int);
        assert(head.last() == s@[end - 1]);
        assert(head.drop_last() =~= s@.subrange(0, end - 1));
        if s.get_char(end - 1) == c {
            return Some(end - 1);
        }
        end = end - 1;
    }
    None
}

/// `String::from_utf8`: the text that the bytes encode, if they are valid
/// UTF-8, else an error.
#[verifier::external_body]
pub(crate) fn string_from_utf8(bytes: Vec<u8>) -> (text: Result<
    String,
    std::string::FromUtf8Error,
>)
    ensures
        text is Ok == valid_utf8(bytes@),
        text matches Ok(s) ==> s@ == decode_utf8(bytes@),
{
    String::from_utf8(bytes)
}

/// The error of `String::from_utf8`.
#[verifier::external_type_specification]
#[verifier::external_body]
pub struct ExFromUtf8Error(std::string::FromUtf8Error);

} // verus!
