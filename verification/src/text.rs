//! Text helpers shared by the other modules: an order on strings, trimming,
//! ASCII case folding, joining and decimal printing.
//!
//! A string is modelled by the sequence of its characters.

use vstd::prelude::*;

verus! {

// ---------------------------------------------------------------------------
// Characters
// ---------------------------------------------------------------------------

/// The characters that Unicode gives the `White_Space` property.
pub open spec fn is_white_space(c: char) -> bool {
    ||| '\u{9}' <= c <= '\u{d}'
    ||| c == ' '
    ||| c == '\u{85}'
    ||| c == '\u{a0}'
    ||| c == '\u{1680}'
    ||| '\u{2000}' <= c <= '\u{200a}'
    ||| c == '\u{2028}'
    ||| c == '\u{2029}'
    ||| c == '\u{202f}'
    ||| c == '\u{205f}'
    ||| c == '\u{3000}'
}

/// The characters of Unicode's general category `Cc`.
pub open spec fn is_control_code(c: char) -> bool {
    c <= '\u{1f}' || '\u{7f}' <= c <= '\u{9f}'
}

/// `char::is_whitespace` answers whether the character has the `White_Space`
/// property; the property's members are listed in [`is_white_space`].
pub assume_specification[ char::is_whitespace ](c: char) -> (r: bool)
    ensures
        r == is_white_space(c),
;

/// `char::is_control` answers whether the character is a control code, that is,
/// of the general category `Cc` (see [`is_control_code`]).
pub assume_specification[ char::is_control ](c: char) -> (r: bool)
    ensures
        r == is_control_code(c),
;

/// `String::push` appends one character.
pub assume_specification[ String::push ](s: &mut String, c: char)
    ensures
        final(s)@ == old(s)@.push(c),
;

/// One character with ASCII `A` to `Z` mapped to `a` to `z`.
pub open spec fn lower_char(c: char) -> char {
    if 'A' <= c <= 'Z' {
        ((c as u8) + 32) as char
    } else {
        c
    }
}

fn to_lower_char(c: char) -> (r: char)
    ensures
        r == lower_char(c),
{
    if 'A' <= c && c <= 'Z' {
        ((c as u8) + 32) as char
    } else {
        c
    }
}

/// Text with its ASCII letters in lower case.
pub open spec fn ascii_lower(s: Seq<char>) -> Seq<char> {
    s.map_values(|c: char| lower_char(c))
}

// ---------------------------------------------------------------------------
// Strings and character vectors
// ---------------------------------------------------------------------------

/// The views of a sequence of strings.
pub open spec fn views(s: Seq<String>) -> Seq<Seq<char>> {
    s.map_values(|t: String| t@)
}

/// The view of an optional string.
pub open spec fn opt_view(s: Option<String>) -> Option<Seq<char>> {
    match s {
        Some(t) => Some(t@),
        None => None,
    }
}

/// The characters of `s`, in order.
pub fn chars_of(s: &str) -> (r: Vec<char>)
    ensures
        r@ == s@,
{
    let mut out: Vec<char> = Vec::new();
    for c in it: s.chars()
        invariant
            it.seq() == s@,
            out@ == s@.take(it.index() as int),
    {
        out.push(c);
        assert(out@ == s@.take(it.index() + 1));
    }
    assert(s@.take(s@.len() as int) == s@);
    out
}

/// The string made of `chars[from..to]`.
pub fn from_chars(chars: &Vec<char>, from: usize, to: usize) -> (r: String)
    requires
        from <= to <= chars@.len(),
    ensures
        r@ == chars@.subrange(from as int, to as int),
{
    let mut out = String::new();
    let mut i: usize = from;
    while i < to
        invariant
            from <= i <= to <= chars@.len(),
            out@ == chars@.subrange(from as int, i as int),
        decreases to - i,
    {
        out.push(chars[i]);
        i += 1;
        assert(out@ == chars@.subrange(from as int, i as int));
    }
    out
}

/// Whether two strings hold the same text.
pub fn same(a: &str, b: &str) -> (r: bool)
    ensures
        r == (a@ == b@),
{
    let x: String = a.to_owned();
    let y: String = b.to_owned();
    x == y
}

/// Whether an optional string holds exactly `text`.
pub fn is_some_text(a: &Option<String>, text: &str) -> (r: bool)
    ensures
        r == (opt_view(*a) == Some(text@)),
{
    match a {
        Some(s) => same(s.as_str(), text),
        None => false,
    }
}

/// Whether two optional strings are equal.
pub fn same_opt(a: &Option<String>, b: &Option<String>) -> (r: bool)
    ensures
        r == (opt_view(*a) == opt_view(*b)),
{
    match (a, b) {
        (Some(x), Some(y)) => same(x.as_str(), y.as_str()),
        (None, None) => true,
        _ => false,
    }
}

/// Two texts in a row.
pub fn concat(a: &str, b: &str) -> (r: String)
    ensures
        r@ == a@ + b@,
{
    let mut out: String = a.to_owned();
    out.append(b);
    out
}

/// A list of one text.
pub fn single(s: &str) -> (r: Vec<String>)
    ensures
        views(r@) == seq![s@],
{
    let r = vec![s.to_owned()];
    assert(views(r@) =~= seq![s@]);
    r
}

/// Text with its ASCII letters in lower case (see [`ascii_lower`]).
pub fn lower(s: &str) -> (r: String)
    ensures
        r@ == ascii_lower(s@),
{
    let chars = chars_of(s);
    let mut out = String::new();
    let mut i: usize = 0;
    while i < chars.len()
        invariant
            i <= chars@.len(),
            chars@ == s@,
            out@ == ascii_lower(s@.take(i as int)),
        decreases chars@.len() - i,
    {
        out.push(to_lower_char(chars[i]));
        i += 1;
        assert(out@ == ascii_lower(s@.take(i as int)));
    }
    assert(s@.take(s@.len() as int) == s@);
    out
}

/// Whether text is made of ASCII characters.
pub open spec fn is_ascii(s: Seq<char>) -> bool {
    forall|i: int| 0 <= i < s.len() ==> #[trigger] s[i] <= '\u{7f}'
}

/// Text in lower case, by Unicode's rules.
pub uninterp spec fn unicode_lower(s: Seq<char>) -> Seq<char>;

/// `str::to_lowercase` puts text in lower case. The claim is that the outcome
/// depends on the text alone, and that of ASCII text it is the same text with
/// `A` to `Z` mapped to `a` to `z`. What it is of other text is left unsaid.
#[verifier::external_body]
pub(crate) fn to_lowercase(s: &str) -> (r: String)
    ensures
        r@ == unicode_lower(s@),
        is_ascii(s@) ==> r@ == ascii_lower(s@),
{
    s.to_lowercase()
}

// ---------------------------------------------------------------------------
// Trimming
// ---------------------------------------------------------------------------

/// Text without its leading and trailing white space.
pub open spec fn trim(s: Seq<char>) -> Seq<char>
    decreases s.len(),
{
    if s.len() == 0 {
        s
    } else if is_white_space(s[0]) {
        trim(s.skip(1))
    } else if is_white_space(s.last()) {
        trim(s.drop_last())
    } else {
        s
    }
}

/// Whether text holds nothing but white space.
pub open spec fn is_blank(s: Seq<char>) -> bool {
    forall|i: int| 0 <= i < s.len() ==> is_white_space(#[trigger] s[i])
}

/// Trimming leaves nothing exactly of blank text.
pub proof fn trim_empty_iff_blank(s: Seq<char>)
    ensures
        trim(s).len() == 0 <==> is_blank(s),
    decreases s.len(),
{
    if s.len() == 0 {
    } else if is_white_space(s[0]) {
        trim_empty_iff_blank(s.skip(1));
        if is_blank(s.skip(1)) {
            assert forall|i: int| 0 <= i < s.len() implies is_white_space(#[trigger] s[i]) by {
                if i > 0 {
                    assert(s[i] == s.skip(1)[i - 1]);
                }
            }
        }
        if is_blank(s) {
            assert forall|i: int| 0 <= i < s.len() - 1 implies is_white_space(
                #[trigger] s.skip(1)[i],
            ) by {
                assert(s.skip(1)[i] == s[i + 1]);
            }
        }
    } else if is_white_space(s.last()) {
        trim_empty_iff_blank(s.drop_last());
        assert(s.drop_last()[0] == s[0]);
    } else {
    }
}

/// Trimmed text neither begins nor ends with white space.
pub proof fn trim_has_bare_ends(s: Seq<char>)
    ensures
        trim(s).len() > 0 ==> !is_white_space(trim(s)[0]) && !is_white_space(trim(s).last()),
    decreases s.len(),
{
    if s.len() == 0 {
    } else if is_white_space(s[0]) {
        trim_has_bare_ends(s.skip(1));
    } else if is_white_space(s.last()) {
        trim_has_bare_ends(s.drop_last());
    } else {
    }
}

/// Trimming twice is trimming once.
pub proof fn trim_idempotent(s: Seq<char>)
    ensures
        trim(trim(s)) == trim(s),
{
    trim_has_bare_ends(s);
}

/// Trimmed text is a part of the text.
pub proof fn trim_is_a_part(s: Seq<char>)
    ensures
        trim(s).len() <= s.len(),
        exists|from: int|
            0 <= from && from + trim(s).len() <= s.len() && trim(s) == #[trigger] s.subrange(
                from,
                from + trim(s).len(),
            ),
    decreases s.len(),
{
    if s.len() > 0 && is_white_space(s[0]) {
        let t = s.skip(1);
        trim_is_a_part(t);
        let k = choose|k: int|
            0 <= k && k + trim(t).len() <= t.len() && trim(t) == #[trigger] t.subrange(
                k,
                k + trim(t).len(),
            );
        let from = k + 1;
        assert(trim(s) =~= s.subrange(from, from + trim(s).len()));
    } else if s.len() > 0 && is_white_space(s.last()) {
        let t = s.drop_last();
        trim_is_a_part(t);
        let k = choose|k: int|
            0 <= k && k + trim(t).len() <= t.len() && trim(t) == #[trigger] t.subrange(
                k,
                k + trim(t).len(),
            );
        assert(trim(s) =~= s.subrange(k, k + trim(s).len()));
    } else {
        let from: int = 0;
        assert(trim(s) =~= s.subrange(from, from + trim(s).len()));
    }
}

/// `s` without its leading and trailing white space (see [`trim`]).
pub fn trimmed(s: &str) -> (r: String)
    ensures
        r@ == trim(s@),
{
    let chars = chars_of(s);
    let mut from: usize = 0;
    let mut to: usize = chars.len();
    assert(s@.subrange(0, s@.len() as int) == s@);
    while from < to && chars[from].is_whitespace()
        invariant
            from <= to == chars@.len(),
            chars@ == s@,
            trim(s@) == trim(s@.subrange(from as int, to as int)),
        decreases to - from,
    {
        assert(s@.subrange(from as int, to as int).skip(1) == s@.subrange(
            from + 1,
            to as int,
        ));
        from += 1;
    }
    while from < to && chars[to - 1].is_whitespace()
        invariant
            from <= to <= chars@.len(),
            chars@ == s@,
            from < to ==> !is_white_space(s@[from as int]),
            trim(s@) == trim(s@.subrange(from as int, to as int)),
        decreases to - from,
    {
        assert(s@.subrange(from as int, to as int).drop_last() == s@.subrange(
            from as int,
            to - 1,
        ));
        to -= 1;
    }
    from_chars(&chars, from, to)
}

/// Whether `s` is blank (see [`is_blank`]).
pub fn blank(s: &str) -> (r: bool)
    ensures
        r == is_blank(s@),
        r == (trim(s@).len() == 0),
{
    let t = trimmed(s);
    proof {
        trim_empty_iff_blank(s@);
    }
    t.as_str().is_empty()
}

// ---------------------------------------------------------------------------
// Order
// ---------------------------------------------------------------------------

/// Lexicographic order by code point, which is also the order of the UTF-8
/// bytes: `a` stands strictly before `b`.
pub open spec fn precedes(a: Seq<char>, b: Seq<char>) -> bool
    decreases a.len(),
{
    if b.len() == 0 {
        false
    } else if a.len() == 0 {
        true
    } else if a[0] != b[0] {
        a[0] < b[0]
    } else {
        precedes(a.skip(1), b.skip(1))
    }
}

/// No text stands before itself.
pub proof fn precedes_irreflexive(a: Seq<char>)
    ensures
        !precedes(a, a),
    decreases a.len(),
{
    if a.len() > 0 {
        precedes_irreflexive(a.skip(1));
    }
}

/// The order is transitive.
pub proof fn precedes_transitive(a: Seq<char>, b: Seq<char>, c: Seq<char>)
    requires
        precedes(a, b),
        precedes(b, c),
    ensures
        precedes(a, c),
    decreases a.len(),
{
    if a.len() > 0 && a[0] == b[0] && b[0] == c[0] {
        precedes_transitive(a.skip(1), b.skip(1), c.skip(1));
    }
}

/// Of two different texts one stands before the other.
pub proof fn precedes_total(a: Seq<char>, b: Seq<char>)
    ensures
        a == b || precedes(a, b) || precedes(b, a),
    decreases a.len(),
{
    if a.len() > 0 && b.len() > 0 && a[0] == b[0] {
        precedes_total(a.skip(1), b.skip(1));
        if a.skip(1) == b.skip(1) {
            assert forall|i: int| 0 <= i < a.len() implies a[i] == b[i] by {
                if i > 0 {
                    assert(a[i] == a.skip(1)[i - 1]);
                    assert(b[i] == b.skip(1)[i - 1]);
                }
            }
            assert(a.len() == a.skip(1).len() + 1);
            assert(a =~= b);
        }
    } else if a.len() == 0 && b.len() == 0 {
        assert(a =~= b);
    }
}

/// Where one text stands relative to another.
#[derive(Clone, Copy, Debug, PartialEq, Eq)]
pub enum Side {
    Before,
    Equal,
    After,
}

/// Where `a` stands relative to `b` in the order of [`precedes`].
pub fn side(a: &str, b: &str) -> (r: Side)
    ensures
        match r {
            Side::Before => precedes(a@, b@) && a@ != b@,
            Side::Equal => a@ == b@,
            Side::After => precedes(b@, a@) && a@ != b@,
        },
{
    let x = chars_of(a);
    let y = chars_of(b);
    let mut i: usize = 0;
    assert(a@.skip(0) == a@);
    assert(b@.skip(0) == b@);
    while i < x.len() && i < y.len() && x[i] == y[i]
        invariant
            x@ == a@,
            y@ == b@,
            i <= x@.len(),
            i <= y@.len(),
            x@.take(i as int) == y@.take(i as int),
            precedes(a@, b@) == precedes(a@.skip(i as int), b@.skip(i as int)),
            precedes(b@, a@) == precedes(b@.skip(i as int), a@.skip(i as int)),
        decreases x@.len() - i,
    {
        assert(a@.skip(i as int).skip(1) == a@.skip(i + 1));
        assert(b@.skip(i as int).skip(1) == b@.skip(i + 1));
        assert(x@.take(i + 1) == x@.take(i as int).push(x@[i as int]));
        assert(y@.take(i + 1) == y@.take(i as int).push(y@[i as int]));
        i += 1;
    }
    proof {
        precedes_irreflexive(a@);
    }
    if i == x.len() {
        if i == y.len() {
            assert(x@.take(i as int) == x@);
            assert(y@.take(i as int) == y@);
            Side::Equal
        } else {
            Side::Before
        }
    } else if i == y.len() {
        Side::After
    } else if x[i] < y[i] {
        Side::Before
    } else {
        Side::After
    }
}

// ---------------------------------------------------------------------------
// Joining
// ---------------------------------------------------------------------------

/// The parts in order, with `separator` between neighbours.
pub open spec fn joined(parts: Seq<Seq<char>>, separator: Seq<char>) -> Seq<char>
    decreases parts.len(),
{
    if parts.len() == 0 {
        Seq::empty()
    } else if parts.len() == 1 {
        parts[0]
    } else {
        joined(parts.drop_last(), separator) + separator + parts.last()
    }
}

/// The parts in order, with `separator` between neighbours (see [`joined`]).
pub fn join(parts: &Vec<String>, separator: &str) -> (r: String)
    ensures
        r@ == joined(views(parts@), separator@),
{
    let mut out = String::new();
    let mut i: usize = 0;
    let ghost all = views(parts@);
    while i < parts.len()
        invariant
            i <= parts@.len(),
            all == views(parts@),
            out@ == joined(all.take(i as int), separator@),
        decreases parts@.len() - i,
    {
        if i > 0 {
            out.append(separator);
        }
        out.append(parts[i].as_str());
        proof {
            assert(all.take(i + 1).drop_last() == all.take(i as int));
            assert(all.take(i + 1).last() == parts@[i as int]@);
            assert(out@ == joined(all.take(i + 1), separator@));
        }
        i += 1;
    }
    assert(all.take(all.len() as int) == all);
    out
}

// ---------------------------------------------------------------------------
// Words
// ---------------------------------------------------------------------------

/// The maximal runs of characters that are not white space, in order.
pub open spec fn words(s: Seq<char>) -> Seq<Seq<char>>
    decreases s.len(),
{
    if s.len() == 0 {
        Seq::empty()
    } else {
        let before = words(s.drop_last());
        let c = s.last();
        if is_white_space(c) {
            before
        } else if s.len() == 1 || is_white_space(s[s.len() - 2]) {
            before.push(seq![c])
        } else {
            before.drop_last().push(before.last().push(c))
        }
    }
}

/// Words are not empty, text that ends in a character other than white space has
/// a last word, and only blank text has none.
pub proof fn words_nonempty(s: Seq<char>)
    ensures
        s.len() > 0 && !is_white_space(s.last()) ==> words(s).len() > 0,
        words(s).len() == 0 <==> is_blank(s),
        forall|i: int| 0 <= i < words(s).len() ==> (#[trigger] words(s)[i]).len() > 0,
    decreases s.len(),
{
    if s.len() > 0 {
        let t = s.drop_last();
        words_nonempty(t);
        if is_blank(t) && is_white_space(s.last()) {
            assert forall|i: int| 0 <= i < s.len() implies is_white_space(#[trigger] s[i]) by {
                if i < t.len() {
                    assert(t[i] == s[i]);
                }
            }
        }
        if is_blank(s) {
            assert forall|i: int| 0 <= i < t.len() implies is_white_space(#[trigger] t[i]) by {
                assert(t[i] == s[i]);
            }
        }
    }
}

/// The words of a text with one space between neighbours.
pub open spec fn squeezed(s: Seq<char>) -> Seq<char> {
    joined(words(s), seq![' '])
}

/// The words of a text with one space between neighbours (see [`squeezed`]).
pub fn squeeze(s: &Vec<char>) -> (r: Vec<char>)
    ensures
        r@ == squeezed(s@),
{
    let mut out: Vec<char> = Vec::new();
    let mut i: usize = 0;
    let ghost gap = seq![' '];
    assert(s@.take(0).len() == 0);
    while i < s.len()
        invariant
            i <= s@.len(),
            gap == seq![' '],
            out@ == joined(words(s@.take(i as int)), gap),
        decreases s@.len() - i,
    {
        let c = s[i];
        let ghost done = s@.take(i as int);
        let ghost next = s@.take(i + 1);
        proof {
            assert(next.drop_last() == done);
            assert(next.last() == c);
            assert(i > 0 ==> next[i - 1] == s@[i - 1]);
            assert(i > 0 ==> done.last() == s@[i - 1]);
            words_nonempty(done);
        }
        if !c.is_whitespace() {
            if i > 0 && !s[i - 1].is_whitespace() {
                out.push(c);
                proof {
                    let w = words(done);
                    let grown = w.drop_last().push(w.last().push(c));
                    assert(words(next) == grown);
                    assert(grown.drop_last() =~= w.drop_last());
                    assert(joined(grown, gap) =~= joined(w, gap).push(c));
                }
            } else {
                let ghost before = out@;
                let started = out.len() > 0;
                proof {
                    let w = words(done);
                    let grown = w.push(seq![c]);
                    assert(words(next) == grown);
                    assert(grown.drop_last() =~= w);
                    joined_nonempty(w, gap);
                    if w.len() == 0 {
                        assert(joined(grown, gap) =~= seq![c]);
                    } else {
                        assert(joined(grown, gap) == joined(w, gap) + gap + seq![c]);
                    }
                }
                if started {
                    out.push(' ');
                }
                out.push(c);
                assert(out@ =~= joined(words(next), gap));
            }
        }
        i += 1;
    }
    assert(s@.take(s@.len() as int) == s@);
    out
}

/// Joining words gives nothing exactly when there are none.
proof fn joined_nonempty(parts: Seq<Seq<char>>, separator: Seq<char>)
    requires
        forall|i: int| 0 <= i < parts.len() ==> (#[trigger] parts[i]).len() > 0,
    ensures
        joined(parts, separator).len() == 0 <==> parts.len() == 0,
    decreases parts.len(),
{
    if parts.len() > 1 {
        joined_nonempty(parts.drop_last(), separator);
    }
}

/// The number of words of a text.
pub fn word_count(s: &str) -> (r: usize)
    ensures
        r == words(s@).len(),
{
    let chars = chars_of(s);
    let mut n: usize = 0;
    let mut i: usize = 0;
    while i < chars.len()
        invariant
            i <= chars@.len(),
            n <= i,
            n == words(chars@.take(i as int)).len(),
        decreases chars@.len() - i,
    {
        let c = chars[i];
        let ghost done = chars@.take(i as int);
        let ghost next = chars@.take(i + 1);
        proof {
            assert(next.drop_last() == done);
            assert(next.last() == c);
            assert(i > 0 ==> done.last() == chars@[i - 1]);
            words_nonempty(done);
        }
        if !c.is_whitespace() && (i == 0 || chars[i - 1].is_whitespace()) {
            n += 1;
        }
        i += 1;
    }
    assert(chars@.take(chars@.len() as int) == chars@);
    n
}

// ---------------------------------------------------------------------------
// Prefixes
// ---------------------------------------------------------------------------

/// Whether `s` begins with `prefix`.
pub open spec fn begins(s: Seq<char>, prefix: Seq<char>) -> bool {
    prefix.len() <= s.len() && s.take(prefix.len() as int) == prefix
}

/// Whether `s` begins with `prefix`.
pub fn begins_with(s: &Vec<char>, prefix: &str) -> (r: bool)
    ensures
        r == begins(s@, prefix@),
{
    let p = chars_of(prefix);
    if p.len() > s.len() {
        return false;
    }
    let mut i: usize = 0;
    while i < p.len()
        invariant
            i <= p@.len() <= s@.len(),
            p@ == prefix@,
            forall|j: int| 0 <= j < i ==> s@[j] == p@[j],
        decreases p@.len() - i,
    {
        if s[i] != p[i] {
            assert(s@.take(p@.len() as int)[i as int] != p@[i as int]);
            return false;
        }
        i += 1;
    }
    assert(s@.take(p@.len() as int) =~= p@);
    true
}

// ---------------------------------------------------------------------------
// Decimal numbers
// ---------------------------------------------------------------------------

/// The character of a decimal digit.
pub open spec fn digit_char(d: nat) -> char {
    (48 + d) as char
}

/// A number in decimal, without leading zeros.
pub open spec fn decimal(n: nat) -> Seq<char>
    decreases n,
{
    if n < 10 {
        seq![digit_char(n)]
    } else {
        decimal(n / 10).push(digit_char(n % 10))
    }
}

/// `n` in decimal (see [`decimal`]).
pub fn decimal_text(n: u64) -> (r: String)
    ensures
        r@ == decimal(n as nat),
    decreases n,
{
    let mut out = if n < 10 {
        String::new()
    } else {
        decimal_text(n / 10)
    };
    let digit: u8 = (n % 10) as u8;
    out.push((48 + digit) as char);
    assert(out@ =~= decimal(n as nat));
    out
}

// ---------------------------------------------------------------------------
// Laws
// ---------------------------------------------------------------------------

/// Whether trimming may cut `s` down to what stands between two places: what is cut
/// off is white space, and what is left neither begins nor ends with any.
pub open spec fn is_trimming(s: Seq<char>, from: int, to: int) -> bool {
    &&& 0 <= from <= to <= s.len()
    &&& forall|i: int| 0 <= i < from ==> is_white_space(#[trigger] s[i])
    &&& forall|i: int| to <= i < s.len() ==> is_white_space(#[trigger] s[i])
    &&& from < to ==> !is_white_space(s[from]) && !is_white_space(s[to - 1])
}

proof fn trimming_with_a_head(s: Seq<char>, from: int, to: int)
    requires
        s.len() > 0,
        is_white_space(s[0]),
        is_trimming(s.skip(1), from, to),
    ensures
        is_trimming(s, from + 1, to + 1),
        s.skip(1).subrange(from, to) == s.subrange(from + 1, to + 1),
{
    let t = s.skip(1);
    assert(t.subrange(from, to) =~= s.subrange(from + 1, to + 1));
    assert forall|i: int| 0 <= i < from + 1 implies is_white_space(#[trigger] s[i]) by {
        if i > 0 {
            assert(t[i - 1] == s[i]);
        }
    }
    assert forall|i: int| to + 1 <= i < s.len() implies is_white_space(#[trigger] s[i]) by {
        assert(t[i - 1] == s[i]);
    }
}

proof fn trimming_with_a_tail(s: Seq<char>, from: int, to: int)
    requires
        s.len() > 0,
        is_white_space(s.last()),
        is_trimming(s.drop_last(), from, to),
    ensures
        is_trimming(s, from, to),
        s.drop_last().subrange(from, to) == s.subrange(from, to),
{
    let t = s.drop_last();
    assert(t.subrange(from, to) =~= s.subrange(from, to));
    assert forall|i: int| 0 <= i < from implies is_white_space(#[trigger] s[i]) by {
        assert(t[i] == s[i]);
    }
    assert forall|i: int| to <= i < s.len() implies is_white_space(#[trigger] s[i]) by {
        if i < t.len() {
            assert(t[i] == s[i]);
        }
    }
}

/// Trimming takes white space off the two ends, all of it, and nothing else.
pub proof fn trim_takes_the_ends_off(s: Seq<char>) -> (at: (int, int))
    ensures
        is_trimming(s, at.0, at.1),
        trim(s) == s.subrange(at.0, at.1),
    decreases s.len(),
{
    if s.len() == 0 {
        assert(trim(s) =~= s.subrange(0, 0));
        (0, 0)
    } else if is_white_space(s[0]) {
        let (a, b) = trim_takes_the_ends_off(s.skip(1));
        trimming_with_a_head(s, a, b);
        (a + 1, b + 1)
    } else if is_white_space(s.last()) {
        let (a, b) = trim_takes_the_ends_off(s.drop_last());
        trimming_with_a_tail(s, a, b);
        (a, b)
    } else {
        assert(trim(s) =~= s.subrange(0, s.len() as int));
        (0, s.len() as int)
    }
}

/// White space around text does not show once it is trimmed.
pub proof fn trim_ignores_what_is_around(before: Seq<char>, s: Seq<char>, after: Seq<char>)
    requires
        is_blank(before),
        is_blank(after),
    ensures
        trim(before + s + after) == trim(s),
    decreases before.len() + after.len(),
{
    let all = before + s + after;
    if before.len() > 0 {
        assert(all[0] == before[0]);
        let rest = before.skip(1);
        assert forall|i: int| 0 <= i < rest.len() implies is_white_space(#[trigger] rest[i]) by {
            assert(rest[i] == before[i + 1]);
        }
        assert(all.skip(1) =~= rest + s + after);
        trim_ignores_what_is_around(rest, s, after);
    } else if after.len() > 0 {
        let rest = after.drop_last();
        assert forall|i: int| 0 <= i < rest.len() implies is_white_space(#[trigger] rest[i]) by {
            assert(rest[i] == after[i]);
        }
        trim_ignores_what_is_around(before, s, rest);
        let shorter = before + s + rest;
        assert(all.drop_last() =~= shorter);
        assert(is_white_space(after[after.len() - 1]));
        assert(all.last() == after.last());
        trim_of_a_blank_tail(all);
    } else {
        assert(all =~= s);
    }
}

/// White space at the end of text does not show once it is trimmed.
pub proof fn trim_of_a_blank_tail(s: Seq<char>)
    requires
        s.len() > 0,
        is_white_space(s.last()),
    ensures
        trim(s) == trim(s.drop_last()),
    decreases s.len(),
{
    if is_white_space(s[0]) {
        if s.len() == 1 {
            assert(s.skip(1) =~= s.drop_last());
        } else {
            assert(s.skip(1).drop_last() =~= s.drop_last().skip(1));
            assert(s.skip(1).last() == s.last());
            assert(s.drop_last()[0] == s[0]);
            trim_of_a_blank_tail(s.skip(1));
        }
    }
}

/// Text is blank when none of its characters is other than white space.
pub proof fn blank_text_is_all_white_space(s: Seq<char>)
    ensures
        is_blank(s) <==> !exists|i: int| 0 <= i < s.len() && !is_white_space(#[trigger] s[i]),
{
}

/// Putting text in lower case moves the twenty-six capital letters of ASCII and
/// leaves every other character where and what it was.
pub proof fn only_ascii_capitals_are_lowered(s: Seq<char>, i: int)
    requires
        0 <= i < s.len(),
    ensures
        ascii_lower(s).len() == s.len(),
        'A' <= s[i] <= 'Z' ==> ascii_lower(s)[i] as int == s[i] as int + 32,
        !('A' <= s[i] <= 'Z') ==> ascii_lower(s)[i] == s[i],
{
}

/// One text stands before another exactly when they agree up to a place at which
/// the first ends or has the lesser character.
pub proof fn the_order_is_that_of_a_dictionary(a: Seq<char>, b: Seq<char>)
    ensures
        precedes(a, b) <==> exists|k: int| #[trigger] differs_at(a, b, k),
    decreases a.len(),
{
    if precedes(a, b) {
        if a.len() == 0 || a[0] != b[0] {
            assert(differs_at(a, b, 0));
        } else {
            let (x, y) = (a.skip(1), b.skip(1));
            the_order_is_that_of_a_dictionary(x, y);
            let k = choose|k: int| #[trigger] differs_at(x, y, k);
            assert forall|i: int| 0 <= i < k + 1 implies #[trigger] a[i] == b[i] by {
                if i > 0 {
                    assert(x[i - 1] == y[i - 1]);
                }
            }
            assert(k < x.len() ==> x[k] == a[k + 1]);
            assert(y[k] == b[k + 1]);
            assert(differs_at(a, b, k + 1));
        }
    }
    if exists|k: int| #[trigger] differs_at(a, b, k) {
        let k = choose|k: int| #[trigger] differs_at(a, b, k);
        if k > 0 {
            let (x, y) = (a.skip(1), b.skip(1));
            assert(a[0] == b[0]);
            assert forall|i: int| 0 <= i < k - 1 implies #[trigger] x[i] == y[i] by {
                assert(a[i + 1] == b[i + 1]);
            }
            assert(differs_at(x, y, k - 1));
            the_order_is_that_of_a_dictionary(x, y);
        }
    }
}

/// Whether two texts agree up to `k`, where the first ends or has the lesser
/// character.
pub open spec fn differs_at(a: Seq<char>, b: Seq<char>, k: int) -> bool {
    &&& 0 <= k <= a.len()
    &&& k < b.len()
    &&& forall|i: int| 0 <= i < k ==> #[trigger] a[i] == b[i]
    &&& k == a.len() || a[k] < b[k]
}

/// Joining nothing gives nothing, joining one part gives the part, and joining two
/// lists of parts gives the two joined texts with the separator between them.
pub proof fn joining_is_piecewise(
    part: Seq<char>,
    a: Seq<Seq<char>>,
    b: Seq<Seq<char>>,
    separator: Seq<char>,
)
    ensures
        joined(Seq::empty(), separator) == Seq::<char>::empty(),
        joined(seq![part], separator) == part,
        a.len() > 0 && b.len() > 0 ==> joined(a + b, separator) == joined(a, separator) + separator
            + joined(b, separator),
    decreases b.len(),
{
    if a.len() > 0 && b.len() > 0 {
        assert((a + b).drop_last() =~= a + b.drop_last());
        if b.len() == 1 {
            assert(a + b.drop_last() =~= a);
            assert(joined(a + b, separator) =~= joined(a, separator) + separator + joined(
                b,
                separator,
            ));
        } else {
            joining_is_piecewise(part, a, b.drop_last(), separator);
            assert(joined(a + b, separator) =~= joined(a, separator) + separator + joined(
                b,
                separator,
            ));
        }
    }
}

/// The words of a text with white space in it are those before and those behind;
/// a text without any is one word, unless it is empty.
pub proof fn white_space_parts_words(a: Seq<char>, gap: char, b: Seq<char>)
    requires
        is_white_space(gap),
    ensures
        words(a.push(gap) + b) == words(a) + words(b),
        (forall|i: int| 0 <= i < b.len() ==> !is_white_space(#[trigger] b[i])) ==> words(b) == (
        if b.len() == 0 {
            Seq::empty()
        } else {
            seq![b]
        }),
    decreases b.len(),
{
    let all = a.push(gap) + b;
    if b.len() == 0 {
        assert(all =~= a.push(gap));
        assert(all.drop_last() =~= a);
        assert(words(all) =~= words(a) + words(b));
    } else {
        let t = b.drop_last();
        white_space_parts_words(a, gap, t);
        assert(all.drop_last() =~= a.push(gap) + t);
        assert(all.last() == b.last());
        words_nonempty(t);
        assert(b.last() == b[b.len() - 1]);
        if b.len() == 1 {
            assert(t =~= Seq::empty());
            assert(all[all.len() - 2] == gap);
        } else {
            assert(all[all.len() - 2] == b[b.len() - 2]);
            assert(t.last() == b[b.len() - 2]);
            if !is_white_space(b.last()) && !is_white_space(t.last()) {
                let (x, y) = (words(a), words(t));
                assert((x + y).drop_last() =~= x + y.drop_last());
            }
        }
        assert(words(all) =~= words(a) + words(b));
        if forall|i: int| 0 <= i < b.len() ==> !is_white_space(#[trigger] b[i]) {
            assert forall|i: int| 0 <= i < t.len() implies !is_white_space(#[trigger] t[i]) by {
                assert(t[i] == b[i]);
            }
            if b.len() > 1 {
                assert(seq![t].drop_last().push(t.push(b.last())) =~= seq![b]) by {
                    assert(t.push(b.last()) =~= b);
                }
            } else {
                assert(seq![b.last()] =~= b);
            }
            assert(words(b) =~= seq![b]);
        }
    }
}

/// Text begins with a prefix exactly when something can be put behind the prefix to
/// make the text.
pub proof fn a_prefix_can_be_completed(prefix: Seq<char>, rest: Seq<char>, s: Seq<char>)
    ensures
        begins(prefix + rest, prefix),
        begins(s, prefix) ==> s == prefix + s.skip(prefix.len() as int),
{
    assert((prefix + rest).take(prefix.len() as int) =~= prefix);
    if begins(s, prefix) {
        assert(s =~= s.take(prefix.len() as int) + s.skip(prefix.len() as int));
    }
}

/// The number that a text of decimal digits stands for.
pub open spec fn number_of(s: Seq<char>) -> nat
    decreases s.len(),
{
    if s.len() == 0 {
        0
    } else {
        (10 * number_of(s.drop_last()) + (s.last() as int - '0' as int)) as nat
    }
}

/// A number printed in decimal is read back as the number. It is made of digits, and
/// does not begin with a zero unless it is zero.
pub proof fn decimals_are_read_back(n: nat)
    ensures
        number_of(decimal(n)) == n,
        decimal(n).len() > 0,
        forall|i: int| 0 <= i < decimal(n).len() ==> '0' <= #[trigger] decimal(n)[i] <= '9',
        n > 0 ==> decimal(n)[0] != '0',
        n == 0 ==> decimal(n).len() == 1,
    decreases n,
{
    reveal_with_fuel(number_of, 2);
    if n >= 10 {
        decimals_are_read_back(n / 10);
        let head = decimal(n / 10);
        assert(decimal(n).drop_last() =~= head);
        assert(decimal(n)[0] == head[0]);
    } else {
        assert(decimal(n).drop_last() =~= Seq::empty());
    }
}

/// The characters of ASCII are the first 128, and the control codes are the first 32, the
/// last of ASCII and the 32 behind it.
pub proof fn characters_are_told_by_their_number(c: char, s: Seq<char>)
    ensures
        is_control_code(c) <==> (c as int) < 32 || 127 <= (c as int) < 160,
        is_ascii(s) <==> forall|i: int| 0 <= i < s.len() ==> ((#[trigger] s[i]) as int) < 128,
{
}

} // verus!
