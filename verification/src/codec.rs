//! The small text codec the persisted keybind blob is written in: comma-separated fields, each a
//! decimal ordinal. Reading is tolerant in the way `str::split`, `str::trim` and
//! `str::parse::<usize>` are: fields are split on every `,`, trimmed of Unicode white space, and
//! parsed as an optionally `+`-signed run of ASCII digits.
use vstd::prelude::*;

verus! {

// ---------------------------------------------------------------------------------------------
// Splitting and joining
// ---------------------------------------------------------------------------------------------

/// The fields of `s` between occurrences of `sep`, read left to right: an empty input is one
/// empty field, a separator starts a new field, any other character extends the last field.
pub open spec fn split_on(s: Seq<char>, sep: char) -> Seq<Seq<char>>
    decreases s.len(),
{
    if s.len() == 0 {
        seq![Seq::<char>::empty()]
    } else {
        let r = split_on(s.drop_last(), sep);
        if s.last() == sep {
            r.push(Seq::<char>::empty())
        } else {
            r.update(r.len() - 1, r.last().push(s.last()))
        }
    }
}

/// The fields joined with `sep` between consecutive fields.
pub open spec fn join_with(fields: Seq<Seq<char>>, sep: char) -> Seq<char>
    decreases fields.len(),
{
    if fields.len() == 0 {
        Seq::<char>::empty()
    } else if fields.len() == 1 {
        fields[0]
    } else {
        join_with(fields.drop_last(), sep) + seq![sep] + fields.last()
    }
}

/// Whether `sep` does not occur in `s`.
pub open spec fn free_of(s: Seq<char>, sep: char) -> bool {
    forall|i: int| 0 <= i < s.len() ==> s[i] != sep
}

/// Splitting always yields at least one field.
pub proof fn lemma_split_nonempty(s: Seq<char>, sep: char)
    ensures
        split_on(s, sep).len() >= 1,
    decreases s.len(),
{
    if s.len() > 0 {
        lemma_split_nonempty(s.drop_last(), sep);
    }
}

/// Appending text never changes the fields before the last one, and never removes a field.
pub proof fn lemma_split_prefix(x: Seq<char>, t: Seq<char>, sep: char)
    ensures
        split_on(x + t, sep).len() >= split_on(x, sep).len(),
        forall|k: int|
            0 <= k < split_on(x, sep).len() - 1 ==> #[trigger] split_on(x + t, sep)[k] == split_on(
                x,
                sep,
            )[k],
    decreases t.len(),
{
    lemma_split_nonempty(x, sep);
    if t.len() == 0 {
        assert(x + t =~= x);
    } else {
        let t0 = t.drop_last();
        lemma_split_prefix(x, t0, sep);
        lemma_split_nonempty(x + t0, sep);
        assert((x + t).drop_last() =~= x + t0);
        assert((x + t).last() == t.last());
    }
}

/// Text that ends in a separator splits into the fields before it plus one empty field.
pub proof fn lemma_split_trailing_sep(x: Seq<char>, sep: char)
    ensures
        split_on(x + seq![sep], sep) == split_on(x, sep).push(Seq::<char>::empty()),
{
    assert((x + seq![sep]).drop_last() =~= x);
}

/// Appending separator-free text only extends the last field.
proof fn lemma_split_append_free(x: Seq<char>, t: Seq<char>, sep: char)
    requires
        free_of(t, sep),
    ensures
        split_on(x + t, sep) == split_on(x, sep).update(
            split_on(x, sep).len() - 1,
            split_on(x, sep).last() + t,
        ),
    decreases t.len(),
{
    lemma_split_nonempty(x, sep);
    if t.len() == 0 {
        assert(x + t =~= x);
        assert(split_on(x, sep).last() + t =~= split_on(x, sep).last());
        assert(split_on(x, sep).update(split_on(x, sep).len() - 1, split_on(x, sep).last())
            =~= split_on(x, sep));
    } else {
        let t0 = t.drop_last();
        assert(free_of(t0, sep));
        lemma_split_append_free(x, t0, sep);
        assert((x + t).drop_last() =~= x + t0);
        assert((x + t).last() == t.last());
        assert(t.last() != sep);
        assert((split_on(x, sep).last() + t0).push(t.last()) =~= split_on(x, sep).last() + t);
        let r0 = split_on(x + t0, sep);
        assert(r0.update(r0.len() - 1, r0.last().push(t.last())) =~= split_on(x, sep).update(
            split_on(x, sep).len() - 1,
            split_on(x, sep).last() + t,
        ));
    }
}

/// Splitting undoes joining when no field holds the separator.
pub proof fn lemma_split_join(fields: Seq<Seq<char>>, sep: char)
    requires
        fields.len() >= 1,
        forall|i: int| 0 <= i < fields.len() ==> free_of(#[trigger] fields[i], sep),
    ensures
        split_on(join_with(fields, sep), sep) == fields,
    decreases fields.len(),
{
    if fields.len() == 1 {
        let e = Seq::<char>::empty();
        assert(free_of(fields[0], sep));
        lemma_split_append_free(e, fields[0], sep);
        assert(e + fields[0] =~= fields[0]);
        assert(split_on(e, sep) =~= seq![e]);
        assert(e + fields[0] =~= fields[0]);
        assert(seq![e].update(0, e + fields[0]) =~= fields);
    } else {
        let init = fields.drop_last();
        assert forall|i: int| 0 <= i < init.len() implies free_of(#[trigger] init[i], sep) by {
            assert(init[i] == fields[i]);
        }
        lemma_split_join(init, sep);
        let j = join_with(init, sep);
        let js = j + seq![sep];
        assert(js.drop_last() =~= j);
        assert(split_on(js, sep) == split_on(j, sep).push(Seq::<char>::empty()));
        assert(free_of(fields.last(), sep));
        lemma_split_append_free(js, fields.last(), sep);
        assert(join_with(fields, sep) =~= js + fields.last());
        assert(Seq::<char>::empty() + fields.last() =~= fields.last());
        assert(init.push(Seq::<char>::empty()).update(init.len() as int, fields.last()) =~= fields);
    }
}

// ---------------------------------------------------------------------------------------------
// White space and trimming
// ---------------------------------------------------------------------------------------------

/// Unicode `White_Space` (the set `char::is_whitespace` tests): U+0009..=U+000D, U+0020, U+0085,
/// U+00A0, U+1680, U+2000..=U+200A, U+2028, U+2029, U+202F, U+205F and U+3000.
pub open spec fn is_white_space(c: char) -> bool {
    ||| ('\u{9}' <= c && c <= '\u{d}')
    ||| c == ' '
    ||| c == '\u{85}'
    ||| c == '\u{a0}'
    ||| c == '\u{1680}'
    ||| ('\u{2000}' <= c && c <= '\u{200a}')
    ||| c == '\u{2028}'
    ||| c == '\u{2029}'
    ||| c == '\u{202f}'
    ||| c == '\u{205f}'
    ||| c == '\u{3000}'
}

/// `s` without its leading white space.
pub open spec fn trim_start(s: Seq<char>) -> Seq<char>
    decreases s.len(),
{
    if s.len() > 0 && is_white_space(s[0]) {
        trim_start(s.drop_first())
    } else {
        s
    }
}

/// `s` without its trailing white space.
pub open spec fn trim_end(s: Seq<char>) -> Seq<char>
    decreases s.len(),
{
    if s.len() > 0 && is_white_space(s.last()) {
        trim_end(s.drop_last())
    } else {
        s
    }
}

/// `s` without leading and trailing white space.
pub open spec fn trim(s: Seq<char>) -> Seq<char> {
    trim_end(trim_start(s))
}

/// Dropping a white-space prefix does not change what `trim_start` leaves.
proof fn lemma_trim_start_skip(s: Seq<char>, a: int)
    requires
        0 <= a <= s.len(),
        forall|k: int| 0 <= k < a ==> is_white_space(#[trigger] s[k]),
    ensures
        trim_start(s) == trim_start(s.subrange(a, s.len() as int)),
    decreases a,
{
    if a > 0 {
        let t = s.drop_first();
        assert forall|k: int| 0 <= k < a - 1 implies is_white_space(#[trigger] t[k]) by {
            assert(t[k] == s[k + 1]);
        }
        lemma_trim_start_skip(t, a - 1);
        assert(t.subrange(a - 1, t.len() as int) =~= s.subrange(a, s.len() as int));
    } else {
        assert(s.subrange(0, s.len() as int) =~= s);
    }
}

/// Dropping a white-space suffix does not change what `trim_end` leaves.
proof fn lemma_trim_end_skip(s: Seq<char>, b: int)
    requires
        0 <= b <= s.len(),
        forall|k: int| b <= k < s.len() ==> is_white_space(#[trigger] s[k]),
    ensures
        trim_end(s) == trim_end(s.subrange(0, b)),
    decreases s.len() - b,
{
    if b < s.len() {
        let t = s.drop_last();
        assert forall|k: int| b <= k < t.len() implies is_white_space(#[trigger] t[k]) by {
            assert(t[k] == s[k]);
        }
        lemma_trim_end_skip(t, b);
        assert(t.subrange(0, b) =~= s.subrange(0, b));
    } else {
        assert(s.subrange(0, b) =~= s);
    }
}

/// Text that neither starts nor ends with white space is its own trim.
pub proof fn lemma_trim_unchanged(s: Seq<char>)
    requires
        s.len() > 0,
        !is_white_space(s[0]),
        !is_white_space(s.last()),
    ensures
        trim(s) == s,
{
}

// ---------------------------------------------------------------------------------------------
// Unsigned decimal numbers
// ---------------------------------------------------------------------------------------------

/// An ASCII decimal digit.
pub open spec fn is_ascii_digit(c: char) -> bool {
    '0' <= c && c <= '9'
}

/// The value of an ASCII digit.
pub open spec fn digit_value(c: char) -> nat {
    ((c as int) - ('0' as int)) as nat
}

/// The ASCII digit of a value below ten.
pub open spec fn digit_char(d: nat) -> char {
    if d == 0 {
        '0'
    } else if d == 1 {
        '1'
    } else if d == 2 {
        '2'
    } else if d == 3 {
        '3'
    } else if d == 4 {
        '4'
    } else if d == 5 {
        '5'
    } else if d == 6 {
        '6'
    } else if d == 7 {
        '7'
    } else if d == 8 {
        '8'
    } else {
        '9'
    }
}

/// Whether every character of `s` is an ASCII digit.
pub open spec fn all_digits(s: Seq<char>) -> bool {
    forall|i: int| 0 <= i < s.len() ==> is_ascii_digit(#[trigger] s[i])
}

/// The value a run of decimal digits spells (most significant first).
pub open spec fn digits_value(s: Seq<char>) -> nat
    decreases s.len(),
{
    if s.len() == 0 {
        0
    } else {
        digits_value(s.drop_last()) * 10 + digit_value(s.last())
    }
}

/// What `str::parse::<usize>` reads from `s`: an optional leading `+` followed by one or more
/// ASCII digits whose value fits in a `usize`; anything else is `None`.
pub open spec fn parse_unsigned(s: Seq<char>) -> Option<nat> {
    let d = if s.len() > 0 && s[0] == '+' {
        s.drop_first()
    } else {
        s
    };
    if d.len() > 0 && all_digits(d) && digits_value(d) <= usize::MAX {
        Some(digits_value(d))
    } else {
        None
    }
}

/// The shortest decimal spelling of `n`.
pub open spec fn decimal(n: nat) -> Seq<char>
    decreases n,
{
    if n < 10 {
        seq![digit_char(n)]
    } else {
        decimal(n / 10) + seq![digit_char(n % 10)]
    }
}

/// The digit of a value below ten is an ASCII digit worth that value.
pub proof fn lemma_digit_char(d: nat)
    requires
        d < 10,
    ensures
        is_ascii_digit(digit_char(d)),
        digit_value(digit_char(d)) == d,
{
}

/// The decimal spelling of `n` is a non-empty run of digits that reads back as `n`.
pub proof fn lemma_decimal_digits(n: nat)
    ensures
        decimal(n).len() >= 1,
        all_digits(decimal(n)),
        digits_value(decimal(n)) == n,
    decreases n,
{
    lemma_digit_char(n % 10);
    if n < 10 {
        lemma_digit_char(n);
        assert(decimal(n).drop_last() =~= Seq::<char>::empty());
        assert(digits_value(Seq::<char>::empty()) == 0);
        assert(decimal(n).last() == digit_char(n));
    } else {
        lemma_decimal_digits(n / 10);
        let d = decimal(n);
        assert(d.drop_last() =~= decimal(n / 10));
        assert(d.last() == digit_char(n % 10));
        assert(digits_value(d) == digits_value(decimal(n / 10)) * 10 + digit_value(d.last()));
        assert(n == (n / 10) * 10 + n % 10);
        assert forall|i: int| 0 <= i < d.len() implies is_ascii_digit(#[trigger] d[i]) by {
            if i < d.len() - 1 {
                assert(d[i] == decimal(n / 10)[i]);
            }
        }
    }
}

/// A digit is neither white space nor a `+` nor a `,`.
pub proof fn lemma_digit_is_plain(c: char)
    requires
        is_ascii_digit(c),
    ensures
        !is_white_space(c),
        c != '+',
        c != ',',
{
}

/// Parsing the trimmed decimal spelling of a `usize`-sized value gives the value back.
pub proof fn lemma_parse_decimal(n: nat)
    requires
        n <= usize::MAX,
    ensures
        trim(decimal(n)) == decimal(n),
        parse_unsigned(trim(decimal(n))) == Some(n),
        free_of(decimal(n), ','),
{
    lemma_decimal_digits(n);
    let d = decimal(n);
    lemma_digit_is_plain(d[0]);
    lemma_digit_is_plain(d.last());
    lemma_trim_unchanged(d);
    assert forall|i: int| 0 <= i < d.len() implies d[i] != ',' by {
        lemma_digit_is_plain(d[i]);
    }
}

// ---------------------------------------------------------------------------------------------
// Executable helpers
// ---------------------------------------------------------------------------------------------

/// Whether `c` is Unicode white space.
pub fn is_white_space_char(c: char) -> (r: bool)
    ensures
        r == is_white_space(c),
{
    ('\u{9}' <= c && c <= '\u{d}') || c == ' ' || c == '\u{85}' || c == '\u{a0}' || c
        == '\u{1680}' || ('\u{2000}' <= c && c <= '\u{200a}') || c == '\u{2028}' || c
        == '\u{2029}' || c == '\u{202f}' || c == '\u{205f}' || c == '\u{3000}'
}

/// The characters of `s`, in order.
pub fn chars_of(s: &str) -> (r: Vec<char>)
    ensures
        r@ == s@,
{
    let n = s.unicode_len();
    let mut out: Vec<char> = Vec::new();
    let mut i: usize = 0;
    while i < n
        invariant
            n == s@.len(),
            i <= n,
            out@ =~= s@.subrange(0, i as int),
        decreases n - i,
    {
        let c = s.get_char(i);
        out.push(c);
        i = i + 1;
    }
    out
}

/// Whether two strings hold the same characters.
pub fn same_text(a: &str, b: &str) -> (r: bool)
    ensures
        r == (a@ == b@),
{
    let x = chars_of(a);
    let y = chars_of(b);
    if x.len() != y.len() {
        return false;
    }
    let mut i: usize = 0;
    while i < x.len()
        invariant
            x@ == a@,
            y@ == b@,
            x@.len() == y@.len(),
            i <= x@.len(),
            forall|k: int| 0 <= k < i ==> x@[k] == y@[k],
        decreases x@.len() - i,
    {
        if x[i] != y[i] {
            return false;
        }
        i = i + 1;
    }
    assert(x@ =~= y@);
    true
}

/// The fields of `s` between commas.
pub fn split_commas(s: &Vec<char>) -> (r: Vec<Vec<char>>)
    ensures
        r@.len() == split_on(s@, ',').len(),
        forall|k: int| 0 <= k < r@.len() ==> (#[trigger] r@[k])@ == split_on(s@, ',')[k],
{
    let mut done: Vec<Vec<char>> = Vec::new();
    let mut cur: Vec<char> = Vec::new();
    let mut i: usize = 0;
    proof {
        assert(s@.subrange(0, 0) =~= Seq::<char>::empty());
    }
    while i < s.len()
        invariant
            i <= s.len(),
            done@.len() + 1 == split_on(s@.subrange(0, i as int), ',').len(),
            forall|k: int|
                0 <= k < done@.len() ==> (#[trigger] done@[k])@ == split_on(
                    s@.subrange(0, i as int),
                    ',',
                )[k],
            cur@ == split_on(s@.subrange(0, i as int), ',').last(),
        decreases s.len() - i,
    {
        let c = s[i];
        let ghost prev = split_on(s@.subrange(0, i as int), ',');
        assert(s@.subrange(0, i + 1).drop_last() =~= s@.subrange(0, i as int));
        assert(s@.subrange(0, i + 1).last() == c);
        proof {
            lemma_split_nonempty(s@.subrange(0, i as int), ',');
        }
        if c == ',' {
            done.push(cur);
            cur = Vec::new();
            assert(cur@ =~= Seq::<char>::empty());
        } else {
            cur.push(c);
        }
        i = i + 1;
    }
    assert(s@.subrange(0, s.len() as int) =~= s@);
    done.push(cur);
    done
}

/// The bounds `[a, b)` of `f` once leading and trailing white space is dropped.
pub fn trim_bounds(f: &Vec<char>) -> (r: (usize, usize))
    ensures
        r.0 <= r.1 <= f.len(),
        f@.subrange(r.0 as int, r.1 as int) == trim(f@),
{
    let mut a: usize = 0;
    while a < f.len() && is_white_space_char(f[a])
        invariant
            a <= f.len(),
            forall|k: int| 0 <= k < a ==> is_white_space(#[trigger] f@[k]),
        decreases f.len() - a,
    {
        a = a + 1;
    }
    proof {
        lemma_trim_start_skip(f@, a as int);
    }
    let ghost tail = f@.subrange(a as int, f.len() as int);
    assert(trim_start(tail) == tail);
    let mut b: usize = f.len();
    while b > a && is_white_space_char(f[b - 1])
        invariant
            a <= b <= f.len(),
            forall|k: int| b <= k < f.len() ==> is_white_space(#[trigger] f@[k]),
        decreases b - a,
    {
        b = b - 1;
    }
    proof {
        let t = tail;
        let bb = b - a;
        assert forall|k: int| bb <= k < t.len() implies is_white_space(#[trigger] t[k]) by {
            assert(t[k] == f@[k + a]);
        }
        lemma_trim_end_skip(t, bb as int);
        assert(t.subrange(0, bb as int) =~= f@.subrange(a as int, b as int));
        let m = f@.subrange(a as int, b as int);
        if m.len() > 0 {
            assert(m.last() == f@[b - 1]);
        }
    }
    (a, b)
}

/// The value of the digits `f[a..b)`, saturated: exact below 100, and at least 100 otherwise.
fn capped_digits_value(f: &Vec<char>, a: usize, b: usize) -> (r: u32)
    requires
        a <= b <= f.len(),
        all_digits(f@.subrange(a as int, b as int)),
    ensures
        digits_value(f@.subrange(a as int, b as int)) < 100 ==> r == digits_value(
            f@.subrange(a as int, b as int),
        ),
        digits_value(f@.subrange(a as int, b as int)) >= 100 ==> r >= 100,
{
    let mut v: u32 = 0;
    let mut i: usize = a;
    while i < b
        invariant
            a <= i <= b <= f.len(),
            all_digits(f@.subrange(a as int, b as int)),
            v < 1000,
            digits_value(f@.subrange(a as int, i as int)) < 100 ==> v == digits_value(
                f@.subrange(a as int, i as int),
            ),
            digits_value(f@.subrange(a as int, i as int)) >= 100 ==> v >= 100,
        decreases b - i,
    {
        let c = f[i];
        assert(f@.subrange(a as int, b as int)[i - a] == c);
        let d: u32 = (c as u32) - ('0' as u32);
        let ghost p = f@.subrange(a as int, i as int);
        assert(f@.subrange(a as int, i + 1).drop_last() =~= p);
        assert(f@.subrange(a as int, i + 1).last() == c);
        if v < 100 {
            v = v * 10 + d;
        }
        i = i + 1;
    }
    v
}

/// The number `parse_unsigned` reads from `f[a..b)` when it is below 100, else `None`.
pub fn parse_small(f: &Vec<char>, a: usize, b: usize) -> (r: Option<u32>)
    requires
        a <= b <= f.len(),
    ensures
        r is Some <==> (parse_unsigned(f@.subrange(a as int, b as int)) is Some
            && parse_unsigned(f@.subrange(a as int, b as int))->0 < 100),
        r is Some ==> r->0 == parse_unsigned(f@.subrange(a as int, b as int))->0,
{
    let ghost s = f@.subrange(a as int, b as int);
    assert(s.len() > 0 ==> s[0] == f@[a as int]);
    let mut start = a;
    if a < b && f[a] == '+' {
        start = a + 1;
        assert(s.drop_first() =~= f@.subrange(start as int, b as int));
    } else {
        assert(s =~= f@.subrange(start as int, b as int));
    }
    if start == b {
        return None;
    }
    let ghost d = f@.subrange(start as int, b as int);
    assert(d == (if s.len() > 0 && s[0] == '+' { s.drop_first() } else { s }));
    let mut i = start;
    while i < b
        invariant
            start <= i <= b <= f.len(),
            forall|k: int| start <= k < i ==> is_ascii_digit(#[trigger] f@[k]),
            s == f@.subrange(a as int, b as int),
            d == f@.subrange(start as int, b as int),
            d == (if s.len() > 0 && s[0] == '+' { s.drop_first() } else { s }),
        decreases b - i,
    {
        if !(f[i] >= '0' && f[i] <= '9') {
            assert(!all_digits(f@.subrange(start as int, b as int))) by {
                assert(f@.subrange(start as int, b as int)[i - start] == f@[i as int]);
            }
            return None;
        }
        i = i + 1;
    }
    assert(all_digits(d)) by {
        assert forall|k: int| 0 <= k < d.len() implies is_ascii_digit(#[trigger] d[k]) by {
            assert(d[k] == f@[k + start]);
        }
    }
    let v = capped_digits_value(f, start, b);
    if v >= 100 {
        // Too large to name a key; whether it would also overflow `usize` does not matter.
        return None;
    }
    Some(v)
}

/// The ASCII digit string of a value below ten.
fn digit_str(d: u64) -> (r: &'static str)
    requires
        d < 10,
    ensures
        r@ == seq![digit_char(d as nat)],
{
    match d {
        0 => {
            proof {
                reveal_strlit("0");
            }
            "0"
        },
        1 => {
            proof {
                reveal_strlit("1");
            }
            "1"
        },
        2 => {
            proof {
                reveal_strlit("2");
            }
            "2"
        },
        3 => {
            proof {
                reveal_strlit("3");
            }
            "3"
        },
        4 => {
            proof {
                reveal_strlit("4");
            }
            "4"
        },
        5 => {
            proof {
                reveal_strlit("5");
            }
            "5"
        },
        6 => {
            proof {
                reveal_strlit("6");
            }
            "6"
        },
        7 => {
            proof {
                reveal_strlit("7");
            }
            "7"
        },
        8 => {
            proof {
                reveal_strlit("8");
            }
            "8"
        },
        _ => {
            proof {
                reveal_strlit("9");
            }
            "9"
        },
    }
}

/// The shortest decimal spelling of `n`.
pub fn decimal_string(n: u64) -> (r: String)
    ensures
        r@ == decimal(n as nat),
    decreases n,
{
    if n < 10 {
        String::from_str(digit_str(n))
    } else {
        let mut s = decimal_string(n / 10);
        s.append(digit_str(n % 10));
        s
    }
}

} // verus!
