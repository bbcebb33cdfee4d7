//! Formatting of e-mail addresses, durations and byte sizes for display.

use vstd::prelude::*;
use crate::text::{int_decimal, nat_digits, join, i64_to_decimal};

verus! {

/// The zero-width non-joiner that `fmt_email` slips in after every third character.
pub open spec fn zwnj() -> char {
    '\u{200C}'
}

/// The look-alike glyph that stands for character `c` at position `i` of an address.
pub open spec fn email_glyph(c: char, i: nat) -> char {
    if c == 'a' {
        '\u{0430}'
    } else if c == 'd' {
        '\u{0501}'
    } else if c == 'e' {
        '\u{0435}'
    } else if c == 'p' {
        '\u{0440}'
    } else if c == 'o' {
        if i % 3 == 0 {
            '\u{043E}'
        } else if i % 3 == 1 {
            '\u{03BF}'
        } else {
            '\u{0585}'
        }
    } else if c == 'u' {
        if i % 2 == 0 {
            '\u{057D}'
        } else {
            '\u{03C5}'
        }
    } else if c == '@' {
        '\u{FF20}'
    } else if c == '.' {
        '\u{00B7}'
    } else {
        c
    }
}

/// What one character of an address becomes: its glyph, and a zero-width
/// non-joiner after it when its position is a multiple of three.
pub open spec fn email_piece(c: char, i: nat) -> Seq<char> {
    if i % 3 == 0 {
        seq![email_glyph(c, i), zwnj()]
    } else {
        seq![email_glyph(c, i)]
    }
}

/// The disguised form of an address: each character replaced by its piece, in order.
pub open spec fn masked_email(s: Seq<char>) -> Seq<char>
    decreases s.len(),
{
    if s.len() == 0 {
        Seq::empty()
    } else {
        masked_email(s.drop_last()) + email_piece(s.last(), (s.len() - 1) as nat)
    }
}

proof fn lemma_masked_email_step(s: Seq<char>, i: int)
    requires
        0 <= i < s.len(),
    ensures
        masked_email(s.take(i + 1)) == masked_email(s.take(i)) + email_piece(s[i], i as nat),
{
    assert(s.take(i + 1).drop_last() =~= s.take(i));
}

/// No piece shows an `@` or a `.`, nor a zero-width non-joiner in place of a glyph.
proof fn lemma_masked_email_shape(s: Seq<char>)
    ensures
        masked_email(s).len() == s.len() + (s.len() + 2) / 3,
        forall|k: int|
            0 <= k < masked_email(s).len() ==> #[trigger] masked_email(s)[k] != '@'
                && masked_email(s)[k] != '.',
    decreases s.len(),
{
    if s.len() > 0 {
        let t = s.drop_last();
        lemma_masked_email_shape(t);
        let i = (s.len() - 1) as nat;
        let p = email_piece(s.last(), i);
        assert(masked_email(s) == masked_email(t) + p);
        assert forall|k: int| 0 <= k < masked_email(s).len() implies #[trigger] masked_email(s)[k]
            != '@' && masked_email(s)[k] != '.' by {
            if k >= masked_email(t).len() {
                assert(masked_email(s)[k] == p[k - masked_email(t).len()]);
            } else {
                assert(masked_email(s)[k] == masked_email(t)[k]);
            }
        }
    }
}

proof fn lemma_email_piece_period(c: char, n: nat, i: nat)
    requires
        n % 6 == 0,
    ensures
        email_piece(c, n + i) == email_piece(c, i),
{
    assert((n + i) % 3 == i % 3 && (n + i) % 2 == i % 2) by (nonlinear_arith)
        requires
            n % 6 == 0,
    ;
}

/// Disguising is periodic with period six: an address split after a multiple
/// of six characters disguises to the two halves' disguises, one after the other.
pub proof fn lemma_masked_email_concat(a: Seq<char>, b: Seq<char>)
    requires
        a.len() % 6 == 0,
    ensures
        masked_email(a + b) == masked_email(a) + masked_email(b),
    decreases b.len(),
{
    if b.len() == 0 {
        assert(a + b =~= a);
        assert(masked_email(a) + masked_email(b) =~= masked_email(a));
    } else {
        let ab = a + b;
        assert(ab.drop_last() =~= a + b.drop_last());
        assert(ab.last() == b.last());
        lemma_masked_email_concat(a, b.drop_last());
        lemma_email_piece_period(b.last(), a.len(), (b.len() - 1) as nat);
        assert(((ab.len() - 1) as nat) == a.len() + ((b.len() - 1) as nat));
        assert(masked_email(ab) =~= masked_email(a) + masked_email(b));
    }
}

/// Where the glyph for the character at position `i` of an address stands in
/// its disguise: after the `i` characters before it and the `(i + 2) / 3`
/// zero-width non-joiners that follow positions 0, 3, 6, ... before it.
pub open spec fn masked_position(i: int) -> int {
    i + (i + 2) / 3
}

/// Each character of an address is replaced by its look-alike and by nothing
/// else: `a` by Cyrillic а (U+0430), `d` by Komi ԁ (U+0501), `e` by Cyrillic е
/// (U+0435), `p` by Cyrillic р (U+0440), `o` by Cyrillic о (U+043E), Greek ο
/// (U+03BF) or Armenian օ (U+0585) as its position is 0, 1 or 2 modulo 3, `u`
/// by Armenian ս (U+057D) or Greek υ (U+03C5) as its position is even or odd,
/// `@` by the full-width ＠ (U+FF20), `.` by the middle dot · (U+00B7); every
/// other character stays. A zero-width non-joiner (U+200C) follows each
/// position that is a multiple of three.
pub proof fn lemma_masked_email_lookalikes(s: Seq<char>)
    ensures
        forall|i: int|
            0 <= i < s.len() ==> {
                let g = #[trigger] masked_email(s)[masked_position(i)];
                &&& s[i] == 'a' ==> g == '\u{0430}'
                &&& s[i] == 'd' ==> g == '\u{0501}'
                &&& s[i] == 'e' ==> g == '\u{0435}'
                &&& s[i] == 'p' ==> g == '\u{0440}'
                &&& (s[i] == 'o' && i % 3 == 0) ==> g == '\u{043E}'
                &&& (s[i] == 'o' && i % 3 == 1) ==> g == '\u{03BF}'
                &&& (s[i] == 'o' && i % 3 == 2) ==> g == '\u{0585}'
                &&& (s[i] == 'u' && i % 2 == 0) ==> g == '\u{057D}'
                &&& (s[i] == 'u' && i % 2 == 1) ==> g == '\u{03C5}'
                &&& s[i] == '@' ==> g == '\u{FF20}'
                &&& s[i] == '.' ==> g == '\u{00B7}'
                &&& (s[i] != 'a' && s[i] != 'd' && s[i] != 'e' && s[i] != 'p' && s[i] != 'o'
                    && s[i] != 'u' && s[i] != '@' && s[i] != '.') ==> g == s[i]
                &&& i % 3 == 0 ==> masked_email(s)[masked_position(i) + 1] == '\u{200C}'
            },
    decreases s.len(),
{
    if s.len() > 0 {
        let t = s.drop_last();
        lemma_masked_email_lookalikes(t);
        lemma_masked_email_shape(t);
        let n = t.len() as int;
        let p = email_piece(s.last(), n as nat);
        assert(masked_email(s) == masked_email(t) + p);
        assert(masked_position(n) == masked_email(t).len());
        assert forall|i: int| 0 <= i < s.len() implies {
            let g = #[trigger] masked_email(s)[masked_position(i)];
            &&& s[i] == 'a' ==> g == '\u{0430}'
            &&& s[i] == 'd' ==> g == '\u{0501}'
            &&& s[i] == 'e' ==> g == '\u{0435}'
            &&& s[i] == 'p' ==> g == '\u{0440}'
            &&& (s[i] == 'o' && i % 3 == 0) ==> g == '\u{043E}'
            &&& (s[i] == 'o' && i % 3 == 1) ==> g == '\u{03BF}'
            &&& (s[i] == 'o' && i % 3 == 2) ==> g == '\u{0585}'
            &&& (s[i] == 'u' && i % 2 == 0) ==> g == '\u{057D}'
            &&& (s[i] == 'u' && i % 2 == 1) ==> g == '\u{03C5}'
            &&& s[i] == '@' ==> g == '\u{FF20}'
            &&& s[i] == '.' ==> g == '\u{00B7}'
            &&& (s[i] != 'a' && s[i] != 'd' && s[i] != 'e' && s[i] != 'p' && s[i] != 'o' && s[i]
                != 'u' && s[i] != '@' && s[i] != '.') ==> g == s[i]
            &&& i % 3 == 0 ==> masked_email(s)[masked_position(i) + 1] == '\u{200C}'
        } by {
            if i < n {
                assert(s[i] == t[i]);
                assert(masked_position(i) < masked_email(t).len());
                assert(masked_email(s)[masked_position(i)] == masked_email(t)[masked_position(i)]);
                if i % 3 == 0 {
                    assert(masked_position(i) + 1 < masked_email(t).len());
                    assert(masked_email(s)[masked_position(i) + 1] == masked_email(t)[
                        masked_position(i) + 1]);
                }
            } else {
                assert(i == n);
                assert(masked_email(s)[masked_position(i)] == p[0]);
                if i % 3 == 0 {
                    assert(masked_email(s)[masked_position(i) + 1] == p[1]);
                }
            }
        }
    }
}

fn glyph_for(c: char, i: usize) -> (g: char)
    ensures
        g == email_glyph(c, i as nat),
{
    if c == 'a' {
        '\u{0430}'
    } else if c == 'd' {
        '\u{0501}'
    } else if c == 'e' {
        '\u{0435}'
    } else if c == 'p' {
        '\u{0440}'
    } else if c == 'o' {
        if i % 3 == 0 {
            '\u{043E}'
        } else if i % 3 == 1 {
            '\u{03BF}'
        } else {
            '\u{0585}'
        }
    } else if c == 'u' {
        if i % 2 == 0 {
            '\u{057D}'
        } else {
            '\u{03C5}'
        }
    } else if c == '@' {
        '\u{FF20}'
    } else if c == '.' {
        '\u{00B7}'
    } else {
        c
    }
}

/// Disguises an e-mail address against harvesting: letters that have Cyrillic,
/// Greek or Armenian look-alikes are swapped for them, `@` and `.` become
/// full-width `＠` and `·`, and a zero-width non-joiner follows every third character.
pub fn fmt_email(email: &str) -> (s: String)
    ensures
        s@ == masked_email(email@),
        s@.len() == email@.len() + (email@.len() + 2) / 3,
        forall|k: int| 0 <= k < s@.len() ==> #[trigger] s@[k] != '@' && s@[k] != '.',
{
    let n = email.unicode_len();
    let mut s = String::new();
    let mut i: usize = 0;
    while i < n
        invariant
            n == email@.len(),
            i <= n,
            s@ == masked_email(email@.take(i as int)),
        decreases n - i,
    {
        let c = email.get_char(i);
        let glyph = glyph_for(c, i);
        s.push(glyph);
        if i % 3 == 0 {
            s.push('\u{200C}');
        }
        proof {
            lemma_masked_email_step(email@, i as int);
        }
        assert(s@ =~= masked_email(email@.take(i as int)) + email_piece(c, i as nat));
        i = i + 1;
    }
    assert(email@.take(n as int) =~= email@);
    proof {
        lemma_masked_email_shape(email@);
    }
    s
}

} // verus!

verus! {

/// Seconds in one step of unit `k` (0: s, 1: m, 2: h, 3: d, 4: w).
pub open spec fn unit_seconds(k: nat) -> int {
    if k == 0 {
        1
    } else if k == 1 {
        60
    } else if k == 2 {
        3600
    } else if k == 3 {
        86400
    } else {
        604800
    }
}

/// How many steps of unit `k` the next unit holds, for every unit but the
/// largest (weeks): the count of such a unit is taken modulo it.
pub open spec fn unit_modulus(k: nat) -> int
    recommends
        k < 4,
{
    if k == 0 {
        60
    } else if k == 1 {
        60
    } else if k == 2 {
        24
    } else {
        7
    }
}

/// The letter that names unit `k`.
pub open spec fn unit_letter(k: nat) -> char {
    if k == 0 {
        's'
    } else if k == 1 {
        'm'
    } else if k == 2 {
        'h'
    } else if k == 3 {
        'd'
    } else {
        'w'
    }
}

/// The count of unit `k` in a non-negative number of seconds: whole steps of
/// the unit, modulo the next unit's size; weeks, the largest unit, are not capped.
pub open spec fn unit_magnitude(a: int, k: nat) -> int {
    if k < 4 {
        (a / unit_seconds(k)) % unit_modulus(k)
    } else {
        a / unit_seconds(k)
    }
}

/// The count of unit `k`, with the truncating division and remainder of
/// machine integers: the count keeps the sign of `seconds`.
pub open spec fn unit_count(seconds: int, k: nat) -> int {
    if seconds >= 0 {
        unit_magnitude(seconds, k)
    } else {
        -unit_magnitude(-seconds, k)
    }
}

/// The text for unit `k` (such as `5m`), or nothing when its count is zero.
pub open spec fn duration_part(seconds: int, k: nat) -> Seq<Seq<char>> {
    if unit_count(seconds, k) != 0 {
        seq![int_decimal(unit_count(seconds, k)).push(unit_letter(k))]
    } else {
        Seq::empty()
    }
}

/// The non-zero parts of the units from `w` down to unit `k`, largest unit first.
pub open spec fn duration_parts_from(seconds: int, k: nat) -> Seq<Seq<char>>
    decreases 5 - k,
{
    if k >= 5 {
        Seq::empty()
    } else {
        duration_parts_from(seconds, k + 1) + duration_part(seconds, k)
    }
}

/// All non-zero parts of a duration, largest unit first.
pub open spec fn duration_parts(seconds: int) -> Seq<Seq<char>> {
    duration_parts_from(seconds, 0)
}

/// At most the first three parts: a long duration is cut to its largest units.
pub open spec fn shown_parts(parts: Seq<Seq<char>>) -> Seq<Seq<char>> {
    if parts.len() <= 3 {
        parts
    } else {
        parts.take(3)
    }
}

/// The rendering of a duration: its shown parts joined by single spaces.
pub open spec fn duration_text(seconds: int) -> Seq<char> {
    join(shown_parts(duration_parts(seconds)), seq![' '])
}

proof fn lemma_join_push(pieces: Seq<Seq<char>>, x: Seq<char>, sep: Seq<char>)
    ensures
        join(pieces.push(x), sep) == if pieces.len() == 0 {
            x
        } else {
            join(pieces, sep) + sep + x
        },
{
    assert(pieces.push(x).drop_last() =~= pieces);
}

/// A duration shows at most three units, and they are its largest non-zero
/// units in order.
pub proof fn lemma_duration_shows_largest_units(seconds: int)
    ensures
        shown_parts(duration_parts(seconds)).len() <= 3,
        shown_parts(duration_parts(seconds)).len() == if duration_parts(seconds).len() <= 3 {
            duration_parts(seconds).len()
        } else {
            3
        },
        forall|i: int|
            0 <= i < shown_parts(duration_parts(seconds)).len() ==> #[trigger] shown_parts(
                duration_parts(seconds),
            )[i] == duration_parts(seconds)[i],
{
}

/// For a non-negative number of seconds, the counts are those of a mixed-radix
/// split: seconds and minutes below 60, hours below 24, days below 7, whole
/// weeks uncapped, and together they add back up to the number of seconds.
pub proof fn lemma_duration_counts_decompose(seconds: int)
    requires
        seconds >= 0,
    ensures
        0 <= unit_count(seconds, 0) < 60,
        0 <= unit_count(seconds, 1) < 60,
        0 <= unit_count(seconds, 2) < 24,
        0 <= unit_count(seconds, 3) < 7,
        0 <= unit_count(seconds, 4),
        unit_count(seconds, 4) * 604800 + unit_count(seconds, 3) * 86400 + unit_count(seconds, 2)
            * 3600 + unit_count(seconds, 1) * 60 + unit_count(seconds, 0) == seconds,
{
    let s = seconds;
    let a1 = s / 60;
    let a2 = a1 / 60;
    let a3 = a2 / 24;
    let a4 = a3 / 7;
    vstd::arithmetic::div_mod::lemma_fundamental_div_mod(s, 60);
    vstd::arithmetic::div_mod::lemma_fundamental_div_mod(a1, 60);
    vstd::arithmetic::div_mod::lemma_fundamental_div_mod(a2, 24);
    vstd::arithmetic::div_mod::lemma_fundamental_div_mod(a3, 7);
    vstd::arithmetic::div_mod::lemma_div_pos_is_pos(s, 60);
    vstd::arithmetic::div_mod::lemma_div_pos_is_pos(a1, 60);
    vstd::arithmetic::div_mod::lemma_div_pos_is_pos(a2, 24);
    vstd::arithmetic::div_mod::lemma_div_denominator(s, 60, 60);
    vstd::arithmetic::div_mod::lemma_div_denominator(s, 3600, 24);
    vstd::arithmetic::div_mod::lemma_div_denominator(s, 86400, 7);
    vstd::arithmetic::div_mod::lemma_mod_pos_bound(s, 60);
    vstd::arithmetic::div_mod::lemma_mod_pos_bound(a1, 60);
    vstd::arithmetic::div_mod::lemma_mod_pos_bound(a2, 24);
    vstd::arithmetic::div_mod::lemma_mod_pos_bound(a3, 7);
    assert(s / 1 == s);
    assert(unit_count(s, 0) == s % 60);
    assert(unit_count(s, 1) == a1 % 60);
    assert(unit_count(s, 2) == a2 % 24);
    assert(unit_count(s, 3) == a3 % 7);
    assert(unit_count(s, 4) == a4);
}

/// Below an hour, a duration reads as its whole minutes and its remaining
/// seconds, `{s / 60}m {s % 60}s`, each left out when it is zero.
pub proof fn lemma_duration_under_an_hour(seconds: int)
    requires
        0 <= seconds < 3600,
    ensures
        duration_text(seconds) == {
            let m = nat_digits((seconds / 60) as nat).push('m');
            let s = nat_digits((seconds % 60) as nat).push('s');
            if seconds / 60 > 0 && seconds % 60 > 0 {
                m + seq![' '] + s
            } else if seconds / 60 > 0 {
                m
            } else if seconds % 60 > 0 {
                s
            } else {
                Seq::empty()
            }
        },
{
    lemma_duration_counts_decompose(seconds);
    assert(seconds / 60 < 60);
    assert(unit_count(seconds, 1) == seconds / 60);
    assert(unit_count(seconds, 0) == seconds % 60);
    assert(unit_count(seconds, 2) == 0);
    assert(unit_count(seconds, 3) == 0);
    assert(unit_count(seconds, 4) == 0);
    let pm = duration_part(seconds, 1);
    let ps = duration_part(seconds, 0);
    let e = Seq::<Seq<char>>::empty();
    assert(duration_parts_from(seconds, 5) =~= e);
    assert(duration_part(seconds, 4) =~= e);
    assert(duration_parts_from(seconds, 4) =~= e);
    assert(duration_part(seconds, 3) =~= e);
    assert(duration_parts_from(seconds, 3) =~= e);
    assert(duration_part(seconds, 2) =~= e);
    assert(duration_parts_from(seconds, 2) =~= e);
    assert(duration_parts_from(seconds, 1) =~= pm);
    assert(duration_parts(seconds) =~= pm + ps);
    let parts = pm + ps;
    assert(shown_parts(parts) == parts);
    let sep = seq![' '];
    if seconds / 60 > 0 {
        assert(pm[0] == nat_digits((seconds / 60) as nat).push('m'));
    }
    if seconds % 60 > 0 {
        assert(ps[0] == nat_digits((seconds % 60) as nat).push('s'));
    }
    if seconds / 60 > 0 && seconds % 60 > 0 {
        assert(parts =~= seq![pm[0], ps[0]]);
        assert(parts.drop_last() =~= seq![pm[0]]);
        assert(join(parts.drop_last(), sep) == pm[0]);
        assert(join(parts, sep) == pm[0] + sep + ps[0]);
    } else if seconds / 60 > 0 {
        assert(parts =~= seq![pm[0]]);
        assert(join(parts, sep) == pm[0]);
    } else if seconds % 60 > 0 {
        assert(parts =~= seq![ps[0]]);
        assert(join(parts, sep) == ps[0]);
    } else {
        assert(parts =~= Seq::<Seq<char>>::empty());
    }
}

/// Each part with a `-` in front.
pub open spec fn negated_parts(parts: Seq<Seq<char>>) -> Seq<Seq<char>> {
    parts.map_values(|p: Seq<char>| seq!['-'] + p)
}

proof fn lemma_parts_from_negation(x: int, k: nat)
    requires
        x > 0,
    ensures
        duration_parts_from(-x, k) == negated_parts(duration_parts_from(x, k)),
    decreases 5 - k,
{
    if k < 5 {
        lemma_parts_from_negation(x, k + 1);
        let c = unit_count(x, k);
        assert(unit_count(-x, k) == -c);
        assert(c >= 0);
        if c != 0 {
            assert(int_decimal(-c) == seq!['-'] + nat_digits(c as nat));
            assert(int_decimal(c) == nat_digits(c as nat));
            assert(int_decimal(-c).push(unit_letter(k)) =~= seq!['-'] + int_decimal(c).push(
                unit_letter(k),
            ));
            assert(duration_part(-x, k) =~= negated_parts(duration_part(x, k)));
        } else {
            assert(duration_part(-x, k) =~= negated_parts(duration_part(x, k)));
        }
        assert(negated_parts(duration_parts_from(x, k + 1) + duration_part(x, k)) =~= negated_parts(
            duration_parts_from(x, k + 1),
        ) + negated_parts(duration_part(x, k)));
    } else {
        assert(negated_parts(duration_parts_from(x, k)) =~= Seq::<Seq<char>>::empty());
    }
}

/// The duration of `-x` seconds, for `x > 0`, shows the same units as that
/// of `x`, each with a `-` in front.
pub proof fn lemma_duration_of_negation(x: int)
    requires
        x > 0,
    ensures
        duration_parts(-x) == negated_parts(duration_parts(x)),
        duration_text(-x) == join(negated_parts(shown_parts(duration_parts(x))), seq![' ']),
{
    lemma_parts_from_negation(x, 0);
    assert(shown_parts(negated_parts(duration_parts(x))) =~= negated_parts(
        shown_parts(duration_parts(x)),
    ));
}

fn unit_table(k: usize) -> (r: (u64, u64, char))
    requires
        k < 5,
    ensures
        r.0 == unit_seconds(k as nat),
        k < 4 ==> r.1 == unit_modulus(k as nat),
        r.2 == unit_letter(k as nat),
{
    if k == 0 {
        (1, 60, 's')
    } else if k == 1 {
        (60, 60, 'm')
    } else if k == 2 {
        (3600, 24, 'h')
    } else if k == 3 {
        (86400, 7, 'd')
    } else {
        (604800, 0, 'w')
    }
}

/// Renders a number of seconds as its non-zero units, largest first, such as
/// `3w 5d 12h`. Each count is `seconds / unit % modulus` with truncating
/// arithmetic, over the units s (1, 60), m (60, 60), h (3600, 24) and
/// d (86400, 7), and whole weeks `seconds / 604800`; at most three units are
/// shown.
pub fn fmt_duration(seconds: i64) -> (s: String)
    ensures
        s@ == duration_text(seconds as int),
{
    let negative = seconds < 0;
    let magnitude: u64 = if seconds == i64::MIN {
        9223372036854775808u64
    } else if negative {
        (-seconds) as u64
    } else {
        seconds as u64
    };
    let ghost sec = seconds as int;
    let mut s = String::new();
    let mut count: usize = 0;
    let mut k: usize = 5;
    while k > 0
        invariant
            k <= 5,
            magnitude as int == if sec < 0 { -sec } else { sec },
            negative == (sec < 0),
            count == if duration_parts_from(sec, k as nat).len() <= 3 {
                duration_parts_from(sec, k as nat).len() as int
            } else {
                3
            },
            s@ == join(shown_parts(duration_parts_from(sec, k as nat)), seq![' ']),
        decreases k,
    {
        k = k - 1;
        let (d, m, letter) = unit_table(k);
        let c: u64 = if k == 4 {
            magnitude / d
        } else {
            magnitude / d % m
        };
        proof {
            vstd::arithmetic::div_mod::lemma_div_nonincreasing(magnitude as int, d as int);
            if k < 4 {
                vstd::arithmetic::div_mod::lemma_mod_pos_bound((magnitude / d) as int, m as int);
            }
        }
        assert(c <= 9223372036854775808u64);
        let ghost prev = duration_parts_from(sec, (k + 1) as nat);
        assert(duration_parts_from(sec, k as nat) == prev + duration_part(sec, k as nat));
        if c != 0 {
            let value: i64 = if negative {
                if c == 9223372036854775808u64 {
                    i64::MIN
                } else {
                    -(c as i64)
                }
            } else {
                c as i64
            };
            assert(value == unit_count(sec, k as nat));
            let ghost piece = int_decimal(value as int).push(letter);
            if count < 3 {
                let mut part = i64_to_decimal(value);
                part.push(letter);
                if count > 0 {
                    s.push(' ');
                }
                s.append(part.as_str());
                proof {
                    assert(shown_parts(prev) == prev);
                    lemma_join_push(prev, piece, seq![' ']);
                    assert(prev + duration_part(sec, k as nat) =~= prev.push(piece));
                }
                count = count + 1;
            } else {
                assert(shown_parts(prev + duration_part(sec, k as nat)) =~= shown_parts(prev));
            }
        } else {
            assert(prev + duration_part(sec, k as nat) =~= prev);
        }
    }
    s
}

} // verus!
verus! {

/// How a byte count is shown: `size / divisor` with `precision` decimals, then `suffix`.
/// Bytes below 1000 are shown as they are; from 1000 on, the largest of KB, MB
/// and GB that does not exceed the size is used.
pub fn size_scale(size: u32) -> (r: (usize, u32, &'static str))
    ensures
        size < 1000 ==> r.0 == 0 && r.1 == 1 && r.2@ == ""@,
        1000 <= size < 1_000_000 ==> r.0 == 1 && r.1 == 1000 && r.2@ == " KB"@,
        1_000_000 <= size < 1_000_000_000 ==> r.0 == 2 && r.1 == 1_000_000 && r.2@ == " MB"@,
        1_000_000_000 <= size ==> r.0 == 3 && r.1 == 1_000_000_000 && r.2@ == " GB"@,
        r.1 <= size || size < 1000,
        size < r.1 * 1000,
{
    if size < 1000 {
        (0, 1, "")
    } else if size < 1_000_000 {
        (1, 1000, " KB")
    } else if size < 1_000_000_000 {
        (2, 1_000_000, " MB")
    } else {
        (3, 1_000_000_000, " GB")
    }
}

} // verus!
