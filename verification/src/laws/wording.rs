//! What the primitives on texts do.
use vstd::prelude::*;
use crate::laws::finding::{comes_later, later_at, later_text_is_not_less};
use crate::laws::rendering::{letters_and_cases, same_letters};
use crate::laws::{lists_agree, same_list};
use crate::text::{
    chars_of, comes_before, contains_text, copy_all, copy_opt, decimal_text, eq_ignore_case,
    is_white, join_all, join_texts, joined, same_text, signed_text, slice_of, split, split_chars,
    starts_with, text_less, text_of, trim, trim_chars, trim_chars_start, trim_end, trim_start,
    trimmed, views, white,
};
use crate::server::pointer_target;

verus! {

/// A numeral of one digit is that digit; a longer one is the numeral of the tenth, and then the
/// digit that is left.  No numeral but that of zero begins with a zero.
pub proof fn numeral_is_made_of_its_digits(n: u64, s: String, m: u64, t: String)
    requires
        call_ensures(decimal_text, (n,), s),
        m == n / 10,
        call_ensures(decimal_text, (m,), t),
    ensures
        s@.len() > 0,
        s@.last() as u32 == 48 + n % 10,
        n < 10 ==> s@.len() == 1,
        n >= 10 ==> s@.drop_last() == t@,
        n > 0 ==> s@[0] as u32 > 48,
{
    no_leading_zero(n as nat);
    if n >= 10 {
        assert(s@.drop_last() =~= t@);
    }
}

proof fn no_leading_zero(n: nat)
    ensures
        crate::text::decimal(n).len() > 0,
        n > 0 ==> crate::text::decimal(n)[0] as u32 > 48,
    decreases n,
{
    if n >= 10 {
        no_leading_zero(n / 10);
    }
}

/// The numeral of a negative number is a minus and the numeral of its opposite; all others are
/// written as they are.
pub proof fn sign_comes_first(n: i32, s: String, m: u64, t: String)
    requires
        call_ensures(signed_text, (n,), s),
        m == (if n < 0 {
            -n
        } else {
            n as int
        }),
        call_ensures(decimal_text, (m,), t),
    ensures
        n < 0 ==> s@.len() > 0 && s@[0] == '-' && s@.skip(1) == t@,
        n >= 0 ==> s@ == t@,
{
    reveal_strlit("-");
    if n < 0 {
        assert(s@.skip(1) =~= t@);
    }
}

/// Two texts that are joined stand one after the other.
pub proof fn joined_texts_follow_each_other(a: &str, b: &str, s: String)
    requires
        call_ensures(joined, (a, b), s),
    ensures
        s@.len() == a@.len() + b@.len(),
        s@.take(a@.len() as int) == a@,
        s@.skip(a@.len() as int) == b@,
{
    assert(s@.take(a@.len() as int) =~= a@);
    assert(s@.skip(a@.len() as int) =~= b@);
}

/// Texts are the same where their characters are; copies hold what was copied.
pub proof fn copies_are_the_same(
    a: &str,
    b: &str,
    same: bool,
    chars: Vec<char>,
    c: &Vec<char>,
    s: String,
    o: &Option<String>,
    p: Option<String>,
    v: &Vec<String>,
    w: Vec<String>,
    from: usize,
    to: usize,
    part: Vec<char>,
)
    requires
        call_ensures(same_text, (a, b), same),
        call_ensures(chars_of, (a,), chars),
        call_ensures(text_of, (c,), s),
        call_ensures(copy_opt, (o,), p),
        call_ensures(copy_all, (v,), w),
        from <= to <= c@.len(),
        call_ensures(slice_of, (c, from, to), part),
    ensures
        same <==> a@ == b@,
        chars@ == a@,
        s@ == c@,
        crate::laws::same_option(p, *o),
        same_list(w@, v@),
        part@ == c@.subrange(from as int, to as int),
{
    lists_agree(w@, v@);
}

/// Blanks, tabulators and line ends are white; letters, digits and signs are not.  White are all
/// characters that Unicode counts as white space.
pub proof fn blanks_are_white(c: char, b: bool)
    requires
        call_ensures(white, (c,), b),
    ensures
        c == ' ' || c == '\t' || c == '\n' || c == '\r' ==> b,
        33 <= c as u32 <= 126 ==> !b,
        b <==> is_white(c),
        ({
            let n = c as u32;
            b <==> 0x9 <= n <= 0xD || n == 0x20 || n == 0x85 || n == 0xA0 || n == 0x1680 || 0x2000
                <= n <= 0x200A || n == 0x2028 || n == 0x2029 || n == 0x202F || n == 0x205F || n
                == 0x3000
        }),
{
}

/// The middle of a text from which only white characters were cut, as many as there are.
pub open spec fn is_middle(r: Seq<char>, s: Seq<char>, i: int, j: int) -> bool {
    &&& 0 <= i <= j <= s.len() && r == s.subrange(i, j)
    &&& forall|k: int| 0 <= k < i ==> is_white(#[trigger] s[k])
    &&& forall|k: int| j <= k < s.len() ==> is_white(#[trigger] s[k])
    &&& r.len() > 0 ==> !is_white(r[0]) && !is_white(r.last())
}

proof fn front_is_cut(s: Seq<char>) -> (i: int)
    ensures
        0 <= i <= s.len(),
        trim_start(s) == s.skip(i),
        forall|k: int| 0 <= k < i ==> is_white(#[trigger] s[k]),
        i < s.len() ==> !is_white(s[i]),
    decreases s.len(),
{
    if s.len() > 0 && is_white(s[0]) {
        let t = s.drop_first();
        let i = front_is_cut(t);
        assert(t.skip(i) =~= s.skip(i + 1));
        assert forall|k: int| 0 <= k < i + 1 implies is_white(#[trigger] s[k]) by {
            if k > 0 {
                assert(t[k - 1] == s[k]);
            }
        }
        if i < t.len() {
            assert(t[i] == s[i + 1]);
        }
        i + 1
    } else {
        assert(s.skip(0) =~= s);
        0
    }
}

proof fn back_is_cut(s: Seq<char>) -> (j: int)
    ensures
        0 <= j <= s.len(),
        trim_end(s) == s.take(j),
        forall|k: int| j <= k < s.len() ==> is_white(#[trigger] s[k]),
        j > 0 ==> !is_white(s[j - 1]),
    decreases s.len(),
{
    if s.len() > 0 && is_white(s.last()) {
        let t = s.drop_last();
        let j = back_is_cut(t);
        assert(t.take(j) =~= s.take(j));
        assert forall|k: int| j <= k < s.len() implies is_white(#[trigger] s[k]) by {
            if k < t.len() {
                assert(t[k] == s[k]);
            }
        }
        if j > 0 {
            assert(t[j - 1] == s[j - 1]);
        }
        j
    } else {
        assert(s.take(s.len() as int) =~= s);
        s.len() as int
    }
}

pub(crate) proof fn middle_is_left(s: Seq<char>)
    ensures
        exists|i: int, j: int| #[trigger] is_middle(trim(s), s, i, j),
{
    let i = front_is_cut(s);
    let t = s.skip(i);
    let j = back_is_cut(t);
    assert(t.take(j) =~= s.subrange(i, i + j));
    assert forall|k: int| i + j <= k < s.len() implies is_white(#[trigger] s[k]) by {
        assert(t[k - i] == s[k]);
    }
    if j > 0 {
        assert(t[0] == s[i] && t[j - 1] == s[i + j - 1]);
        assert(!is_white(s[i]));
    }
    assert(is_middle(trim(s), s, i, i + j));
}

/// Trimming cuts the white characters at both ends and no other.
pub proof fn trimming_cuts_the_ends(
    s: &str,
    r: String,
    c: &Vec<char>,
    t: Vec<char>,
    f: Vec<char>,
    raw: &str,
    p: String,
)
    requires
        call_ensures(trimmed, (s,), r),
        call_ensures(trim_chars, (c,), t),
        call_ensures(trim_chars_start, (c,), f),
        call_ensures(pointer_target, (raw,), p),
    ensures
        exists|i: int, j: int| #[trigger] is_middle(r@, s@, i, j),
        exists|i: int, j: int| #[trigger] is_middle(t@, c@, i, j),
        exists|i: int, j: int| #[trigger] is_middle(p@, raw@, i, j),
        f@.len() <= c@.len() && f@ == c@.skip(c@.len() - f@.len()),
        forall|k: int| 0 <= k < c@.len() - f@.len() ==> is_white(#[trigger] c@[k]),
        f@.len() > 0 ==> !is_white(f@[0]),
{
    middle_is_left(s@);
    middle_is_left(c@);
    middle_is_left(raw@);
    let i = front_is_cut(c@);
}

/// Texts are the same up to case where character by character they are the same letter, or the same
/// character.
pub proof fn case_is_ignored(a: &str, b: &str, r: bool)
    requires
        call_ensures(eq_ignore_case, (a, b), r),
    ensures
        r <==> same_letters(a@, b@),
{
    letters_and_cases(a@, b@);
}

/// Characters begin with a text where its characters come first.
pub proof fn beginning_comes_first(chars: &Vec<char>, prefix: &str, r: bool)
    requires
        call_ensures(starts_with, (chars, prefix), r),
    ensures
        r <==> prefix@.len() <= chars@.len() && forall|i: int|
            0 <= i < prefix@.len() ==> #[trigger] prefix@[i] == chars@[i],
{
    if prefix@.len() <= chars@.len() && forall|i: int|
        0 <= i < prefix@.len() ==> #[trigger] prefix@[i] == chars@[i] {
        assert(prefix@ =~= chars@.subrange(0, prefix@.len() as int));
    }
    if r {
        assert forall|i: int| 0 <= i < prefix@.len() implies #[trigger] prefix@[i] == chars@[i] by {
            assert(prefix@[i] == chars@.subrange(0, prefix@.len() as int)[i]);
        }
    }
}

/// A text holds another where the other stands in it, at whatever position.
pub proof fn part_is_found_where_it_stands(s: &str, pattern: &str, r: bool, i: int)
    requires
        call_ensures(contains_text, (s, pattern), r),
    ensures
        0 <= i && i + pattern@.len() <= s@.len() && s@.subrange(i, i + pattern@.len()) == pattern@
            ==> r,
        r ==> exists|k: int|
            0 <= k && k + pattern@.len() <= s@.len() && #[trigger] s@.subrange(
                k,
                k + pattern@.len(),
            ) == pattern@,
{
    if 0 <= i && i + pattern@.len() <= s@.len() && s@.subrange(i, i + pattern@.len()) == pattern@ {
        assert(crate::text::occurs_at(pattern@, s@, i));
    }
    if r {
        let k = choose|k: int| crate::text::occurs_at(pattern@, s@, k);
        assert(s@.subrange(k, k + pattern@.len()) == pattern@);
    }
}

/// The pieces one after the other, with the separator between each two.
pub open spec fn glued(parts: Seq<Seq<char>>, sep: Seq<char>) -> Seq<char>
    decreases parts.len(),
{
    if parts.len() == 0 {
        Seq::empty()
    } else if parts.len() == 1 {
        parts[0]
    } else {
        parts[0] + (sep + glued(parts.skip(1), sep))
    }
}

proof fn joined_is_glued(parts: Seq<Seq<char>>, sep: Seq<char>)
    ensures
        join_texts(parts, sep) == glued(parts, sep),
    decreases parts.len(),
{
    if parts.len() == 2 {
        joined_is_glued(parts.drop_last(), sep);
        let one = parts.skip(1);
        assert(one.len() == 1 && one[0] == parts.last());
        assert(parts.drop_last()[0] == parts[0]);
        assert(glued(one, sep) == parts.last());
        assert(join_texts(parts.drop_last(), sep) == parts[0]);
        assert(join_texts(parts, sep) == parts[0] + sep + parts.last());
        assert(glued(parts, sep) == parts[0] + (sep + parts.last()));
        assert(join_texts(parts, sep) =~= glued(parts, sep));
    } else if parts.len() > 2 {
        let front = parts.drop_last();
        let rest = parts.skip(1);
        joined_is_glued(front, sep);
        joined_is_glued(rest, sep);
        joined_is_glued(rest.drop_last(), sep);
        assert(front.skip(1) =~= rest.drop_last());
        assert(rest.last() == parts.last() && front[0] == parts[0]);
        let x = glued(front.skip(1), sep);
        assert(glued(front, sep) == parts[0] + (sep + x));
        assert(glued(rest, sep) == x + sep + parts.last());
        assert(join_texts(parts, sep) == parts[0] + (sep + x) + sep + parts.last());
        assert(glued(parts, sep) == parts[0] + (sep + (x + sep + parts.last())));
        assert(join_texts(parts, sep) =~= glued(parts, sep));
    }
}

proof fn glued_pieces_are_the_text(s: Seq<char>, sep: char)
    ensures
        split(s, sep).len() > 0,
        join_texts(split(s, sep), seq![sep]) == s,
    decreases s.len(),
{
    let now = split(s, sep);
    if s.len() == 0 {
        assert(now[0] =~= s);
    } else {
        let before = split(s.drop_last(), sep);
        glued_pieces_are_the_text(s.drop_last(), sep);
        let front = join_texts(before, seq![sep]);
        assert(front == s.drop_last());
        assert(s =~= s.drop_last().push(s.last()));
        if s.last() == sep {
            assert(now.drop_last() =~= before);
            assert(now.last() =~= Seq::empty());
            assert(join_texts(now, seq![sep]) =~= s);
        } else {
            assert(now.drop_last() =~= before.drop_last());
            assert(now.last() == before.last().push(s.last()));
            assert(join_texts(now, seq![sep]) =~= s);
        }
    }
}

/// Texts are joined in order, with the separator between each two and nowhere else.
pub proof fn joined_list_is_glued(parts: &Vec<String>, sep: &str, r: String)
    requires
        call_ensures(join_all, (parts, sep), r),
    ensures
        r@ == glued(views(parts@), sep@),
{
    joined_is_glued(views(parts@), sep@);
}

/// Splitting gives pieces without the separator that, with the separator between each two, are the
/// text again.
pub proof fn pieces_make_the_text(chars: &Vec<char>, sep: char, r: Vec<Vec<char>>, i: int)
    requires
        call_ensures(split_chars, (chars, sep), r),
    ensures
        r@.len() > 0,
        0 <= i < r@.len() ==> !r@[i]@.contains(sep),
        glued(Seq::new(r@.len(), |k: int| r@[k]@), seq![sep]) == chars@,
{
    let pieces = Seq::new(r@.len(), |k: int| r@[k]@);
    assert(pieces =~= split(chars@, sep));
    crate::text::pieces_lack_the_separator(chars@, sep);
    glued_pieces_are_the_text(chars@, sep);
    joined_is_glued(pieces, seq![sep]);
    if 0 <= i < r@.len() {
        assert(!split(chars@, sep)[i].contains(sep));
    }
}

proof fn first_difference(a: Seq<char>, b: Seq<char>)
    requires
        text_less(a, b),
    ensures
        exists|k: int| #[trigger] later_at(b, a, k),
    decreases a.len(),
{
    if a.len() == 0 {
        assert(later_at(b, a, 0));
    } else if a[0] as int == b[0] as int {
        let (c, d) = (a.drop_first(), b.drop_first());
        first_difference(c, d);
        let k = choose|k: int| #[trigger] later_at(d, c, k);
        assert forall|i: int| 0 <= i < k + 1 implies #[trigger] b[i] == a[i] by {
            if i > 0 {
                assert(d[i - 1] == c[i - 1]);
            }
        }
        if k + 1 < a.len() {
            assert(d[k] == b[k + 1] && c[k] == a[k + 1]);
        }
        assert(later_at(b, a, k + 1));
    } else {
        assert(later_at(b, a, 0));
    }
}

/// One text comes before another where the other is higher at their first difference, or goes on
/// where the one has ended.
pub proof fn first_difference_decides(a: &str, b: &str, r: bool)
    requires
        call_ensures(comes_before, (a, b), r),
    ensures
        r <==> comes_later(b@, a@),
{
    if comes_later(b@, a@) {
        let k = choose|k: int| #[trigger] later_at(b@, a@, k);
        later_text_is_not_less(b@, a@, k);
    }
    if r {
        first_difference(a@, b@);
    }
}

} // verus!
