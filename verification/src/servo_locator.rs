//! Finding a staged engine binary.
//!
//! Staged builds live under `<base>/<target triple>/<profile>/<commit>/`.  What is on disk comes in
//! as plain facts; this module decides which build is taken.
use vstd::prelude::*;
use serde_json::Value;
use crate::json::{
    json_as_str, json_contents, json_from_slice, json_get, json_parse, JsonContents,
};
use crate::server::{present, Candidate};
use crate::text::{
    char_views, chars_of, comes_before, joined, opt_view, split, split_chars, starts_with, text_less,
    text_of, text_order_is_total, text_order_is_transitive, trim, trim_chars, views, slice_of,
};

verus! {

/// What was recorded of a staged build.
#[derive(Debug, Clone, PartialEq, Eq)]
pub struct ServoMetadata {
    pub servo_commit: String,
    pub build_profile: String,
    pub enabled_features: Vec<String>,
    pub timestamp: String,
    pub target_triple: String,
    pub rust_toolchain: String,
    pub binary_name: String,
}

/// A binary that is ready to use.
#[derive(Debug, Clone, PartialEq, Eq)]
pub struct PreparedServo {
    pub binary: String,
    pub metadata: Option<ServoMetadata>,
}

/// A directory of one build.
#[derive(Debug, Clone)]
pub struct CommitDir {
    pub path: String,
    /// Last component of the path, empty where it is not text.
    pub name: String,
    /// Where its binary is expected.
    pub binary: Candidate,
    pub metadata: Option<ServoMetadata>,
    /// Seconds since the last change, negated.
    pub age: i64,
}

/// What stands in one slot.
pub struct SlotFacts {
    /// The directory that the link `current` leads to.
    pub current: Option<CommitDir>,
    /// The directory that the manifest names.
    pub manifest: Option<CommitDir>,
    /// All directories.
    pub children: Vec<CommitDir>,
}

/// The facts of a slot and of the directory above it, where a misplaced link or manifest is
/// tolerated.
pub struct SlotPair {
    pub slot: SlotFacts,
    pub legacy: SlotFacts,
}

/// Whether a character is left out of a time stamp's score.
pub open spec fn is_stamp_mark(c: char) -> bool {
    c == '-' || c == ':' || c == 'T' || c == 'Z' || c == '+' || c == '.'
}

/// The number that a digit stands for.
pub open spec fn digit_value(c: char) -> int {
    c as int - '0' as int
}

/// Whether a character is a decimal digit.
pub open spec fn is_digit(c: char) -> bool {
    0 <= digit_value(c) <= 9
}

/// The number that the digits among characters make up.
pub open spec fn digits_number(s: Seq<char>) -> int
    decreases s.len(),
{
    if s.len() == 0 {
        0
    } else if is_digit(s.last()) {
        digits_number(s.drop_last()) * 10 + digit_value(s.last())
    } else {
        digits_number(s.drop_last())
    }
}

/// A time stamp without its marks.
pub open spec fn unmarked(s: Seq<char>) -> Seq<char> {
    s.filter(|c: char| !is_stamp_mark(c))
}

/// At most the first `n` elements.
pub open spec fn at_most(s: Seq<char>, n: int) -> Seq<char> {
    if s.len() > n {
        s.take(n)
    } else {
        s
    }
}

/// The score of a time stamp: the number made of the digits among its first fourteen characters,
/// marks left out.
pub open spec fn stamp_score(s: Seq<char>) -> int {
    digits_number(at_most(unmarked(s), 14))
}

proof fn digits_number_bounds(s: Seq<char>)
    requires
        s.len() <= 14,
    ensures
        0 <= digits_number(s) < power_of_ten(s.len()),
        power_of_ten(s.len()) <= 100_000_000_000_000,
    decreases s.len(),
{
    if s.len() > 0 {
        digits_number_bounds(s.drop_last());
    }
    ten_powers_grow(s.len(), 14);
    assert(power_of_ten(14) == 100_000_000_000_000) by {
        reveal_with_fuel(power_of_ten, 15);
    }
}

/// Powers of ten.
pub open spec fn power_of_ten(n: nat) -> int
    decreases n,
{
    if n == 0 {
        1
    } else {
        10 * power_of_ten((n - 1) as nat)
    }
}

proof fn ten_powers_grow(a: nat, b: nat)
    requires
        a <= b,
    ensures
        1 <= power_of_ten(a) <= power_of_ten(b),
    decreases b,
{
    if a < b {
        ten_powers_grow(a, (b - 1) as nat);
    } else if b > 0 {
        ten_powers_grow((a - 1) as nat, (b - 1) as nat);
    }
}

fn stamp_mark(c: char) -> (b: bool)
    ensures
        b == is_stamp_mark(c),
{
    c == '-' || c == ':' || c == 'T' || c == 'Z' || c == '+' || c == '.'
}

fn digit_of(c: char) -> (d: Option<i64>)
    ensures
        is_digit(c) ==> d is Some && d->0 == digit_value(c),
        !is_digit(c) ==> d is None,
{
    let n: u32 = c as u32;
    if 48 <= n && n <= 57 {
        Some((n - 48) as i64)
    } else {
        None
    }
}

/// Scores a time stamp for comparison; every text has a score.
pub fn parse_rfc3339_as_seconds(s: &str) -> (r: Result<i64, String>)
    ensures
        r is Ok,
        r->Ok_0 == stamp_score(s@),
{
    let chars = chars_of(s);
    let mut kept: Vec<char> = Vec::new();
    let mut i: usize = 0;
    let ghost keep = |c: char| !is_stamp_mark(c);
    proof {
        reveal(Seq::filter);
        assert(chars@.take(0).filter(keep) =~= Seq::empty());
    }
    while i < chars.len()
        invariant
            i <= chars.len(),
            keep == (|c: char| !is_stamp_mark(c)),
            kept@ == chars@.take(i as int).filter(keep),
        decreases chars.len() - i,
    {
        proof {
            reveal(Seq::filter);
            assert(chars@.take(i + 1).drop_last() =~= chars@.take(i as int));
        }
        if !stamp_mark(chars[i]) {
            kept.push(chars[i]);
        }
        i += 1;
    }
    proof {
        assert(chars@.take(i as int) =~= chars@);
        assert(kept@ == unmarked(s@));
    }
    let n: usize = if kept.len() > 14 {
        14
    } else {
        kept.len()
    };
    let ghost head = at_most(unmarked(s@), 14);
    proof {
        assert(head =~= kept@.take(n as int));
        assert(kept@.take(0) =~= Seq::empty());
    }
    let mut score: i64 = 0;
    let mut k: usize = 0;
    while k < n
        invariant
            k <= n <= kept.len(),
            n <= 14,
            score == digits_number(kept@.take(k as int)),
        decreases n - k,
    {
        proof {
            digits_number_bounds(kept@.take(k as int));
            assert(kept@.take(k + 1).drop_last() =~= kept@.take(k as int));
        }
        match digit_of(kept[k]) {
            Some(d) => {
                score = score * 10 + d;
            },
            None => {},
        }
        k += 1;
    }
    Ok(score)
}

/// Whether the nineteen characters from the first have the form `YYYY-MM-DDTHH:MM:SS`.
pub open spec fn is_stamp(s: Seq<char>) -> bool {
    &&& s.len() >= 19
    &&& s[4] == '-' && s[7] == '-' && s[10] == 'T' && s[13] == ':' && s[16] == ':'
    &&& forall|i: int|
        0 <= i < 19 && i != 4 && i != 7 && i != 10 && i != 13 && i != 16 ==> is_digit(#[trigger] s[i])
}

/// The number that two digits make up.
pub open spec fn two_digits(s: Seq<char>, i: int) -> int {
    digit_value(s[i]) * 10 + digit_value(s[i + 1])
}

/// The year of a time stamp.
pub open spec fn stamp_year(s: Seq<char>) -> int {
    two_digits(s, 0) * 100 + two_digits(s, 2)
}

/// Whether the time of `a` comes before the time of `b`, field by field.
pub open spec fn earlier(a: Seq<char>, b: Seq<char>) -> bool {
    if stamp_year(a) != stamp_year(b) {
        stamp_year(a) < stamp_year(b)
    } else if two_digits(a, 5) != two_digits(b, 5) {
        two_digits(a, 5) < two_digits(b, 5)
    } else if two_digits(a, 8) != two_digits(b, 8) {
        two_digits(a, 8) < two_digits(b, 8)
    } else if two_digits(a, 11) != two_digits(b, 11) {
        two_digits(a, 11) < two_digits(b, 11)
    } else if two_digits(a, 14) != two_digits(b, 14) {
        two_digits(a, 14) < two_digits(b, 14)
    } else {
        two_digits(a, 17) < two_digits(b, 17)
    }
}

/// Filtering keeps a sequence whose elements all pass.
proof fn filter_keeps_all(s: Seq<char>, keep: spec_fn(char) -> bool)
    requires
        forall|i: int| 0 <= i < s.len() ==> keep(#[trigger] s[i]),
    ensures
        s.filter(keep) == s,
    decreases s.len(),
{
    reveal(Seq::filter);
    if s.len() > 0 {
        filter_keeps_all(s.drop_last(), keep);
        assert(s.drop_last().push(s.last()) =~= s);
    }
}

/// Digits are no marks, so a run of digits followed by a mark loses only the mark.
proof fn run_then_mark(s: Seq<char>, from: int, to: int)
    requires
        0 <= from <= to < s.len(),
        forall|i: int| from <= i < to ==> is_digit(#[trigger] s[i]),
        is_stamp_mark(s[to]),
    ensures
        unmarked(s.subrange(0, to + 1)) == unmarked(s.subrange(0, from)) + s.subrange(from, to),
{
    let keep = |c: char| !is_stamp_mark(c);
    let run = s.subrange(from, to);
    assert forall|i: int| 0 <= i < run.len() implies keep(#[trigger] run[i]) by {
        assert(run[i] == s[from + i]);
        assert(is_digit(s[from + i]));
    }
    filter_keeps_all(run, keep);
    let one = seq![s[to]];
    assert(one.filter(keep) =~= Seq::empty()) by {
        reveal(Seq::filter);
        assert(one.drop_last() =~= Seq::empty());
        assert(one.drop_last().filter(keep) =~= Seq::empty());
        assert(!keep(one.last()));
    }
    assert(s.subrange(0, to + 1) =~= s.subrange(0, from) + run + one);
    Seq::filter_distributes_over_add(s.subrange(0, from) + run, one, keep);
    Seq::filter_distributes_over_add(s.subrange(0, from), run, keep);
    assert(unmarked(s.subrange(0, from)) + run + Seq::<char>::empty() =~= unmarked(
        s.subrange(0, from),
    ) + run);
}

/// The score of a well-formed time stamp is the number of its fourteen digits, whatever follows.
pub(crate) proof fn stamp_score_value(s: Seq<char>)
    requires
        is_stamp(s),
    ensures
        stamp_score(s) == ((((stamp_year(s) * 100 + two_digits(s, 5)) * 100 + two_digits(s, 8)) * 100
            + two_digits(s, 11)) * 100 + two_digits(s, 14)) * 100 + two_digits(s, 17),
{
    let keep = |c: char| !is_stamp_mark(c);
    assert(unmarked(s.subrange(0, 0)) =~= Seq::empty()) by {
        reveal(Seq::filter);
    }
    run_then_mark(s, 0, 4);
    run_then_mark(s, 5, 7);
    run_then_mark(s, 8, 10);
    run_then_mark(s, 11, 13);
    run_then_mark(s, 14, 16);
    let seconds = s.subrange(17, 19);
    assert forall|i: int| 0 <= i < seconds.len() implies keep(#[trigger] seconds[i]) by {
        assert(seconds[i] == s[17 + i]);
        assert(is_digit(s[17 + i]));
    }
    filter_keeps_all(seconds, keep);
    let rest = s.skip(19);
    assert(s =~= s.subrange(0, 17) + seconds + rest);
    Seq::filter_distributes_over_add(s.subrange(0, 17) + seconds, rest, keep);
    Seq::filter_distributes_over_add(s.subrange(0, 17), seconds, keep);
    let digits = seq![
        s[0], s[1], s[2], s[3], s[5], s[6], s[8], s[9], s[11], s[12], s[14], s[15], s[17], s[18],
    ];
    assert(at_most(unmarked(s), 14) =~= digits);
    assert(is_digit(s[0]) && is_digit(s[1]) && is_digit(s[2]) && is_digit(s[3]) && is_digit(s[5])
        && is_digit(s[6]) && is_digit(s[8]) && is_digit(s[9]) && is_digit(s[11]) && is_digit(s[12])
        && is_digit(s[14]) && is_digit(s[15]) && is_digit(s[17]) && is_digit(s[18]));
    digits_step(digits, 14);
    digits_step(digits, 13);
    digits_step(digits, 12);
    digits_step(digits, 11);
    digits_step(digits, 10);
    digits_step(digits, 9);
    digits_step(digits, 8);
    digits_step(digits, 7);
    digits_step(digits, 6);
    digits_step(digits, 5);
    digits_step(digits, 4);
    digits_step(digits, 3);
    digits_step(digits, 2);
    digits_step(digits, 1);
    assert(digits.take(14) =~= digits);
    assert(digits_number(digits.take(0)) == 0);
}

/// One more digit.
proof fn digits_step(s: Seq<char>, n: int)
    requires
        0 < n <= s.len(),
        is_digit(s[n - 1]),
    ensures
        digits_number(s.take(n)) == digits_number(s.take(n - 1)) * 10 + digit_value(s[n - 1]),
{
    assert(s.take(n).drop_last() =~= s.take(n - 1));
    assert(s.take(n).last() == s[n - 1]);
}

/// Scores follow time: of two well-formed time stamps the earlier has the lower score, whatever
/// fraction or zone follows the seconds.
pub proof fn earlier_stamp_scores_lower(a: Seq<char>, b: Seq<char>)
    requires
        is_stamp(a),
        is_stamp(b),
        earlier(a, b),
    ensures
        stamp_score(a) < stamp_score(b),
{
    stamp_score_value(a);
    stamp_score_value(b);
    assert(forall|i: int|
        0 <= i < 19 && i != 4 && i != 7 && i != 10 && i != 13 && i != 16 ==> 0 <= digit_value(
            #[trigger] a[i],
        ) <= 9);
    assert(forall|i: int|
        0 <= i < 19 && i != 4 && i != 7 && i != 10 && i != 13 && i != 16 ==> 0 <= digit_value(
            #[trigger] b[i],
        ) <= 9);
    assert(0 <= two_digits(a, 5) < 100 && 0 <= two_digits(b, 5) < 100);
    assert(0 <= two_digits(a, 8) < 100 && 0 <= two_digits(b, 8) < 100);
    assert(0 <= two_digits(a, 11) < 100 && 0 <= two_digits(b, 11) < 100);
    assert(0 <= two_digits(a, 14) < 100 && 0 <= two_digits(b, 14) < 100);
    assert(0 <= two_digits(a, 17) < 100 && 0 <= two_digits(b, 17) < 100);
}

/// Every score is a number of at most fourteen digits.
pub proof fn scores_are_bounded(s: Seq<char>)
    ensures
        0 <= stamp_score(s) < 100_000_000_000_000,
{
    digits_number_bounds(at_most(unmarked(s), 14));
}

/// Two well-formed time stamps have the same score exactly where they agree up to the seconds.
pub proof fn equal_scores_mean_equal_times(a: Seq<char>, b: Seq<char>)
    requires
        is_stamp(a),
        is_stamp(b),
    ensures
        stamp_score(a) == stamp_score(b) <==> a.take(19) == b.take(19),
{
    let (x, y) = (a.take(19), b.take(19));
    if x == y {
        stamp_score_value(a);
        stamp_score_value(b);
        assert forall|i: int| 0 <= i < 19 implies a[i] == b[i] by {
            assert(x[i] == a[i] && y[i] == b[i]);
        }
    }
    if stamp_score(a) == stamp_score(b) {
        if earlier(a, b) {
            earlier_stamp_scores_lower(a, b);
        }
        if earlier(b, a) {
            earlier_stamp_scores_lower(b, a);
        }
        assert forall|i: int|
            0 <= i < 19 && i != 4 && i != 7 && i != 10 && i != 13 && i != 16 implies 0
            <= digit_value(#[trigger] a[i]) <= 9 && 0 <= digit_value(b[i]) <= 9 by {
            assert(is_digit(a[i]) && is_digit(b[i]));
        }
        same_pair(a, b, 5);
        same_pair(a, b, 8);
        same_pair(a, b, 11);
        same_pair(a, b, 14);
        same_pair(a, b, 17);
        assert(two_digits(a, 0) == two_digits(b, 0) && two_digits(a, 2) == two_digits(b, 2));
        same_pair(a, b, 0);
        same_pair(a, b, 2);
        assert(x =~= y);
    }
}

proof fn same_pair(a: Seq<char>, b: Seq<char>, i: int)
    requires
        0 <= i,
        i + 1 < a.len(),
        i + 1 < b.len(),
        is_digit(a[i]) && is_digit(a[i + 1]) && is_digit(b[i]) && is_digit(b[i + 1]),
        two_digits(a, i) == two_digits(b, i),
    ensures
        a[i] == b[i],
        a[i + 1] == b[i + 1],
{
    assert(a[i] as int == b[i] as int && a[i + 1] as int == b[i + 1] as int);
}

/// The score that the metadata of a build has; a build without metadata has none.
pub fn read_metadata_timestamp(metadata: &Option<ServoMetadata>) -> (r: Option<i64>)
    ensures
        match *metadata {
            Some(m) => r is Some && r->0 == stamp_score(m.timestamp@),
            None => r is None,
        },
{
    match metadata {
        Some(m) => match parse_rfc3339_as_seconds(m.timestamp.as_str()) {
            Ok(score) => Some(score),
            Err(_) => None,
        },
        None => None,
    }
}

/// The score of a build directory; 0 without metadata.
pub open spec fn dir_score(d: CommitDir) -> int {
    match d.metadata {
        Some(m) => stamp_score(m.timestamp@),
        None => 0,
    }
}

/// Whether build `a` is preferred to build `b`: by time stamp, then by the time of the last change,
/// then by name, then by path.
pub open spec fn newer(a: CommitDir, b: CommitDir) -> bool {
    if dir_score(a) != dir_score(b) {
        dir_score(a) > dir_score(b)
    } else if a.age != b.age {
        a.age > b.age
    } else if a.name@ != b.name@ {
        text_less(b.name@, a.name@)
    } else {
        text_less(b.path@, a.path@)
    }
}

proof fn newer_is_transitive(a: CommitDir, b: CommitDir, c: CommitDir)
    requires
        newer(a, b),
        newer(b, c),
    ensures
        newer(a, c),
{
    text_order_is_total(a.name@, b.name@);
    text_order_is_total(b.name@, c.name@);
    text_order_is_total(a.name@, c.name@);
    if text_less(c.name@, b.name@) && text_less(b.name@, a.name@) {
        text_order_is_transitive(c.name@, b.name@, a.name@);
    }
    if text_less(c.path@, b.path@) && text_less(b.path@, a.path@) {
        text_order_is_transitive(c.path@, b.path@, a.path@);
    }
}

proof fn newer_is_asymmetric(a: CommitDir, b: CommitDir)
    ensures
        !(newer(a, b) && newer(b, a)),
        !newer(a, a),
{
    text_order_is_total(a.name@, b.name@);
    text_order_is_total(a.path@, b.path@);
}

proof fn not_newer_passes_on(a: CommitDir, b: CommitDir, c: CommitDir)
    requires
        newer(a, b),
        !newer(c, b),
    ensures
        !newer(c, a),
{
    if newer(c, a) {
        newer_is_transitive(c, a, b);
    }
}

fn score_of(d: &CommitDir) -> (r: i64)
    ensures
        r == dir_score(*d),
{
    match read_metadata_timestamp(&d.metadata) {
        Some(t) => t,
        None => 0,
    }
}

fn is_newer(a: &CommitDir, b: &CommitDir) -> (r: bool)
    ensures
        r == newer(*a, *b),
{
    let sa: i64 = score_of(a);
    let sb: i64 = score_of(b);
    if sa != sb {
        return sa > sb;
    }
    if a.age != b.age {
        return a.age > b.age;
    }
    if !crate::text::same_text(a.name.as_str(), b.name.as_str()) {
        return comes_before(b.name.as_str(), a.name.as_str());
    }
    comes_before(b.path.as_str(), a.path.as_str())
}

/// Position `i` holds a build that no other is preferred to, and the first such.
pub open spec fn is_newest(dirs: Seq<CommitDir>, i: int) -> bool {
    &&& 0 <= i < dirs.len()
    &&& forall|j: int| 0 <= j < dirs.len() ==> !newer(#[trigger] dirs[j], dirs[i])
    &&& forall|j: int| 0 <= j < i ==> newer(dirs[i], #[trigger] dirs[j])
}

fn newest(dirs: &Vec<CommitDir>) -> (r: Option<usize>)
    ensures
        dirs@.len() == 0 ==> r is None,
        dirs@.len() > 0 ==> r is Some && is_newest(dirs@, r->0 as int),
{
    if dirs.len() == 0 {
        return None;
    }
    let mut best: usize = 0;
    let mut i: usize = 1;
    proof {
        newer_is_asymmetric(dirs@[0], dirs@[0]);
    }
    while i < dirs.len()
        invariant
            best < i <= dirs.len(),
            forall|j: int| 0 <= j < i ==> !newer(#[trigger] dirs@[j], dirs@[best as int]),
            forall|j: int| 0 <= j < best ==> newer(dirs@[best as int], #[trigger] dirs@[j]),
        decreases dirs.len() - i,
    {
        if is_newer(&dirs[i], &dirs[best]) {
            proof {
                newer_is_asymmetric(dirs@[i as int], dirs@[i as int]);
                assert forall|j: int| 0 <= j < i + 1 implies !newer(
                    #[trigger] dirs@[j],
                    dirs@[i as int],
                ) by {
                    if j < i {
                        not_newer_passes_on(dirs@[i as int], dirs@[best as int], dirs@[j]);
                    }
                }
                assert forall|j: int| 0 <= j < i implies newer(
                    dirs@[i as int],
                    #[trigger] dirs@[j],
                ) by {
                    if !newer(dirs@[best as int], dirs@[j]) {
                        order_is_total(dirs@[best as int], dirs@[j]);
                        same_rank_passes_on(dirs@[i as int], dirs@[best as int], dirs@[j]);
                    } else {
                        newer_is_transitive(dirs@[i as int], dirs@[best as int], dirs@[j]);
                    }
                }
            }
            best = i;
        }
        i += 1;
    }
    Some(best)
}

/// Builds of which neither is preferred have the same rank in every respect.
proof fn order_is_total(a: CommitDir, b: CommitDir)
    requires
        !newer(a, b),
        !newer(b, a),
    ensures
        dir_score(a) == dir_score(b),
        a.age == b.age,
        a.name@ == b.name@,
        a.path@ == b.path@,
{
    text_order_is_total(a.name@, b.name@);
    text_order_is_total(a.path@, b.path@);
}

proof fn same_rank_passes_on(a: CommitDir, b: CommitDir, c: CommitDir)
    requires
        newer(a, b),
        dir_score(c) == dir_score(b),
        c.age == b.age,
        c.name@ == b.name@,
        c.path@ == b.path@,
    ensures
        newer(a, c),
{
}

/// What a build directory offers, if its binary is there.
pub open spec fn artifact(d: CommitDir) -> Option<PreparedServo> {
    if d.binary.exists {
        Some(PreparedServo { binary: d.binary.path, metadata: d.metadata })
    } else {
        None
    }
}

/// Takes a build from its directory, if its binary is there.
pub fn make_artifact_from_commit_dir(d: CommitDir) -> (r: Option<PreparedServo>)
    ensures
        r == artifact(d),
{
    if d.binary.exists {
        Some(PreparedServo { binary: d.binary.path, metadata: d.metadata })
    } else {
        None
    }
}

/// What an optional build directory offers.
pub open spec fn opt_artifact(d: Option<CommitDir>) -> Option<PreparedServo> {
    match d {
        Some(d) => artifact(d),
        None => None,
    }
}

/// `r` is what a slot offers: its current build, else the build of its manifest, else its newest
/// build; where the newest build has no binary, nothing.
pub open spec fn slot_offers(slot: SlotFacts, r: Option<PreparedServo>) -> bool {
    if opt_artifact(slot.current) is Some {
        r == opt_artifact(slot.current)
    } else if opt_artifact(slot.manifest) is Some {
        r == opt_artifact(slot.manifest)
    } else if slot.children@.len() == 0 {
        r is None
    } else {
        exists|i: int| #[trigger]
            is_newest(slot.children@, i) && r == artifact(slot.children@[i])
    }
}

/// Takes the build of a slot.
pub fn locate_within_slot_dir(slot: SlotFacts) -> (r: Option<PreparedServo>)
    ensures
        slot_offers(slot, r),
{
    match slot.current {
        Some(d) => {
            let found = make_artifact_from_commit_dir(d);
            if found.is_some() {
                return found;
            }
        },
        None => {},
    }
    match slot.manifest {
        Some(d) => {
            let found = make_artifact_from_commit_dir(d);
            if found.is_some() {
                return found;
            }
        },
        None => {},
    }
    let mut children = slot.children;
    match newest(&children) {
        Some(i) => {
            let d = children.swap_remove(i);
            proof {
                assert(d == slot.children@[i as int]);
                assert(is_newest(slot.children@, i as int));
            }
            make_artifact_from_commit_dir(d)
        },
        None => None,
    }
}

/// `r` is what a slot and the directory above it offer; the slot comes first.
pub open spec fn pair_offers(pair: SlotPair, r: Option<PreparedServo>) -> bool {
    exists|first: Option<PreparedServo>| #[trigger]
        slot_offers(pair.slot, first) && if first is Some {
            r == first
        } else {
            slot_offers(pair.legacy, r)
        }
}

/// Takes the build of a slot, or of the directory above it.
pub fn locate_in_slot(pair: SlotPair) -> (r: Option<PreparedServo>)
    ensures
        pair_offers(pair, r),
{
    let found = locate_within_slot_dir(pair.slot);
    if found.is_some() {
        return found;
    }
    locate_within_slot_dir(pair.legacy)
}

/// `r` is what the first slot with an offer offers.
pub open spec fn slots_offer(slots: Seq<SlotPair>, r: Option<PreparedServo>) -> bool
    decreases slots.len(),
{
    if slots.len() == 0 {
        r is None
    } else {
        exists|first: Option<PreparedServo>| #[trigger]
            pair_offers(slots[0], first) && if first is Some {
                r == first
            } else {
                slots_offer(slots.drop_first(), r)
            }
    }
}

/// `r` is the prepared build: the one that the environment names, else that of the first slot with
/// one.
pub open spec fn located(
    env: Option<PreparedServo>,
    slots: Seq<SlotPair>,
    r: Option<PreparedServo>,
) -> bool {
    if env is Some {
        r == env
    } else {
        slots_offer(slots, r)
    }
}

/// Takes a prepared build: the one that the environment names, else that of the first slot with
/// one.  `slots` are in the order of [`search_order`].
pub fn locate_prepared_servo(env: Option<PreparedServo>, slots: Vec<SlotPair>) -> (r: Option<
    PreparedServo,
>)
    ensures
        located(env, slots@, r),
{
    if env.is_some() {
        return env;
    }
    first_of_slots(slots)
}

fn first_of_slots(slots: Vec<SlotPair>) -> (r: Option<PreparedServo>)
    ensures
        slots_offer(slots@, r),
    decreases slots@.len(),
{
    let mut rest = slots;
    if rest.len() == 0 {
        return None;
    }
    let first = rest.remove(0);
    proof {
        assert(rest@ =~= slots@.drop_first());
    }
    let found = locate_in_slot(first);
    proof {
        assert(pair_offers(slots@[0], found));
    }
    if found.is_some() {
        return found;
    }
    first_of_slots(rest)
}

/// Takes the path of a prepared build; see [`locate_prepared_servo`].
pub fn locate_servo_binary(env: Option<PreparedServo>, slots: Vec<SlotPair>) -> (r: Option<String>)
    ensures
        exists|p: Option<PreparedServo>| #[trigger]
            located(env, slots@, p) && r == (match p {
                Some(p) => Some(p.binary),
                None => None,
            }),
{
    match locate_prepared_servo(env, slots) {
        Some(p) => Some(p.binary),
        None => None,
    }
}

/// The facts decide: of a slot, of slots, and of the environment with slots, there is one result.
pub proof fn one_build_is_located(
    env: Option<PreparedServo>,
    slots: Seq<SlotPair>,
    a: Option<PreparedServo>,
    b: Option<PreparedServo>,
)
    requires
        located(env, slots, a),
        located(env, slots, b),
    ensures
        a == b,
{
    if env is None {
        one_build_is_offered(slots, a, b);
    }
}

/// Slots offer one build.
pub proof fn one_build_is_offered(
    slots: Seq<SlotPair>,
    a: Option<PreparedServo>,
    b: Option<PreparedServo>,
)
    requires
        slots_offer(slots, a),
        slots_offer(slots, b),
    ensures
        a == b,
    decreases slots.len(),
{
    if slots.len() > 0 {
        let rest = slots.drop_first();
        let x = choose|first: Option<PreparedServo>| #[trigger]
            pair_offers(slots[0], first) && if first is Some {
                a == first
            } else {
                slots_offer(rest, a)
            };
        let y = choose|first: Option<PreparedServo>| #[trigger]
            pair_offers(slots[0], first) && if first is Some {
                b == first
            } else {
                slots_offer(rest, b)
            };
        one_build_of_a_pair(slots[0], x, y);
        if x is None {
            one_build_is_offered(rest, a, b);
        }
    }
}

pub(crate) proof fn one_build_of_a_pair(
    pair: SlotPair,
    a: Option<PreparedServo>,
    b: Option<PreparedServo>,
)
    requires
        pair_offers(pair, a),
        pair_offers(pair, b),
    ensures
        a == b,
{
    let x = choose|first: Option<PreparedServo>| #[trigger]
        slot_offers(pair.slot, first) && if first is Some {
            a == first
        } else {
            slot_offers(pair.legacy, a)
        };
    let y = choose|first: Option<PreparedServo>| #[trigger]
        slot_offers(pair.slot, first) && if first is Some {
            b == first
        } else {
            slot_offers(pair.legacy, b)
        };
    one_build_of_a_slot(pair.slot, x, y);
    if x is None {
        one_build_of_a_slot(pair.legacy, a, b);
    }
}

pub(crate) proof fn one_build_of_a_slot(
    slot: SlotFacts,
    a: Option<PreparedServo>,
    b: Option<PreparedServo>,
)
    requires
        slot_offers(slot, a),
        slot_offers(slot, b),
    ensures
        a == b,
{
    let dirs = slot.children@;
    if opt_artifact(slot.current) is None && opt_artifact(slot.manifest) is None && dirs.len() > 0 {
        let i = choose|i: int| #[trigger] is_newest(dirs, i) && a == artifact(dirs[i]);
        let j = choose|j: int| #[trigger] is_newest(dirs, j) && b == artifact(dirs[j]);
        if i < j {
            assert(newer(dirs[j], dirs[i]));
        } else if j < i {
            assert(newer(dirs[i], dirs[j]));
        }
    }
}

/// The profiles to look for.
pub open spec fn profiles_wanted(preferred: Option<Seq<char>>) -> Seq<Seq<char>> {
    match preferred {
        Some(p) => seq![p],
        None => seq!["release"@, "debug"@],
    }
}

/// The target triples to look for: the preferred one, else that of this machine, else all.
pub open spec fn triples_wanted(
    preferred: Option<Seq<char>>,
    host: Option<Seq<char>>,
    all: Seq<Seq<char>>,
) -> Seq<Seq<char>> {
    match preferred {
        Some(t) => seq![t],
        None => match host {
            Some(t) => seq![t],
            None => all,
        },
    }
}

/// All pairs of a triple and a profile, the triples in order, the profiles in order for each.
pub open spec fn all_slots(triples: Seq<Seq<char>>, profiles: Seq<Seq<char>>) -> Seq<
    (Seq<char>, Seq<char>),
>
    decreases triples.len(),
{
    if triples.len() == 0 {
        Seq::empty()
    } else {
        all_slots(triples.drop_last(), profiles) + Seq::new(
            profiles.len(),
            |i: int| (triples.last(), profiles[i]),
        )
    }
}

/// The views of pairs of texts.
pub open spec fn pair_views(v: Seq<(String, String)>) -> Seq<(Seq<char>, Seq<char>)> {
    Seq::new(v.len(), |i: int| (v[i].0@, v[i].1@))
}

/// The slots to look at, in order.
pub fn search_order(
    preferred_profile: &Option<String>,
    preferred_triple: &Option<String>,
    host: &Option<String>,
    listed: &Vec<String>,
) -> (r: Vec<(String, String)>)
    ensures
        pair_views(r@) == all_slots(
            triples_wanted(opt_view(*preferred_triple), opt_view(*host), views(listed@)),
            profiles_wanted(opt_view(*preferred_profile)),
        ),
{
    let mut profiles: Vec<String> = Vec::new();
    match preferred_profile {
        Some(p) => profiles.push(p.clone()),
        None => {
            profiles.push("release".to_owned());
            profiles.push("debug".to_owned());
        },
    }
    let ghost pv = profiles_wanted(opt_view(*preferred_profile));
    proof {
        assert(views(profiles@) =~= pv);
    }
    let mut triples: Vec<String> = Vec::new();
    match preferred_triple {
        Some(t) => triples.push(t.clone()),
        None => match host {
            Some(t) => triples.push(t.clone()),
            None => {
                triples = crate::text::copy_all(listed);
            },
        },
    }
    let ghost tv = triples_wanted(opt_view(*preferred_triple), opt_view(*host), views(listed@));
    proof {
        assert(views(triples@) =~= tv);
    }
    let mut out: Vec<(String, String)> = Vec::new();
    let mut i: usize = 0;
    proof {
        assert(tv.take(0) =~= Seq::empty());
        assert(pair_views(out@) =~= all_slots(tv.take(0), pv));
    }
    while i < triples.len()
        invariant
            i <= triples.len(),
            views(triples@) == tv,
            views(profiles@) == pv,
            pair_views(out@) == all_slots(tv.take(i as int), pv),
        decreases triples.len() - i,
    {
        let ghost before = pair_views(out@);
        let ghost row = Seq::new(pv.len(), |k: int| (tv[i as int], pv[k]));
        let mut j: usize = 0;
        proof {
            assert(row.take(0) =~= Seq::empty());
            assert(before + row.take(0) =~= before);
            assert(tv[i as int] == triples@[i as int]@);
        }
        while j < profiles.len()
            invariant
                j <= profiles.len(),
                i < triples.len(),
                views(profiles@) == pv,
                views(triples@) == tv,
                tv[i as int] == triples@[i as int]@,
                row == Seq::new(pv.len(), |k: int| (tv[i as int], pv[k])),
                pair_views(out@) == before + row.take(j as int),
            decreases profiles.len() - j,
        {
            let ghost sofar = out@;
            out.push((triples[i].clone(), profiles[j].clone()));
            proof {
                assert(pv[j as int] == profiles@[j as int]@);
                assert(pair_views(out@) =~= pair_views(sofar).push((tv[i as int], pv[j as int])));
                assert(row.take(j + 1) =~= row.take(j as int).push(row[j as int]));
                assert(pair_views(out@) =~= before + row.take(j + 1));
            }
            j += 1;
        }
        proof {
            assert(row.take(j as int) =~= row);
            assert(tv.take(i + 1).drop_last() =~= tv.take(i as int));
            assert(tv.take(i + 1).last() == tv[i as int]);
            assert(pair_views(out@) =~= all_slots(tv.take(i + 1), pv));
        }
        i += 1;
    }
    proof {
        assert(tv.take(i as int) =~= tv);
    }
    out
}

/// The file name of a program: Windows wants the suffix.
pub open spec fn program_name(base: Seq<char>, windows: bool) -> Seq<char> {
    if windows {
        base + ".exe"@
    } else {
        base
    }
}

/// Names the file of a program.
pub fn normalize_bin_name(base: &str, windows: bool) -> (r: String)
    ensures
        r@ == program_name(base@, windows),
{
    if windows {
        joined(base, ".exe")
    } else {
        base.to_owned()
    }
}

/// The path that the environment gives, if something is there.
pub fn env_servo_bin(var: Option<Candidate>) -> (r: Option<String>)
    ensures
        present(var) ==> r == Some(var->0.path),
        !present(var) ==> r is None,
{
    match var {
        Some(c) => {
            if c.exists {
                Some(c.path)
            } else {
                None
            }
        },
        None => None,
    }
}

/// The first candidate that is there.
pub open spec fn first_present(c: Seq<Candidate>) -> Option<Seq<char>>
    decreases c.len(),
{
    if c.len() == 0 {
        None
    } else if c[0].exists {
        Some(c[0].path@)
    } else {
        first_present(c.drop_first())
    }
}

/// Chooses the directory of staged builds: the one that the environment names, else the nearest
/// among the first six directories from the program upwards, else that of the working directory.
pub fn find_local_artifacts_base(
    env: &Option<Candidate>,
    upwards: &Vec<Candidate>,
    working: &Option<Candidate>,
) -> (r: Option<String>)
    ensures
        opt_view(r) == (if present(*env) {
            Some(env->0.path@)
        } else {
            let near = if upwards@.len() > 6 {
                upwards@.take(6)
            } else {
                upwards@
            };
            match first_present(near) {
                Some(p) => Some(p),
                None => if present(*working) {
                    Some(working->0.path@)
                } else {
                    None
                },
            }
        }),
{
    match env {
        Some(c) => {
            if c.exists {
                return Some(c.path.clone());
            }
        },
        None => {},
    }
    let ghost near = if upwards@.len() > 6 {
        upwards@.take(6)
    } else {
        upwards@
    };
    let n: usize = if upwards.len() > 6 {
        6
    } else {
        upwards.len()
    };
    let mut i: usize = 0;
    proof {
        assert(near.skip(0) =~= near);
    }
    while i < n
        invariant
            i <= n <= upwards.len(),
            n == near.len(),
            forall|k: int| 0 <= k < n ==> near[k] == upwards@[k],
            first_present(near) == first_present(near.skip(i as int)),
            !present(*env),
            near == (if upwards@.len() > 6 {
                upwards@.take(6)
            } else {
                upwards@
            }),
        decreases n - i,
    {
        proof {
            assert(near.skip(i as int)[0] == upwards@[i as int]);
            assert(near.skip(i as int).drop_first() =~= near.skip(i + 1));
        }
        if upwards[i].exists {
            return Some(upwards[i].path.clone());
        }
        i += 1;
    }
    match working {
        Some(c) => {
            if c.exists {
                return Some(c.path.clone());
            }
        },
        None => {},
    }
    None
}

/// The lines of a text; a line may still end in a carriage return.
pub open spec fn lines(s: Seq<char>) -> Seq<Seq<char>> {
    split(s, '\n')
}

/// The host triple among the first `n` lines of the compiler's report: what follows `host:`, without
/// the white space around it.
pub open spec fn host_in(ls: Seq<Seq<char>>) -> Option<Seq<char>>
    decreases ls.len(),
{
    if ls.len() == 0 {
        None
    } else if "host:"@.is_prefix_of(ls[0]) {
        Some(trim(ls[0].skip(5)))
    } else {
        host_in(ls.drop_first())
    }
}

/// Reads the host triple from the compiler's report.
pub fn detect_host_triple(report: &str) -> (r: Result<String, String>)
    ensures
        match host_in(lines(report@)) {
            Some(t) => r is Ok && r->Ok_0@ == t,
            None => r is Err && r->Err_0@ == "could not parse host triple from rustc -vV"@,
        },
{
    let chars = chars_of(report);
    let ls = split_chars(&chars, '\n');
    let ghost lv = lines(report@);
    let mut i: usize = 0;
    proof {
        assert(lv.skip(0) =~= lv);
        reveal_strlit("host:");
    }
    while i < ls.len()
        invariant
            i <= ls.len(),
            char_views(ls@) == lv,
            lv == lines(report@),
            "host:"@.len() == 5,
            host_in(lv) == host_in(lv.skip(i as int)),
        decreases ls.len() - i,
    {
        proof {
            assert(lv[i as int] == ls@[i as int]@);
            assert(lv.skip(i as int)[0] == lv[i as int]);
            assert(lv.skip(i as int).drop_first() =~= lv.skip(i + 1));
        }
        if starts_with(&ls[i], "host:") {
            let rest = slice_of(&ls[i], 5, ls[i].len());
            proof {
                assert(rest@ =~= lv[i as int].skip(5));
            }
            return Ok(text_of(&trim_chars(&rest)));
        }
        i += 1;
    }
    Err("could not parse host triple from rustc -vV".to_owned())
}

/// The commit that a manifest names, if it is an object with a text under `current`.
pub open spec fn manifest_names(contents: Option<JsonContents>) -> Option<Seq<char>> {
    match contents {
        Some(JsonContents::Object(m)) => if m.contains_key("current"@) {
            match m["current"@] {
                JsonContents::Text(s) => Some(s),
                _ => None,
            }
        } else {
            None
        },
        _ => None,
    }
}

/// Reads the commit from a manifest.
pub fn current_commit(v: &Value) -> (r: Option<String>)
    ensures
        opt_view(r) == manifest_names(Some(json_contents(*v))),
{
    match json_get(v, "current") {
        Some(c) => match json_as_str(c) {
            Some(s) => Some(s.to_owned()),
            None => None,
        },
        None => None,
    }
}

/// Reads the commit from the bytes of a manifest.
pub fn manifest_commit(bytes: &Vec<u8>) -> (r: Option<String>)
    ensures
        opt_view(r) == manifest_names(json_parse(bytes@)),
{
    match json_from_slice(bytes.as_slice()) {
        Ok(v) => current_commit(&v),
        Err(_) => None,
    }
}

/// Where a name in a slot leads: to the directory of that name, if there is one.
pub open spec fn leads_to(name: Option<Seq<char>>, is_dir: bool) -> Option<Seq<char>> {
    if is_dir {
        name
    } else {
        None
    }
}

/// The build directory that the link of a slot leads to.  `target` is what the link holds, if there
/// is a link; `is_dir` tells whether the slot has a directory of that name.
pub fn resolve_current_symlink(target: Option<String>, is_dir: bool) -> (r: Option<String>)
    ensures
        opt_view(r) == leads_to(opt_view(target), is_dir),
{
    if is_dir {
        target
    } else {
        None
    }
}

/// The build directory that the manifest of a slot leads to.  `current` is the commit that the
/// manifest names, if there is a manifest; `is_dir` tells whether the slot has a directory of that
/// name.
pub fn resolve_latest_manifest(current: Option<String>, is_dir: bool) -> (r: Option<String>)
    ensures
        opt_view(r) == leads_to(opt_view(current), is_dir),
{
    if is_dir {
        current
    } else {
        None
    }
}

} // verus!
