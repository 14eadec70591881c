//! Which staged build is found.
use vstd::prelude::*;
use serde_json::Value;
use crate::json::{json_contents, json_parse};
use crate::laws::hosting::ends_with;
use crate::laws::serving::is_there;
use crate::laws::wording::{is_middle, middle_is_left};
use crate::server::Candidate;
use crate::servo_locator::{
    current_commit, detect_host_triple, env_servo_bin, find_local_artifacts_base, locate_in_slot,
    locate_prepared_servo, locate_servo_binary, locate_within_slot_dir,
    make_artifact_from_commit_dir, manifest_commit, newer, normalize_bin_name, one_build_is_located,
    one_build_of_a_pair, one_build_of_a_slot, parse_rfc3339_as_seconds, read_metadata_timestamp,
    resolve_current_symlink, resolve_latest_manifest, search_order, stamp_score, stamp_score_value,
    CommitDir, PreparedServo, ServoMetadata, SlotFacts, SlotPair,
};
use crate::text::split_chars;

verus! {

/// A date and a time of the form `YYYY-MM-DDTHH:MM:SS`, whatever follows.
pub open spec fn is_date(s: Seq<char>) -> bool {
    &&& s.len() >= 19
    &&& s[4] == '-' && s[7] == '-' && s[10] == 'T' && s[13] == ':' && s[16] == ':'
    &&& forall|i: int|
        0 <= i < 19 && i != 4 && i != 7 && i != 10 && i != 13 && i != 16 ==> 48 <= #[trigger] s[i] as int
            <= 57
}

/// The first characters in which two dates differ, up to the seconds, make the first the earlier.
pub open spec fn sooner(a: Seq<char>, b: Seq<char>) -> bool {
    exists|k: int| #[trigger] sooner_at(a, b, k)
}

/// Two dates agree before position `k`, where the first is lower.
pub open spec fn sooner_at(a: Seq<char>, b: Seq<char>, k: int) -> bool {
    &&& 0 <= k < 19
    &&& forall|i: int| 0 <= i < k ==> #[trigger] a[i] == b[i]
    &&& (a[k] as int) < (b[k] as int)
}

proof fn sooner_scores_lower(a: Seq<char>, b: Seq<char>)
    requires
        is_date(a),
        is_date(b),
        sooner(a, b),
    ensures
        stamp_score(a) < stamp_score(b),
{
    let k = choose|k: int| #[trigger] sooner_at(a, b, k);
    assert forall|i: int|
        0 <= i < 19 && i != 4 && i != 7 && i != 10 && i != 13 && i != 16 implies 0
        <= crate::servo_locator::digit_value(#[trigger] a[i]) <= 9 && 0
        <= crate::servo_locator::digit_value(b[i]) <= 9 && (a[i] as int) - 48
        == crate::servo_locator::digit_value(a[i]) && (b[i] as int) - 48
        == crate::servo_locator::digit_value(b[i]) by {
        assert(48 <= b[i] as int <= 57);
    }
    assert(crate::servo_locator::is_stamp(a));
    assert(crate::servo_locator::is_stamp(b));
    assert(k != 4 && k != 7 && k != 10 && k != 13 && k != 16);
    assert forall|i: int| 0 <= i < k implies #[trigger] digit_at(a, i) == digit_at(b, i) by {
        assert(a[i] == b[i]);
    }
    assert(digit_at(a, k) < digit_at(b, k));
    score_is_number(a);
    score_is_number(b);
    assert forall|i: int|
        0 <= i < 19 && i != 4 && i != 7 && i != 10 && i != 13 && i != 16 implies 0
        <= #[trigger] digit_at(a, i) <= 9 && 0 <= digit_at(b, i) <= 9 by {
        assert(48 <= a[i] as int <= 57 && 48 <= b[i] as int <= 57);
    }
    lower_digit_lower_number(a, b, k, 19);
}

spec fn digit_at(s: Seq<char>, i: int) -> int {
    s[i] as int - 48
}

spec fn is_mark(i: int) -> bool {
    i == 4 || i == 7 || i == 10 || i == 13 || i == 16
}

spec fn number_up_to(s: Seq<char>, n: nat) -> int
    decreases n,
{
    if n == 0 {
        0
    } else if is_mark(n - 1) {
        number_up_to(s, (n - 1) as nat)
    } else {
        number_up_to(s, (n - 1) as nat) * 10 + digit_at(s, n - 1)
    }
}

proof fn same_digits_same_number(a: Seq<char>, b: Seq<char>, n: nat)
    requires
        forall|i: int| 0 <= i < n ==> #[trigger] digit_at(a, i) == digit_at(b, i),
    ensures
        number_up_to(a, n) == number_up_to(b, n),
    decreases n,
{
    if n > 0 {
        same_digits_same_number(a, b, (n - 1) as nat);
        assert(digit_at(a, n - 1) == digit_at(b, n - 1));
    }
}

proof fn lower_digit_lower_number(a: Seq<char>, b: Seq<char>, k: int, n: nat)
    requires
        0 <= k < n <= 19,
        !is_mark(k),
        forall|i: int|
            0 <= i < n && !is_mark(i) ==> 0 <= #[trigger] digit_at(a, i) <= 9 && 0 <= digit_at(b, i)
                <= 9,
        forall|i: int| 0 <= i < k ==> #[trigger] digit_at(a, i) == digit_at(b, i),
        digit_at(a, k) < digit_at(b, k),
    ensures
        number_up_to(a, n) < number_up_to(b, n),
    decreases n,
{
    if k == n - 1 {
        same_digits_same_number(a, b, (n - 1) as nat);
    } else {
        lower_digit_lower_number(a, b, k, (n - 1) as nat);
        if !is_mark(n - 1) {
            assert(0 <= digit_at(a, n - 1) <= 9 && 0 <= digit_at(b, n - 1) <= 9);
        }
    }
}

proof fn score_is_number(s: Seq<char>)
    requires
        crate::servo_locator::is_stamp(s),
    ensures
        stamp_score(s) == number_up_to(s, 19),
{
    stamp_score_value(s);
    reveal_with_fuel(number_up_to, 20);
}

/// A later date has a higher score, whatever fraction or zone follows, and the score of a build is
/// that of its date.
pub proof fn later_dates_score_higher(
    a: &str,
    b: &str,
    x: Result<i64, String>,
    y: Result<i64, String>,
    m: &Option<ServoMetadata>,
    t: Option<i64>,
)
    requires
        call_ensures(parse_rfc3339_as_seconds, (a,), x),
        call_ensures(parse_rfc3339_as_seconds, (b,), y),
        is_date(a@),
        is_date(b@),
        call_ensures(read_metadata_timestamp, (m,), t),
    ensures
        x is Ok && y is Ok,
        sooner(a@, b@) ==> x->Ok_0 < y->Ok_0,
        t is Some <==> m is Some,
        m is Some && m->0.timestamp@ == a@ ==> t->0 == x->Ok_0,
{
    if sooner(a@, b@) {
        sooner_scores_lower(a@, b@);
    }
}

/// The result is what a build offers: its binary with its metadata, if the binary is there.
pub open spec fn is_offer(r: Option<PreparedServo>, d: CommitDir) -> bool {
    &&& r is Some <==> d.binary.exists
    &&& r is Some ==> r->0.binary == d.binary.path && r->0.metadata == d.metadata
}

/// A build whose metadata hold a date.
pub open spec fn is_dated(d: CommitDir) -> bool {
    d.metadata is Some && is_date(d.metadata->0.timestamp@)
}

/// Whether a build is there at all.
pub open spec fn has_binary(d: Option<CommitDir>) -> bool {
    d is Some && d->0.binary.exists
}

/// Of two dated builds the later is preferred, whatever their ages and names; of two of the same
/// date the one that was changed last is.
pub proof fn later_build_is_preferred(a: CommitDir, b: CommitDir)
    requires
        is_dated(a),
        is_dated(b),
    ensures
        sooner(a.metadata->0.timestamp@, b.metadata->0.timestamp@) ==> newer(b, a) && !newer(a, b),
        a.metadata->0.timestamp@ == b.metadata->0.timestamp@ && a.age < b.age ==> newer(b, a)
            && !newer(a, b),
{
    if sooner(a.metadata->0.timestamp@, b.metadata->0.timestamp@) {
        sooner_scores_lower(a.metadata->0.timestamp@, b.metadata->0.timestamp@);
    }
}

/// A slot offers its current build, else that of its manifest, else one of its builds: then no
/// dated build has a later date than a dated one that is taken, none of the same date was changed
/// later, and none of the same date and age has a name that comes later.
pub proof fn newest_build_of_a_slot_is_taken(slot: SlotFacts, r: Option<PreparedServo>)
    requires
        call_ensures(locate_within_slot_dir, (slot,), r),
    ensures
        has_binary(slot.current) ==> is_offer(r, slot.current->0),
        !has_binary(slot.current) && has_binary(slot.manifest) ==> is_offer(r, slot.manifest->0),
        !has_binary(slot.current) && !has_binary(slot.manifest) && slot.children@.len() == 0 ==> r
            is None,
        !has_binary(slot.current) && !has_binary(slot.manifest) && slot.children@.len() > 0
            ==> exists|m: int| #[trigger] is_taken(slot.children@, m, r),
{
    if !has_binary(slot.current) && !has_binary(slot.manifest) && slot.children@.len() > 0 {
        let dirs = slot.children@;
        let m = choose|m: int| #[trigger]
            crate::servo_locator::is_newest(dirs, m) && r == crate::servo_locator::artifact(
                dirs[m],
            );
        assert forall|j: int| 0 <= j < dirs.len() implies not_better(#[trigger] dirs[j], dirs[m]) by {
            let (d, best) = (dirs[j], dirs[m]);
            assert(!newer(d, best));
            if is_dated(d) && is_dated(best) && sooner(
                best.metadata->0.timestamp@,
                d.metadata->0.timestamp@,
            ) {
                later_build_is_preferred(best, d);
            }
            if same_date(d, best) && d.age == best.age && comes_later(d.name@, best.name@) {
                let k = choose|k: int| #[trigger] later_at(d.name@, best.name@, k);
                later_text_is_not_less(d.name@, best.name@, k);
                assert(d.name@ != best.name@) by {
                    if d.name@ == best.name@ {
                        assert(k < best.name@.len());
                    }
                }
            }
        }
        assert(is_taken(dirs, m, r));
    }
}

/// The build at position `m` is taken, and none of the others is better.
pub open spec fn is_taken(dirs: Seq<CommitDir>, m: int, r: Option<PreparedServo>) -> bool {
    &&& 0 <= m < dirs.len()
    &&& is_offer(r, dirs[m])
    &&& forall|j: int| 0 <= j < dirs.len() ==> not_better(#[trigger] dirs[j], dirs[m])
}

/// A build is neither later nor, of the same date, changed later nor, of the same age too, later by
/// name.
pub open spec fn not_better(d: CommitDir, best: CommitDir) -> bool {
    &&& is_dated(d) && is_dated(best) ==> !sooner(
        best.metadata->0.timestamp@,
        d.metadata->0.timestamp@,
    )
    &&& same_date(d, best) ==> d.age <= best.age
    &&& same_date(d, best) && d.age == best.age ==> !comes_later(d.name@, best.name@)
}

/// Both have the same date, or both have none.
pub open spec fn same_date(a: CommitDir, b: CommitDir) -> bool {
    match (a.metadata, b.metadata) {
        (Some(x), Some(y)) => x.timestamp@ == y.timestamp@,
        (None, None) => true,
        _ => false,
    }
}

/// One text comes after another: at the first difference it is higher, or it goes on where the
/// other ends.
pub open spec fn comes_later(a: Seq<char>, b: Seq<char>) -> bool {
    exists|k: int| #[trigger] later_at(a, b, k)
}

/// Two texts agree before position `k`, where the first is higher or goes on.
pub open spec fn later_at(a: Seq<char>, b: Seq<char>, k: int) -> bool {
    &&& 0 <= k < a.len() && k <= b.len()
    &&& forall|i: int| 0 <= i < k ==> #[trigger] a[i] == b[i]
    &&& k < b.len() ==> a[k] as int > b[k] as int
}

pub(crate) proof fn later_text_is_not_less(a: Seq<char>, b: Seq<char>, k: int)
    requires
        later_at(a, b, k),
    ensures
        crate::text::text_less(b, a),
    decreases k,
{
    if k > 0 {
        let (c, d) = (a.drop_first(), b.drop_first());
        assert(a[0] == b[0]);
        assert forall|i: int| 0 <= i < k - 1 implies #[trigger] c[i] == d[i] by {
            assert(a[i + 1] == b[i + 1]);
        }
        later_text_is_not_less(c, d, k - 1);
    }
}

/// A build is offered as it stands, and only where its binary is there.
pub proof fn build_is_offered_as_it_stands(d: CommitDir, r: Option<PreparedServo>)
    requires
        call_ensures(make_artifact_from_commit_dir, (d,), r),
    ensures
        is_offer(r, d),
{
}

/// A slot comes before the directory above it.
pub proof fn slot_comes_before_its_parent(
    pair: SlotPair,
    r: Option<PreparedServo>,
    x: Option<PreparedServo>,
    y: Option<PreparedServo>,
)
    requires
        call_ensures(locate_in_slot, (pair,), r),
        call_ensures(locate_within_slot_dir, (pair.slot,), x),
        call_ensures(locate_within_slot_dir, (pair.legacy,), y),
    ensures
        x is Some ==> r == x,
        x is None ==> r == y,
{
    let first = choose|first: Option<PreparedServo>| #[trigger]
        crate::servo_locator::slot_offers(pair.slot, first) && if first is Some {
            r == first
        } else {
            crate::servo_locator::slot_offers(pair.legacy, r)
        };
    one_build_of_a_slot(pair.slot, first, x);
    if x is None {
        one_build_of_a_slot(pair.legacy, r, y);
    }
}

/// The environment comes before all slots, and of the slots the first with an offer serves; the
/// path is that of the build.
pub proof fn first_slot_with_an_offer_serves(
    env: Option<PreparedServo>,
    slots: Vec<SlotPair>,
    r: Option<PreparedServo>,
    path: Option<String>,
    offers: Seq<Option<PreparedServo>>,
    k: int,
)
    requires
        call_ensures(locate_prepared_servo, (env, slots), r),
        call_ensures(locate_servo_binary, (env, slots), path),
        offers.len() == slots@.len(),
        forall|i: int|
            0 <= i < slots@.len() ==> call_ensures(
                locate_in_slot,
                (#[trigger] slots@[i],),
                offers[i],
            ),
    ensures
        env is Some ==> r == env,
        env is None && 0 <= k < offers.len() && offers[k] is Some && (forall|i: int|
            0 <= i < k ==> #[trigger] offers[i] is None) ==> r == offers[k],
        env is None && (forall|i: int| 0 <= i < offers.len() ==> #[trigger] offers[i] is None) ==> r
            is None,
        path is Some <==> r is Some,
        path is Some ==> path->0 == r->0.binary,
{
    let p = choose|p: Option<PreparedServo>| #[trigger]
        crate::servo_locator::located(env, slots@, p) && path == (match p {
            Some(p) => Some(p.binary),
            None => None,
        });
    one_build_is_located(env, slots@, p, r);
    if env is None {
        offers_are_taken_in_order(slots@, r, offers, k);
    }
}

proof fn offers_are_taken_in_order(
    slots: Seq<SlotPair>,
    r: Option<PreparedServo>,
    offers: Seq<Option<PreparedServo>>,
    k: int,
)
    requires
        crate::servo_locator::slots_offer(slots, r),
        offers.len() == slots.len(),
        forall|i: int|
            0 <= i < slots.len() ==> call_ensures(locate_in_slot, (#[trigger] slots[i],), offers[i]),
    ensures
        0 <= k < offers.len() && offers[k] is Some && (forall|i: int|
            0 <= i < k ==> #[trigger] offers[i] is None) ==> r == offers[k],
        (forall|i: int| 0 <= i < offers.len() ==> #[trigger] offers[i] is None) ==> r is None,
    decreases slots.len(),
{
    if slots.len() > 0 {
        let rest = slots.drop_first();
        let others = offers.drop_first();
        let first = choose|first: Option<PreparedServo>| #[trigger]
            crate::servo_locator::pair_offers(slots[0], first) && if first is Some {
                r == first
            } else {
                crate::servo_locator::slots_offer(rest, r)
            };
        assert(call_ensures(locate_in_slot, (slots[0],), offers[0]));
        one_build_of_a_pair(slots[0], first, offers[0]);
        if first is None {
            assert forall|i: int| 0 <= i < rest.len() implies call_ensures(
                locate_in_slot,
                (#[trigger] rest[i],),
                others[i],
            ) by {
                assert(rest[i] == slots[i + 1] && others[i] == offers[i + 1]);
            }
            offers_are_taken_in_order(rest, r, others, k - 1);
            if 0 < k < offers.len() {
                assert(others[k - 1] == offers[k]);
                if forall|i: int| 0 <= i < k ==> #[trigger] offers[i] is None {
                    assert forall|i: int| 0 <= i < k - 1 implies #[trigger] others[i] is None by {
                        assert(others[i] == offers[i + 1]);
                    }
                }
            }
            if forall|i: int| 0 <= i < offers.len() ==> #[trigger] offers[i] is None {
                assert forall|i: int| 0 <= i < others.len() implies #[trigger] others[i] is None by {
                    assert(others[i] == offers[i + 1]);
                }
            }
        } else {
            assert(offers[0] is Some);
        }
    }
}

/// Slots are searched target by target, the release build of each before its debug build; a
/// preferred profile or target is searched alone, and so is the target of this machine where it is
/// known.
pub proof fn slots_are_searched_target_by_target(
    profile: &Option<String>,
    triple: &Option<String>,
    host: &Option<String>,
    listed: &Vec<String>,
    r: Vec<(String, String)>,
    k: int,
)
    requires
        call_ensures(search_order, (profile, triple, host, listed), r),
        0 <= k,
    ensures
        profile is Some && triple is Some ==> r@.len() == 1 && r@[0].0@ == triple->0@ && r@[0].1@
            == profile->0@,
        profile is None && triple is Some ==> r@.len() == 2 && r@[0].0@ == triple->0@ && r@[1].0@
            == triple->0@ && r@[0].1@ == "release"@ && r@[1].1@ == "debug"@,
        profile is Some && triple is None && host is Some ==> r@.len() == 1 && r@[0].0@ == host->0@
            && r@[0].1@ == profile->0@,
        profile is None && triple is None && host is Some ==> r@.len() == 2 && r@[0].0@ == host->0@
            && r@[1].0@ == host->0@ && r@[0].1@ == "release"@ && r@[1].1@ == "debug"@,
        profile is Some && triple is None && host is None ==> r@.len() == listed@.len() && (k
            < listed@.len() ==> r@[k].0@ == listed@[k]@ && r@[k].1@ == profile->0@),
        profile is None && triple is None && host is None ==> r@.len() == 2 * listed@.len() && (k
            < listed@.len() ==> r@[2 * k].0@ == listed@[k]@ && r@[2 * k].1@ == "release"@ && r@[2 * k
            + 1].0@ == listed@[k]@ && r@[2 * k + 1].1@ == "debug"@),
{
    let triples = crate::servo_locator::triples_wanted(
        crate::text::opt_view(*triple),
        crate::text::opt_view(*host),
        crate::text::views(listed@),
    );
    let profiles = crate::servo_locator::profiles_wanted(crate::text::opt_view(*profile));
    let pairs = crate::servo_locator::pair_views(r@);
    assert(pairs.len() == r@.len());
    slots_of_targets(triples, profiles);
    assert forall|i: int| 0 <= i < r@.len() implies #[trigger] pairs[i] == (r@[i].0@, r@[i].1@) by {}
    assert(crate::text::views(listed@).len() == listed@.len());
    assert(triple is Some || host is Some ==> triples.len() == 1 && triples[0] == (
    if triple is Some {
        triple->0@
    } else {
        host->0@
    }));
    if r@.len() > 0 {
        assert(pairs[0] == (r@[0].0@, r@[0].1@));
    }
    if r@.len() > 1 {
        assert(pairs[1] == (r@[1].0@, r@[1].1@));
    }
    if triple is None && host is None && k < listed@.len() {
        assert(triples[k] == listed@[k]@);
        if profile is Some {
            assert(pairs[k] == (r@[k].0@, r@[k].1@));
        } else {
            assert(pairs[2 * k] == (r@[2 * k].0@, r@[2 * k].1@));
            assert(pairs[2 * k + 1] == (r@[2 * k + 1].0@, r@[2 * k + 1].1@));
        }
    }
}

proof fn slots_of_targets(triples: Seq<Seq<char>>, profiles: Seq<Seq<char>>)
    requires
        profiles.len() == 1 || profiles.len() == 2,
    ensures
        profiles.len() == 1 ==> crate::servo_locator::all_slots(triples, profiles).len()
            == triples.len(),
        profiles.len() == 2 ==> crate::servo_locator::all_slots(triples, profiles).len() == 2
            * triples.len(),
        profiles.len() == 1 ==> forall|k: int|
            0 <= k < triples.len() ==> crate::servo_locator::all_slots(triples, profiles)[k] == (
            #[trigger] triples[k],
            profiles[0],
        ),
        profiles.len() == 2 ==> forall|k: int|
            0 <= k < triples.len() ==> crate::servo_locator::all_slots(triples, profiles)[2 * k]
                == (#[trigger] triples[k], profiles[0]) && crate::servo_locator::all_slots(
                triples,
                profiles,
            )[2 * k + 1] == (triples[k], profiles[1]),
    decreases triples.len(),
{
    if triples.len() > 0 {
        let front = triples.drop_last();
        slots_of_targets(front, profiles);
        assert(forall|k: int| 0 <= k < front.len() ==> front[k] == triples[k]);
    }
}

/// The environment names a binary only where one is there, programs on Windows get their suffix,
/// and a name leads to a directory only where that is there.
pub proof fn names_lead_where_something_is(
    var: Option<Candidate>,
    bin: Option<String>,
    base: &str,
    windows: bool,
    file: String,
    target: Option<String>,
    linked: bool,
    l: Option<String>,
    current: Option<String>,
    named: bool,
    m: Option<String>,
)
    requires
        call_ensures(env_servo_bin, (var,), bin),
        call_ensures(normalize_bin_name, (base, windows), file),
        call_ensures(resolve_current_symlink, (target, linked), l),
        call_ensures(resolve_latest_manifest, (current, named), m),
    ensures
        is_there(var) ==> bin == Some(var->0.path),
        !is_there(var) ==> bin is None,
        !windows ==> file@ == base@,
        windows ==> ends_with(file@, ".exe"@) && file@.len() == base@.len() + 4 && base@.is_prefix_of(
            file@,
        ),
        linked && target is Some ==> l is Some && l->0@ == target->0@,
        !linked || target is None ==> l is None,
        named && current is Some ==> m is Some && m->0@ == current->0@,
        !named || current is None ==> m is None,
{
    reveal_strlit(".exe");
    if windows {
        assert(file@.skip(file@.len() - 4) =~= ".exe"@);
        assert(file@.subrange(0, base@.len() as int) =~= base@);
    }
}

/// The directory of staged builds is the one that the environment names, else the nearest of the
/// first six upwards, else that of the working directory.
pub proof fn nearest_base_is_taken(
    env: &Option<Candidate>,
    upwards: &Vec<Candidate>,
    working: &Option<Candidate>,
    r: Option<String>,
    k: int,
)
    requires
        call_ensures(find_local_artifacts_base, (env, upwards, working), r),
    ensures
        is_there(*env) ==> r is Some && r->0@ == env->0.path@,
        !is_there(*env) && 0 <= k < 6 && k < upwards@.len() && upwards@[k].exists && (forall|i: int|
            0 <= i < k ==> !(#[trigger] upwards@[i]).exists) ==> r is Some && r->0@
            == upwards@[k].path@,
        !is_there(*env) && (forall|i: int|
            0 <= i < 6 && i < upwards@.len() ==> !(#[trigger] upwards@[i]).exists) ==> (if is_there(
            *working,
        ) {
            r is Some && r->0@ == working->0.path@
        } else {
            r is None
        }),
{
    let near = if upwards@.len() > 6 {
        upwards@.take(6)
    } else {
        upwards@
    };
    assert(forall|i: int| 0 <= i < near.len() ==> near[i] == upwards@[i]);
    first_of_candidates(near, k);
    if forall|i: int| 0 <= i < 6 && i < upwards@.len() ==> !(#[trigger] upwards@[i]).exists {
        assert forall|i: int| 0 <= i < near.len() implies !(#[trigger] near[i]).exists by {
            assert(near[i] == upwards@[i]);
        }
    }
    if 0 <= k < near.len() && (forall|i: int| 0 <= i < k ==> !(#[trigger] upwards@[i]).exists) {
        assert forall|i: int| 0 <= i < k implies !(#[trigger] near[i]).exists by {
            assert(near[i] == upwards@[i]);
        }
    }
}

pub(crate) proof fn first_of_candidates(c: Seq<Candidate>, k: int)
    ensures
        0 <= k < c.len() && c[k].exists && (forall|i: int|
            0 <= i < k ==> !(#[trigger] c[i]).exists) ==> crate::servo_locator::first_present(c)
            == Some(c[k].path@),
        (forall|i: int| 0 <= i < c.len() ==> !(#[trigger] c[i]).exists)
            ==> crate::servo_locator::first_present(c) is None,
    decreases c.len(),
{
    if c.len() > 0 {
        let rest = c.drop_first();
        first_of_candidates(rest, k - 1);
        if 0 < k < c.len() {
            assert(rest[k - 1] == c[k]);
        }
        if 0 < k < c.len() && (forall|i: int| 0 <= i < k ==> !(#[trigger] c[i]).exists) {
            assert(!c[0].exists);
            assert forall|i: int| 0 <= i < k - 1 implies !(#[trigger] rest[i]).exists by {
                assert(rest[i] == c[i + 1]);
            }
        }
        if forall|i: int| 0 <= i < c.len() ==> !(#[trigger] c[i]).exists {
            assert(!c[0].exists);
            assert forall|i: int| 0 <= i < rest.len() implies !(#[trigger] rest[i]).exists by {
                assert(rest[i] == c[i + 1]);
            }
        }
    }
}

/// A manifest names the commit that stands under `current`, and nothing where that is no text.
pub proof fn manifest_names_its_current_commit(
    v: &Value,
    r: Option<String>,
    bytes: &Vec<u8>,
    q: Option<String>,
)
    requires
        call_ensures(current_commit, (v,), r),
        call_ensures(manifest_commit, (bytes,), q),
    ensures
        r is Some <==> json_contents(*v) is Object && json_contents(*v)->Object_0.contains_key(
            "current"@,
        ) && json_contents(*v)->Object_0["current"@] is Text,
        r is Some ==> r->0@ == json_contents(*v)->Object_0["current"@]->Text_0,
        json_parse(bytes@) is None ==> q is None,
        json_parse(bytes@) == Some(json_contents(*v)) ==> (q is Some <==> r is Some) && (q is Some
            ==> q->0@ == r->0@),
{
}

/// The line names the host: it begins with the key, and what comes after the key, but for white
/// characters around it, is the name.
pub open spec fn names_host(line: Seq<char>, name: Seq<char>) -> bool {
    &&& line.len() >= 5 && line.take(5) == "host:"@
    &&& exists|i: int, j: int| #[trigger] is_middle(name, line.skip(5), i, j)
}

proof fn host_is_in_the_first_line_that_names_it(ls: Seq<Seq<char>>, k: int)
    requires
        0 <= k <= ls.len(),
        forall|i: int| 0 <= i < k ==> !"host:"@.is_prefix_of(#[trigger] ls[i]),
        k < ls.len() ==> "host:"@.is_prefix_of(ls[k]),
    ensures
        k < ls.len() ==> crate::servo_locator::host_in(ls) == Some(crate::text::trim(ls[k].skip(5))),
        k == ls.len() ==> crate::servo_locator::host_in(ls) is None,
    decreases ls.len(),
{
    if k > 0 {
        let rest = ls.drop_first();
        assert(!"host:"@.is_prefix_of(ls[0]));
        assert forall|i: int| 0 <= i < k - 1 implies !"host:"@.is_prefix_of(#[trigger] rest[i]) by {
            assert(rest[i] == ls[i + 1]);
        }
        host_is_in_the_first_line_that_names_it(rest, k - 1);
    }
}

/// The host triple is read from the first line of the report that begins with its key; where no
/// line does, there is none.
pub proof fn host_is_read_from_its_line(
    report: &str,
    r: Result<String, String>,
    chars: &Vec<char>,
    ls: Vec<Vec<char>>,
    k: int,
)
    requires
        call_ensures(detect_host_triple, (report,), r),
        chars@ == report@,
        call_ensures(split_chars, (chars, '\n'), ls),
        0 <= k <= ls@.len(),
        forall|i: int|
            0 <= i < k ==> !((#[trigger] ls@[i])@.len() >= 5 && ls@[i]@.take(5) == "host:"@),
        k < ls@.len() ==> ls@[k]@.len() >= 5 && ls@[k]@.take(5) == "host:"@,
    ensures
        r is Ok <==> k < ls@.len(),
        r is Ok ==> names_host(ls@[k]@, r->Ok_0@),
{
    reveal_strlit("host:");
    let lines = crate::servo_locator::lines(report@);
    assert(lines =~= crate::text::char_views(ls@));
    assert forall|i: int| 0 <= i < k implies !"host:"@.is_prefix_of(#[trigger] lines[i]) by {
        assert(lines[i] == ls@[i]@);
        if "host:"@.is_prefix_of(lines[i]) {
            assert(lines[i].take(5) =~= lines[i].subrange(0, 5));
        }
    }
    if k < ls@.len() {
        assert(lines[k] == ls@[k]@);
        assert(lines[k].take(5) =~= lines[k].subrange(0, 5));
    }
    host_is_in_the_first_line_that_names_it(lines, k);
    if k < ls@.len() {
        middle_is_left(lines[k].skip(5));
    }
}

} // verus!
