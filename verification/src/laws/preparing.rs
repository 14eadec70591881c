//! How a build is prepared, staged, described and packaged.
use vstd::prelude::*;
use serde_json::Value;
use crate::json::{json_contents, json_encode_pretty, json_parse, JsonContents};
use crate::laws::finding::first_of_candidates;
use crate::laws::hosting::ends_with;
use crate::laws::serving::is_there;
use crate::laws::{lists_agree, same_list, same_option};
use crate::server::Candidate;
use crate::servo_locator::ServoMetadata;
use crate::servo_prep::{
    archive_name, artifact_candidates, bin_name_for_host, build_servo, checksum, choose_or,
    choose_profile, choose_setting, copy_targets, determine_features, determine_servo_src,
    digest_text, exit_report, find_workspace_root, hex_text, locate_servo_artifact, make_metadata,
    package_metadata, package_name, package_value, pointer_disabled, pointer_failure, pointer_place,
    resource_place, sha256, split_features, staging_place, target_is_directory, tool_output,
    update_current_pointer, write_manifest, BuildFile, BuildProfile, HostSystem, PackageKind,
    PointerPlace, SlotPointer, Workspace,
};
use crate::text::{trimmed, views};

verus! {

/// A text among the arguments of a command, at a position.
pub open spec fn says(args: Vec<String>, i: int, what: Seq<char>) -> bool {
    0 <= i < args@.len() && args@[i]@ == what
}

proof fn views_at(v: Seq<String>)
    ensures
        views(v).len() == v.len(),
        forall|i: int| 0 <= i < v.len() ==> #[trigger] views(v)[i] == v[i]@,
        forall|i: int| 0 <= i < v.len() ==> views(v)[i] == (#[trigger] v[i])@,
{
}

/// The command line comes before the configuration file, and that before the default; a release
/// build is the default, and only a known name counts.
pub proof fn command_line_comes_first(
    cli: &Option<String>,
    config: &Option<String>,
    default: &str,
    s: Option<String>,
    d: String,
    profile: Option<BuildProfile>,
    p: BuildProfile,
)
    requires
        call_ensures(choose_setting, (cli, config), s),
        call_ensures(choose_or, (cli, config, default), d),
        call_ensures(choose_profile, (profile, config), p),
    ensures
        cli is Some ==> same_option(s, *cli) && d@ == cli->0@,
        cli is None ==> same_option(s, *config),
        cli is None && config is Some ==> d@ == config->0@,
        cli is None && config is None ==> d@ == default@,
        profile is Some ==> p == profile->0,
        profile is None && config is Some && config->0@ == "debug"@ ==> p is Debug,
        profile is None && (config is None || config->0@ != "debug"@) ==> p is Release,
{
    reveal_strlit("release");
    reveal_strlit("debug");
    assert("release"@.len() != "debug"@.len());
}

/// The sources are where the command line says, else where the environment says if something is
/// there, else where the configuration says if something is there.
pub proof fn sources_are_looked_for_in_order(
    cli: &Option<String>,
    env: &Option<Candidate>,
    config: &Option<Candidate>,
    r: Result<String, String>,
)
    requires
        call_ensures(determine_servo_src, (cli, env, config), r),
    ensures
        cli is Some ==> r is Ok && r->Ok_0@ == cli->0@,
        cli is None && is_there(*env) ==> r is Ok && r->Ok_0@ == env->0.path@,
        cli is None && !is_there(*env) && is_there(*config) ==> r is Ok && r->Ok_0@
            == config->0.path@,
        cli is None && !is_there(*env) && !is_there(*config) ==> r is Err,
{
}

/// A text without commas, without blanks around it.
pub open spec fn is_feature(s: Seq<char>) -> bool {
    &&& s.len() > 0
    &&& !s.contains(',')
    &&& s[0] != ' ' && s.last() != ' ' && s[0] != '\t' && s.last() != '\t'
}

/// Features are the pieces between the commas; no piece is empty or has blanks around it, a single
/// feature is found as it is, and the command line comes before the configuration.
pub proof fn features_are_the_pieces(
    s: &str,
    r: Vec<String>,
    i: int,
    cli: &Option<String>,
    config: &Option<Vec<String>>,
    d: Vec<String>,
)
    requires
        call_ensures(split_features, (s,), r),
        call_ensures(determine_features, (cli, config), d),
    ensures
        0 <= i < r@.len() ==> is_feature(r@[i]@),
        plain_feature(s@) ==> r@.len() == 1 && r@[0]@ == s@,
        cli is Some && cli->0@ == s@ ==> same_list(d@, r@),
        cli is None && config is Some ==> same_list(d@, config->0@),
        cli is None && config is None ==> d@.len() == 0,
{
    crate::servo_prep::joined_features_split_again(s@);
    views_at(r@);
    views_at(d@);
    if 0 <= i < r@.len() {
        let f = crate::servo_prep::features_in(s@)[i];
        assert(f == r@[i]@);
        assert(crate::text::is_white(' ') && crate::text::is_white('\t'));
    }
    if plain_feature(s@) {
        crate::text::split_of_one_piece(s@, ',');
        let one = seq![s@];
        assert(one.drop_last() =~= Seq::empty());
        assert(crate::servo_prep::nonempty_trimmed(one.drop_last()) =~= Seq::empty());
        assert(crate::text::trim_start(s@) == s@);
        assert(crate::text::trim_end(s@) == s@);
        assert(crate::servo_prep::nonempty_trimmed(one) =~= seq![s@]);
    }
    if cli is Some && cli->0@ == s@ {
        lists_agree(d@, r@);
    }
    if cli is None && config is Some {
        lists_agree(d@, config->0@);
    }
}

/// A feature whose first and last characters are letters.
pub open spec fn plain_feature(s: Seq<char>) -> bool {
    &&& s.len() > 0
    &&& !s.contains(',')
    &&& 97 <= s[0] as u32 <= 122
    &&& 97 <= s.last() as u32 <= 122
}

/// The build command names the binary after `--bin`, asks for a release build exactly where one is
/// wanted, for the features joined by commas where there are any, and for the target where one is
/// given; a toolchain comes first.
pub proof fn build_command_asks_for_what_is_wanted(
    binary: &str,
    profile: BuildProfile,
    features: &Vec<String>,
    target: &Option<String>,
    toolchain: &Option<String>,
    r: Vec<String>,
)
    requires
        call_ensures(build_servo, (binary, profile, features, target, toolchain), r),
    ensures
        ({
            let t = if toolchain is Some {
                1int
            } else {
                0int
            };
            let p = if profile is Release {
                1int
            } else {
                0int
            };
            let f = if features@.len() > 0 {
                2int
            } else {
                0int
            };
            let g = if target is Some {
                2int
            } else {
                0int
            };
            &&& r@.len() == t + 3 + p + f + g
            &&& toolchain is Some ==> r@[0]@.len() > 0 && r@[0]@[0] == '+' && ends_with(
                r@[0]@,
                toolchain->0@,
            )
            &&& says(r, t, "build"@) && says(r, t + 1, "--bin"@) && says(r, t + 2, binary@)
            &&& profile is Release ==> says(r, t + 3, "--release"@)
            &&& features@.len() > 0 ==> says(r, t + 3 + p, "--features"@)
            &&& features@.len() == 1 ==> says(r, t + 4 + p, features@[0]@)
            &&& target is Some ==> says(r, t + 3 + p + f, "--target"@) && says(
                r,
                t + 4 + p + f,
                target->0@,
            )
        }),
{
    views_at(r@);
    views_at(features@);
    reveal_strlit("+");
    let args = crate::servo_prep::build_args(
        binary@,
        profile,
        views(features@),
        crate::text::opt_view(*target),
        crate::text::opt_view(*toolchain),
    );
    assert(args == views(r@));
    if toolchain is Some {
        let first = "+"@ + toolchain->0@;
        assert(args[0] == first);
        assert(first.skip(first.len() - toolchain->0@.len()) =~= toolchain->0@);
    }
}

/// A built binary is looked for under its target first, where one is given, then in the plain
/// layout, in the directory of its profile; the first place where it is serves, and the error of a
/// search in vain names the last place.
pub proof fn built_binary_is_looked_for_in_order(
    bin: &str,
    profile: BuildProfile,
    target: &Option<String>,
    places: Vec<Vec<String>>,
    candidates: &Vec<Candidate>,
    r: Result<String, String>,
    k: int,
)
    requires
        call_ensures(artifact_candidates, (bin, profile, target), places),
        call_ensures(locate_servo_artifact, (candidates,), r),
    ensures
        ({
            let dir = if profile is Release {
                "release"@
            } else {
                "debug"@
            };
            let plain = places@.last();
            &&& places@.len() == (if target is Some {
                2int
            } else {
                1int
            })
            &&& plain@.len() == 3
            &&& says(plain, 0, "target"@) && says(plain, 1, dir) && says(plain, 2, bin@)
            &&& target is Some ==> {
                let under = places@[0];
                &&& under@.len() == 4
                &&& says(under, 0, "target"@) && says(under, 1, target->0@) && says(under, 2, dir)
                    && says(under, 3, bin@)
            }
        }),
        0 <= k < candidates@.len() && candidates@[k].exists && (forall|i: int|
            0 <= i < k ==> !(#[trigger] candidates@[i]).exists) ==> r is Ok && r->Ok_0@
            == candidates@[k].path@,
        (forall|i: int| 0 <= i < candidates@.len() ==> !(#[trigger] candidates@[i]).exists) ==> r
            is Err,
{
    first_of_candidates(candidates@, k);
    let want = crate::servo_prep::artifact_places(bin@, profile, crate::text::opt_view(*target));
    assert(crate::servo_prep::nested_views(places@) == want);
    assert(crate::servo_prep::nested_views(places@).len() == places@.len());
    assert forall|i: int| 0 <= i < places@.len() implies views(#[trigger] places@[i]@) == want[i] by {
        assert(crate::servo_prep::nested_views(places@)[i] == views(places@[i]@));
    }
    let last = places@.len() - 1;
    assert(views(places@[last]@) == want[last]);
    views_at(places@[last]@);
    if target is Some {
        assert(views(places@[0]@) == want[0]);
        views_at(places@[0]@);
    }
}

/// What a tool printed is taken without the blanks around it, and a tool that failed is reported by
/// name with what it said.
pub proof fn tools_are_taken_at_their_word(
    tool: &str,
    success: bool,
    stdout: &str,
    stderr: &str,
    r: Result<String, String>,
    code: Option<i32>,
    s: String,
)
    requires
        call_ensures(tool_output, (tool, success, stdout, stderr), r),
        call_ensures(exit_report, (tool, code), s),
    ensures
        r is Ok <==> success,
        success && stdout@.len() > 0 && 33 <= stdout@[0] as u32 <= 126 && 33 <= stdout@.last() as u32
            <= 126 ==> r->Ok_0@ == stdout@,
        !success ==> tool@.is_prefix_of(r->Err_0@) && ends_with(r->Err_0@, stderr@),
        tool@.is_prefix_of(s@),
        code is Some && code->0 >= 0 ==> ends_with(s@, crate::text::decimal(code->0 as nat)),
{
    if success && stdout@.len() > 0 && 33 <= stdout@[0] as u32 <= 126 && 33 <= stdout@.last() as u32
        <= 126 {
        assert(crate::text::trim_start(stdout@) == stdout@);
        assert(crate::text::trim_end(stdout@) == stdout@);
    }
    if !success {
        let e = r->Err_0@;
        assert(e.subrange(0, tool@.len() as int) =~= tool@);
        assert(e.skip(e.len() - stderr@.len()) =~= stderr@);
    }
    assert(s@.subrange(0, tool@.len() as int) =~= tool@);
    if code is Some && code->0 >= 0 {
        let n = crate::text::decimal(code->0 as nat);
        assert(s@.skip(s@.len() - n.len()) =~= n);
    }
}

/// A build is staged by target, then profile, then commit, below the output directory; a resource
/// is bundled under its own name, and a file of a directory under the name of that.
pub proof fn places_are_built_from_their_names(
    output: &str,
    target: &str,
    profile: BuildProfile,
    commit: &str,
    r: Vec<String>,
    is_file: bool,
    base: &Option<String>,
    rel: &str,
    q: Vec<String>,
)
    requires
        call_ensures(staging_place, (output, target, profile, commit), r),
        call_ensures(resource_place, (is_file, base, rel), q),
    ensures
        r@.len() == 4,
        says(r, 0, output@) && says(r, 1, target@) && says(r, 3, commit@),
        profile is Release ==> says(r, 2, "release"@),
        profile is Debug ==> says(r, 2, "debug"@),
        is_file ==> q@.len() == 1,
        !is_file ==> q@.len() == 2 && says(q, 1, rel@),
        base is Some ==> says(q, 0, base->0@),
        base is None ==> says(q, 0, "res"@),
{
    views_at(r@);
    views_at(q@);
}

/// The record of a build holds every value under its own name; the toolchain that was asked for
/// comes before the compiler's own report.
pub proof fn build_is_recorded_value_by_value(
    commit: &str,
    profile: BuildProfile,
    features: &Vec<String>,
    timestamp: &str,
    target: &str,
    toolchain: &Option<String>,
    rustc: &str,
    binary: &str,
    m: ServoMetadata,
)
    requires
        call_ensures(
            make_metadata,
            (commit, profile, features, timestamp, target, toolchain, rustc, binary),
            m,
        ),
    ensures
        m.servo_commit@ == commit@,
        profile is Release ==> m.build_profile@ == "release"@,
        profile is Debug ==> m.build_profile@ == "debug"@,
        same_list(m.enabled_features@, features@),
        m.timestamp@ == timestamp@,
        m.target_triple@ == target@,
        toolchain is Some ==> m.rust_toolchain@ == toolchain->0@,
        toolchain is None ==> m.rust_toolchain@ == rustc@,
        m.binary_name@ == binary@,
{
    lists_agree(m.enabled_features@, features@);
}

/// The pointer goes into `current` where that is kept and there, else to the commit of the
/// manifest, else to the staged one; it is left alone where either side says so, and a failure
/// counts only where that was asked for.
pub proof fn pointer_goes_where_the_slot_points(
    cli: bool,
    config: Option<bool>,
    disabled: bool,
    current_exists: bool,
    manifest: &Option<String>,
    commit: &str,
    p: PointerPlace,
    strict: bool,
    what: &str,
    path: &str,
    error: &str,
    r: Result<(), String>,
    is_dir: bool,
    has_extension: bool,
    d: bool,
)
    requires
        call_ensures(pointer_disabled, (cli, config), disabled),
        call_ensures(pointer_place, (disabled, current_exists, manifest, commit), p),
        call_ensures(pointer_failure, (strict, what, path, error), r),
        call_ensures(target_is_directory, (is_dir, has_extension), d),
    ensures
        disabled <==> cli || config == Some(true),
        p is Current <==> !disabled && current_exists,
        p is Commit && manifest is Some ==> p->Commit_0@ == manifest->0@,
        p is Commit && manifest is None ==> p->Commit_0@ == commit@,
        r is Err <==> strict,
        strict ==> ends_with(r->Err_0@, error@),
        d <==> is_dir || !has_extension,
{
    if strict {
        let e = r->Err_0@;
        assert(e.skip(e.len() - error@.len()) =~= error@);
    }
}

/// The binary is copied to what the configuration lists and then to what the command line names; to
/// one usual place where neither names any.
pub proof fn copies_go_where_they_are_wanted(
    config: &Option<Vec<String>>,
    cli: &Option<String>,
    r: Vec<String>,
    i: int,
)
    requires
        call_ensures(copy_targets, (config, cli), r),
    ensures
        ({
            let n = if config is Some {
                config->0@.len() as int
            } else {
                0
            };
            &&& n == 0 && cli is None ==> r@.len() == 1 && r@[0]@ == "versoview"@
            &&& n > 0 || cli is Some ==> r@.len() == n + (if cli is Some {
                1int
            } else {
                0
            })
            &&& 0 <= i < n ==> r@[i]@ == config->0@[i]@
            &&& cli is Some ==> r@.last()@ == cli->0@
        }),
{
    views_at(r@);
    if config is Some {
        views_at(config->0@);
    }
    let listed = crate::servo_prep::list_or_none(*config);
    if cli is Some {
        assert(views(r@) == listed.push(cli->0@));
        assert(views(r@)[r@.len() - 1] == r@[r@.len() - 1]@);
    }
    if 0 <= i && config is Some && i < config->0@.len() {
        assert(listed[i] == config->0@[i]@);
    }
}

/// A package is named by what it is of: an archive by target, profile and commit, an image by its
/// target; images for one system are made on that system alone.
pub proof fn packages_are_named_by_what_they_are(
    kind: PackageKind,
    system: HostSystem,
    target: &str,
    profile: BuildProfile,
    commit: &str,
    r: Result<String, String>,
)
    requires
        call_ensures(package_name, (kind, system, target, profile, commit), r),
    ensures
        kind is Dmg ==> (r is Ok <==> system is MacOs),
        kind is Msi ==> (r is Ok <==> system is Windows),
        kind is Zip || kind is AppImage ==> r is Ok,
        r is Ok && kind is Zip ==> {
            let name = r->Ok_0@;
            let dir = if profile is Release {
                "release"@
            } else {
                "debug"@
            };
            let a = 6 + target@.len() as int;
            let b = a + 1 + dir.len() as int;
            &&& ends_with(name, ".zip"@)
            &&& name.subrange(6, a) == target@
            &&& name.subrange(a + 1, b) == dir
            &&& name.subrange(b + 1, b + 1 + commit@.len()) == commit@
        },
        r is Ok && kind is AppImage ==> ends_with(r->Ok_0@, ".AppImage"@) && r->Ok_0@.subrange(
            6,
            6 + target@.len() as int,
        ) == target@,
        r is Ok && kind is Dmg ==> ends_with(r->Ok_0@, ".dmg"@),
        r is Ok && kind is Msi ==> ends_with(r->Ok_0@, ".msi"@),
{
    reveal_strlit("servo-");
    reveal_strlit("Verso-");
    reveal_strlit("-");
    reveal_strlit(".zip");
    reveal_strlit(".AppImage");
    reveal_strlit(".dmg");
    reveal_strlit(".msi");
    reveal_strlit("Verso.dmg");
    reveal_strlit("Verso.msi");
    reveal_strlit("release");
    reveal_strlit("debug");
    if r is Ok {
        let name = r->Ok_0@;
        let dir = if profile is Release {
            "release"@
        } else {
            "debug"@
        };
        let a = 6 + target@.len() as int;
        let b = a + 1 + dir.len() as int;
        if kind is Zip {
            assert(name.skip(name.len() - 4) =~= ".zip"@);
            assert(name.subrange(6, a) =~= target@);
            assert(name.subrange(a + 1, b) =~= dir);
            assert(name.subrange(b + 1, b + 1 + commit@.len()) =~= commit@);
        } else if kind is AppImage {
            assert(name.skip(name.len() - 9) =~= ".AppImage"@);
            assert(name.subrange(6, a) =~= target@);
        } else if kind is Dmg {
            assert(name.skip(name.len() - 4) =~= ".dmg"@);
        } else {
            assert(name.skip(name.len() - 4) =~= ".msi"@);
        }
    }
}

/// In an archive only backslashes are replaced, by slashes.
pub proof fn archive_names_use_slashes(rel: &str, r: String, i: int)
    requires
        call_ensures(archive_name, (rel,), r),
        0 <= i < rel@.len(),
    ensures
        r@.len() == rel@.len(),
        rel@[i] == '\\' ==> r@[i] == '/',
        rel@[i] != '\\' ==> r@[i] == rel@[i],
{
}

/// The digit that a number from 0 to 15 has.
pub open spec fn is_hex(c: char, n: int) -> bool {
    &&& n < 10 ==> c as int == 48 + n
    &&& n >= 10 ==> c as int == 87 + n
}

/// A digest is written with two digits for each byte, the high one first, and a checksum is the
/// digest of the data so written.
pub proof fn checksum_is_the_written_digest(
    digest: &[u8],
    s: String,
    data: &[u8],
    c: String,
    i: int,
)
    requires
        call_ensures(digest_text, (digest,), s),
        call_ensures(checksum, (data,), c),
        0 <= i < digest@.len(),
    ensures
        s@.len() == 2 * digest@.len(),
        is_hex(s@[2 * i], digest@[i] as int / 16),
        is_hex(s@[2 * i + 1], digest@[i] as int % 16),
        digest@ == sha256(data@) ==> c@ == s@,
{
    let t = hex_text(digest@);
    assert(2 * i / 2 == i && 2 * i % 2 == 0 && (2 * i + 1) / 2 == i && (2 * i + 1) % 2 == 1);
    assert(t[2 * i] == crate::servo_prep::hex_char(digest@[i] as int / 16));
    assert(t[2 * i + 1] == crate::servo_prep::hex_char(digest@[i] as int % 16));
}

/// A commit that is made current is named by its link or, where there is none, by a manifest that
/// names it when it is read; never by both.
pub proof fn current_commit_is_named_once(
    commit: &str,
    at: &str,
    link_made: bool,
    r: Result<SlotPointer, serde_json::Error>,
    w: Result<Vec<u8>, serde_json::Error>,
)
    requires
        call_ensures(update_current_pointer, (commit, at, link_made), r),
        call_ensures(write_manifest, (commit, at), w),
    ensures
        r is Ok && w is Ok,
        link_made ==> r->Ok_0.link is Some && r->Ok_0.link->0@ == commit@ && r->Ok_0.manifest
            is None,
        !link_made ==> r->Ok_0.link is None && r->Ok_0.manifest is Some && names_commit(
            r->Ok_0.manifest->0@,
            commit@,
        ),
        names_commit(w->Ok_0@, commit@),
        !link_made ==> tells_time(r->Ok_0.manifest->0@, at@),
        tells_time(w->Ok_0@, at@),
{
    crate::servo_prep::manifest_members(commit@, at@);
}

/// Bytes that are read as an object with the time under `updated_at`.
pub open spec fn tells_time(bytes: Seq<u8>, at: Seq<char>) -> bool {
    match json_parse(bytes) {
        Some(JsonContents::Object(m)) => m.contains_key("updated_at"@) && m["updated_at"@] is Text
            && m["updated_at"@]->Text_0 == at,
        _ => false,
    }
}

/// Bytes that are read as an object with the commit under `current`.
pub open spec fn names_commit(bytes: Seq<u8>, commit: Seq<char>) -> bool {
    match json_parse(bytes) {
        Some(JsonContents::Object(m)) => m.contains_key("current"@) && m["current"@] is Text
            && m["current"@]->Text_0 == commit,
        _ => false,
    }
}

/// The workspace is the nearest directory whose build file says so; a build file on the way that
/// cannot be read ends the search with its error.
pub proof fn nearest_workspace_is_found(upwards: &Vec<BuildFile>, r: Workspace, j: int)
    requires
        call_ensures(find_workspace_root, (upwards,), r),
    ensures
        r is Found ==> r->Found_0 < upwards@.len() && upwards@[r->Found_0 as int] is Text,
        r is Found && 0 <= j < r->Found_0 ==> !(upwards@[j] is Unreadable),
        r is Failed ==> exists|i: int|
            0 <= i < upwards@.len() && #[trigger] upwards@[i] is Unreadable
                && upwards@[i]->Unreadable_0@ == r->Failed_0@,
        r is NotFound && 0 <= j < upwards@.len() ==> !(upwards@[j] is Unreadable),
        r is Found ==> holds_at(upwards@[r->Found_0 as int]->Text_0@, "[workspace]"@),
        r is NotFound && 0 <= j < upwards@.len() && upwards@[j] is Text ==> !holds_at(
            upwards@[j]->Text_0@,
            "[workspace]"@,
        ),
        r is Found && 0 <= j < r->Found_0 && upwards@[j] is Text ==> !holds_at(
            upwards@[j]->Text_0@,
            "[workspace]"@,
        ),
{
    if r is Found {
        let f = upwards@[r->Found_0 as int];
        assert(crate::servo_prep::decisive(f));
        occurs_is_held("[workspace]"@, f->Text_0@);
    }
    if 0 <= j < upwards@.len() && upwards@[j] is Text {
        occurs_is_held("[workspace]"@, upwards@[j]->Text_0@);
        if r is NotFound || (r is Found && j < r->Found_0) {
            assert(!crate::servo_prep::decisive(upwards@[j]));
        }
    }
    if 0 <= j < upwards@.len() && (r is NotFound || (r is Found && j < r->Found_0)) {
        assert(!crate::servo_prep::decisive(upwards@[j]));
    }
}

/// A text holds another.
pub open spec fn holds_at(s: Seq<char>, part: Seq<char>) -> bool {
    exists|i: int|
        0 <= i && i + part.len() <= s.len() && #[trigger] s.subrange(i, i + part.len()) == part
}

proof fn occurs_is_held(part: Seq<char>, s: Seq<char>)
    ensures
        crate::text::occurs(part, s) <==> holds_at(s, part),
{
    if crate::text::occurs(part, s) {
        let i = choose|i: int| crate::text::occurs_at(part, s, i);
        assert(s.subrange(i, i + part.len()) == part);
    }
    if holds_at(s, part) {
        let i = choose|i: int|
            0 <= i && i + part.len() <= s.len() && #[trigger] s.subrange(i, i + part.len()) == part;
        assert(crate::text::occurs_at(part, s, i));
    }
}

/// A program has the same name wherever it is asked for.
pub proof fn program_names_agree(
    base: &str,
    windows: bool,
    a: String,
    b: String,
)
    requires
        call_ensures(bin_name_for_host, (base, windows), a),
        call_ensures(crate::servo_locator::normalize_bin_name, (base, windows), b),
    ensures
        a@ == b@,
        !windows ==> a@ == base@,
{
}

/// What a package says of itself holds every value of the record under its own name, and the
/// checksum of every file, of which the last counts where one is listed twice.
pub proof fn package_tells_its_record(
    m: &ServoMetadata,
    package: &Option<String>,
    checksums: &Vec<(String, String)>,
    v: Value,
    i: int,
)
    requires
        call_ensures(package_value, (m, package, checksums), v),
    ensures
        json_contents(v) is Object,
        has_text(v, "servo_commit"@, m.servo_commit@),
        has_text(v, "build_profile"@, m.build_profile@),
        has_text(v, "timestamp"@, m.timestamp@),
        has_text(v, "target_triple"@, m.target_triple@),
        has_text(v, "rust_toolchain"@, m.rust_toolchain@),
        has_text(v, "binary_name"@, m.binary_name@),
        package is Some ==> has_text(v, "package"@, package->0@),
        ({
            let f = json_contents(v)->Object_0["enabled_features"@];
            &&& f is Array && f->Array_0.len() == m.enabled_features@.len()
            &&& forall|k: int|
                0 <= k < m.enabled_features@.len() ==> #[trigger] f->Array_0[k]
                    == JsonContents::Text(m.enabled_features@[k]@)
        }),
        ({
            let c = json_contents(v)->Object_0["checksums"@];
            &&& c is Object
            &&& 0 <= i < checksums@.len() && (forall|j: int|
                i < j < checksums@.len() ==> (#[trigger] checksums@[j]).0@ != checksums@[i].0@)
                ==> c->Object_0.contains_key(checksums@[i].0@) && c->Object_0[checksums@[i].0@]
                == JsonContents::Text(checksums@[i].1@)
        }),
{
    package_keys_differ();
    let fields = crate::servo_prep::package_fields(
        m@,
        crate::text::opt_view(*package),
        checksums@,
    );
    let n = fields.len() as int;
    assert(json_contents(v) == JsonContents::Object(crate::json::members(fields)));
    assert forall|j: int, k: int| 0 <= j < k < n implies (#[trigger] fields[j]).0 != (
    #[trigger] fields[k]).0 by {}
    assert forall|j: int| 0 <= j < n implies crate::json::members(fields).contains_key(
        (#[trigger] fields[j]).0,
    ) && crate::json::members(fields)[fields[j].0] == fields[j].1 by {
        last_member_counts(fields, j);
    }
    assert(fields[0].0 == "servo_commit"@ && fields[1].0 == "build_profile"@ && fields[2].0
        == "enabled_features"@ && fields[3].0 == "timestamp"@ && fields[4].0 == "target_triple"@
        && fields[5].0 == "rust_toolchain"@ && fields[6].0 == "binary_name"@);
    assert(fields[n - 1].0 == "checksums"@);
    if package is Some {
        assert(fields[7].0 == "package"@);
    }
    views_at(m.enabled_features@);
    let sums = crate::servo_prep::checksum_fields(checksums@);
    if 0 <= i < checksums@.len() && (forall|j: int|
        i < j < checksums@.len() ==> (#[trigger] checksums@[j]).0@ != checksums@[i].0@) {
        assert forall|j: int| i < j < sums.len() implies (#[trigger] sums[j]).0 != sums[i].0 by {
            assert(checksums@[j].0@ != checksums@[i].0@);
        }
        last_member_counts(sums, i);
    }
}

/// A member of an object is a text.
pub open spec fn has_text(v: Value, name: Seq<char>, text: Seq<char>) -> bool {
    json_contents(v)->Object_0.contains_key(name) && json_contents(v)->Object_0[name]
        == JsonContents::Text(text)
}

pub(crate) proof fn last_member_counts(fields: Seq<(Seq<char>, JsonContents)>, i: int)
    requires
        0 <= i < fields.len(),
        forall|j: int| i < j < fields.len() ==> (#[trigger] fields[j]).0 != fields[i].0,
    ensures
        crate::json::members(fields).contains_key(fields[i].0),
        crate::json::members(fields)[fields[i].0] == fields[i].1,
    decreases fields.len(),
{
    if i < fields.len() - 1 {
        let front = fields.drop_last();
        assert forall|j: int| i < j < front.len() implies (#[trigger] front[j]).0 != front[i].0 by {
            assert(fields[j].0 != fields[i].0);
        }
        last_member_counts(front, i);
        assert(fields[fields.len() - 1].0 != fields[i].0);
    }
}

proof fn package_keys_differ()
    ensures
        "servo_commit"@.len() == 12,
        "build_profile"@.len() == 13,
        "enabled_features"@.len() == 16,
        "timestamp"@.len() == 9,
        "target_triple"@.len() == 13,
        "rust_toolchain"@.len() == 14,
        "binary_name"@.len() == 11,
        "package"@.len() == 7,
        "checksums"@.len() == 9,
        "build_profile"@ != "target_triple"@,
        "timestamp"@ != "checksums"@,
{
    reveal_strlit("servo_commit");
    reveal_strlit("build_profile");
    reveal_strlit("enabled_features");
    reveal_strlit("timestamp");
    reveal_strlit("target_triple");
    reveal_strlit("rust_toolchain");
    reveal_strlit("binary_name");
    reveal_strlit("package");
    reveal_strlit("checksums");
    assert("build_profile"@[0] != "target_triple"@[0]);
    assert("timestamp"@[0] != "checksums"@[0]);
}

/// The directories of the two profiles have their own names.
pub proof fn profiles_have_their_directories(p: &BuildProfile, s: &'static str)
    requires
        call_ensures(BuildProfile::as_dir, (p,), s),
    ensures
        p is Release ==> s@ == "release"@,
        p is Debug ==> s@ == "debug"@,
{
}

/// What a package says of itself is written as it is.
pub proof fn package_record_is_written(
    m: &ServoMetadata,
    package: &Option<String>,
    checksums: &Vec<(String, String)>,
    v: Value,
    r: Result<Vec<u8>, serde_json::Error>,
)
    requires
        call_ensures(package_value, (m, package, checksums), v),
        call_ensures(package_metadata, (m, package, checksums), r),
    ensures
        r is Ok <==> json_encode_pretty(json_contents(v)) is Some,
        r is Ok ==> r->Ok_0@ == json_encode_pretty(json_contents(v))->0,
{
}

/// One more piece behind a comma is one more feature behind the others, without the white
/// characters around it; a piece of white characters is none.
pub proof fn features_stand_in_order(
    t: &str,
    before: Vec<String>,
    p: &str,
    feature: String,
    s: &str,
    r: Vec<String>,
)
    requires
        call_ensures(split_features, (t,), before),
        !p@.contains(','),
        call_ensures(trimmed, (p,), feature),
        s@ == t@.push(',') + p@,
        call_ensures(split_features, (s,), r),
    ensures
        feature@.len() == 0 ==> same_list(r@, before@),
        feature@.len() > 0 ==> r@.len() == before@.len() + 1 && same_list(
            r@.drop_last(),
            before@,
        ) && r@.last()@ == feature@,
{
    crate::text::split_adds_a_piece(t@, p@, ',');
    let pieces = crate::text::split(t@, ',');
    assert(pieces.push(p@).drop_last() =~= pieces);
    assert(views(r@).len() == r@.len() && views(before@).len() == before@.len());
    if feature@.len() == 0 {
        lists_agree(r@, before@);
    } else {
        assert(views(r@) == views(before@).push(feature@));
        assert(views(r@)[before@.len() as int] == r@[before@.len() as int]@);
        assert forall|i: int| 0 <= i < before@.len() implies (#[trigger] r@.drop_last()[i])@
            == before@[i]@ by {
            assert(views(r@)[i] == r@[i]@ && views(before@)[i] == before@[i]@);
        }
    }
}

/// A directory is passed over: it has no build file, or one that declares no workspace.
pub open spec fn is_passed(f: BuildFile) -> bool {
    f is Missing || f is Text && !holds_at(f->Text_0@, "[workspace]"@)
}

/// The search passes over what declares nothing, and ends at the first directory that it cannot
/// pass over: with its position, or with its error.
pub proof fn search_ends_where_it_must(upwards: &Vec<BuildFile>, r: Workspace, k: int)
    requires
        call_ensures(find_workspace_root, (upwards,), r),
        0 <= k <= upwards@.len(),
        forall|j: int| 0 <= j < k ==> is_passed(#[trigger] upwards@[j]),
        k < upwards@.len() ==> !is_passed(upwards@[k]),
    ensures
        k == upwards@.len() ==> r is NotFound,
        k < upwards@.len() && upwards@[k] is Text ==> r is Found && r->Found_0 == k,
        k < upwards@.len() && upwards@[k] is Unreadable ==> r is Failed && r->Failed_0@
            == upwards@[k]->Unreadable_0@,
{
    assert forall|j: int| 0 <= j < k implies !crate::servo_prep::decisive(
        #[trigger] upwards@[j],
    ) by {
        assert(is_passed(upwards@[j]));
        if upwards@[j] is Text {
            occurs_is_held("[workspace]"@, upwards@[j]->Text_0@);
        }
    }
    if k < upwards@.len() {
        if upwards@[k] is Text {
            occurs_is_held("[workspace]"@, upwards@[k]->Text_0@);
        }
        assert(crate::servo_prep::decisive(upwards@[k]));
        if r is Found {
            assert(crate::servo_prep::decisive(upwards@[r->Found_0 as int]));
            assert(r->Found_0 >= k);
        }
        if r is Failed {
            let i = choose|i: int|
                0 <= i < upwards@.len() && #[trigger] upwards@[i] is Unreadable
                    && upwards@[i]->Unreadable_0@ == r->Failed_0@ && forall|j: int|
                    0 <= j < i ==> !crate::servo_prep::decisive(#[trigger] upwards@[j]);
            assert(crate::servo_prep::decisive(upwards@[i]));
            assert(i == k);
        }
    } else {
        if r is Found {
            assert(crate::servo_prep::decisive(upwards@[r->Found_0 as int]));
        }
        if r is Failed {
            let i = choose|i: int|
                0 <= i < upwards@.len() && #[trigger] upwards@[i] is Unreadable
                    && upwards@[i]->Unreadable_0@ == r->Failed_0@ && forall|j: int|
                    0 <= j < i ==> !crate::servo_prep::decisive(#[trigger] upwards@[j]);
            assert(crate::servo_prep::decisive(upwards@[i]));
        }
    }
}

} // verus!
