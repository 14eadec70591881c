//! Building, staging and packaging the engine: which settings win, which commands are run, where
//! things are put and what is written about them.
use vstd::prelude::*;
use vstd::string::*;
use serde_json::Value;
use crate::json::{
    field_contents, json_array, json_contents, json_encode_pretty, json_object,
    json_parse, json_text, json_to_vec_pretty, members, element_contents, JsonContents,
};
use crate::server::{present, Candidate};
use crate::servo_locator::{
    first_present, leads_to, manifest_names, normalize_bin_name, program_name, ServoMetadata,
};
use crate::text::{
    char_views, chars_of, contains_text, copy_all, copy_opt, is_white, join_all, join_texts,
    joined, occurs, opt_view, pieces_lack_the_separator, signed_decimal, signed_text, split,
    split_chars, split_undoes_join, text_of, trim, trim_chars, trimmed, trimmed_text_is_trim,
    views,
};

verus! {

/// How the engine is built.
#[derive(Debug, Clone, Copy, PartialEq, Eq, Structural)]
pub enum BuildProfile {
    Debug,
    Release,
}

impl BuildProfile {
    /// The directory name of a profile.
    pub open spec fn dir(self) -> Seq<char> {
        match self {
            BuildProfile::Debug => "debug"@,
            BuildProfile::Release => "release"@,
        }
    }

    /// Names the directory of a profile.
    pub fn as_dir(&self) -> (s: &'static str)
        ensures
            s@ == self.dir(),
    {
        match self {
            BuildProfile::Debug => "debug",
            BuildProfile::Release => "release",
        }
    }
}

/// The form of a package.
#[derive(Debug, Clone, Copy, PartialEq, Eq, Structural)]
pub enum PackageKind {
    Zip,
    AppImage,
    Dmg,
    Msi,
}

/// The systems that packaging tells apart.
#[derive(Debug, Clone, Copy, PartialEq, Eq, Structural)]
pub enum HostSystem {
    MacOs,
    Windows,
    Other,
}

/// The profile that a configuration file names.
pub open spec fn profile_named(name: Option<Seq<char>>) -> Option<BuildProfile> {
    match name {
        Some(n) => if n == "release"@ {
            Some(BuildProfile::Release)
        } else if n == "debug"@ {
            Some(BuildProfile::Debug)
        } else {
            None
        },
        None => None,
    }
}

/// The profile to build: the command line comes before the configuration file; the default is a
/// release build.
pub fn choose_profile(cli: Option<BuildProfile>, config: &Option<String>) -> (p: BuildProfile)
    ensures
        p == (match cli {
            Some(c) => c,
            None => match profile_named(opt_view(*config)) {
                Some(c) => c,
                None => BuildProfile::Release,
            },
        }),
{
    proof {
        reveal_strlit("release");
        reveal_strlit("debug");
    }
    match cli {
        Some(c) => c,
        None => match config {
            Some(n) => {
                if crate::text::same_text(n.as_str(), "release") {
                    BuildProfile::Release
                } else if crate::text::same_text(n.as_str(), "debug") {
                    BuildProfile::Debug
                } else {
                    BuildProfile::Release
                }
            },
            None => BuildProfile::Release,
        },
    }
}

/// The command line comes before the configuration file.
pub open spec fn chosen(cli: Option<Seq<char>>, config: Option<Seq<char>>) -> Option<Seq<char>> {
    if cli is Some {
        cli
    } else {
        config
    }
}

/// Chooses a setting that may stay unset.
pub fn choose_setting(cli: &Option<String>, config: &Option<String>) -> (r: Option<String>)
    ensures
        opt_view(r) == chosen(opt_view(*cli), opt_view(*config)),
{
    match cli {
        Some(s) => Some(s.clone()),
        None => copy_opt(config),
    }
}

/// Chooses a setting that has a default.
pub fn choose_or(cli: &Option<String>, config: &Option<String>, default: &str) -> (r: String)
    ensures
        r@ == (match chosen(opt_view(*cli), opt_view(*config)) {
            Some(s) => s,
            None => default@,
        }),
{
    match choose_setting(cli, config) {
        Some(s) => s,
        None => default.to_owned(),
    }
}

/// The name of the binary target, where nothing else is set.
pub const DEFAULT_BINARY: &'static str = "servo";

/// The directory of staged builds, where nothing else is set.
pub const DEFAULT_OUTPUT: &'static str = "third_party/servo-binaries/local";

/// Where the sources of the engine are: the command line is taken at its word; the environment and
/// the configuration file count only if something is there.
pub fn determine_servo_src(
    cli: &Option<String>,
    env: &Option<Candidate>,
    config: &Option<Candidate>,
) -> (r: Result<String, String>)
    ensures
        match *cli {
            Some(p) => r is Ok && r->Ok_0@ == p@,
            None => if present(*env) {
                r is Ok && r->Ok_0@ == env->0.path@
            } else if present(*config) {
                r is Ok && r->Ok_0@ == config->0.path@
            } else {
                r is Err && r->Err_0@
                    == "Servo source path not provided. Use --servo-src, set SERVO_SRC, or configure `servo_src` in servo-build-config.toml"@
            },
        },
{
    match cli {
        Some(p) => return Ok(p.clone()),
        None => {},
    }
    match env {
        Some(c) => {
            if c.exists {
                return Ok(c.path.clone());
            }
        },
        None => {},
    }
    match config {
        Some(c) => {
            if c.exists {
                return Ok(c.path.clone());
            }
        },
        None => {},
    }
    Err(
        "Servo source path not provided. Use --servo-src, set SERVO_SRC, or configure `servo_src` in servo-build-config.toml".to_owned(),
    )
}

/// The pieces of a list, each without the white space around it, empty ones left out.
pub open spec fn nonempty_trimmed(pieces: Seq<Seq<char>>) -> Seq<Seq<char>>
    decreases pieces.len(),
{
    if pieces.len() == 0 {
        Seq::empty()
    } else {
        let before = nonempty_trimmed(pieces.drop_last());
        if trim(pieces.last()).len() > 0 {
            before.push(trim(pieces.last()))
        } else {
            before
        }
    }
}

/// The features in a comma-separated list.
pub open spec fn features_in(s: Seq<char>) -> Seq<Seq<char>> {
    nonempty_trimmed(split(s, ','))
}

/// Splits a comma-separated list of features.
pub fn split_features(s: &str) -> (r: Vec<String>)
    ensures
        views(r@) == features_in(s@),
{
    let pieces = split_chars(&chars_of(s), ',');
    let ghost pv = char_views(pieces@);
    let mut out: Vec<String> = Vec::new();
    let mut i: usize = 0;
    proof {
        assert(views(out@) =~= nonempty_trimmed(pv.take(0)));
    }
    while i < pieces.len()
        invariant
            i <= pieces.len(),
            pv == char_views(pieces@),
            views(out@) == nonempty_trimmed(pv.take(i as int)),
        decreases pieces.len() - i,
    {
        let t = trim_chars(&pieces[i]);
        let ghost before = out@;
        proof {
            assert(pv.take(i + 1).drop_last() =~= pv.take(i as int));
            assert(pv.take(i + 1).last() == pieces@[i as int]@);
        }
        if t.len() > 0 {
            out.push(text_of(&t));
            proof {
                assert(views(out@) =~= views(before).push(t@));
            }
        }
        i += 1;
    }
    proof {
        assert(pv.take(i as int) =~= pv);
    }
    out
}

/// The features of a list are not empty, hold no comma and have no white space around them, and
/// joined by commas they are split into the same features again.
pub proof fn joined_features_split_again(s: Seq<char>)
    ensures
        forall|i: int|
            0 <= i < features_in(s).len() ==> (#[trigger] features_in(s)[i]).len() > 0
                && !features_in(s)[i].contains(',') && !is_white(features_in(s)[i][0])
                && !is_white(features_in(s)[i].last()),
        features_in(join_texts(features_in(s), ","@)) == features_in(s),
{
    let pieces = split(s, ',');
    let features = features_in(s);
    pieces_lack_the_separator(s, ',');
    features_are_plain(pieces);
    reveal_strlit(",");
    assert(","@ =~= seq![',']);
    if features.len() == 0 {
        let text = join_texts(features, ","@);
        assert(text =~= Seq::empty());
        let only = split(text, ',');
        assert(only.last() =~= Seq::<char>::empty());
        assert(trim(only.last()) =~= Seq::<char>::empty());
        assert(only.drop_last() =~= Seq::empty());
        assert(nonempty_trimmed(only.drop_last()) =~= Seq::empty());
        assert(features =~= Seq::empty());
    } else {
        split_undoes_join(features, ',');
        plain_features_stay(features);
    }
}

/// A feature as it stands in a list of features.
pub open spec fn is_plain(f: Seq<char>) -> bool {
    f.len() > 0 && !f.contains(',') && !is_white(f[0]) && !is_white(f.last()) && trim(f) == f
}

proof fn features_are_plain(pieces: Seq<Seq<char>>)
    requires
        forall|i: int| 0 <= i < pieces.len() ==> !(#[trigger] pieces[i]).contains(','),
    ensures
        forall|i: int|
            0 <= i < nonempty_trimmed(pieces).len() ==> is_plain(
                #[trigger] nonempty_trimmed(pieces)[i],
            ),
    decreases pieces.len(),
{
    if pieces.len() > 0 {
        let front = pieces.drop_last();
        assert forall|i: int| 0 <= i < front.len() implies !(#[trigger] front[i]).contains(',') by {
            assert(front[i] == pieces[i]);
        }
        features_are_plain(front);
        assert(!pieces[pieces.len() - 1].contains(','));
        let last = trim(pieces.last());
        trimmed_text_is_trim(pieces.last());
        assert(!last.contains(','));
        let before = nonempty_trimmed(front);
        let now = nonempty_trimmed(pieces);
        assert forall|i: int| 0 <= i < now.len() implies is_plain(#[trigger] now[i]) by {
            if i < before.len() {
                assert(now[i] == before[i]);
            } else {
                assert(now[i] == last);
            }
        }
    }
}

proof fn plain_features_stay(features: Seq<Seq<char>>)
    requires
        forall|i: int| 0 <= i < features.len() ==> is_plain(#[trigger] features[i]),
    ensures
        nonempty_trimmed(features) == features,
    decreases features.len(),
{
    if features.len() > 0 {
        let front = features.drop_last();
        assert forall|i: int| 0 <= i < front.len() implies is_plain(#[trigger] front[i]) by {
            assert(front[i] == features[i]);
        }
        plain_features_stay(front);
        assert(is_plain(features[features.len() - 1]));
        assert(front.push(features.last()) =~= features);
    } else {
        assert(features =~= Seq::empty());
    }
}

/// A list that may be absent.
pub open spec fn list_or_none(o: Option<Vec<String>>) -> Seq<Seq<char>> {
    match o {
        Some(v) => views(v@),
        None => Seq::empty(),
    }
}

/// The features to build with: the command line comes before the configuration file.
pub fn determine_features(cli: &Option<String>, config: &Option<Vec<String>>) -> (r: Vec<String>)
    ensures
        views(r@) == (match *cli {
            Some(s) => features_in(s@),
            None => list_or_none(*config),
        }),
{
    match cli {
        Some(s) => return split_features(s.as_str()),
        None => {},
    }
    match config {
        Some(v) => copy_all(v),
        None => {
            let none: Vec<String> = Vec::new();
            proof {
                assert(views(none@) =~= Seq::empty());
            }
            none
        },
    }
}

/// The arguments of the build command.
pub open spec fn build_args(
    binary: Seq<char>,
    profile: BuildProfile,
    features: Seq<Seq<char>>,
    target: Option<Seq<char>>,
    toolchain: Option<Seq<char>>,
) -> Seq<Seq<char>> {
    let front: Seq<Seq<char>> = match toolchain {
        Some(t) => seq!["+"@ + t],
        None => Seq::empty(),
    };
    let release: Seq<Seq<char>> = if profile == BuildProfile::Release {
        seq!["--release"@]
    } else {
        Seq::empty()
    };
    let with: Seq<Seq<char>> = if features.len() > 0 {
        seq!["--features"@, join_texts(features, ","@)]
    } else {
        Seq::empty()
    };
    let to: Seq<Seq<char>> = match target {
        Some(t) => seq!["--target"@, t],
        None => Seq::empty(),
    };
    front + seq!["build"@, "--bin"@, binary] + release + with + to
}

/// Lists the arguments of the build command.
pub fn build_servo(
    binary_name: &str,
    profile: BuildProfile,
    features: &Vec<String>,
    target: &Option<String>,
    toolchain: &Option<String>,
) -> (r: Vec<String>)
    ensures
        views(r@) == build_args(
            binary_name@,
            profile,
            views(features@),
            opt_view(*target),
            opt_view(*toolchain),
        ),
{
    let mut args: Vec<String> = Vec::new();
    match toolchain {
        Some(t) => args.push(joined("+", t.as_str())),
        None => {},
    }
    args.push("build".to_owned());
    args.push("--bin".to_owned());
    args.push(binary_name.to_owned());
    if profile == BuildProfile::Release {
        args.push("--release".to_owned());
    }
    if features.len() > 0 {
        args.push("--features".to_owned());
        args.push(join_all(features, ","));
    }
    match target {
        Some(t) => {
            args.push("--target".to_owned());
            args.push(t.clone());
        },
        None => {},
    }
    proof {
        assert(views(args@) =~= build_args(
            binary_name@,
            profile,
            views(features@),
            opt_view(*target),
            opt_view(*toolchain),
        ));
    }
    args
}

/// Where a built binary may be, below the sources: under the target triple first, where one is
/// given, then in the plain layout.
pub open spec fn artifact_places(
    bin_name: Seq<char>,
    profile: BuildProfile,
    target: Option<Seq<char>>,
) -> Seq<Seq<Seq<char>>> {
    let plain = seq!["target"@, profile.dir(), bin_name];
    match target {
        Some(t) => seq![seq!["target"@, t, profile.dir(), bin_name], plain],
        None => seq![plain],
    }
}

/// The views of lists of texts.
pub open spec fn nested_views(v: Seq<Vec<String>>) -> Seq<Seq<Seq<char>>> {
    Seq::new(v.len(), |i: int| views(v[i]@))
}

/// Lists where a built binary may be, as path components below the sources.
pub fn artifact_candidates(bin_name: &str, profile: BuildProfile, target: &Option<String>) -> (r:
    Vec<Vec<String>>)
    ensures
        nested_views(r@) == artifact_places(bin_name@, profile, opt_view(*target)),
{
    let mut out: Vec<Vec<String>> = Vec::new();
    match target {
        Some(t) => {
            let mut place: Vec<String> = Vec::new();
            place.push("target".to_owned());
            place.push(t.clone());
            place.push(profile.as_dir().to_owned());
            place.push(bin_name.to_owned());
            proof {
                assert(views(place@) =~= seq!["target"@, t@, profile.dir(), bin_name@]);
            }
            out.push(place);
        },
        None => {},
    }
    let mut plain: Vec<String> = Vec::new();
    plain.push("target".to_owned());
    plain.push(profile.as_dir().to_owned());
    plain.push(bin_name.to_owned());
    proof {
        assert(views(plain@) =~= seq!["target"@, profile.dir(), bin_name@]);
    }
    out.push(plain);
    proof {
        assert(nested_views(out@) =~= artifact_places(bin_name@, profile, opt_view(*target)));
    }
    out
}

/// The paths of candidates.
pub open spec fn candidate_paths(c: Seq<Candidate>) -> Seq<Seq<char>> {
    Seq::new(c.len(), |i: int| c[i].path@)
}

/// Takes the first candidate that is there; the error lists all that were tried.
pub fn locate_servo_artifact(candidates: &Vec<Candidate>) -> (r: Result<String, String>)
    ensures
        match first_present(candidates@) {
            Some(p) => r is Ok && r->Ok_0@ == p,
            None => r is Err && r->Err_0@ == "Could not find built binary. Tried: "@ + join_texts(
                candidate_paths(candidates@),
                ", "@,
            ),
        },
{
    let mut tried: Vec<String> = Vec::new();
    let mut i: usize = 0;
    proof {
        assert(candidates@.skip(0) =~= candidates@);
        assert(views(tried@) =~= candidate_paths(candidates@.take(0)));
    }
    while i < candidates.len()
        invariant
            i <= candidates.len(),
            first_present(candidates@) == first_present(candidates@.skip(i as int)),
            views(tried@) == candidate_paths(candidates@.take(i as int)),
        decreases candidates.len() - i,
    {
        proof {
            assert(candidates@.skip(i as int)[0] == candidates@[i as int]);
            assert(candidates@.skip(i as int).drop_first() =~= candidates@.skip(i + 1));
        }
        if candidates[i].exists {
            return Ok(candidates[i].path.clone());
        }
        let ghost before = tried@;
        tried.push(candidates[i].path.clone());
        proof {
            let path = candidates@[i as int].path@;
            assert(views(tried@) =~= views(before).push(path));
            assert(candidate_paths(candidates@.take(i + 1)) =~= candidate_paths(
                candidates@.take(i as int),
            ).push(path));
        }
        i += 1;
    }
    proof {
        assert(candidates@.take(i as int) =~= candidates@);
    }
    let list = join_all(&tried, ", ");
    Err(joined("Could not find built binary. Tried: ", list.as_str()))
}

/// Names the file of a program; see [`normalize_bin_name`].
pub fn bin_name_for_host(base: &str, windows: bool) -> (r: String)
    ensures
        r@ == program_name(base@, windows),
{
    normalize_bin_name(base, windows)
}

/// What a tool printed, without the white space around it; a tool that failed is reported with
/// what it printed on its error stream.
pub fn tool_output(tool: &str, success: bool, stdout: &str, stderr: &str) -> (r: Result<
    String,
    String,
>)
    ensures
        success ==> r is Ok && r->Ok_0@ == trim(stdout@),
        !success ==> r is Err && r->Err_0@ == tool@ + " failed: "@ + stderr@,
{
    if success {
        Ok(trimmed(stdout))
    } else {
        let mut s = joined(tool, " failed: ");
        s.append(stderr);
        Err(s)
    }
}

/// The report of a tool that ended with a status; a tool that was killed has status -1.
pub fn exit_report(tool: &str, code: Option<i32>) -> (s: String)
    ensures
        s@ == tool@ + " failed with status "@ + signed_decimal(
            match code {
                Some(c) => c as int,
                None => -1,
            },
        ),
{
    let mut s = joined(tool, " failed with status ");
    let n: i32 = match code {
        Some(c) => c,
        None => -1,
    };
    s.append(signed_text(n).as_str());
    s
}

/// Where a build is staged, below the workspace: by target, profile and commit.
pub fn staging_place(output: &str, target: &str, profile: BuildProfile, commit: &str) -> (r: Vec<
    String,
>)
    ensures
        views(r@) == seq![output@, target@, profile.dir(), commit@],
{
    let mut place: Vec<String> = Vec::new();
    place.push(output.to_owned());
    place.push(target.to_owned());
    place.push(profile.as_dir().to_owned());
    place.push(commit.to_owned());
    proof {
        assert(views(place@) =~= seq![output@, target@, profile.dir(), commit@]);
    }
    place
}

/// Where a bundled resource goes in a package: a file by its name, and a file below a directory by
/// the name of the directory and its place in it.  A directory without a name is called `res`.
pub open spec fn resource_path(is_file: bool, base: Option<Seq<char>>, rel: Seq<char>) -> Seq<
    Seq<char>,
> {
    let name = match base {
        Some(b) => b,
        None => "res"@,
    };
    if is_file {
        seq![name]
    } else {
        seq![name, rel]
    }
}

/// Places a bundled resource.  `base` is the last name in the path of the resource, and `rel` the
/// place of the file below it where the resource is a directory.
pub fn resource_place(is_file: bool, base: &Option<String>, rel: &str) -> (r: Vec<String>)
    ensures
        views(r@) == resource_path(is_file, opt_view(*base), rel@),
{
    let name = match base {
        Some(b) => b.clone(),
        None => "res".to_owned(),
    };
    let mut place: Vec<String> = Vec::new();
    place.push(name);
    if !is_file {
        place.push(rel.to_owned());
    }
    proof {
        assert(views(place@) =~= resource_path(is_file, opt_view(*base), rel@));
    }
    place
}

/// View of [`ServoMetadata`].
pub struct MetadataView {
    pub servo_commit: Seq<char>,
    pub build_profile: Seq<char>,
    pub enabled_features: Seq<Seq<char>>,
    pub timestamp: Seq<char>,
    pub target_triple: Seq<char>,
    pub rust_toolchain: Seq<char>,
    pub binary_name: Seq<char>,
}

impl View for ServoMetadata {
    type V = MetadataView;

    open spec fn view(&self) -> MetadataView {
        MetadataView {
            servo_commit: self.servo_commit@,
            build_profile: self.build_profile@,
            enabled_features: views(self.enabled_features@),
            timestamp: self.timestamp@,
            target_triple: self.target_triple@,
            rust_toolchain: self.rust_toolchain@,
            binary_name: self.binary_name@,
        }
    }
}

/// Records a build; the toolchain that was asked for comes before the compiler's own report.
pub fn make_metadata(
    commit: &str,
    profile: BuildProfile,
    features: &Vec<String>,
    timestamp: &str,
    target: &str,
    toolchain: &Option<String>,
    rustc_version: &str,
    binary_name: &str,
) -> (m: ServoMetadata)
    ensures
        m@ == (MetadataView {
            servo_commit: commit@,
            build_profile: profile.dir(),
            enabled_features: views(features@),
            timestamp: timestamp@,
            target_triple: target@,
            rust_toolchain: match *toolchain {
                Some(t) => t@,
                None => rustc_version@,
            },
            binary_name: binary_name@,
        }),
{
    ServoMetadata {
        servo_commit: commit.to_owned(),
        build_profile: profile.as_dir().to_owned(),
        enabled_features: copy_all(features),
        timestamp: timestamp.to_owned(),
        target_triple: target.to_owned(),
        rust_toolchain: match toolchain {
            Some(t) => t.clone(),
            None => rustc_version.to_owned(),
        },
        binary_name: binary_name.to_owned(),
    }
}

/// Whether the pointer to the current build is left alone.
pub fn pointer_disabled(cli: bool, config: Option<bool>) -> (b: bool)
    ensures
        b == (cli || config == Some(true)),
{
    cli || match config {
        Some(c) => c,
        None => false,
    }
}

/// Where the binary is copied besides: what the configuration file lists, then what the command
/// line names; by default one place.
pub fn copy_targets(config: &Option<Vec<String>>, cli: &Option<String>) -> (r: Vec<String>)
    ensures
        ({
            let listed = list_or_none(*config);
            let all = match *cli {
                Some(c) => listed.push(c@),
                None => listed,
            };
            views(r@) == if all.len() == 0 {
                seq!["versoview"@]
            } else {
                all
            }
        }),
{
    let mut out: Vec<String> = match config {
        Some(v) => copy_all(v),
        None => Vec::new(),
    };
    proof {
        assert(views(out@) =~= list_or_none(*config));
    }
    match cli {
        Some(c) => {
            let ghost before = out@;
            out.push(c.clone());
            proof {
                assert(views(out@) =~= views(before).push(c@));
            }
        },
        None => {},
    }
    if out.len() == 0 {
        out.push("versoview".to_owned());
        proof {
            assert(views(out@) =~= seq!["versoview"@]);
        }
    }
    out
}

/// Whether a copy target stands for a directory that the binary goes into.
pub fn target_is_directory(is_dir: bool, has_extension: bool) -> (b: bool)
    ensures
        b == (is_dir || !has_extension),
{
    is_dir || !has_extension
}

/// Where the pointer file of a slot goes.
#[derive(Debug, Clone, PartialEq, Eq)]
pub enum PointerPlace {
    /// Into the directory `current`.
    Current,
    /// Into the directory of a commit.
    Commit(String),
}

/// Chooses where the pointer file goes: into `current` where that is kept and there, else to the
/// commit that the manifest names, else to the commit that was staged.
pub fn pointer_place(
    disabled: bool,
    current_exists: bool,
    manifest: &Option<String>,
    commit: &str,
) -> (p: PointerPlace)
    ensures
        if !disabled && current_exists {
            p is Current
        } else {
            p is Commit && p->Commit_0@ == (match *manifest {
                Some(c) => c@,
                None => commit@,
            })
        },
{
    if !disabled && current_exists {
        PointerPlace::Current
    } else {
        match manifest {
            Some(c) => PointerPlace::Commit(c.clone()),
            None => PointerPlace::Commit(commit.to_owned()),
        }
    }
}

/// What a failure to write a pointer file means: it ends the run only where that was asked for.
pub fn pointer_failure(strict: bool, what: &str, path: &str, error: &str) -> (r: Result<(), String>)
    ensures
        !strict ==> r is Ok,
        strict ==> r is Err && r->Err_0@ == "failed to write "@ + what@ + " "@ + path@ + ": "@
            + error@,
{
    if strict {
        let mut s = joined("failed to write ", what);
        s.append(" ");
        s.append(path);
        s.append(": ");
        s.append(error);
        Err(s)
    } else {
        Ok(())
    }
}

/// The name of a package.
pub open spec fn package_file(
    kind: PackageKind,
    target: Seq<char>,
    profile: BuildProfile,
    commit: Seq<char>,
) -> Seq<char> {
    match kind {
        PackageKind::Zip => "servo-"@ + target + "-"@ + profile.dir() + "-"@ + commit + ".zip"@,
        PackageKind::AppImage => "Verso-"@ + target + ".AppImage"@,
        PackageKind::Dmg => "Verso.dmg"@,
        PackageKind::Msi => "Verso.msi"@,
    }
}

/// Names a package, where this system can make it.
pub fn package_name(
    kind: PackageKind,
    system: HostSystem,
    target: &str,
    profile: BuildProfile,
    commit: &str,
) -> (r: Result<String, String>)
    ensures
        if kind == PackageKind::Dmg && system != HostSystem::MacOs {
            r is Err && r->Err_0@ == "DMG packaging requires macOS (hdiutil)."@
        } else if kind == PackageKind::Msi && system != HostSystem::Windows {
            r is Err && r->Err_0@ == "MSI packaging requires Windows with WiX Toolset installed."@
        } else {
            r is Ok && r->Ok_0@ == package_file(kind, target@, profile, commit@)
        },
{
    match kind {
        PackageKind::Zip => {
            let mut s = joined("servo-", target);
            s.append("-");
            s.append(profile.as_dir());
            s.append("-");
            s.append(commit);
            s.append(".zip");
            Ok(s)
        },
        PackageKind::AppImage => {
            let mut s = joined("Verso-", target);
            s.append(".AppImage");
            Ok(s)
        },
        PackageKind::Dmg => {
            if system == HostSystem::MacOs {
                Ok("Verso.dmg".to_owned())
            } else {
                Err("DMG packaging requires macOS (hdiutil).".to_owned())
            }
        },
        PackageKind::Msi => {
            if system == HostSystem::Windows {
                Ok("Verso.msi".to_owned())
            } else {
                Err("MSI packaging requires Windows with WiX Toolset installed.".to_owned())
            }
        },
    }
}

/// The name of a file in an archive: components are separated by `/`.
pub open spec fn slashed(s: Seq<char>) -> Seq<char> {
    Seq::new(
        s.len(),
        |i: int|
            if s[i] == '\\' {
                '/'
            } else {
                s[i]
            },
    )
}

/// Names a file in an archive.
pub fn archive_name(rel: &str) -> (r: String)
    ensures
        r@ == slashed(rel@),
{
    let chars = chars_of(rel);
    let mut out: Vec<char> = Vec::new();
    let mut i: usize = 0;
    while i < chars.len()
        invariant
            i <= chars.len(),
            out@ =~= slashed(chars@.take(i as int)),
        decreases chars.len() - i,
    {
        let c = chars[i];
        out.push(
            if c == '\\' {
                '/'
            } else {
                c
            },
        );
        i += 1;
    }
    proof {
        assert(chars@.take(i as int) =~= chars@);
    }
    text_of(&out)
}

/// What `Sha256::digest` computes of bytes.
pub uninterp spec fn sha256(data: Seq<u8>) -> Seq<u8>;

/// `Sha256::digest` of the bytes, which is called [`sha256`] and has 32 bytes.
#[verifier::external_body]
fn sha256_digest(data: &[u8]) -> (d: Vec<u8>)
    ensures
        d@ == sha256(data@),
        d@.len() == 32,
{
    <sha2::Sha256 as sha2::Digest>::digest(data).to_vec()
}

/// The character of a hexadecimal digit.
pub open spec fn hex_char(d: int) -> char {
    if d < 10 {
        (('0' as u32) + d) as u32 as char
    } else {
        (('a' as u32) + d - 10) as u32 as char
    }
}

/// Bytes as lower-case hexadecimal digits, the high digit of each byte first.
pub open spec fn hex_text(data: Seq<u8>) -> Seq<char> {
    Seq::new(
        2 * data.len(),
        |i: int|
            if i % 2 == 0 {
                hex_char(data[i / 2] as int / 16)
            } else {
                hex_char(data[i / 2] as int % 16)
            },
    )
}

/// `hex::encode` writes every byte as two lower-case hexadecimal digits.
#[verifier::external_body]
fn hex_encode(data: &[u8]) -> (s: String)
    ensures
        s@ == hex_text(data@),
{
    hex::encode(data)
}

/// A digest as text.
pub fn digest_text(digest: &[u8]) -> (s: String)
    ensures
        s@ == hex_text(digest@),
{
    hex_encode(digest)
}

/// The checksum of a file's bytes.
pub fn checksum(data: &[u8]) -> (s: String)
    ensures
        s@ == hex_text(sha256(data@)),
        s@.len() == 64,
{
    let d = sha256_digest(data);
    digest_text(d.as_slice())
}

/// The directory of every profile is among those that are searched by default.
pub proof fn staged_profiles_are_searched(p: BuildProfile)
    ensures
        crate::servo_locator::profiles_wanted(None).contains(p.dir()),
{
    let wanted = crate::servo_locator::profiles_wanted(None);
    assert(wanted[0] == "release"@);
    assert(wanted[1] == "debug"@);
}

/// The contents of texts.
pub open spec fn text_contents(v: Seq<Seq<char>>) -> Seq<JsonContents> {
    Seq::new(v.len(), |i: int| JsonContents::Text(v[i]))
}

/// The contents of checksums by file name.
pub open spec fn checksum_fields(v: Seq<(String, String)>) -> Seq<(Seq<char>, JsonContents)> {
    Seq::new(v.len(), |i: int| (v[i].0@, JsonContents::Text(v[i].1@)))
}

/// What a package says of itself.
pub open spec fn package_fields(
    m: MetadataView,
    package: Option<Seq<char>>,
    checksums: Seq<(String, String)>,
) -> Seq<(Seq<char>, JsonContents)> {
    let front: Seq<(Seq<char>, JsonContents)> = seq![
        ("servo_commit"@, JsonContents::Text(m.servo_commit)),
        ("build_profile"@, JsonContents::Text(m.build_profile)),
        ("enabled_features"@, JsonContents::Array(text_contents(m.enabled_features))),
        ("timestamp"@, JsonContents::Text(m.timestamp)),
        ("target_triple"@, JsonContents::Text(m.target_triple)),
        ("rust_toolchain"@, JsonContents::Text(m.rust_toolchain)),
        ("binary_name"@, JsonContents::Text(m.binary_name)),
    ];
    let kind = match package {
        Some(p) => front.push(("package"@, JsonContents::Text(p))),
        None => front,
    };
    kind.push(("checksums"@, JsonContents::Object(members(checksum_fields(checksums)))))
}

fn text_array(v: &Vec<String>) -> (r: Value)
    ensures
        json_contents(r) == JsonContents::Array(text_contents(views(v@))),
{
    let mut out: Vec<Value> = Vec::new();
    let mut i: usize = 0;
    while i < v.len()
        invariant
            i <= v.len(),
            element_contents(out@) == text_contents(views(v@.take(i as int))),
        decreases v.len() - i,
    {
        let ghost before = out@;
        out.push(json_text(v[i].as_str()));
        proof {
            let added = JsonContents::Text(v@[i as int]@);
            assert(element_contents(out@) =~= element_contents(before).push(added));
            assert(text_contents(views(v@.take(i + 1))) =~= text_contents(
                views(v@.take(i as int)),
            ).push(added));
        }
        i += 1;
    }
    proof {
        assert(v@.take(i as int) =~= v@);
    }
    json_array(out)
}

fn checksum_object(v: &Vec<(String, String)>) -> (r: Value)
    ensures
        json_contents(r) == JsonContents::Object(members(checksum_fields(v@))),
{
    let mut out: Vec<(String, Value)> = Vec::new();
    let mut i: usize = 0;
    while i < v.len()
        invariant
            i <= v.len(),
            field_contents(out@) == checksum_fields(v@.take(i as int)),
        decreases v.len() - i,
    {
        let ghost before = out@;
        out.push((v[i].0.clone(), json_text(v[i].1.as_str())));
        proof {
            let added = (v@[i as int].0@, JsonContents::Text(v@[i as int].1@));
            assert(field_contents(out@) =~= field_contents(before).push(added));
            assert(checksum_fields(v@.take(i + 1)) =~= checksum_fields(v@.take(i as int)).push(
                added,
            ));
        }
        i += 1;
    }
    proof {
        assert(v@.take(i as int) =~= v@);
    }
    json_object(out)
}

/// Writes what a package says of itself: the record of the build, the form of the package where it
/// is not an archive, and the checksums of the files in it.
pub fn package_metadata(
    m: &ServoMetadata,
    package: &Option<String>,
    checksums: &Vec<(String, String)>,
) -> (r: Result<Vec<u8>, serde_json::Error>)
    ensures
        match json_encode_pretty(
            JsonContents::Object(members(package_fields(m@, opt_view(*package), checksums@))),
        ) {
            Some(b) => r is Ok && r->Ok_0@ == b,
            None => r is Err,
        },
{
    json_to_vec_pretty(&package_value(m, package, checksums))
}

/// What a package says of itself, as a JSON value.
pub fn package_value(
    m: &ServoMetadata,
    package: &Option<String>,
    checksums: &Vec<(String, String)>,
) -> (v: Value)
    ensures
        json_contents(v) == JsonContents::Object(
            members(package_fields(m@, opt_view(*package), checksums@)),
        ),
{
    let mut fields: Vec<(String, Value)> = Vec::new();
    fields.push(("servo_commit".to_owned(), json_text(m.servo_commit.as_str())));
    fields.push(("build_profile".to_owned(), json_text(m.build_profile.as_str())));
    fields.push(("enabled_features".to_owned(), text_array(&m.enabled_features)));
    fields.push(("timestamp".to_owned(), json_text(m.timestamp.as_str())));
    fields.push(("target_triple".to_owned(), json_text(m.target_triple.as_str())));
    fields.push(("rust_toolchain".to_owned(), json_text(m.rust_toolchain.as_str())));
    fields.push(("binary_name".to_owned(), json_text(m.binary_name.as_str())));
    match package {
        Some(p) => fields.push(("package".to_owned(), json_text(p.as_str()))),
        None => {},
    }
    fields.push(("checksums".to_owned(), checksum_object(checksums)));
    proof {
        assert(field_contents(fields@) =~= package_fields(m@, opt_view(*package), checksums@));
    }
    json_object(fields)
}

/// What a manifest holds: the current commit and when it was set.
pub open spec fn manifest_contents(commit: Seq<char>, updated_at: Seq<char>) -> JsonContents {
    JsonContents::Object(
        members(
            seq![
                ("current"@, JsonContents::Text(commit)),
                ("updated_at"@, JsonContents::Text(updated_at)),
            ],
        ),
    )
}

pub(crate) proof fn manifest_members(commit: Seq<char>, updated_at: Seq<char>)
    ensures
        manifest_contents(commit, updated_at) == JsonContents::Object(
            Map::<Seq<char>, JsonContents>::empty().insert(
                "current"@,
                JsonContents::Text(commit),
            ).insert("updated_at"@, JsonContents::Text(updated_at)),
        ),
        "current"@ != "updated_at"@,
{
    reveal_strlit("current");
    reveal_strlit("updated_at");
    assert("current"@.len() == 7);
    assert("updated_at"@.len() == 10);
    let fields = seq![
        ("current"@, JsonContents::Text(commit)),
        ("updated_at"@, JsonContents::Text(updated_at)),
    ];
    assert(fields.drop_last() =~= seq![("current"@, JsonContents::Text(commit))]);
    assert(fields.drop_last().drop_last() =~= Seq::empty());
    reveal_with_fuel(members, 3);
}

/// Writes the manifest that names the current commit.  It can always be written, and whoever reads
/// it finds that commit.
pub fn write_manifest(commit: &str, updated_at: &str) -> (r: Result<Vec<u8>, serde_json::Error>)
    ensures
        r is Ok,
        Some(r->Ok_0@) == json_encode_pretty(manifest_contents(commit@, updated_at@)),
        manifest_names(json_parse(r->Ok_0@)) == Some(commit@),
        json_parse(r->Ok_0@) == Some(manifest_contents(commit@, updated_at@)),
{
    let mut fields: Vec<(String, Value)> = Vec::new();
    fields.push(("current".to_owned(), json_text(commit)));
    fields.push(("updated_at".to_owned(), json_text(updated_at)));
    proof {
        assert(field_contents(fields@) =~= seq![
            ("current"@, JsonContents::Text(commit@)),
            ("updated_at"@, JsonContents::Text(updated_at@)),
        ]);
        manifest_members(commit@, updated_at@);
    }
    let v = json_object(fields);
    json_to_vec_pretty(&v)
}

/// How a slot names its current build.
pub struct SlotPointer {
    /// What the link of the slot holds, where one could be made.
    pub link: Option<String>,
    /// The manifest to write, where no link could be made.
    pub manifest: Option<Vec<u8>>,
}

impl SlotPointer {
    /// The slot names a commit: by its link where one could be made, else by its manifest.
    pub open spec fn names(&self, commit: Seq<char>, link_made: bool) -> bool {
        if link_made {
            opt_view(self.link) == Some(commit) && self.manifest is None
        } else {
            self.link is None && self.manifest is Some && manifest_names(
                json_parse(self.manifest->0@),
            ) == Some(commit)
        }
    }
}

/// Makes a commit the current build of its slot: the link names it, or, where no link could be
/// made, a manifest does.
pub fn update_current_pointer(commit: &str, updated_at: &str, link_made: bool) -> (r: Result<
    SlotPointer,
    serde_json::Error,
>)
    ensures
        r is Ok,
        r->Ok_0.names(commit@, link_made),
        !link_made ==> Some(r->Ok_0.manifest->0@) == json_encode_pretty(
            manifest_contents(commit@, updated_at@),
        ),
        !link_made ==> json_parse(r->Ok_0.manifest->0@) == Some(
            manifest_contents(commit@, updated_at@),
        ),
{
    if link_made {
        return Ok(SlotPointer { link: Some(commit.to_owned()), manifest: None });
    }
    match write_manifest(commit, updated_at) {
        Ok(bytes) => Ok(SlotPointer { link: None, manifest: Some(bytes) }),
        Err(e) => Err(e),
    }
}

/// A commit that was made the current build is found again: the link of its slot leads to its
/// directory, or, where no link could be made, the manifest does.
pub proof fn current_pointer_leads_to_its_commit(
    pointer: SlotPointer,
    commit: Seq<char>,
    link_made: bool,
)
    requires
        pointer.names(commit, link_made),
    ensures
        link_made ==> leads_to(opt_view(pointer.link), true) == Some(commit),
        !link_made ==> pointer.manifest is Some && leads_to(
            manifest_names(json_parse(pointer.manifest->0@)),
            true,
        ) == Some(commit),
{
}

/// What is known of the build file of a directory.
pub enum BuildFile {
    Missing,
    Unreadable(String),
    Text(String),
}

/// How looking for the workspace ended.
pub enum Workspace {
    /// The position of its directory.
    Found(usize),
    Failed(String),
    NotFound,
}

/// Whether a directory cannot be passed over: its build file cannot be read, or declares a
/// workspace.
pub open spec fn decisive(f: BuildFile) -> bool {
    match f {
        BuildFile::Missing => false,
        BuildFile::Unreadable(_) => true,
        BuildFile::Text(s) => occurs("[workspace]"@, s@),
    }
}

/// How the search among build files, upwards, ends: at the nearest that declares a workspace, or at
/// one before it that cannot be read.
pub open spec fn found_at(upwards: Seq<BuildFile>, r: Workspace) -> bool {
    match r {
        Workspace::Found(i) => i < upwards.len() && upwards[i as int] is Text && decisive(
            upwards[i as int],
        ) && forall|j: int| 0 <= j < i ==> !decisive(#[trigger] upwards[j]),
        Workspace::Failed(e) => exists|i: int|
            0 <= i < upwards.len() && #[trigger] upwards[i] is Unreadable
                && upwards[i]->Unreadable_0@ == e@ && forall|j: int|
                0 <= j < i ==> !decisive(#[trigger] upwards[j]),
        Workspace::NotFound => forall|j: int|
            0 <= j < upwards.len() ==> !decisive(#[trigger] upwards[j]),
    }
}

/// Looks for the nearest directory, upwards, whose build file declares a workspace; a build file on
/// the way that cannot be read ends the search.
pub fn find_workspace_root(upwards: &Vec<BuildFile>) -> (r: Workspace)
    ensures
        found_at(upwards@, r),
{
    let mut i: usize = 0;
    while i < upwards.len()
        invariant
            i <= upwards.len(),
            forall|j: int| 0 <= j < i ==> !decisive(#[trigger] upwards@[j]),
        decreases upwards.len() - i,
    {
        match &upwards[i] {
            BuildFile::Missing => {},
            BuildFile::Unreadable(e) => {
                proof {
                    assert(upwards@[i as int] is Unreadable);
                }
                return Workspace::Failed(e.clone());
            },
            BuildFile::Text(s) => {
                if contains_text(s.as_str(), "[workspace]") {
                    return Workspace::Found(i);
                }
            },
        }
        i += 1;
    }
    Workspace::NotFound
}

} // verus!
