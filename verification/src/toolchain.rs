//! The toolchain cache: planning where an archive lives, deciding what work
//! an acquisition still needs, and describing the external commands that
//! perform it.
//!
//! Acquisition is content-addressed by path: the presence of the archive
//! file skips the download, and the presence of a platform-specific marker
//! file skips the extraction.  Planning is pure; the filesystem and network
//! work is the caller's, driven by the returned actions.

use vstd::prelude::*;
use crate::errors::{ConfigError, ToolError};
use crate::strutil::{concat4, join_path, str_eq};

verus! {

/// The download suffix for the Go toolchain, by (operating system,
/// architecture), or `None` for an unrecognized pair.
pub open spec fn spec_go_suffix(os: Seq<char>, arch: Seq<char>) -> Option<Seq<char>> {
    if os == "linux"@ && (arch == "x86"@ || arch == "x86_64"@) {
        Some("linux"@)
    } else if os == "macos"@ && (arch == "x86"@ || arch == "x86_64"@ || arch == "aarch64"@) {
        Some(".darwin-amd64"@)
    } else if os == "windows"@ && arch == "x86"@ {
        Some("mingw-x86"@)
    } else if os == "windows"@ && arch == "x86_64"@ {
        Some("mingw"@)
    } else {
        None
    }
}

/// The download suffix for the Java toolchain, by (operating system,
/// architecture), or `None` for an unrecognized pair.
pub open spec fn spec_java_suffix(os: Seq<char>, arch: Seq<char>) -> Option<Seq<char>> {
    if os == "linux"@ && (arch == "x86"@ || arch == "x86_64"@) {
        Some("linux"@)
    } else if os == "macos"@ && (arch == "x86"@ || arch == "x86_64"@ || arch == "aarch64"@) {
        Some("_macos-x64_bin"@)
    } else if os == "windows"@ && arch == "x86"@ {
        Some("windows-x86_bin"@)
    } else if os == "windows"@ && arch == "x86_64"@ {
        Some("windows-x64_bin"@)
    } else {
        None
    }
}

/// Runtime lookup in the Go suffix table.
pub fn go_suffix(os: &str, arch: &str) -> (r: Option<String>)
    ensures
        (r is Some) == (spec_go_suffix(os@, arch@) is Some),
        r matches Some(s) ==> spec_go_suffix(os@, arch@) == Some(s@),
{
    if str_eq(os, "linux") && (str_eq(arch, "x86") || str_eq(arch, "x86_64")) {
        Some("linux".to_owned())
    } else if str_eq(os, "macos") && (str_eq(arch, "x86") || str_eq(arch, "x86_64") || str_eq(
        arch,
        "aarch64",
    )) {
        Some(".darwin-amd64".to_owned())
    } else if str_eq(os, "windows") && str_eq(arch, "x86") {
        Some("mingw-x86".to_owned())
    } else if str_eq(os, "windows") && str_eq(arch, "x86_64") {
        Some("mingw".to_owned())
    } else {
        None
    }
}

/// Runtime lookup in the Java suffix table.
pub fn java_suffix(os: &str, arch: &str) -> (r: Option<String>)
    ensures
        (r is Some) == (spec_java_suffix(os@, arch@) is Some),
        r matches Some(s) ==> spec_java_suffix(os@, arch@) == Some(s@),
{
    if str_eq(os, "linux") && (str_eq(arch, "x86") || str_eq(arch, "x86_64")) {
        Some("linux".to_owned())
    } else if str_eq(os, "macos") && (str_eq(arch, "x86") || str_eq(arch, "x86_64") || str_eq(
        arch,
        "aarch64",
    )) {
        Some("_macos-x64_bin".to_owned())
    } else if str_eq(os, "windows") && str_eq(arch, "x86") {
        Some("windows-x86_bin".to_owned())
    } else if str_eq(os, "windows") && str_eq(arch, "x86_64") {
        Some("windows-x64_bin".to_owned())
    } else {
        None
    }
}

/// Everything an acquisition needs to know before it touches the network or
/// the filesystem: the cache directory, where the archive is written, which
/// marker path decides that extraction already happened, and the URL the
/// download starts from.
#[derive(Debug)]
pub struct AcquirePlan {
    pub dir: String,
    pub archive_path: String,
    pub marker_path: String,
    pub url: String,
}

/// Plans the acquisition of the Go toolchain under `out_dir`.
pub fn plan_go_acquisition(os: &str, arch: &str, out_dir: &str) -> (r: Result<
    AcquirePlan,
    ConfigError,
>)
    ensures
        (r is Err) == (spec_go_suffix(os@, arch@) is None),
        r matches Err(e) ==> (e matches ConfigError::UnsupportedPlatform { os: eo, arch: ea }
            && eo@ == os@ && ea@ == arch@),
        r matches Ok(plan) ==> plan.dir@ == out_dir@ + "/"@ + "go"@,
        r matches Ok(plan) ==> plan.archive_path@ == out_dir@ + "/"@ + "go"@ + "/"@ + "go.tar.gz"@,
        r matches Ok(plan) ==> plan.marker_path@ == out_dir@ + "/"@ + "go"@ + "/"@ + "bin/go"@,
        r matches Ok(plan) ==> (spec_go_suffix(os@, arch@) matches Some(sfx) && plan.url@
            == "https://dl.google.com/go/go"@ + "1.21.0"@ + sfx + ".tar.gz"@),
{
    match go_suffix(os, arch) {
        None => Err(ConfigError::UnsupportedPlatform { os: os.to_owned(), arch: arch.to_owned() }),
        Some(sfx) => {
            let dir = join_path(out_dir, "go");
            let archive_path = join_path(dir.as_str(), "go.tar.gz");
            let marker_path = join_path(dir.as_str(), "bin/go");
            let url = concat4("https://dl.google.com/go/go", "1.21.0", sfx.as_str(), ".tar.gz");
            Ok(AcquirePlan { dir, archive_path, marker_path, url })
        },
    }
}

/// Plans the acquisition of the Java toolchain under `out_dir`.  The
/// download URL is the fixed JDK archive location; the suffix table still
/// decides whether the platform is supported, and the extraction marker
/// lies deeper on macOS, where the JDK tree carries a `Contents/Home`
/// layer.
pub fn plan_java_acquisition(os: &str, arch: &str, out_dir: &str) -> (r: Result<
    AcquirePlan,
    ConfigError,
>)
    ensures
        (r is Err) == (spec_java_suffix(os@, arch@) is None),
        r matches Err(e) ==> (e matches ConfigError::UnsupportedPlatform { os: eo, arch: ea }
            && eo@ == os@ && ea@ == arch@),
        r matches Ok(plan) ==> plan.dir@ == out_dir@ + "/"@ + "java"@,
        r matches Ok(plan) ==> plan.archive_path@ == out_dir@ + "/"@ + "java"@ + "/"@
            + "openjdk-11.0.2.tar.gz"@,
        r matches Ok(plan) ==> (os@ == "macos"@ ==> plan.marker_path@ == out_dir@ + "/"@ + "java"@
            + "/"@ + "jdk-11.0.2.jdk/Contents/Home"@),
        r matches Ok(plan) ==> (os@ != "macos"@ ==> plan.marker_path@ == out_dir@ + "/"@ + "java"@
            + "/"@ + "jdk-11.0.2.jdk"@),
        r matches Ok(plan) ==> plan.url@
            == "https://download.java.net/java/GA/jdk11/9/GPL/openjdk-11.0.2_osx-x64_bin.tar.gz"@,
{
    match java_suffix(os, arch) {
        None => Err(ConfigError::UnsupportedPlatform { os: os.to_owned(), arch: arch.to_owned() }),
        Some(_sfx) => {
            let dir = join_path(out_dir, "java");
            let archive_path = join_path(dir.as_str(), "openjdk-11.0.2.tar.gz");
            let marker_path = if str_eq(os, "macos") {
                join_path(dir.as_str(), "jdk-11.0.2.jdk/Contents/Home")
            } else {
                join_path(dir.as_str(), "jdk-11.0.2.jdk")
            };
            let url =
                "https://download.java.net/java/GA/jdk11/9/GPL/openjdk-11.0.2_osx-x64_bin.tar.gz".to_owned();
            Ok(AcquirePlan { dir, archive_path, marker_path, url })
        },
    }
}

/// One unit of outside work an acquisition still needs.
#[derive(Debug)]
pub enum AcquireAction {
    /// Fetch `url` and write the body at `dest`.
    Download { url: String, dest: String },
    /// Unpack `archive` inside `dest_dir`, stripping one leading path
    /// component.
    Extract { archive: String, dest_dir: String },
}

/// The mathematical value of an action: the same shape over character
/// sequences.
pub enum ActionModel {
    DownloadTo { url: Seq<char>, dest: Seq<char> },
    ExtractTo { archive: Seq<char>, dest_dir: Seq<char> },
}

/// The model of one runtime action.
pub open spec fn action_model(a: AcquireAction) -> ActionModel {
    match a {
        AcquireAction::Download { url, dest } => ActionModel::DownloadTo {
            url: url@,
            dest: dest@,
        },
        AcquireAction::Extract { archive, dest_dir } => ActionModel::ExtractTo {
            archive: archive@,
            dest_dir: dest_dir@,
        },
    }
}

/// The work an acquisition needs, given which of the two witnesses already
/// exist on disk: a download unless the archive file is present, then an
/// extraction unless the marker is present.
pub open spec fn spec_acquire_steps(
    url: Seq<char>,
    archive: Seq<char>,
    dir: Seq<char>,
    archive_present: bool,
    marker_present: bool,
) -> Seq<ActionModel> {
    (if archive_present {
        Seq::<ActionModel>::empty()
    } else {
        seq![ActionModel::DownloadTo { url, dest: archive }]
    }) + (if marker_present {
        Seq::<ActionModel>::empty()
    } else {
        seq![ActionModel::ExtractTo { archive, dest_dir: dir }]
    })
}

/// Decides what work is left for `plan`, from the two existence checks the
/// cache makes: `archive_present` for the archive file, `marker_present`
/// for the extraction marker.  No download is ever issued while the archive
/// is present, and no extraction while the marker is present.
pub fn acquire_steps(plan: &AcquirePlan, archive_present: bool, marker_present: bool) -> (r: Vec<
    AcquireAction,
>)
    ensures
        r@.map_values(|a: AcquireAction| action_model(a)) == spec_acquire_steps(
            plan.url@,
            plan.archive_path@,
            plan.dir@,
            archive_present,
            marker_present,
        ),
{
    let mut steps: Vec<AcquireAction> = Vec::new();
    if !archive_present {
        steps.push(
            AcquireAction::Download { url: plan.url.clone(), dest: plan.archive_path.clone() },
        );
    }
    if !marker_present {
        steps.push(
            AcquireAction::Extract {
                archive: plan.archive_path.clone(),
                dest_dir: plan.dir.clone(),
            },
        );
    }
    proof {
        assert(steps@.map_values(|a: AcquireAction| action_model(a)) =~= spec_acquire_steps(
            plan.url@,
            plan.archive_path@,
            plan.dir@,
            archive_present,
            marker_present,
        ));
    }
    steps
}

/// Law: acquisition is idempotent.  After a completed acquisition both
/// witnesses exist at their planned paths, so a second run over the same
/// plan has nothing left to do: no download, no extraction, and the cache
/// directory it resolves to is the plan's own, unchanged.
pub proof fn lemma_acquisition_idempotent(url: Seq<char>, archive: Seq<char>, dir: Seq<char>)
    ensures
        spec_acquire_steps(url, archive, dir, true, true) =~= Seq::<ActionModel>::empty(),
{
}

/// How many of the actions are downloads.
pub open spec fn download_count(s: Seq<ActionModel>) -> nat
    decreases s.len(),
{
    if s.len() == 0 {
        0
    } else {
        (if s[0] is DownloadTo {
            1nat
        } else {
            0
        }) + download_count(s.drop_first())
    }
}

/// Law: the network is touched at most once per cache directory.  Whatever
/// the two existence checks say, the planned steps never hold more than one
/// download, and none at all while the archive file is present.
pub proof fn lemma_download_at_most_once(
    url: Seq<char>,
    archive: Seq<char>,
    dir: Seq<char>,
    archive_present: bool,
    marker_present: bool,
)
    ensures
        download_count(spec_acquire_steps(url, archive, dir, archive_present, marker_present))
            <= 1,
        archive_present ==> download_count(
            spec_acquire_steps(url, archive, dir, archive_present, marker_present),
        ) == 0,
{
    let s = spec_acquire_steps(url, archive, dir, archive_present, marker_present);
    reveal_with_fuel(download_count, 3);
    if !archive_present && !marker_present {
        let d = ActionModel::DownloadTo { url, dest: archive };
        let e = ActionModel::ExtractTo { archive, dest_dir: dir };
        assert(s =~= seq![d, e]);
        assert(s.drop_first() =~= seq![e]);
        assert(s.drop_first().drop_first() =~= Seq::<ActionModel>::empty());
        assert(download_count(s) == 1);
    } else if !archive_present && marker_present {
        let d = ActionModel::DownloadTo { url, dest: archive };
        assert(s =~= seq![d]);
        assert(s.drop_first() =~= Seq::<ActionModel>::empty());
        assert(download_count(s) == 1);
    } else if archive_present && !marker_present {
        let e = ActionModel::ExtractTo { archive, dest_dir: dir };
        assert(s =~= seq![e]);
        assert(s.drop_first() =~= Seq::<ActionModel>::empty());
        assert(download_count(s) == 0);
    } else {
        assert(s =~= Seq::<ActionModel>::empty());
        assert(download_count(s) == 0);
    }
}

/// Where a toolchain comes from: a pre-existing root supplied through the
/// override variable, checked before any network or filesystem activity, or
/// the cache acquisition path.
pub enum ToolchainSource {
    Preset(String),
    Acquire,
}

/// Applies the environment-variable override: a set override short-circuits
/// acquisition entirely and its value is the toolchain root.
pub fn resolve_toolchain_source(override_value: Option<String>) -> (r: ToolchainSource)
    ensures
        override_value matches Some(p) ==> (r matches ToolchainSource::Preset(q) && q@ == p@),
        override_value is None ==> r is Acquire,
{
    match override_value {
        Some(path) => ToolchainSource::Preset(path),
        None => ToolchainSource::Acquire,
    }
}

} // verus!
