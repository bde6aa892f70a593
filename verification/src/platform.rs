//! Which build of the server the editor extension downloads and where it
//! keeps it.
use vstd::prelude::*;
use crate::text::concat_str;

verus! {

/// The host's operating system.
pub enum Os {
    Mac,
    Linux,
    Windows,
}

/// The host's processor architecture.
pub enum Architecture {
    Aarch64,
    X86,
    X8664,
}

/// The release asset built for a platform, where there is one.
pub open spec fn spec_asset_name(os: Os, arch: Architecture) -> Option<Seq<char>> {
    match (os, arch) {
        (Os::Mac, Architecture::Aarch64) => Some("zed-aws-sidecar-macos-aarch64"@),
        (Os::Mac, Architecture::X8664) => Some("zed-aws-sidecar-macos-x86_64"@),
        (Os::Linux, Architecture::Aarch64) => Some("zed-aws-sidecar-linux-aarch64"@),
        (Os::Linux, Architecture::X8664) => Some("zed-aws-sidecar-linux-x86_64"@),
        _ => None,
    }
}

/// How an operating system is named in asset names, where builds exist for it.
pub open spec fn os_label(os: Os) -> Option<Seq<char>> {
    match os {
        Os::Mac => Some("macos"@),
        Os::Linux => Some("linux"@),
        Os::Windows => None,
    }
}

/// How an architecture is named in asset names, where builds exist for it.
pub open spec fn arch_label(arch: Architecture) -> Option<Seq<char>> {
    match arch {
        Architecture::Aarch64 => Some("aarch64"@),
        Architecture::X8664 => Some("x86_64"@),
        Architecture::X86 => None,
    }
}

/// The asset of a platform is `zed-aws-sidecar-`, the system's name, `-` and
/// the architecture's name, for each system and architecture that has
/// builds, and there is none otherwise; so two platforms never share an
/// asset.
pub proof fn lemma_asset_names(os: Os, arch: Architecture, other_os: Os, other_arch: Architecture)
    ensures
        spec_asset_name(os, arch) == match (os_label(os), arch_label(arch)) {
            (Some(o), Some(a)) => Some("zed-aws-sidecar-"@ + o + "-"@ + a),
            _ => None::<Seq<char>>,
        },
        spec_asset_name(os, arch) is Some && spec_asset_name(os, arch) == spec_asset_name(other_os, other_arch)
            ==> os == other_os && arch == other_arch,
{
    reveal_strlit("zed-aws-sidecar-macos-aarch64");
    reveal_strlit("zed-aws-sidecar-macos-x86_64");
    reveal_strlit("zed-aws-sidecar-linux-aarch64");
    reveal_strlit("zed-aws-sidecar-linux-x86_64");
    reveal_strlit("zed-aws-sidecar-");
    reveal_strlit("-");
    reveal_strlit("macos");
    reveal_strlit("linux");
    reveal_strlit("aarch64");
    reveal_strlit("x86_64");
    assert("zed-aws-sidecar-macos-aarch64"@ =~= "zed-aws-sidecar-"@ + "macos"@ + "-"@ + "aarch64"@);
    assert("zed-aws-sidecar-macos-x86_64"@ =~= "zed-aws-sidecar-"@ + "macos"@ + "-"@ + "x86_64"@);
    assert("zed-aws-sidecar-linux-aarch64"@ =~= "zed-aws-sidecar-"@ + "linux"@ + "-"@ + "aarch64"@);
    assert("zed-aws-sidecar-linux-x86_64"@ =~= "zed-aws-sidecar-"@ + "linux"@ + "-"@ + "x86_64"@);
    assert("zed-aws-sidecar-macos-aarch64"@.len() != "zed-aws-sidecar-macos-x86_64"@.len());
    assert("zed-aws-sidecar-linux-aarch64"@.len() != "zed-aws-sidecar-linux-x86_64"@.len());
    assert("zed-aws-sidecar-macos-aarch64"@[16] != "zed-aws-sidecar-linux-aarch64"@[16]);
    assert("zed-aws-sidecar-macos-x86_64"@[16] != "zed-aws-sidecar-linux-x86_64"@[16]);
    assert("zed-aws-sidecar-macos-aarch64"@.len() != "zed-aws-sidecar-linux-x86_64"@.len());
    assert("zed-aws-sidecar-macos-x86_64"@.len() != "zed-aws-sidecar-linux-aarch64"@.len());
}

/// The name of the release asset for a platform; `None` for a platform
/// without a build.
pub fn asset_name(os: Os, arch: Architecture) -> (r: Option<&'static str>)
    ensures
        match (r, spec_asset_name(os, arch)) {
            (Some(a), Some(b)) => a@ == b,
            (None, None) => true,
            _ => false,
        },
{
    match (os, arch) {
        (Os::Mac, Architecture::Aarch64) => Some("zed-aws-sidecar-macos-aarch64"),
        (Os::Mac, Architecture::X8664) => Some("zed-aws-sidecar-macos-x86_64"),
        (Os::Linux, Architecture::Aarch64) => Some("zed-aws-sidecar-linux-aarch64"),
        (Os::Linux, Architecture::X8664) => Some("zed-aws-sidecar-linux-x86_64"),
        _ => None,
    }
}

/// A file attached to a release.
pub struct ReleaseAsset {
    pub name: String,
    pub download_url: String,
}

/// A release of the server.
pub struct Release {
    pub version: String,
    pub assets: Vec<ReleaseAsset>,
}

/// What to download and where to put it.
pub struct InstallPlan {
    pub download_url: String,
    pub binary_path: String,
}

/// The position of the first asset named `name`, or `assets.len()`.
pub open spec fn first_asset(assets: Seq<ReleaseAsset>, name: Seq<char>) -> int
    decreases assets.len(),
{
    if assets.len() == 0 {
        0
    } else if assets[0].name@ == name {
        0
    } else {
        1 + first_asset(assets.drop_first(), name)
    }
}

proof fn lemma_first_asset(assets: Seq<ReleaseAsset>, name: Seq<char>)
    ensures
        0 <= first_asset(assets, name) <= assets.len(),
        first_asset(assets, name) < assets.len() ==> assets[first_asset(assets, name)].name@ == name,
        forall|k: int| 0 <= k < first_asset(assets, name) ==> assets[k].name@ != name,
    decreases assets.len(),
{
    if assets.len() > 0 && assets[0].name@ != name {
        lemma_first_asset(assets.drop_first(), name);
        assert forall|k: int| 0 <= k < first_asset(assets, name) implies assets[k].name@ != name by {
            if k > 0 {
                assert(assets[k] == assets.drop_first()[k - 1]);
            }
        }
    }
}

/// Where the server of a release is kept: `zed-aws-sidecar-` and the version.
pub open spec fn binary_path(version: Seq<char>) -> Seq<char> {
    "zed-aws-sidecar-"@ + version
}

/// The download of the first asset named `asset_name` into the release's
/// binary path; the error says that the release has no such asset.
pub fn install_plan(release: &Release, asset_name: &str) -> (r: Result<InstallPlan, String>)
    ensures
        ({
            let i = first_asset(release.assets@, asset_name@);
            &&& i < release.assets@.len() ==> (r matches Ok(p) && p.download_url@
                == release.assets@[i].download_url@ && p.binary_path@ == binary_path(
                release.version@,
            ))
            &&& i >= release.assets@.len() ==> (r matches Err(m) && m@ == "no asset "@ + asset_name@
                + " in release "@ + release.version@)
        }),
{
    proof {
        lemma_first_asset(release.assets@, asset_name@);
    }
    let target = String::from_str(asset_name);
    let n = release.assets.len();
    let mut i: usize = 0;
    while i < n
        invariant
            n == release.assets@.len(),
            i <= n,
            target@ == asset_name@,
            i <= first_asset(release.assets@, asset_name@),
            0 <= first_asset(release.assets@, asset_name@) <= n,
            first_asset(release.assets@, asset_name@) < n ==> release.assets@[first_asset(
                release.assets@,
                asset_name@,
            )].name@ == asset_name@,
            forall|k: int|
                0 <= k < first_asset(release.assets@, asset_name@) ==> release.assets@[k].name@
                    != asset_name@,
        decreases n - i,
    {
        if release.assets[i].name == target {
            assert(first_asset(release.assets@, asset_name@) == i);
            return Ok(
                InstallPlan {
                    download_url: release.assets[i].download_url.clone(),
                    binary_path: concat_str("zed-aws-sidecar-", release.version.as_str()),
                },
            );
        }
        i = i + 1;
    }
    let mut m = concat_str("no asset ", asset_name);
    m.append(" in release ");
    m.append(release.version.as_str());
    Err(m)
}

} // verus!
