//! Choice and validation of the compilation target and of the profile
//! directory in which the compiler leaves its output.
use vstd::prelude::*;
use vstd::string::StrSliceExecFns;
use crate::error::BuildError;
use crate::text::{starts_with, str_eq};

verus! {

/// The 64-bit ARM Linux triple, chosen by `--arm64`.
pub open spec fn arm_triple() -> Seq<char> {
    "aarch64-unknown-linux-gnu"@
}

/// The x86_64 Linux triple, the default for cross compilation.
pub open spec fn x86_64_triple() -> Seq<char> {
    "x86_64-unknown-linux-gnu"@
}

/// A triple of one of the two supported families. A prefix is enough: the
/// family may name another libc (`-musl`) or add a glibc version (`.2.26`).
pub open spec fn supported_target(t: Seq<char>) -> bool {
    "aarch64-unknown-linux"@.is_prefix_of(t) || "x86_64-unknown-linux"@.is_prefix_of(t)
}

/// The index of the first `.` in `s` at or after `i`, or the length of `s`.
pub open spec fn dot_from(s: Seq<char>, i: int) -> int
    decreases s.len() - i,
{
    if i < 0 || i >= s.len() {
        s.len() as int
    } else if s[i] == '.' {
        i
    } else {
        dot_from(s, i + 1)
    }
}

/// The triple without its glibc version suffix: everything before the
/// first `.`.
pub open spec fn platform_key(t: Seq<char>) -> Seq<char> {
    t.take(dot_from(t, 0))
}

/// The directory that the compiler names after the profile.
pub open spec fn profile_dir(profile: Option<Seq<char>>, release: bool) -> Seq<char> {
    match profile {
        Some(p) => if p == "dev"@ || p == "test"@ {
            "debug"@
        } else if p == "release"@ || p == "bench"@ {
            "release"@
        } else {
            p
        },
        None => if release {
            "release"@
        } else {
            "debug"@
        },
    }
}

/// The triple that the flags and the host select, before validation.
pub open spec fn chosen_triple(first: Option<Seq<char>>, arm64: bool, host: Seq<char>) -> Seq<char> {
    if arm64 {
        arm_triple()
    } else {
        match first {
            Some(t) => t,
            None => if host == arm_triple() || host == x86_64_triple() {
                host
            } else {
                x86_64_triple()
            },
        }
    }
}

/// The first explicit target, if any.
pub open spec fn first_target(targets: Seq<String>) -> Option<Seq<char>> {
    if targets.len() > 0 {
        Some(targets[0]@)
    } else {
        None
    }
}

proof fn lemma_dot_from(s: Seq<char>, i: int)
    requires
        0 <= i <= s.len(),
    ensures
        i <= dot_from(s, i) <= s.len(),
        dot_from(s, i) < s.len() ==> s[dot_from(s, i)] == '.',
        forall|j: int| i <= j < dot_from(s, i) ==> s[j] != '.',
    decreases s.len() - i,
{
    if i < s.len() && s[i] != '.' {
        lemma_dot_from(s, i + 1);
    }
}

proof fn lemma_key_keeps_prefix(p: Seq<char>, s: Seq<char>)
    requires
        p.is_prefix_of(s),
        forall|j: int| 0 <= j < p.len() ==> p[j] != '.',
    ensures
        p.is_prefix_of(platform_key(s)),
{
    lemma_dot_from(s, 0);
    let d = dot_from(s, 0);
    if d < p.len() {
        assert(s[d] == s.subrange(0, p.len() as int)[d]);
    }
    assert(p =~= platform_key(s).subrange(0, p.len() as int));
}

/// The platform key of a supported triple is supported too.
pub proof fn lemma_key_supported(t: Seq<char>)
    requires
        supported_target(t),
    ensures
        supported_target(platform_key(t)),
{
    reveal_strlit("aarch64-unknown-linux");
    reveal_strlit("x86_64-unknown-linux");
    if "aarch64-unknown-linux"@.is_prefix_of(t) {
        lemma_key_keeps_prefix("aarch64-unknown-linux"@, t);
    } else {
        lemma_key_keeps_prefix("x86_64-unknown-linux"@, t);
    }
}

/// Both Linux triples that the resolver picks by itself are supported, so a
/// build without an explicit target always resolves.
pub proof fn lemma_default_triples_supported(host: Seq<char>)
    ensures
        supported_target(arm_triple()),
        supported_target(x86_64_triple()),
        supported_target(chosen_triple(None, false, host)),
        supported_target(chosen_triple(None, true, host)),
{
    reveal_strlit("aarch64-unknown-linux-gnu");
    reveal_strlit("x86_64-unknown-linux-gnu");
    reveal_strlit("aarch64-unknown-linux");
    reveal_strlit("x86_64-unknown-linux");
    assert("aarch64-unknown-linux"@ =~= arm_triple().subrange(0, 21));
    assert("x86_64-unknown-linux"@ =~= x86_64_triple().subrange(0, 20));
}

/// Accepts a triple of one of the two supported Linux families and rejects
/// any other with `UnsupportedTarget`.
pub fn check_build_target(target: &str) -> (r: Result<(), BuildError>)
    ensures
        r is Ok <==> supported_target(target@),
        r is Err ==> (r matches Err(BuildError::UnsupportedTarget(s)) && s@ == target@),
{
    if !starts_with(target, "aarch64-unknown-linux") && !starts_with(target, "x86_64-unknown-linux") {
        return Err(BuildError::UnsupportedTarget(String::from_str(target)));
    }
    Ok(())
}

/// The triple with any `.N` version suffix removed.
pub fn normalize_target(target: &str) -> (r: String)
    ensures
        r@ == platform_key(target@),
{
    let n = target.unicode_len();
    let mut i: usize = 0;
    while i < n && target.get_char(i) != '.'
        invariant
            n == target@.len(),
            i <= n,
            dot_from(target@, 0) == dot_from(target@, i as int),
        decreases n - i,
    {
        i = i + 1;
    }
    String::from_str(target.substring_char(0, i))
}

/// The name of the directory that holds the output of the given profile.
pub fn profile_dir_name(profile: &Option<String>, release: bool) -> (r: String)
    ensures
        r@ == profile_dir(
            match profile {
                Some(p) => Some(p@),
                None => None,
            },
            release,
        ),
{
    match profile {
        Some(p) => {
            let p = p.as_str();
            if str_eq(p, "dev") || str_eq(p, "test") {
                String::from_str("debug")
            } else if str_eq(p, "release") || str_eq(p, "bench") {
                String::from_str("release")
            } else {
                String::from_str(p)
            }
        },
        None => if release {
            String::from_str("release")
        } else {
            String::from_str("debug")
        },
    }
}

/// The target that a build compiles for.
#[derive(Debug, Clone)]
pub struct ResolvedTarget {
    /// The triple handed to the compiler.
    pub triple: String,
    /// The triple without its version suffix: the directory under the
    /// target directory in which the compiler leaves its output.
    pub platform: String,
    /// The profile directory: `debug`, `release` or a custom profile's name.
    pub profile: String,
}

impl ResolvedTarget {
    /// Every resolved target belongs to a supported family.
    pub open spec fn wf(&self) -> bool {
        &&& supported_target(self.triple@)
        &&& supported_target(self.platform@)
        &&& self.platform@ == platform_key(self.triple@)
    }
}

/// The view of an optional string.
pub open spec fn opt_view(o: Option<String>) -> Option<Seq<char>> {
    match o {
        Some(s) => Some(s@),
        None => None,
    }
}

/// The host triple itself where it is one of the two supported Linux
/// triples, else the x86_64 Linux triple.
fn default_triple(host: &str) -> (r: String)
    ensures
        r@ == chosen_triple(None, false, host@),
{
    if str_eq(host, "aarch64-unknown-linux-gnu") || str_eq(host, "x86_64-unknown-linux-gnu") {
        String::from_str(host)
    } else {
        String::from_str("x86_64-unknown-linux-gnu")
    }
}

/// Decides the target of a build from the explicit targets (only the first
/// is used), the `--arm64` shortcut, the profile, the release flag and the
/// host's triple.
///
/// The shortcut together with an explicit target is a conflict. Otherwise
/// the shortcut selects the ARM triple, an explicit target is taken as it
/// is, and with neither the host's triple is used where it is a supported
/// Linux triple, else the x86_64 Linux triple. The chosen triple must belong
/// to a supported family.
pub fn resolve_target(
    targets: &Vec<String>,
    arm64: bool,
    profile: &Option<String>,
    release: bool,
    host: &str,
) -> (r: Result<ResolvedTarget, BuildError>)
    ensures
        arm64 && targets.len() > 0 ==> r matches Err(BuildError::ConflictingOptions),
        !(arm64 && targets.len() > 0) ==> {
            let t = chosen_triple(first_target(targets@), arm64, host@);
            &&& supported_target(t) ==> (r matches Ok(rt) && rt.triple@ == t && rt.platform@
                == platform_key(t) && rt.profile@ == profile_dir(opt_view(*profile), release))
            &&& !supported_target(t) ==> (r matches Err(BuildError::UnsupportedTarget(s)) && s@
                == t)
        },
        r matches Ok(rt) ==> rt.wf(),
{
    if arm64 && targets.len() > 0 {
        return Err(BuildError::ConflictingOptions);
    }
    let triple = if arm64 {
        String::from_str("aarch64-unknown-linux-gnu")
    } else if targets.len() > 0 {
        targets[0].clone()
    } else {
        default_triple(host)
    };
    proof {
        lemma_default_triples_supported(host@);
    }
    match check_build_target(triple.as_str()) {
        Err(e) => Err(e),
        Ok(()) => {
            let platform = normalize_target(triple.as_str());
            proof {
                lemma_key_supported(triple@);
            }
            Ok(ResolvedTarget { triple, platform, profile: profile_dir_name(profile, release) })
        },
    }
}

} // verus!
