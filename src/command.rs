//! The build command's settings and the decisions taken around the
//! compiler run: which binaries may be requested, how the compiler's exit is
//! reported, and where each compiled binary is found and packaged.
use vstd::prelude::*;
use crate::error::BuildError;
use crate::package::OutputFormat;
use crate::target::{resolve_target, ResolvedTarget, chosen_triple, first_target, supported_target, platform_key, profile_dir, opt_view};
use crate::text::{join_path, path_join, str_eq};

verus! {

/// The settings handed on to the compiler.
#[derive(Debug, Clone)]
pub struct BuildRequest {
    /// Explicit target triples; only the first is used.
    pub target: Vec<String>,
    /// The profile's name, if one was given.
    pub profile: Option<String>,
    /// Whether a release build was asked for.
    pub release: bool,
    /// The binaries to build; empty for all of them.
    pub bin: Vec<String>,
    /// The manifest of the project, if not `Cargo.toml`.
    pub manifest_path: Option<String>,
    /// Whether the linker helper is left out.
    pub disable_zig_linker: bool,
}

/// The `build` command.
#[derive(Debug, Clone)]
pub struct Build {
    /// The form of the artifacts.
    pub output_format: OutputFormat,
    /// Where the artifacts go, instead of `target/lambda`.
    pub lambda_dir: Option<String>,
    /// Shortcut for `--target aarch64-unknown-linux-gnu`.
    pub arm64: bool,
    /// The settings handed on to the compiler.
    pub build: BuildRequest,
}

impl Build {
    /// The target of this build on a host with the given triple; see
    /// `resolve_target`.
    pub fn resolve(&self, host: &str) -> (r: Result<ResolvedTarget, BuildError>)
        ensures
            self.arm64 && self.build.target.len() > 0 ==> r matches Err(
                BuildError::ConflictingOptions,
            ),
            !(self.arm64 && self.build.target.len() > 0) ==> {
                let t = chosen_triple(first_target(self.build.target@), self.arm64, host@);
                &&& supported_target(t) ==> (r matches Ok(rt) && rt.triple@ == t && rt.platform@
                    == platform_key(t) && rt.profile@ == profile_dir(
                    opt_view(self.build.profile),
                    self.build.release,
                ))
                &&& !supported_target(t) ==> (r matches Err(BuildError::UnsupportedTarget(s))
                    && s@ == t)
            },
            r matches Ok(rt) ==> rt.wf(),
    {
        resolve_target(&self.build.target, self.arm64, &self.build.profile, self.build.release, host)
    }
}

/// True when `name` is one of `names`.
pub open spec fn contains_name(names: Seq<String>, name: Seq<char>) -> bool {
    exists|j: int| 0 <= j < names.len() && names[j]@ == name
}

/// True when `name` is one of `names`.
pub fn has_name(names: &Vec<String>, name: &String) -> (r: bool)
    ensures
        r == contains_name(names@, name@),
{
    let mut j: usize = 0;
    while j < names.len()
        invariant
            j <= names@.len(),
            forall|k: int| 0 <= k < j ==> names@[k]@ != name@,
        decreases names.len() - j,
    {
        if str_eq(names[j].as_str(), name.as_str()) {
            return true;
        }
        j = j + 1;
    }
    false
}

/// Checks, before anything is compiled, that every requested binary is one
/// that the manifest declares; the first that is not is reported.
pub fn check_binaries(requested: &Vec<String>, discovered: &Vec<String>) -> (r: Result<
    (),
    BuildError,
>)
    ensures
        r is Ok <==> forall|i: int|
            0 <= i < requested.len() ==> contains_name(discovered@, #[trigger] requested@[i]@),
        r is Err ==> r matches Err(BuildError::UnknownBinaryTarget(_)),
        r matches Err(BuildError::UnknownBinaryTarget(s)) ==> exists|i: int|
            0 <= i < requested.len() && requested@[i]@ == s@ && !contains_name(
                discovered@,
                requested@[i]@,
            ) && (forall|k: int|
                0 <= k < i ==> contains_name(discovered@, #[trigger] requested@[k]@)),
{
    let mut i: usize = 0;
    while i < requested.len()
        invariant
            i <= requested@.len(),
            forall|k: int| 0 <= k < i ==> contains_name(discovered@, #[trigger] requested@[k]@),
        decreases requested.len() - i,
    {
        if !has_name(discovered, &requested[i]) {
            return Err(BuildError::UnknownBinaryTarget(requested[i].clone()));
        }
        i = i + 1;
    }
    Ok(())
}

/// The exit code to leave with after the compiler finished: none on
/// success, else the compiler's own code, or 1 where it has none.
pub fn build_exit_code(success: bool, code: Option<i32>) -> (r: Option<i32>)
    ensures
        success ==> r is None,
        !success ==> r == Some(
            match code {
                Some(c) => c,
                None => 1i32,
            },
        ),
{
    if success {
        None
    } else {
        match code {
            Some(c) => Some(c),
            None => Some(1),
        }
    }
}

/// The compiler flags that a release build adds: symbols are stripped.
pub fn release_rustflags(release: bool) -> (r: Option<&'static str>)
    ensures
        release ==> (r matches Some(f) && f@ == "-C strip=symbols"@),
        !release ==> r is None,
{
    if release {
        Some("-C strip=symbols")
    } else {
        None
    }
}

/// The directory that holds the artifacts: the given one, or
/// `target/lambda`.
pub open spec fn lambda_root(lambda_dir: Option<Seq<char>>) -> Seq<char> {
    match lambda_dir {
        Some(d) => d,
        None => path_join("target"@, "lambda"@),
    }
}

/// The directory that holds the artifacts.
pub fn lambda_root_dir(lambda_dir: &Option<String>) -> (r: String)
    ensures
        r@ == lambda_root(opt_view(*lambda_dir)),
{
    match lambda_dir {
        Some(d) => d.clone(),
        None => join_path("target", "lambda"),
    }
}

/// Where one binary is looked for after the build, and where it is packaged.
#[derive(Debug, Clone)]
pub struct PackageStep {
    /// The binary's name.
    pub name: String,
    /// `target/<platform>/<profile>/<name>`.
    pub binary_path: String,
    /// `<lambda dir>/<name>`.
    pub bootstrap_dir: String,
}

/// Where the compiler leaves the binary `name`.
pub open spec fn compiled_path(rt: ResolvedTarget, name: Seq<char>) -> Seq<char> {
    path_join(path_join(path_join("target"@, rt.platform@), rt.profile@), name)
}

/// For each binary of the project, in order, where it is found after the
/// build and the directory it is packaged into. A binary that the compiler
/// did not produce is skipped by the caller.
pub fn package_steps(rt: &ResolvedTarget, lambda_dir: &Option<String>, binaries: &Vec<String>) -> (r:
    Vec<PackageStep>)
    ensures
        r.len() == binaries.len(),
        forall|i: int|
            0 <= i < r.len() ==> {
                &&& (#[trigger] r@[i]).name@ == binaries@[i]@
                &&& r@[i].binary_path@ == compiled_path(*rt, binaries@[i]@)
                &&& r@[i].bootstrap_dir@ == path_join(
                    lambda_root(opt_view(*lambda_dir)),
                    binaries@[i]@,
                )
            },
{
    let root = lambda_root_dir(lambda_dir);
    let mut steps: Vec<PackageStep> = Vec::new();
    let mut i: usize = 0;
    while i < binaries.len()
        invariant
            i <= binaries@.len(),
            steps@.len() == i,
            root@ == lambda_root(opt_view(*lambda_dir)),
            forall|k: int|
                0 <= k < i ==> {
                    &&& (#[trigger] steps@[k]).name@ == binaries@[k]@
                    &&& steps@[k].binary_path@ == compiled_path(*rt, binaries@[k]@)
                    &&& steps@[k].bootstrap_dir@ == path_join(
                        lambda_root(opt_view(*lambda_dir)),
                        binaries@[k]@,
                    )
                },
        decreases binaries.len() - i,
    {
        let name = binaries[i].as_str();
        let dir = join_path(join_path("target", rt.platform.as_str()).as_str(), rt.profile.as_str());
        let step = PackageStep {
            name: binaries[i].clone(),
            binary_path: join_path(dir.as_str(), name),
            bootstrap_dir: join_path(root.as_str(), name),
        };
        steps.push(step);
        i = i + 1;
    }
    steps
}

/// The directory of an already built function `name`: under `base_dir`, or
/// under `target/lambda`.
pub fn function_bootstrap_dir(name: &str, base_dir: &Option<String>) -> (r: String)
    ensures
        r@ == path_join(lambda_root(opt_view(*base_dir)), name@),
{
    let root = lambda_root_dir(base_dir);
    join_path(root.as_str(), name)
}

} // verus!
