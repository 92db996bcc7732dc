//! Turning a compiled binary into a deployment artifact: its architecture,
//! its SHA-256 checksum in upper-case hex, and a zip archive that holds it
//! as a single entry named `bootstrap`.
use vstd::prelude::*;
use vstd::string::StrSliceExecFns;
use crate::error::BuildError;
use crate::text::{eq_ignore_ascii_case, join_path, path_join, str_eq_ignore_ascii_case};

verus! {

/// What the object-file parser finds in a binary.
#[derive(Debug, Clone)]
pub enum ObjectArch {
    /// 64-bit ARM.
    Aarch64,
    /// 64-bit x86.
    X86_64,
    /// Another architecture, by the parser's name for it.
    Other(String),
    /// Not an object file the parser reads; the parser's message.
    Unparseable(String),
}

/// What `object::File::parse` followed by `architecture` reports of the bytes.
pub uninterp spec fn object_arch_of(data: Seq<u8>) -> ObjectArch;

/// The SHA-256 digest of the bytes.
pub uninterp spec fn sha256_of(data: Seq<u8>) -> Seq<u8>;

/// The zip archive that holds `data` as its one entry, named `name`, with
/// the writer's default options; `None` where the writer refuses.
pub uninterp spec fn zip_single_entry_of(name: Seq<char>, data: Seq<u8>) -> Option<Seq<u8>>;

/// Relies on `object::File::parse` and `object::Object::architecture`: the
/// architecture read from the file header, a function of the bytes alone.
#[verifier::external_body]
fn object_architecture(data: &[u8]) -> (r: ObjectArch)
    ensures
        r == object_arch_of(data@),
{
    match object::File::parse(data) {
        Ok(file) => match object::Object::architecture(&file) {
            object::Architecture::Aarch64 => ObjectArch::Aarch64,
            object::Architecture::X86_64 => ObjectArch::X86_64,
            other => ObjectArch::Other(format!("{:?}", other)),
        },
        Err(e) => ObjectArch::Unparseable(format!("{}", e)),
    }
}

/// Relies on `sha2::Sha256::digest`: the 32-byte SHA-256 digest of the bytes.
#[verifier::external_body]
fn sha256_digest(data: &[u8]) -> (r: Vec<u8>)
    ensures
        r@ == sha256_of(data@),
        r@.len() == 32,
{
    <sha2::Sha256 as sha2::Digest>::digest(data).to_vec()
}

/// Relies on `zip::ZipWriter` over an in-memory buffer: `start_file` with
/// the default `FileOptions`, `write_all` of the bytes, then `finish`.
#[verifier::external_body]
fn zip_single_entry(name: &str, data: &[u8]) -> (r: Option<Vec<u8>>)
    ensures
        match r {
            Some(b) => zip_single_entry_of(name@, data@) == Some(b@),
            None => zip_single_entry_of(name@, data@) is None,
        },
{
    let mut zip = zip::ZipWriter::new(std::io::Cursor::new(Vec::new()));
    zip.start_file(name, zip::write::FileOptions::default()).ok()?;
    std::io::Write::write_all(&mut zip, data).ok()?;
    Some(zip.finish().ok()?.into_inner())
}

/// The hex digit of a value below 16, in upper case.
pub open spec fn hex_digit(n: int) -> char {
    "0123456789ABCDEF"@[n]
}

/// Two upper-case hex digits per byte, most significant digit first.
pub open spec fn hex_upper(b: Seq<u8>) -> Seq<char>
    decreases b.len(),
{
    if b.len() == 0 {
        Seq::empty()
    } else {
        hex_upper(b.drop_last()) + seq![hex_digit(b.last() as int / 16), hex_digit(b.last() as int % 16)]
    }
}

/// The length of the hex rendering: two characters per byte.
pub proof fn lemma_hex_len(b: Seq<u8>)
    ensures
        hex_upper(b).len() == 2 * b.len(),
    decreases b.len(),
{
    if b.len() > 0 {
        lemma_hex_len(b.drop_last());
    }
}

/// Renders bytes as upper-case hex.
pub fn to_hex_upper(bytes: &[u8]) -> (r: String)
    ensures
        r@ == hex_upper(bytes@),
{
    let digits = "0123456789ABCDEF";
    proof {
        reveal_strlit("0123456789ABCDEF");
    }
    let mut r = String::new();
    let mut i: usize = 0;
    while i < bytes.len()
        invariant
            digits@ == "0123456789ABCDEF"@,
            digits@.len() == 16,
            i <= bytes@.len(),
            r@ == hex_upper(bytes@.take(i as int)),
        decreases bytes.len() - i,
    {
        let b = bytes[i];
        let hi = (b / 16) as usize;
        let lo = (b % 16) as usize;
        let ghost before = r@;
        r.append(digits.substring_char(hi, hi + 1));
        r.append(digits.substring_char(lo, lo + 1));
        proof {
            let t = bytes@.take(i as int + 1);
            assert(t.drop_last() =~= bytes@.take(i as int));
            assert(t.last() == b);
            assert(r@ =~= before + seq![hex_digit(b as int / 16), hex_digit(b as int % 16)]);
        }
        i = i + 1;
    }
    assert(bytes@.take(bytes@.len() as int) =~= bytes@);
    r
}

/// The name under which the deployment platform knows an architecture, for
/// the two it supports.
pub open spec fn arch_name(a: ObjectArch) -> Option<Seq<char>> {
    match a {
        ObjectArch::Aarch64 => Some("arm64"@),
        ObjectArch::X86_64 => Some("x86_64"@),
        _ => None,
    }
}

/// What an unsupported architecture is reported as.
pub open spec fn arch_detail(a: ObjectArch) -> Seq<char> {
    match a {
        ObjectArch::Other(s) => s@,
        ObjectArch::Unparseable(s) => s@,
        _ => Seq::empty(),
    }
}

/// The record of a packaged binary.
#[derive(Debug, Clone)]
pub struct BinaryArchive {
    /// `arm64` or `x86_64`.
    pub architecture: String,
    /// The SHA-256 of the raw binary, in upper-case hex.
    pub sha256: String,
    /// Where the artifact is written.
    pub path: String,
}

/// The record of a binary from what the parser found in it and from its
/// digest: the architecture must be one of the two supported ones.
pub fn binary_record(arch: &ObjectArch, digest: &[u8], path: String) -> (r: Result<
    BinaryArchive,
    BuildError,
>)
    ensures
        match arch_name(*arch) {
            Some(n) => (r matches Ok(a) && a.architecture@ == n && a.sha256@ == hex_upper(digest@)
                && a.path@ == path@),
            None => (r matches Err(BuildError::UnsupportedArchitecture(s)) && s@ == arch_detail(
                *arch,
            )),
        },
{
    let architecture = match arch {
        ObjectArch::Aarch64 => String::from_str("arm64"),
        ObjectArch::X86_64 => String::from_str("x86_64"),
        ObjectArch::Other(s) => {
            return Err(BuildError::UnsupportedArchitecture(s.clone()));
        },
        ObjectArch::Unparseable(s) => {
            return Err(BuildError::UnsupportedArchitecture(s.clone()));
        },
    };
    Ok(BinaryArchive { architecture, sha256: to_hex_upper(digest), path })
}

/// The architecture name recorded for a binary, if it is supported.
pub open spec fn binary_arch(data: Seq<u8>) -> Option<Seq<char>> {
    arch_name(object_arch_of(data))
}

/// The checksum recorded for a binary.
pub open spec fn binary_sha256(data: Seq<u8>) -> Seq<char> {
    hex_upper(sha256_of(data))
}

/// Reads the architecture of a binary and computes its checksum; the record
/// names `path` as the artifact's place.
pub fn inspect_binary(binary_data: &[u8], path: String) -> (r: Result<BinaryArchive, BuildError>)
    ensures
        match binary_arch(binary_data@) {
            Some(n) => (r matches Ok(a) && a.architecture@ == n && a.sha256@ == binary_sha256(
                binary_data@,
            ) && a.path@ == path@),
            None => (r matches Err(BuildError::UnsupportedArchitecture(s)) && s@ == arch_detail(
                object_arch_of(binary_data@),
            )),
        },
        r matches Ok(a) ==> a.sha256@.len() == 64,
{
    let arch = object_architecture(binary_data);
    let digest = sha256_digest(binary_data);
    proof {
        lemma_hex_len(digest@);
    }
    binary_record(&arch, digest.as_slice(), path)
}

/// A zip artifact: its record and the archive's bytes.
#[derive(Debug, Clone)]
pub struct ZippedBinary {
    /// The record; its path is `<destination>/bootstrap.zip`.
    pub archive: BinaryArchive,
    /// The archive, one entry named `bootstrap` holding the binary verbatim.
    pub contents: Vec<u8>,
}

/// Packages a binary as `<destination_directory>/bootstrap.zip`: reads its
/// architecture, computes its checksum and builds the archive. Nothing is
/// archived for an unsupported architecture.
pub fn zip_binary(binary_data: &[u8], destination_directory: &str) -> (r: Result<
    ZippedBinary,
    BuildError,
>)
    ensures
        binary_arch(binary_data@) is None ==> (r matches Err(
            BuildError::UnsupportedArchitecture(s),
        ) && s@ == arch_detail(object_arch_of(binary_data@))),
        binary_arch(binary_data@) is Some ==> match zip_single_entry_of(
            "bootstrap"@,
            binary_data@,
        ) {
            Some(z) => (r matches Ok(zb) && Some(zb.archive.architecture@) == binary_arch(
                binary_data@,
            ) && zb.archive.sha256@ == binary_sha256(binary_data@) && zb.archive.path@
                == path_join(destination_directory@, "bootstrap.zip"@) && zb.contents@ == z),
            None => r matches Err(BuildError::IoError(_)),
        },
{
    let path = join_path(destination_directory, "bootstrap.zip");
    let archive = match inspect_binary(binary_data, path) {
        Ok(a) => a,
        Err(e) => {
            return Err(e);
        },
    };
    match zip_single_entry("bootstrap", binary_data) {
        Some(contents) => Ok(ZippedBinary { archive, contents }),
        None => Err(BuildError::IoError(String::from_str("cannot write the zip archive"))),
    }
}

/// Packaging the same bytes twice records the same architecture and the
/// same checksum.
pub proof fn lemma_packaging_deterministic(a: Seq<u8>, b: Seq<u8>)
    requires
        a == b,
    ensures
        binary_arch(a) == binary_arch(b),
        binary_sha256(a) == binary_sha256(b),
{
}

/// A binary whose architecture is neither arm64 nor x86_64 gets no archive.
pub proof fn lemma_unsupported_has_no_archive(data: Seq<u8>)
    requires
        !(object_arch_of(data) is Aarch64),
        !(object_arch_of(data) is X86_64),
    ensures
        binary_arch(data) is None,
{
}

/// The two forms an artifact can take.
#[derive(Debug, Clone, Copy, PartialEq, Eq, Structural)]
pub enum OutputFormat {
    /// The binary itself, renamed `bootstrap`.
    Binary,
    /// A zip archive `bootstrap.zip` holding the binary as `bootstrap`.
    Zip,
}

impl OutputFormat {
    /// The format named `s`, ignoring ASCII case.
    pub fn from_name(s: &str) -> (r: Option<OutputFormat>)
        ensures
            eq_ignore_ascii_case(s@, "Binary"@) ==> r == Some(OutputFormat::Binary),
            eq_ignore_ascii_case(s@, "Zip"@) ==> r == Some(OutputFormat::Zip),
            !eq_ignore_ascii_case(s@, "Binary"@) && !eq_ignore_ascii_case(s@, "Zip"@) ==> r is None,
    {
        proof {
            reveal_strlit("Binary");
            reveal_strlit("Zip");
        }
        if str_eq_ignore_ascii_case(s, "Binary") {
            Some(OutputFormat::Binary)
        } else if str_eq_ignore_ascii_case(s, "Zip") {
            Some(OutputFormat::Zip)
        } else {
            None
        }
    }

    /// The format's name.
    pub fn name(&self) -> (r: &'static str)
        ensures
            r@ == (match self {
                OutputFormat::Binary => "Binary"@,
                OutputFormat::Zip => "Zip"@,
            }),
    {
        match self {
            OutputFormat::Binary => "Binary",
            OutputFormat::Zip => "Zip",
        }
    }

    /// The file name of an artifact of this format.
    pub open spec fn artifact_name(self) -> Seq<char> {
        match self {
            OutputFormat::Binary => "bootstrap"@,
            OutputFormat::Zip => "bootstrap.zip"@,
        }
    }
}

/// An artifact ready to be written: its record and, for the zip format, the
/// archive's bytes. For the binary format the binary itself is moved to the
/// record's path.
#[derive(Debug, Clone)]
pub struct PackagedBinary {
    /// The record of the artifact.
    pub archive: BinaryArchive,
    /// The archive's bytes, for the zip format only.
    pub zip_contents: Option<Vec<u8>>,
}

/// Packages a binary into `destination_directory` in the given format. Both
/// formats read the architecture and compute the checksum, so every record
/// carries them.
pub fn package_binary(
    binary_data: &[u8],
    destination_directory: &str,
    format: OutputFormat,
) -> (r: Result<PackagedBinary, BuildError>)
    ensures
        binary_arch(binary_data@) is None ==> (r matches Err(
            BuildError::UnsupportedArchitecture(s),
        ) && s@ == arch_detail(object_arch_of(binary_data@))),
        r matches Ok(p) ==> {
            &&& Some(p.archive.architecture@) == binary_arch(binary_data@)
            &&& p.archive.sha256@ == binary_sha256(binary_data@)
            &&& p.archive.path@ == path_join(destination_directory@, format.artifact_name())
            &&& format == OutputFormat::Binary ==> p.zip_contents is None
            &&& format == OutputFormat::Zip ==> (p.zip_contents matches Some(z) && Some(z@)
                == zip_single_entry_of("bootstrap"@, binary_data@))
        },
        binary_arch(binary_data@) is Some && format == OutputFormat::Binary ==> r is Ok,
        binary_arch(binary_data@) is Some && format == OutputFormat::Zip ==> (r is Ok
            <==> zip_single_entry_of("bootstrap"@, binary_data@) is Some),
        r is Err ==> (r matches Err(BuildError::UnsupportedArchitecture(_)) || r matches Err(
            BuildError::IoError(_),
        )),
{
    match format {
        OutputFormat::Binary => {
            let path = join_path(destination_directory, "bootstrap");
            match inspect_binary(binary_data, path) {
                Ok(archive) => Ok(PackagedBinary { archive, zip_contents: None }),
                Err(e) => Err(e),
            }
        },
        OutputFormat::Zip => match zip_binary(binary_data, destination_directory) {
            Ok(z) => Ok(PackagedBinary { archive: z.archive, zip_contents: Some(z.contents) }),
            Err(e) => Err(e),
        },
    }
}

/// The binary to package must exist: `BinaryNotFound` names the path where
/// it was expected.
pub fn check_binary_present(path: &str, exists: bool) -> (r: Result<(), BuildError>)
    ensures
        exists ==> r is Ok,
        !exists ==> (r matches Err(BuildError::BinaryNotFound(s)) && s@ == path@),
{
    if exists {
        Ok(())
    } else {
        Err(BuildError::BinaryNotFound(String::from_str(path)))
    }
}

} // verus!
