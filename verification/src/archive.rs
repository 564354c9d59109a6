//! The binaries that are built and the ZIP archives that are deployed.
use vstd::prelude::*;
use sha2::Digest;
use crate::encoding::hex_upper;

verus! {

/// `path` joined to `base` as `Path::join` does on Unix: an absolute `path` replaces
/// `base`, and a `/` separates them unless `base` is empty or already ends with one.
pub open spec fn path_join(base: Seq<char>, path: Seq<char>) -> Seq<char> {
    if path.len() > 0 && path[0] == '/' {
        path
    } else if base.len() == 0 {
        path
    } else if base.last() == '/' {
        base + path
    } else {
        base + seq!['/'] + path
    }
}

/// Joins `path` to `base` (`Path::join` on Unix).
pub fn join_path(base: &str, path: &str) -> (res: String)
    ensures
        res@ == path_join(base@, path@),
{
    let b = crate::text::chars_of(base);
    let p = crate::text::chars_of(path);
    if p.len() > 0 && p[0] == '/' {
        return crate::text::owned(path);
    }
    if b.len() == 0 {
        return crate::text::owned(path);
    }
    let mut out = b;
    if out[out.len() - 1] != '/' {
        out.push('/');
    }
    crate::text::extend_chars(&mut out, p.as_slice());
    crate::text::string_of(out.as_slice())
}

/// A path as a Unix path string. Paths are held as UTF-8 strings with `/` separators
/// here, so the conversion always succeeds and keeps the path.
pub fn convert_to_unix_path(path: &str) -> (res: Option<String>)
    ensures
        res matches Some(s) && s@ == path@,
{
    Some(crate::text::owned(path))
}

/// When a binary was last changed.
pub struct BinaryModifiedAt(pub Option<std::time::SystemTime>);

#[verifier::external_type_specification]
#[verifier::external_body]
pub struct ExSystemTime(std::time::SystemTime);

/// `SystemTime::now`: the current time of the system clock.
#[verifier::external_body]
fn system_time_now() -> std::time::SystemTime {
    std::time::SystemTime::now()
}

/// `SystemTime::duration_since(UNIX_EPOCH)`: how far after the epoch `time` is (`Ok`), or
/// how far before it (`Err`), in whole seconds and the nanoseconds beyond them, which
/// `Duration::subsec_nanos` documents as less than a second.
#[verifier::external_body]
fn since_epoch(time: std::time::SystemTime) -> (res: Result<(u64, u32), (u64, u32)>)
    ensures
        res matches Ok((_, n)) ==> n < 1_000_000_000,
        res matches Err((_, n)) ==> n < 1_000_000_000,
{
    match time.duration_since(std::time::UNIX_EPOCH) {
        Ok(d) => Ok((d.as_secs(), d.subsec_nanos())),
        Err(e) => Err((e.duration().as_secs(), e.duration().subsec_nanos())),
    }
}

/// `chrono::DateTime::<Utc>::from_timestamp`, then `chrono_humanize::HumanTime::from` and
/// `to_string`: how long ago or how far ahead of the current time the moment `secs` seconds
/// and `nanos` nanoseconds after the epoch is, in words; `None` when chrono cannot hold that
/// moment. The text depends on the current time, so nothing more is stated of it.
#[verifier::external_body]
fn humanize_timestamp(secs: i64, nanos: u32) -> Option<String> {
    match chrono::DateTime::<chrono::Utc>::from_timestamp(secs, nanos) {
        Some(dt) => Some(chrono_humanize::HumanTime::from(dt).to_string()),
        None => None,
    }
}

/// The seconds and nanoseconds of `time` counted from the epoch, as chrono counts them
/// (before the epoch, the seconds round down and the nanoseconds count up from them);
/// `None` when the seconds do not fit an `i64`.
fn timestamp_of(time: std::time::SystemTime) -> (res: Option<(i64, u32)>)
    ensures
        res matches Some((s, n)) ==> n < 1_000_000_000,
{
    match since_epoch(time) {
        Ok((s, n)) => if s <= i64::MAX as u64 {
            Some((s as i64, n))
        } else {
            None
        },
        Err((s, n)) => if s > i64::MAX as u64 {
            None
        } else if n == 0 {
            Some((-(s as i64), 0))
        } else {
            Some((-(s as i64) - 1, 1_000_000_000 - n))
        },
    }
}

impl BinaryModifiedAt {
    /// The current time.
    pub fn now() -> (res: BinaryModifiedAt)
        ensures
            res.0 is Some,
    {
        BinaryModifiedAt(Some(system_time_now()))
    }

    /// An unknown time.
    pub fn unknown() -> (res: BinaryModifiedAt)
        ensures
            res.0 is None,
    {
        BinaryModifiedAt(None)
    }

    /// How long ago the binary changed, in words; `at unknown time` when that is not known,
    /// or when it is a moment that chrono cannot hold. The words depend on the clock.
    pub fn humanize(&self) -> (res: String)
        ensures
            self.0 is None ==> res@ == seq![
                'a',
                't',
                ' ',
                'u',
                'n',
                'k',
                'n',
                'o',
                'w',
                'n',
                ' ',
                't',
                'i',
                'm',
                'e',
            ],
    {
        match self.0 {
            Some(time) => {
                let known = match timestamp_of(time) {
                    Some((secs, nanos)) => humanize_timestamp(secs, nanos),
                    None => None,
                };
                match known {
                    Some(text) => text,
                    None => crate::text::owned("at unknown time"),
                }
            },
            None => {
                let s = "at unknown time";
                proof {
                    reveal_strlit("at unknown time");
                }
                assert(s@ =~= seq![
                    'a',
                    't',
                    ' ',
                    'u',
                    'n',
                    'k',
                    'n',
                    'o',
                    'w',
                    'n',
                    ' ',
                    't',
                    'i',
                    'm',
                    'e',
                ]);
                crate::text::owned(s)
            },
        }
    }
}

/// The kind of binary that is built and deployed.
#[derive(Debug, Clone, Copy)]
pub enum BinaryData<'a> {
    Function(&'a str),
    ExternalExtension(&'a str),
    InternalExtension(&'a str),
}

/// `bootstrap`, the name of a function's binary inside its archive.
pub open spec fn bootstrap() -> Seq<char> {
    seq!['b', 'o', 'o', 't', 's', 't', 'r', 'a', 'p']
}

/// `extensions`, the directory of extension binaries.
pub open spec fn extensions_dir() -> Seq<char> {
    seq!['e', 'x', 't', 'e', 'n', 's', 'i', 'o', 'n', 's']
}

/// The name of the binary inside the archive.
pub open spec fn binary_name_of(d: BinaryData) -> Seq<char> {
    match d {
        BinaryData::Function(_) => bootstrap(),
        BinaryData::ExternalExtension(name) => name@,
        BinaryData::InternalExtension(name) => name@,
    }
}

/// The directory, inside the archive, of the binary.
pub open spec fn parent_dir_of(d: BinaryData) -> Option<Seq<char>> {
    match d {
        BinaryData::ExternalExtension(_) => Some(extensions_dir()),
        _ => None,
    }
}

/// The command that builds this kind of binary.
pub open spec fn build_help_of(d: BinaryData) -> Seq<char> {
    match d {
        BinaryData::Function(_) => seq!['b', 'u', 'i', 'l', 'd'],
        BinaryData::ExternalExtension(_) => seq![
            'b',
            'u',
            'i',
            'l',
            'd',
            ' ',
            '-',
            '-',
            'e',
            'x',
            't',
            'e',
            'n',
            's',
            'i',
            'o',
            'n',
        ],
        BinaryData::InternalExtension(_) => seq![
            'b',
            'u',
            'i',
            'l',
            'd',
            ' ',
            '-',
            '-',
            'e',
            'x',
            't',
            'e',
            'n',
            's',
            'i',
            'o',
            'n',
            ' ',
            '-',
            '-',
            'i',
            'n',
            't',
            'e',
            'r',
            'n',
            'a',
            'l',
        ],
    }
}

impl<'a> BinaryData<'a> {
    /// The kind of binary that the command-line flags describe.
    pub fn new(name: &'a str, extension: bool, internal: bool) -> (res: BinaryData<'a>)
        ensures
            res == (if extension {
                if internal {
                    BinaryData::InternalExtension(name)
                } else {
                    BinaryData::ExternalExtension(name)
                }
            } else {
                BinaryData::Function(name)
            }),
    {
        if extension {
            if internal {
                BinaryData::InternalExtension(name)
            } else {
                BinaryData::ExternalExtension(name)
            }
        } else {
            BinaryData::Function(name)
        }
    }

    /// The name of the binary inside the archive: `bootstrap` for a function, the
    /// extension's name for an extension.
    pub fn binary_name(&self) -> (res: &'a str)
        ensures
            res@ == binary_name_of(*self),
    {
        match self {
            BinaryData::Function(_) => {
                let s = "bootstrap";
                proof {
                    reveal_strlit("bootstrap");
                }
                assert(s@ =~= bootstrap());
                s
            },
            BinaryData::ExternalExtension(name) => name,
            BinaryData::InternalExtension(name) => name,
        }
    }

    /// The name of the archive: the binary's name with `.zip`.
    pub fn zip_name(&self) -> (res: String)
        ensures
            res@ == binary_name_of(*self) + seq!['.', 'z', 'i', 'p'],
    {
        let mut v = crate::text::chars_of(self.binary_name());
        v.push('.');
        v.push('z');
        v.push('i');
        v.push('p');
        let res = crate::text::string_of(v.as_slice());
        assert(res@ =~= binary_name_of(*self) + seq!['.', 'z', 'i', 'p']);
        res
    }

    /// Where the binary is after building it: the function's name, or `extensions`.
    pub fn binary_location(&self) -> (res: &'a str)
        ensures
            res@ == match *self {
                BinaryData::Function(name) => name@,
                _ => extensions_dir(),
            },
    {
        match self {
            BinaryData::Function(name) => name,
            _ => {
                let s = "extensions";
                proof {
                    reveal_strlit("extensions");
                }
                assert(s@ =~= extensions_dir());
                s
            },
        }
    }

    /// The directory inside the archive that the binary goes in: `extensions` for
    /// external extensions.
    pub fn parent_dir(&self) -> (res: Option<&'static str>)
        ensures
            match res {
                Some(p) => parent_dir_of(*self) == Some(p@),
                None => parent_dir_of(*self) is None,
            },
    {
        match self {
            BinaryData::ExternalExtension(_) => {
                let s = "extensions";
                proof {
                    reveal_strlit("extensions");
                }
                assert(s@ =~= extensions_dir());
                Some(s)
            },
            _ => None,
        }
    }

    /// The command that builds this kind of binary.
    pub fn build_help(&self) -> (res: &'static str)
        ensures
            res@ == build_help_of(*self),
    {
        match self {
            BinaryData::Function(_) => {
                let s = "build";
                proof {
                    reveal_strlit("build");
                }
                assert(s@ =~= seq!['b', 'u', 'i', 'l', 'd']);
                s
            },
            BinaryData::ExternalExtension(_) => {
                let s = "build --extension";
                proof {
                    reveal_strlit("build --extension");
                }
                assert(s@ =~= seq![
                    'b',
                    'u',
                    'i',
                    'l',
                    'd',
                    ' ',
                    '-',
                    '-',
                    'e',
                    'x',
                    't',
                    'e',
                    'n',
                    's',
                    'i',
                    'o',
                    'n',
                ]);
                s
            },
            BinaryData::InternalExtension(_) => {
                let s = "build --extension --internal";
                proof {
                    reveal_strlit("build --extension --internal");
                }
                assert(s@ =~= seq![
                    'b',
                    'u',
                    'i',
                    'l',
                    'd',
                    ' ',
                    '-',
                    '-',
                    'e',
                    'x',
                    't',
                    'e',
                    'n',
                    's',
                    'i',
                    'o',
                    'n',
                    ' ',
                    '-',
                    '-',
                    'i',
                    'n',
                    't',
                    'e',
                    'r',
                    'n',
                    'a',
                    'l',
                ]);
                s
            },
        }
    }

    /// The path of the binary inside the archive: its name, inside its parent directory
    /// when it has one.
    pub fn binary_path_in_zip(&self) -> (res: String)
        ensures
            res@ == match parent_dir_of(*self) {
                Some(p) => path_join(p, binary_name_of(*self)),
                None => binary_name_of(*self),
            },
    {
        let name = self.binary_name();
        let file_name = match self.parent_dir() {
            Some(parent) => join_path(parent, name),
            None => crate::text::owned(name),
        };
        match convert_to_unix_path(file_name.as_str()) {
            Some(p) => p,
            None => file_name,
        }
    }
}

/// `target`, the default target directory.
pub open spec fn default_target_dir() -> Seq<char> {
    seq!['t', 'a', 'r', 'g', 'e', 't']
}

/// `lambda`, the directory under the target directory that built binaries go to.
pub open spec fn lambda_subdir() -> Seq<char> {
    seq!['l', 'a', 'm', 'b', 'd', 'a']
}

/// Where the built binary and its archive are expected: the binary's location under the
/// given base directory, or else under `lambda` in the target directory (`target` when
/// the project's metadata gives none).
pub open spec fn archive_dir_of(
    base_dir: Option<Seq<char>>,
    target_dir: Option<Seq<char>>,
    location: Seq<char>,
) -> Seq<char> {
    match base_dir {
        Some(d) => path_join(d, location),
        None => path_join(
            path_join(
                match target_dir {
                    Some(t) => t,
                    None => default_target_dir(),
                },
                lambda_subdir(),
            ),
            location,
        ),
    }
}

/// The location of a binary under the build directory: the function's name, or
/// `extensions`.
pub open spec fn binary_location_of(d: BinaryData) -> Seq<char> {
    match d {
        BinaryData::Function(name) => name@,
        _ => extensions_dir(),
    }
}

/// The directory where the built binary of `data` and its archive are looked for.
pub fn archive_dir(base_dir: Option<&str>, target_dir: Option<&str>, data: &BinaryData) -> (res:
    String)
    ensures
        res@ == archive_dir_of(
            match base_dir {
                Some(d) => Some(d@),
                None => None,
            },
            match target_dir {
                Some(t) => Some(t@),
                None => None,
            },
            binary_location_of(*data),
        ),
{
    let location = data.binary_location();
    match base_dir {
        Some(d) => join_path(d, location),
        None => {
            let t = match target_dir {
                Some(t) => t,
                None => {
                    let s = "target";
                    proof {
                        reveal_strlit("target");
                    }
                    assert(s@ =~= default_target_dir());
                    s
                },
            };
            let l = "lambda";
            proof {
                reveal_strlit("lambda");
            }
            assert(l@ =~= lambda_subdir());
            let lambda = join_path(t, l);
            join_path(lambda.as_str(), location)
        },
    }
}

/// What a deployment archive is made from.
#[derive(Debug, Clone)]
pub enum ArchiveSource {
    /// The built binary, at `binary_path` in `directory`: it is zipped there.
    ZipBinary { binary_path: String, directory: String },
    /// No built binary, but an archive at `zip_path`: it is used as it is.
    UseZip { zip_path: String },
}

/// Decides what the archive of `data` is made from, given the directory it is looked for
/// in and whether the binary (at `dir` joined with the binary's name) and the archive (at
/// `dir` joined with the archive's name) exist there. A built binary comes first; with
/// neither, the error names the binary and the command that builds it.
pub fn archive_source(dir: &str, data: &BinaryData, binary_exists: bool, zip_exists: bool) -> (res:
    Result<ArchiveSource, crate::target_arch::BuildError>)
    ensures
        binary_exists ==> (res matches Ok(ArchiveSource::ZipBinary { binary_path, directory })
            && binary_path@ == path_join(dir@, binary_name_of(*data)) && directory@ == dir@),
        !binary_exists && zip_exists ==> (res matches Ok(ArchiveSource::UseZip { zip_path })
            && zip_path@ == path_join(dir@, binary_name_of(*data) + seq!['.', 'z', 'i', 'p'])),
        !binary_exists && !zip_exists ==> (res matches Err(
            crate::target_arch::BuildError::BinaryMissing(name, help),
        ) && name@ == binary_name_of(*data) && help@ == build_help_of(*data)),
{
    if binary_exists {
        let binary_path = join_path(dir, data.binary_name());
        return Ok(ArchiveSource::ZipBinary { binary_path, directory: crate::text::owned(dir) });
    }
    if zip_exists {
        let zip_name = data.zip_name();
        let zip_path = join_path(dir, zip_name.as_str());
        return Ok(ArchiveSource::UseZip { zip_path });
    }
    Err(
        crate::target_arch::BuildError::BinaryMissing(
            crate::text::owned(data.binary_name()),
            crate::text::owned(data.build_help()),
        ),
    )
}

/// Whether `a` is the architecture named `name`: `arm64` and `x86_64` are known, any other
/// name is kept as it is.
pub open spec fn architecture_of(name: Seq<char>, a: CpuArchitecture) -> bool {
    if name == seq!['a', 'r', 'm', '6', '4'] {
        a is Arm64
    } else if name == seq!['x', '8', '6', '_', '6', '4'] {
        a is X8664
    } else {
        a matches CpuArchitecture::Unknown(s) && s@ == name
    }
}

/// The processor architecture of a binary, as Lambda names it.
#[derive(Debug)]
pub enum CpuArchitecture {
    Arm64,
    X8664,
    Unknown(String),
}

/// A ZIP archive ready to deploy.
pub struct BinaryArchive {
    /// The architecture of the binary inside, as Lambda names it.
    pub architecture: String,
    /// Where the archive is.
    pub path: String,
    /// When the binary inside last changed.
    pub binary_modified_at: BinaryModifiedAt,
}

/// The SHA-256 digest of `data`.
pub uninterp spec fn sha256_digest(data: Seq<u8>) -> Seq<u8>;

/// `sha2::Sha256::digest`: the SHA-256 digest of `data`, 32 bytes long.
#[verifier::external_body]
fn sha256_bytes(data: &[u8]) -> (res: Vec<u8>)
    ensures
        res@ == sha256_digest(data@),
        res@.len() == 32,
{
    sha2::Sha256::digest(data).to_vec()
}

impl BinaryArchive {
    /// An archive at `path` holding a binary for `architecture`.
    pub fn new(path: String, architecture: String, binary_modified_at: BinaryModifiedAt) -> (res:
        BinaryArchive)
        ensures
            res.path == path,
            res.architecture == architecture,
            res.binary_modified_at == binary_modified_at,
    {
        BinaryArchive { path, architecture, binary_modified_at }
    }

    /// The SHA-256 digest of the archive's content `data`, in upper-case hexadecimal.
    pub fn sha256(&self, data: &[u8]) -> (res: String)
        ensures
            res@ == hex_upper(sha256_digest(data@)),
            res@.len() == 64,
    {
        let digest = sha256_bytes(data);
        proof {
            lemma_hex_upper_len(digest@);
        }
        crate::encoding::to_hex_upper(digest.as_slice())
    }

    /// The architecture of the binary, as Lambda names it.
    pub fn architecture(&self) -> (res: CpuArchitecture)
        ensures
            architecture_of(self.architecture@, res),
            self.architecture@ == seq!['a', 'r', 'm', '6', '4'] ==> res is Arm64,
            self.architecture@ == seq!['x', '8', '6', '_', '6', '4'] ==> res is X8664,
            self.architecture@ != seq!['a', 'r', 'm', '6', '4'] && self.architecture@ != seq![
                'x',
                '8',
                '6',
                '_',
                '6',
                '4',
            ] ==> (res matches CpuArchitecture::Unknown(s) && s@ == self.architecture@),
    {
        let arm = "arm64";
        let x86 = "x86_64";
        proof {
            reveal_strlit("arm64");
            reveal_strlit("x86_64");
        }
        assert(arm@ =~= seq!['a', 'r', 'm', '6', '4']);
        assert(x86@ =~= seq!['x', '8', '6', '_', '6', '4']);
        if crate::text::str_eq(self.architecture.as_str(), arm) {
            CpuArchitecture::Arm64
        } else if crate::text::str_eq(self.architecture.as_str(), x86) {
            CpuArchitecture::X8664
        } else {
            CpuArchitecture::Unknown(self.architecture.clone())
        }
    }
}

/// The hexadecimal rendering has two digits per byte.
pub proof fn lemma_hex_upper_len(bytes: Seq<u8>)
    ensures
        hex_upper(bytes).len() == 2 * bytes.len(),
    decreases bytes.len(),
{
    if bytes.len() > 0 {
        lemma_hex_upper_len(bytes.drop_last());
    }
}

// ---------------------------------------------------------------------------
// Files included in the zip file
// ---------------------------------------------------------------------------

/// `to` before, between and after the characters of `s`.
pub open spec fn interleave(s: Seq<char>, to: Seq<char>) -> Seq<char>
    decreases s.len(),
{
    if s.len() == 0 {
        to
    } else {
        to + seq![s[0]] + interleave(s.skip(1), to)
    }
}

/// `s` with every occurrence of `from`, left to right and without overlaps, replaced by
/// `to` (`str::replace`); an empty `from` puts `to` before, between and after the characters.
pub open spec fn replace_all(s: Seq<char>, from: Seq<char>, to: Seq<char>) -> Seq<char>
    decreases s.len(),
{
    if from.len() == 0 {
        interleave(s, to)
    } else if s.len() == 0 {
        Seq::empty()
    } else if crate::text::occurs_at(s, from, 0) {
        to + replace_all(s.skip(from.len() as int), from, to)
    } else {
        seq![s[0]] + replace_all(s.skip(1), from, to)
    }
}

/// `s` with every occurrence of `from` replaced by `to`, as `str::replace` does.
pub fn replace_str(s: &str, from: &str, to: &str) -> (res: String)
    ensures
        res@ == replace_all(s@, from@, to@),
{
    let v = crate::text::chars_of(s);
    let f = crate::text::chars_of(from);
    let t = crate::text::chars_of(to);
    let mut out: Vec<char> = Vec::new();
    let mut i: usize = 0;
    assert(v@.skip(0) =~= v@);
    assert(out@ + interleave(v@, t@) =~= interleave(v@, t@));
    assert(out@ + replace_all(v@, f@, t@) =~= replace_all(v@, f@, t@));
    if f.len() == 0 {
        while i < v.len()
            invariant
                i <= v@.len(),
                f@.len() == 0,
                out@ + interleave(v@.skip(i as int), t@) == interleave(v@, t@),
            decreases v@.len() - i,
        {
            let ghost before = out@;
            crate::text::extend_chars(&mut out, t.as_slice());
            out.push(v[i]);
            proof {
                assert(v@.skip(i as int).skip(1) =~= v@.skip(i + 1));
                assert(v@.skip(i as int)[0] == v@[i as int]);
                assert(out@ + interleave(v@.skip(i + 1), t@) =~= before + interleave(
                    v@.skip(i as int),
                    t@,
                ));
            }
            i = i + 1;
        }
        proof {
            assert(v@.skip(i as int) =~= Seq::<char>::empty());
        }
        crate::text::extend_chars(&mut out, t.as_slice());
        assert(out@ =~= interleave(v@, t@));
        return crate::text::string_of(out.as_slice());
    }
    while i < v.len()
        invariant
            i <= v@.len(),
            f@.len() > 0,
            out@ + replace_all(v@.skip(i as int), f@, t@) == replace_all(v@, f@, t@),
        decreases v@.len() - i,
    {
        let ghost before = out@;
        let ghost rest = v@.skip(i as int);
        if crate::text::chars_occur_at(v.as_slice(), f.as_slice(), i) {
            proof {
                assert(rest.subrange(0, f@.len() as int) =~= v@.subrange(i as int, i + f@.len()));
                assert(crate::text::occurs_at(rest, f@, 0));
                assert(rest.skip(f@.len() as int) =~= v@.skip(i + f@.len()));
            }
            crate::text::extend_chars(&mut out, t.as_slice());
            i = i + f.len();
            assert(out@ + replace_all(v@.skip(i as int), f@, t@) =~= before + replace_all(
                rest,
                f@,
                t@,
            ));
        } else {
            proof {
                if f@.len() <= rest.len() {
                    assert(rest.subrange(0, f@.len() as int) =~= v@.subrange(
                        i as int,
                        i + f@.len(),
                    ));
                }
                assert(!crate::text::occurs_at(rest, f@, 0));
                assert(rest.skip(1) =~= v@.skip(i + 1));
                assert(rest[0] == v@[i as int]);
            }
            out.push(v[i]);
            i = i + 1;
            assert(out@ + replace_all(v@.skip(i as int), f@, t@) =~= before + replace_all(
                rest,
                f@,
                t@,
            ));
        }
    }
    proof {
        assert(v@.skip(i as int) =~= Seq::<char>::empty());
    }
    assert(out@ =~= replace_all(v@, f@, t@));
    crate::text::string_of(out.as_slice())
}

/// The name in the zip file of a file found under an included path: the included path
/// replaced by the name it is included under.
pub fn zip_destination_name(source_name: &str, included_path: &str, included_name: &str) -> (res:
    String)
    ensures
        res@ == replace_all(source_name@, included_path@, included_name@),
{
    replace_str(source_name, included_path, included_name)
}

/// An included file: `name:path` includes `path` under `name`, a bare path under itself.
pub open spec fn include_entry(f: Seq<char>) -> (Seq<char>, Seq<char>) {
    match crate::text::split_once_spec(f, ':') {
        Some((name, path)) => (name, path),
        None => (f, f),
    }
}

/// The included files by the name they are included under; a later one for a name wins.
pub fn include_map(files: &Vec<String>) -> (res: crate::strmap::StringMap)
    ensures
        res@ == crate::strmap::map_of(
            crate::text::views(files@).map_values(|f: Seq<char>| include_entry(f)),
        ),
{
    let ghost es = crate::text::views(files@).map_values(|f: Seq<char>| include_entry(f));
    let mut m = crate::strmap::StringMap::new();
    let mut i: usize = 0;
    while i < files.len()
        invariant
            i <= files@.len(),
            es == crate::text::views(files@).map_values(|f: Seq<char>| include_entry(f)),
            m@ == crate::strmap::map_of(es.take(i as int)),
        decreases files@.len() - i,
    {
        let v = crate::text::chars_of(files[i].as_str());
        match crate::text::split_once_chars(v.as_slice(), ':') {
            Some((name, path)) => {
                m.insert(crate::text::string_of(name.as_slice()), crate::text::string_of(path.as_slice()));
            },
            None => {
                m.insert(files[i].clone(), files[i].clone());
            },
        }
        proof {
            assert(es.take(i + 1).drop_last() =~= es.take(i as int));
            assert(es[i as int] == include_entry(files@[i as int]@));
        }
        i = i + 1;
    }
    assert(es.take(files@.len() as int) =~= es);
    m
}

} // verus!
