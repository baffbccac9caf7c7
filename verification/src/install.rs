//! The release installer's decisions: naming a versioned release archive
//! for the host platform, the download and checksum URLs, the version-keyed
//! cache entry, verifying a downloaded archive against the release's
//! checksum listing, and the idempotence of the install.
//!
//! The downloading and unpacking themselves are I/O, performed by the
//! caller; everything the installer decides about them is here.

use vstd::prelude::*;
use vstd::string::*;
use crate::text::{str_eq, find_from, lemma_find_from, find_char, skip_from, skip_char};

verus! {

/// A downloaded archive could not be trusted.
#[derive(Clone, Copy, PartialEq, Eq, Structural, Debug)]
pub enum IntegrityError {
    /// The release's checksum listing has no entry for the archive.
    NotListed,
    /// The listed digest disagrees with the digest of the bytes received.
    DigestMismatch,
}

/// Identifies which versioned binary to fetch for the current platform.
#[derive(Clone, Debug)]
pub struct InstallTarget {
    pub owner: String,
    pub repo: String,
    pub version: String,
    pub os: String,
    pub arch: String,
}

/// The base name of a release archive: `{repo}-{version}.{os}-{arch}`.
pub open spec fn spec_archive_base(t: InstallTarget) -> Seq<char> {
    t.repo@ + "-"@ + t.version@ + "."@ + t.os@ + "-"@ + t.arch@
}

impl InstallTarget {
    /// The cache entry name for this target: `{repo}-{version}`.
    pub fn cache_key(&self) -> (r: String)
        ensures
            r@ == self.repo@ + "-"@ + self.version@,
    {
        let mut r = String::new();
        r.append(self.repo.as_str());
        r.append("-");
        r.append(self.version.as_str());
        proof {
            assert(r@ =~= self.repo@ + "-"@ + self.version@);
        }
        r
    }

    /// The archive file name: `{repo}-{version}.{os}-{arch}.tar.gz`.
    pub fn package_name(&self) -> (r: String)
        ensures
            r@ == spec_archive_base(*self) + ".tar.gz"@,
    {
        let mut r = String::new();
        r.append(self.repo.as_str());
        r.append("-");
        r.append(self.version.as_str());
        r.append(".");
        r.append(self.os.as_str());
        r.append("-");
        r.append(self.arch.as_str());
        r.append(".tar.gz");
        proof {
            assert(r@ =~= spec_archive_base(*self) + ".tar.gz"@);
        }
        r
    }

    /// The single top-level directory the archive unpacks under:
    /// `{repo}-{version}.{os}-{arch}/`.
    pub fn unpack_prefix(&self) -> (r: String)
        ensures
            r@ == spec_archive_base(*self) + "/"@,
    {
        let mut r = String::new();
        r.append(self.repo.as_str());
        r.append("-");
        r.append(self.version.as_str());
        r.append(".");
        r.append(self.os.as_str());
        r.append("-");
        r.append(self.arch.as_str());
        r.append("/");
        proof {
            assert(r@ =~= spec_archive_base(*self) + "/"@);
        }
        r
    }

    /// The download URL of the named file in this target's release:
    /// `https://github.com/{owner}/{repo}/releases/download/v{version}/{file}`.
    pub fn release_file_url(&self, file: &str) -> (r: String)
        ensures
            r@ == "https://github.com/"@ + self.owner@ + "/"@ + self.repo@
                + "/releases/download/v"@ + self.version@ + "/"@ + file@,
    {
        let mut r = String::new();
        r.append("https://github.com/");
        r.append(self.owner.as_str());
        r.append("/");
        r.append(self.repo.as_str());
        r.append("/releases/download/v");
        r.append(self.version.as_str());
        r.append("/");
        r.append(file);
        proof {
            assert(r@ =~= "https://github.com/"@ + self.owner@ + "/"@ + self.repo@
                + "/releases/download/v"@ + self.version@ + "/"@ + file@);
        }
        r
    }

    /// The URL of the release's checksum listing, `sha256sums.txt`.
    pub fn checksum_url(&self) -> (r: String)
        ensures
            r@ == "https://github.com/"@ + self.owner@ + "/"@ + self.repo@
                + "/releases/download/v"@ + self.version@ + "/"@ + "sha256sums.txt"@,
    {
        self.release_file_url("sha256sums.txt")
    }
}

/// A version string with any leading `v` letters removed.
pub open spec fn spec_version_trimmed(s: Seq<char>) -> Seq<char> {
    s.subrange(skip_from(s, 0, 'v'), s.len() as int)
}

/// Removes the leading `v` from a version given as `v2.45.0`.
pub fn version_without_prefix(version: &str) -> (r: &str)
    ensures
        r@ == spec_version_trimmed(version@),
{
    let len = version.unicode_len();
    let start = skip_char(version, 0, 'v');
    version.substring_char(start, len)
}

/// What the installer must do for a target, given whether the target's
/// cache entry already exists.
#[derive(Clone, Copy, PartialEq, Eq, Structural, Debug)]
pub enum InstallAction {
    /// The cache entry exists: use it, with no network access.
    UseCache,
    /// No cache entry: download the archive, verify it against the
    /// checksum listing, and unpack it into the cache.
    DownloadVerifyUnpack,
}

/// The installer's plan for a target whose cache entry exists or not.
pub open spec fn spec_install_plan(cache_present: bool) -> InstallAction {
    if cache_present {
        InstallAction::UseCache
    } else {
        InstallAction::DownloadVerifyUnpack
    }
}

/// Decides whether a target must be downloaded: only when its cache entry
/// does not exist yet.
pub fn install_plan(cache_present: bool) -> (r: InstallAction)
    ensures
        r == spec_install_plan(cache_present),
{
    if cache_present {
        InstallAction::UseCache
    } else {
        InstallAction::DownloadVerifyUnpack
    }
}

/// A successful install leaves the target's key in the cache.
pub open spec fn spec_cache_after_install(cache: Set<Seq<char>>, key: Seq<char>) -> Set<Seq<char>> {
    cache.insert(key)
}

/// Idempotent install: once a target has been installed, the plan for the
/// same target is to use the cache — a second install performs no
/// download, whatever the cache held before.
pub proof fn lemma_install_idempotent(cache: Set<Seq<char>>, key: Seq<char>)
    ensures
        spec_install_plan(spec_cache_after_install(cache, key).contains(key))
            == InstallAction::UseCache,
{
}

/// The lines of `s`, split on newline characters.
pub open spec fn spec_lines(s: Seq<char>) -> Seq<Seq<char>>
    decreases s.len()
    via spec_lines_dec
{
    let nl = find_from(s, 0, '\n');
    if nl == s.len() {
        seq![s]
    } else {
        seq![s.subrange(0, nl)] + spec_lines(s.subrange(nl + 1, s.len() as int))
    }
}

#[via_fn]
proof fn spec_lines_dec(s: Seq<char>) {
    lemma_find_from(s, 0, '\n');
}

/// The digest column of a checksum line: everything before the first space.
pub open spec fn spec_line_digest(line: Seq<char>) -> Seq<char> {
    line.subrange(0, find_from(line, 0, ' '))
}

/// The file-name column of a checksum line: everything after the spaces
/// that follow the digest.
pub open spec fn spec_line_name(line: Seq<char>) -> Seq<char> {
    line.subrange(skip_from(line, find_from(line, 0, ' '), ' '), line.len() as int)
}

/// The digest the listing gives for `package`: from the first line whose
/// file-name column is `package`.
pub open spec fn spec_lookup_in_lines(lines: Seq<Seq<char>>, package: Seq<char>) -> Option<
    Seq<char>,
>
    decreases lines.len(),
{
    if lines.len() == 0 {
        None
    } else if spec_line_name(lines[0]) == package {
        Some(spec_line_digest(lines[0]))
    } else {
        spec_lookup_in_lines(lines.drop_first(), package)
    }
}

/// The digest a checksum listing gives for `package`, if it is listed.
pub open spec fn spec_checksum_lookup(listing: Seq<char>, package: Seq<char>) -> Option<Seq<char>> {
    spec_lookup_in_lines(spec_lines(listing), package)
}

/// Finds the digest column of the first listing line naming `package`.
///
/// The listing is a text of `<hex-digest>  <file-name>` lines.
pub fn lookup_checksum(listing: &str, package: &str) -> (r: Option<String>)
    ensures
        match r {
            Some(d) => spec_checksum_lookup(listing@, package@) == Some(d@),
            None => spec_checksum_lookup(listing@, package@) is None,
        },
    decreases listing@.len(),
{
    proof {
        lemma_find_from(listing@, 0, '\n');
    }
    let len = listing.unicode_len();
    let nl = find_char(listing, 0, '\n');
    let line = listing.substring_char(0, nl);
    let llen = line.unicode_len();
    let sp = find_char(line, 0, ' ');
    proof {
        lemma_find_from(line@, 0, ' ');
        crate::text::lemma_skip_from(line@, sp as int, ' ');
    }
    let ns = skip_char(line, sp, ' ');
    let name = line.substring_char(ns, llen);
    let ghost lines = spec_lines(listing@);
    if nl == len {
        proof {
            assert(line@ =~= listing@);
            assert(lines =~= seq![listing@]);
            assert(lines.drop_first() =~= Seq::<Seq<char>>::empty());
        }
        if str_eq(name, package) {
            let digest = line.substring_char(0, sp);
            assert(spec_checksum_lookup(listing@, package@) == Some(digest@));
            return Some(digest.to_owned());
        }
        proof {
            assert(name@ == spec_line_name(lines[0]));
            assert(spec_lookup_in_lines(Seq::<Seq<char>>::empty(), package@) is None);
        }
        assert(spec_checksum_lookup(listing@, package@) is None);
        return None;
    }
    proof {
        assert(lines =~= seq![line@] + spec_lines(listing@.subrange(nl + 1, listing@.len() as int)));
        assert(lines[0] == line@);
    }
    if str_eq(name, package) {
        let digest = line.substring_char(0, sp);
        assert(spec_checksum_lookup(listing@, package@) == Some(digest@));
        return Some(digest.to_owned());
    }
    let rest = listing.substring_char(nl + 1, len);
    proof {
        assert(lines.drop_first() =~= spec_lines(rest@));
    }
    lookup_checksum(rest, package)
}

/// Checks the digest computed for a downloaded archive against the
/// release's checksum listing.
///
/// Succeeds exactly when the listing names the archive and lists the
/// digest that was computed; the two failures are distinct errors.
pub fn verify_checksum(listing: &str, package: &str, calculated: &str) -> (r: Result<
    (),
    IntegrityError,
>)
    ensures
        match r {
            Ok(()) => spec_checksum_lookup(listing@, package@) == Some(calculated@),
            Err(IntegrityError::NotListed) => spec_checksum_lookup(listing@, package@) is None,
            Err(IntegrityError::DigestMismatch) => (spec_checksum_lookup(listing@, package@)
                matches Some(d) && d != calculated@),
        },
{
    match lookup_checksum(listing, package) {
        None => Err(IntegrityError::NotListed),
        Some(d) => {
            if str_eq(d.as_str(), calculated) {
                Ok(())
            } else {
                Err(IntegrityError::DigestMismatch)
            }
        },
    }
}

/// The lower-case hexadecimal digit for a value below sixteen.
pub open spec fn hex_digit(d: int) -> char
    recommends
        0 <= d < 16,
{
    if d == 0 {
        '0'
    } else if d == 1 {
        '1'
    } else if d == 2 {
        '2'
    } else if d == 3 {
        '3'
    } else if d == 4 {
        '4'
    } else if d == 5 {
        '5'
    } else if d == 6 {
        '6'
    } else if d == 7 {
        '7'
    } else if d == 8 {
        '8'
    } else if d == 9 {
        '9'
    } else if d == 10 {
        'a'
    } else if d == 11 {
        'b'
    } else if d == 12 {
        'c'
    } else if d == 13 {
        'd'
    } else if d == 14 {
        'e'
    } else {
        'f'
    }
}

/// The lower-case hexadecimal rendering of a byte sequence, two digits
/// per byte.
pub open spec fn hex_of(bytes: Seq<u8>) -> Seq<char>
    decreases bytes.len(),
{
    if bytes.len() == 0 {
        Seq::<char>::empty()
    } else {
        hex_of(bytes.drop_last()) + seq![
            hex_digit(bytes.last() as int / 16),
            hex_digit(bytes.last() as int % 16),
        ]
    }
}

/// The one-character string for a hexadecimal digit value.
fn hex_digit_str(d: u8) -> (r: &'static str)
    requires
        d < 16,
    ensures
        r@ =~= seq![hex_digit(d as int)],
{
    proof {
        reveal_strlit("0");
        reveal_strlit("1");
        reveal_strlit("2");
        reveal_strlit("3");
        reveal_strlit("4");
        reveal_strlit("5");
        reveal_strlit("6");
        reveal_strlit("7");
        reveal_strlit("8");
        reveal_strlit("9");
        reveal_strlit("a");
        reveal_strlit("b");
        reveal_strlit("c");
        reveal_strlit("d");
        reveal_strlit("e");
        reveal_strlit("f");
    }
    if d == 0 {
        "0"
    } else if d == 1 {
        "1"
    } else if d == 2 {
        "2"
    } else if d == 3 {
        "3"
    } else if d == 4 {
        "4"
    } else if d == 5 {
        "5"
    } else if d == 6 {
        "6"
    } else if d == 7 {
        "7"
    } else if d == 8 {
        "8"
    } else if d == 9 {
        "9"
    } else if d == 10 {
        "a"
    } else if d == 11 {
        "b"
    } else if d == 12 {
        "c"
    } else if d == 13 {
        "d"
    } else if d == 14 {
        "e"
    } else {
        "f"
    }
}

/// Renders a byte sequence as lower-case hexadecimal, two digits per byte.
pub fn to_hex(bytes: &Vec<u8>) -> (r: String)
    ensures
        r@ == hex_of(bytes@),
{
    let mut r = String::new();
    let mut i: usize = 0;
    proof {
        assert(bytes@.subrange(0, 0) =~= Seq::<u8>::empty());
        assert(r@ =~= hex_of(bytes@.subrange(0, 0)));
    }
    while i < bytes.len()
        invariant
            i <= bytes@.len(),
            r@ == hex_of(bytes@.subrange(0, i as int)),
        decreases bytes@.len() - i,
    {
        let b = bytes[i];
        r.append(hex_digit_str(b / 16));
        r.append(hex_digit_str(b % 16));
        proof {
            assert(bytes@.subrange(0, i + 1).drop_last() =~= bytes@.subrange(0, i as int));
            assert(bytes@.subrange(0, i + 1).last() == bytes@[i as int]);
            assert(r@ =~= hex_of(bytes@.subrange(0, i + 1)));
        }
        i += 1;
    }
    proof {
        assert(bytes@.subrange(0, bytes@.len() as int) =~= bytes@);
    }
    r
}

/// The SHA-256 digest of a byte sequence, as the digest function defines
/// it: a pure function of the bytes alone.
pub uninterp spec fn sha256_of(bytes: Seq<u8>) -> Seq<u8>;

/// Relies on sha2's `Sha256::digest`: the SHA-256 digest of the input
/// bytes, 32 bytes long, depending on the input bytes alone.
#[verifier::external_body]
fn sha256(bytes: &Vec<u8>) -> (r: Vec<u8>)
    ensures
        r@ == sha256_of(bytes@),
        r@.len() == 32,
{
    sha2::Sha256::digest(bytes.as_slice()).to_vec()
}

/// Verifies a downloaded archive against the release's checksum listing.
///
/// Computes the SHA-256 digest of the bytes and succeeds exactly when the
/// listing names the archive with that digest, written as lower-case
/// hexadecimal. Unverified bytes are never installed: the caller unpacks
/// the archive only on `Ok`.
pub fn verify_archive(bytes: &Vec<u8>, listing: &str, package: &str) -> (r: Result<
    (),
    IntegrityError,
>)
    ensures
        match r {
            Ok(()) => spec_checksum_lookup(listing@, package@) == Some(
                hex_of(sha256_of(bytes@)),
            ),
            Err(IntegrityError::NotListed) => spec_checksum_lookup(listing@, package@) is None,
            Err(IntegrityError::DigestMismatch) => (spec_checksum_lookup(listing@, package@)
                matches Some(d) && d != hex_of(sha256_of(bytes@))),
        },
{
    let digest = sha256(bytes);
    let calculated = to_hex(&digest);
    verify_checksum(listing, package, calculated.as_str())
}

} // verus!

use sha2::Digest;
