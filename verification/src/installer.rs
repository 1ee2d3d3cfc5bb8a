//! The release-archive installer's decisions: which archive to fetch
//! for the platform, and what to do with each entry of the archive
//! once its bytes are on hand.
//!
//! Downloading and the file-system writes are plain I/O and live with
//! the caller; decoding the archive is done here through the `zip`
//! crate, and everything decided from the decoded entries — which
//! paths are created as directories, which are written as files, and
//! where the executable ends up — is proved.

use crate::locator::local_binary_chars;
use crate::locator::local_binary_path;
use crate::locator::sep_char;
use crate::Platform;
use vstd::prelude::*;
use vstd::slice::slice_to_vec;
use vstd::string::StrSliceExecFns;

verus! {

/// The release target triple the download is built for.
pub open spec fn target_chars(p: Platform) -> Seq<char> {
    match p {
        Platform::Windows => "x86_64-pc-windows-msvc"@,
        Platform::MacOs => "x86_64-apple-darwin"@,
        Platform::Linux => "x86_64-unknown-linux-gnu"@,
    }
}

/// The release target triple the download is built for.
pub fn release_target(p: Platform) -> (r: String)
    ensures
        r@ == target_chars(p),
{
    match p {
        Platform::Windows => String::from_str("x86_64-pc-windows-msvc"),
        Platform::MacOs => String::from_str("x86_64-apple-darwin"),
        Platform::Linux => String::from_str("x86_64-unknown-linux-gnu"),
    }
}

/// The release archive's download address for a version and platform.
pub open spec fn download_url_chars(version: Seq<char>, p: Platform) -> Seq<char> {
    "https://github.com/rapiz1/rathole/releases/download/"@ + version + "/rathole-"@ + target_chars(
        p,
    ) + ".zip"@
}

/// The release archive's download address for a version and platform.
pub fn download_url(version: &str, p: Platform) -> (r: String)
    ensures
        r@ == download_url_chars(version@, p),
{
    let r = String::from_str("https://github.com/rapiz1/rathole/releases/download/").concat(
        version,
    ).concat("/rathole-").concat(release_target(p).as_str()).concat(".zip");
    proof {
        assert(r@ =~= download_url_chars(version@, p));
    }
    r
}

/// The transient on-disk name the downloaded archive is saved under
/// before extraction.
pub fn archive_file_name() -> (r: String)
    ensures
        r@ == "rathole.zip"@,
{
    String::from_str("rathole.zip")
}

/// What a zip archive's bytes decode to. A well-formed archive
/// decodes to its entries — each one's stored name and decompressed
/// contents, in archive order; a malformed one fails, with the
/// decoder's error text. Decoding an in-memory archive is a pure
/// function of the bytes; this name stands for its result.
pub uninterp spec fn zip_decode_of(archive: Seq<u8>) -> Result<
    Seq<(Seq<char>, Seq<u8>)>,
    Seq<char>,
>;

/// Relies on the `zip` crate, over an in-memory cursor:
/// `ZipArchive::new` decodes the archive's central directory, `len`
/// and `by_index` walk the entries, and `name` and a full read yield
/// each entry's stored name and decompressed bytes. Whether the bytes
/// decode, the entries they decode to, and the error text of a failed
/// decode are all functions of the archive bytes alone, spoken of
/// through the one name above.
#[verifier::external_body]
fn unzip(archive: &Vec<u8>) -> (r: Result<Vec<(String, Vec<u8>)>, String>)
    ensures
        r is Ok <==> zip_decode_of(archive@) is Ok,
        r matches Ok(entries) ==> entries.deep_view() == zip_decode_of(archive@)->Ok_0,
        r matches Err(e) ==> e@ == zip_decode_of(archive@)->Err_0,
{
    let cursor = std::io::Cursor::new(archive.as_slice());
    let mut ar = zip::ZipArchive::new(cursor).map_err(|e| e.to_string())?;
    let mut out: Vec<(String, Vec<u8>)> = Vec::new();
    for i in 0..ar.len() {
        let mut f = ar.by_index(i).map_err(|e| e.to_string())?;
        let name = f.name().to_string();
        let mut data: Vec<u8> = Vec::new();
        std::io::Read::read_to_end(&mut f, &mut data).map_err(|e| e.to_string())?;
        out.push((name, data));
    }
    Ok(out)
}

/// An archive entry whose stored name ends in a slash carries no file
/// contents: it only names a directory.
pub open spec fn is_dir_name(name: Seq<char>) -> bool {
    name.len() > 0 && name[name.len() - 1] == '/'
}

/// Where an entry lands on disk: inside the install directory, under
/// its stored name.
pub open spec fn dest_chars(dir: Seq<char>, p: Platform, name: Seq<char>) -> Seq<char> {
    dir + seq![sep_char(p)] + name
}

/// One file-system action of an extraction: create a directory, or
/// write a file with the given contents (creating its parents first).
pub enum ExtractStep {
    MakeDir(String),
    WriteFile(String, Vec<u8>),
}

/// What the steps planned for a sequence of decoded entries must say:
/// one step per entry, in order; a directory-only name becomes its
/// directory, every other entry becomes a file holding exactly the
/// entry's bytes, each at its place under the install directory.
pub open spec fn steps_match_entries(
    steps: Seq<ExtractStep>,
    dir: Seq<char>,
    p: Platform,
    entries: Seq<(Seq<char>, Seq<u8>)>,
) -> bool {
    &&& steps.len() == entries.len()
    &&& forall|i: int|
        0 <= i < entries.len() ==> if is_dir_name(entries[i].0) {
            steps[i] matches ExtractStep::MakeDir(d) && d@ == dest_chars(dir, p, entries[i].0)
        } else {
            steps[i] matches ExtractStep::WriteFile(d, bytes) && d@ == dest_chars(
                dir,
                p,
                entries[i].0,
            ) && bytes@ == entries[i].1
        }
}

fn dest_path(install_dir: &str, p: Platform, name: &str) -> (r: String)
    ensures
        r@ == dest_chars(install_dir@, p, name@),
{
    proof {
        reveal_strlit("/");
        reveal_strlit("\\");
    }
    let sep: &str = match p {
        Platform::Windows => "\\",
        _ => "/",
    };
    let r = String::from_str(install_dir).concat(sep).concat(name);
    proof {
        assert("/"@ =~= seq!['/']);
        assert("\\"@ =~= seq!['\\']);
        assert(r@ =~= dest_chars(install_dir@, p, name@));
    }
    r
}

/// The file-system actions that extract the decoded entries into the
/// install directory.
pub fn plan_extraction(install_dir: &str, p: Platform, entries: &Vec<(String, Vec<u8>)>) -> (steps:
    Vec<ExtractStep>)
    ensures
        steps_match_entries(steps@, install_dir@, p, entries.deep_view()),
{
    let mut steps: Vec<ExtractStep> = Vec::new();
    let mut i: usize = 0;
    while i < entries.len()
        invariant
            i <= entries@.len(),
            steps@.len() == i,
            forall|k: int|
                0 <= k < i ==> if is_dir_name(entries@[k].0@) {
                    steps@[k] matches ExtractStep::MakeDir(d) && d@ == dest_chars(
                        install_dir@,
                        p,
                        entries@[k].0@,
                    )
                } else {
                    steps@[k] matches ExtractStep::WriteFile(d, bytes) && d@ == dest_chars(
                        install_dir@,
                        p,
                        entries@[k].0@,
                    ) && bytes@ == entries@[k].1@
                },
        decreases entries@.len() - i,
    {
        let name: &String = &entries[i].0;
        let n = name.as_str().unicode_len();
        let dest = dest_path(install_dir, p, name.as_str());
        if n > 0 && name.as_str().get_char(n - 1) == '/' {
            steps.push(ExtractStep::MakeDir(dest));
        } else {
            let data = slice_to_vec(entries[i].1.as_slice());
            steps.push(ExtractStep::WriteFile(dest, data));
        }
        i = i + 1;
    }
    proof {
        assert forall|k: int| 0 <= k < entries.deep_view().len() implies entries.deep_view()[k]
            == (entries@[k].0@, entries@[k].1@) by {
        }
    }
    steps
}

/// A whole install, planned from the downloaded archive's bytes. It
/// succeeds exactly when the bytes decode as a zip archive, and then
/// yields the decoded entries' extraction steps and the path the
/// installed executable is found at afterwards; an archive-format
/// failure aborts the whole plan and surfaces the decoder's error
/// text verbatim.
pub fn plan_install(install_dir: &str, p: Platform, archive: &Vec<u8>) -> (r: Result<
    (Vec<ExtractStep>, String),
    String,
>)
    ensures
        r is Ok <==> zip_decode_of(archive@) is Ok,
        r matches Ok(plan) ==> steps_match_entries(
            plan.0@,
            install_dir@,
            p,
            zip_decode_of(archive@)->Ok_0,
        ) && plan.1@ == local_binary_chars(install_dir@, p),
        r matches Err(e) ==> e@ == zip_decode_of(archive@)->Err_0,
{
    match unzip(archive) {
        Ok(entries) => {
            let steps = plan_extraction(install_dir, p, &entries);
            Ok((steps, local_binary_path(install_dir, p)))
        },
        Err(e) => Err(e),
    }
}

} // verus!
