//! Helper-tool archive handling: decoding a downloaded archive into its entry
//! list through the archive crates, and the verified selection of the tool
//! binaries to install from it. Writing the selected files to disk is the
//! caller's part.

use vstd::prelude::*;
use std::io::Read;
use crate::parse::{first_from, lemma_first_from, spec_last_char};
use crate::session::clone_str;
use crate::strutil::{matches_at, str_eq};

verus! {

/// One file of an archive: its stored path and its contents.
#[derive(Debug)]
pub struct ArchiveEntry {
    pub name: String,
    pub data: Vec<u8>,
}

/// Views of a list of archive entries.
pub open spec fn entries_view(v: Seq<ArchiveEntry>) -> Seq<(Seq<char>, Seq<u8>)> {
    v.map_values(|e: ArchiveEntry| (e.name@, e.data@))
}

/// What gzip decompression yields on given bytes, when they decode.
pub uninterp spec fn gunzip_of(data: Seq<u8>) -> Option<Seq<u8>>;

/// What xz decompression yields on given bytes, when they decode.
pub uninterp spec fn unxz_of(data: Seq<u8>) -> Option<Seq<u8>>;

/// The entry list a tar archive holds, when the bytes parse as one:
/// each entry's stored path and contents, in archive order.
pub uninterp spec fn tar_listing(data: Seq<u8>) -> Option<Seq<(Seq<char>, Seq<u8>)>>;

/// The entry list a zip archive holds, when the bytes parse as one:
/// each entry's stored name and contents, in archive order.
pub uninterp spec fn zip_listing(data: Seq<u8>) -> Option<Seq<(Seq<char>, Seq<u8>)>>;

/// Relies on flate2's gzip reader: decompression is a function of the input
/// bytes alone, and fails exactly on bytes that do not decode.
#[verifier::external_body]
fn gunzip(data: &[u8]) -> (r: Result<Vec<u8>, String>)
    ensures
        match r {
            Ok(v) => gunzip_of(data@) == Some(v@),
            Err(_) => gunzip_of(data@) is None,
        },
{
    let mut d = flate2::read::GzDecoder::new(data);
    let mut out = Vec::new();
    match d.read_to_end(&mut out) {
        Ok(_) => Ok(out),
        Err(e) => Err(e.to_string()),
    }
}

/// Relies on xz2's xz reader: decompression is a function of the input bytes
/// alone, and fails exactly on bytes that do not decode.
#[verifier::external_body]
fn unxz(data: &[u8]) -> (r: Result<Vec<u8>, String>)
    ensures
        match r {
            Ok(v) => unxz_of(data@) == Some(v@),
            Err(_) => unxz_of(data@) is None,
        },
{
    let mut d = xz2::read::XzDecoder::new(data);
    let mut out = Vec::new();
    match d.read_to_end(&mut out) {
        Ok(_) => Ok(out),
        Err(e) => Err(e.to_string()),
    }
}

/// Relies on tar's archive reader: the entry list is a function of the input
/// bytes alone, and reading fails exactly on bytes that do not parse.
#[verifier::external_body]
fn tar_entries(data: &[u8]) -> (r: Result<Vec<ArchiveEntry>, String>)
    ensures
        match r {
            Ok(v) => tar_listing(data@) == Some(entries_view(v@)),
            Err(_) => tar_listing(data@) is None,
        },
{
    let mut ar = tar::Archive::new(data);
    let entries = match ar.entries() { Ok(e) => e, Err(e) => return Err(e.to_string()) };
    let mut out = Vec::new();
    for ent in entries {
        let mut ent = match ent { Ok(e) => e, Err(e) => return Err(e.to_string()) };
        let name = match ent.path() { Ok(p) => p.to_string_lossy().into_owned(), Err(e) => return Err(e.to_string()) };
        let mut data = Vec::new();
        if let Err(e) = ent.read_to_end(&mut data) { return Err(e.to_string()); }
        out.push(ArchiveEntry { name, data });
    }
    Ok(out)
}

/// Relies on zip's archive reader: the entry list is a function of the input
/// bytes alone, and reading fails exactly on bytes that do not parse.
#[verifier::external_body]
fn zip_entries(data: &[u8]) -> (r: Result<Vec<ArchiveEntry>, String>)
    ensures
        match r {
            Ok(v) => zip_listing(data@) == Some(entries_view(v@)),
            Err(_) => zip_listing(data@) is None,
        },
{
    let mut ar = match zip::ZipArchive::new(std::io::Cursor::new(data)) { Ok(a) => a, Err(e) => return Err(e.to_string()) };
    let mut out = Vec::new();
    for i in 0..ar.len() {
        let mut f = match ar.by_index(i) { Ok(f) => f, Err(e) => return Err(e.to_string()) };
        let name = f.name().to_string();
        let mut data = Vec::new();
        if let Err(e) = f.read_to_end(&mut data) { return Err(e.to_string()); }
        out.push(ArchiveEntry { name, data });
    }
    Ok(out)
}

/// The last path segment of a stored name: what stands after its last
/// separator, or the whole name without one.
pub open spec fn spec_file_name(name: Seq<char>) -> Seq<char> {
    match spec_last_char(name, '/') {
        Some(j) => name.subrange(j + 1, name.len() as int),
        None => name,
    }
}

/// `s` ends with `suf`.
pub open spec fn spec_ends_with(s: Seq<char>, suf: Seq<char>) -> bool {
    s.len() >= suf.len() && s.subrange(s.len() - suf.len(), s.len() as int) == suf
}

/// Whether `s` ends with `suf`.
pub fn ends_with(s: &str, suf: &str) -> (r: bool)
    ensures
        r == spec_ends_with(s@, suf@),
{
    let slen = s.unicode_len();
    let flen = suf.unicode_len();
    if flen > slen {
        false
    } else {
        matches_at(s, slen, suf, slen - flen)
    }
}

/// The last path segment of a stored name.
pub fn file_name_of(name: &str) -> (r: String)
    ensures
        r@ == spec_file_name(name@),
{
    let slen = name.unicode_len();
    match crate::parse::rfind_char(name, slen, '/') {
        Some(j) => {
            proof {
                crate::parse::lemma_last_char(name@, '/');
            }
            String::from_str(name.substring_char(j + 1, slen))
        },
        None => String::from_str(name),
    }
}

/// A tar entry to install: its last path segment is the wanted binary or the
/// probing companion.
pub open spec fn tar_wanted(n: Seq<char>, target: Seq<char>) -> bool {
    spec_file_name(n) == target || spec_file_name(n) == "ffprobe"@
}

/// The tar entries to install, in archive order, each renamed to its last
/// path segment.
pub open spec fn select_tools(
    es: Seq<(Seq<char>, Seq<u8>)>,
    target: Seq<char>,
) -> Seq<(Seq<char>, Seq<u8>)>
    decreases es.len(),
{
    if es.len() == 0 {
        Seq::empty()
    } else {
        let rest = select_tools(es.drop_last(), target);
        if tar_wanted(es.last().0, target) {
            rest.push((spec_file_name(es.last().0), es.last().1))
        } else {
            rest
        }
    }
}

/// Copies a byte vector.
fn clone_bytes(v: &Vec<u8>) -> (r: Vec<u8>)
    ensures
        r@ == v@,
{
    let mut out: Vec<u8> = Vec::new();
    let mut i: usize = 0;
    while i < v.len()
        invariant
            i <= v@.len(),
            out@ == v@.subrange(0, i as int),
        decreases v@.len() - i,
    {
        out.push(v[i]);
        proof {
            assert(out@ =~= v@.subrange(0, i + 1));
        }
        i += 1;
    }
    proof {
        assert(out@ =~= v@);
    }
    out
}

/// Picks the tool entries out of a tar listing.
fn select_tool_entries(entries: &Vec<ArchiveEntry>, target: &str) -> (r: Vec<ArchiveEntry>)
    ensures
        entries_view(r@) == select_tools(entries_view(entries@), target@),
{
    let ghost full = entries_view(entries@);
    let mut out: Vec<ArchiveEntry> = Vec::new();
    let mut i: usize = 0;
    while i < entries.len()
        invariant
            full == entries_view(entries@),
            i <= entries@.len(),
            full.len() == entries@.len(),
            entries_view(out@) == select_tools(full.subrange(0, i as int), target@),
        decreases entries@.len() - i,
    {
        let e = &entries[i];
        let fname = file_name_of(e.name.as_str());
        proof {
            assert(full.subrange(0, i + 1).drop_last() =~= full.subrange(0, i as int));
            assert(full.subrange(0, i + 1).last() == full[i as int]);
            assert(full[i as int] == (entries@[i as int].name@, entries@[i as int].data@));
        }
        if str_eq(fname.as_str(), target) || str_eq(fname.as_str(), "ffprobe") {
            out.push(
                ArchiveEntry { name: fname, data: clone_bytes(&e.data) },
            );
            proof {
                assert(entries_view(out@) =~= select_tools(
                    full.subrange(0, i + 1),
                    target@,
                ));
            }
        } else {
            proof {
                assert(entries_view(out@) =~= select_tools(
                    full.subrange(0, i + 1),
                    target@,
                ));
            }
        }
        i += 1;
    }
    proof {
        assert(full.subrange(0, entries@.len() as int) =~= full);
    }
    out
}

/// Decodes a gzip-compressed tar archive held in memory and picks the tool
/// binaries out of it: the entries whose last path segment is the wanted
/// binary or the probing companion, renamed to that segment, in archive
/// order. Fails exactly when the bytes do not decode or do not parse.
pub fn extract_tar_gz(data: &[u8], target_binary: &str) -> (r: Result<
    Vec<ArchiveEntry>,
    String,
>)
    ensures
        match r {
            Ok(files) => {
                &&& gunzip_of(data@) matches Some(tarb)
                &&& tar_listing(tarb) matches Some(es)
                &&& entries_view(files@) == select_tools(es, target_binary@)
            },
            Err(_) => gunzip_of(data@) is None || (gunzip_of(data@) matches Some(tarb)
                && tar_listing(tarb) is None),
        },
{
    let tar_bytes = match gunzip(data) {
        Ok(v) => v,
        Err(e) => {
            return Err(e);
        },
    };
    let entries = match tar_entries(tar_bytes.as_slice()) {
        Ok(v) => v,
        Err(e) => {
            return Err(e);
        },
    };
    Ok(select_tool_entries(&entries, target_binary))
}

/// Decodes an xz-compressed tar archive held in memory and picks the tool
/// binaries out of it, as `extract_tar_gz` does.
pub fn extract_tar_xz(data: &[u8], target_binary: &str) -> (r: Result<
    Vec<ArchiveEntry>,
    String,
>)
    ensures
        match r {
            Ok(files) => {
                &&& unxz_of(data@) matches Some(tarb)
                &&& tar_listing(tarb) matches Some(es)
                &&& entries_view(files@) == select_tools(es, target_binary@)
            },
            Err(_) => unxz_of(data@) is None || (unxz_of(data@) matches Some(tarb)
                && tar_listing(tarb) is None),
        },
{
    let tar_bytes = match unxz(data) {
        Ok(v) => v,
        Err(e) => {
            return Err(e);
        },
    };
    let entries = match tar_entries(tar_bytes.as_slice()) {
        Ok(v) => v,
        Err(e) => {
            return Err(e);
        },
    };
    Ok(select_tool_entries(&entries, target_binary))
}

/// A zip entry to install: its stored name ends with the wanted binary or
/// the probing companion.
pub open spec fn zip_wanted(n: Seq<char>, target: Seq<char>) -> bool {
    spec_ends_with(n, target) || spec_ends_with(n, "ffprobe"@) || spec_ends_with(
        n,
        "ffprobe.exe"@,
    )
}

/// The zip entries to install, in archive order, each renamed to its last
/// path segment.
pub open spec fn select_zip(
    es: Seq<(Seq<char>, Seq<u8>)>,
    target: Seq<char>,
) -> Seq<(Seq<char>, Seq<u8>)>
    decreases es.len(),
{
    if es.len() == 0 {
        Seq::empty()
    } else {
        let rest = select_zip(es.drop_last(), target);
        if zip_wanted(es.last().0, target) {
            rest.push((spec_file_name(es.last().0), es.last().1))
        } else {
            rest
        }
    }
}

/// Every entry to install carries a usable last path segment.
pub open spec fn zip_names_valid(es: Seq<(Seq<char>, Seq<u8>)>, target: Seq<char>) -> bool {
    forall|i: int| 0 <= i < es.len() && zip_wanted(#[trigger] es[i].0, target)
        ==> spec_file_name(es[i].0).len() > 0
}

/// Decodes a zip archive held in memory and picks the tool binaries out of
/// it: the entries whose stored name ends with the wanted binary or the
/// probing companion, renamed to their last path segment, in archive order.
/// Fails exactly when the bytes do not parse, or when a picked entry's name
/// has no usable last segment.
pub fn extract_zip(data: &[u8], target_binary: &str) -> (r: Result<
    Vec<ArchiveEntry>,
    String,
>)
    ensures
        match r {
            Ok(files) => {
                &&& zip_listing(data@) matches Some(es)
                &&& zip_names_valid(es, target_binary@)
                &&& entries_view(files@) == select_zip(es, target_binary@)
            },
            Err(_) => zip_listing(data@) is None || (zip_listing(data@) matches Some(es)
                && !zip_names_valid(es, target_binary@)),
        },
{
    let entries = match zip_entries(data) {
        Ok(v) => v,
        Err(e) => {
            return Err(e);
        },
    };
    let ghost full = entries_view(entries@);
    let mut out: Vec<ArchiveEntry> = Vec::new();
    let mut i: usize = 0;
    while i < entries.len()
        invariant
            zip_listing(data@) == Some(full),
            full == entries_view(entries@),
            i <= entries@.len(),
            full.len() == entries@.len(),
            entries_view(out@) == select_zip(full.subrange(0, i as int), target_binary@),
            forall|k: int| 0 <= k < i && zip_wanted(#[trigger] full[k].0, target_binary@)
                ==> spec_file_name(full[k].0).len() > 0,
        decreases entries@.len() - i,
    {
        let e = &entries[i];
        proof {
            assert(full.subrange(0, i + 1).drop_last() =~= full.subrange(0, i as int));
            assert(full.subrange(0, i + 1).last() == full[i as int]);
            assert(full[i as int] == (entries@[i as int].name@, entries@[i as int].data@));
        }
        let wanted = ends_with(e.name.as_str(), target_binary) || ends_with(
            e.name.as_str(),
            "ffprobe",
        ) || ends_with(e.name.as_str(), "ffprobe.exe");
        if wanted {
            let fname = file_name_of(e.name.as_str());
            if fname.unicode_len() == 0 {
                proof {
                    assert(zip_wanted(full[i as int].0, target_binary@));
                    assert(spec_file_name(full[i as int].0).len() == 0);
                    assert(!zip_names_valid(full, target_binary@));
                }
                return Err(String::from_str("Invalid file name"));
            }
            out.push(ArchiveEntry { name: fname, data: clone_bytes(&e.data) });
            proof {
                assert(entries_view(out@) =~= select_zip(
                    full.subrange(0, i + 1),
                    target_binary@,
                ));
            }
        } else {
            proof {
                assert(entries_view(out@) =~= select_zip(
                    full.subrange(0, i + 1),
                    target_binary@,
                ));
            }
        }
        i += 1;
    }
    proof {
        assert(full.subrange(0, entries@.len() as int) =~= full);
    }
    Ok(out)
}

/// A zip entry holding the script runtime's binary.
pub open spec fn bun_wanted(n: Seq<char>) -> bool {
    (spec_ends_with(n, "/bun"@) || n == "bun"@) && !spec_ends_with(n, ".dSYM/bun"@)
}

/// The runtime-binary matcher as a predicate on positions of an entry list.
pub open spec fn bun_pred(es: Seq<(Seq<char>, Seq<u8>)>) -> spec_fn(int) -> bool {
    |i: int| bun_wanted(es[i].0)
}

/// Position of the first runtime binary of an entry list, if any.
pub open spec fn spec_first_bun(es: Seq<(Seq<char>, Seq<u8>)>) -> Option<int> {
    first_from(es.len() as int, bun_pred(es), 0)
}

/// What `spec_first_bun` returns: the least runtime-binary entry, if any.
pub proof fn lemma_first_bun(es: Seq<(Seq<char>, Seq<u8>)>)
    ensures
        match spec_first_bun(es) {
            Some(j) => 0 <= j < es.len() && bun_wanted(es[j].0) && forall|k: int|
                0 <= k < j ==> !bun_wanted(es[k].0),
            None => forall|k: int| 0 <= k < es.len() ==> !bun_wanted(es[k].0),
        },
{
    lemma_first_from(es.len() as int, bun_pred(es), 0);
    match spec_first_bun(es) {
        Some(j) => {
            assert(bun_pred(es)(j));
            assert forall|k: int| 0 <= k < j implies !bun_wanted(es[k].0) by {
                assert(!bun_pred(es)(k));
            }
        },
        None => {
            assert forall|k: int| 0 <= k < es.len() implies !bun_wanted(es[k].0) by {
                assert(!bun_pred(es)(k));
            }
        },
    }
}

/// Decodes a zip archive held in memory and picks the script runtime's
/// binary out of it: the first entry stored as the bare binary, skipping
/// debug-symbol copies, renamed to the wanted name. Fails exactly when the
/// bytes do not parse or no such entry stands in the archive.
pub fn extract_bun_from_zip(data: &[u8], target_binary: &str) -> (r: Result<
    Vec<ArchiveEntry>,
    String,
>)
    ensures
        match r {
            Ok(files) => {
                &&& zip_listing(data@) matches Some(es)
                &&& spec_first_bun(es) matches Some(j)
                &&& files@.len() == 1
                &&& files@[0].name@ == target_binary@
                &&& files@[0].data@ == es[j].1
            },
            Err(_) => zip_listing(data@) is None || (zip_listing(data@) matches Some(es)
                && spec_first_bun(es) is None),
        },
{
    let entries = match zip_entries(data) {
        Ok(v) => v,
        Err(e) => {
            return Err(e);
        },
    };
    let ghost full = entries_view(entries@);
    let mut i: usize = 0;
    while i < entries.len()
        invariant
            zip_listing(data@) == Some(full),
            full == entries_view(entries@),
            i <= entries@.len(),
            full.len() == entries@.len(),
            forall|k: int| 0 <= k < i ==> !bun_wanted(#[trigger] full[k].0),
        decreases entries@.len() - i,
    {
        let e = &entries[i];
        proof {
            assert(full[i as int] == (entries@[i as int].name@, entries@[i as int].data@));
        }
        let is_bun = (ends_with(e.name.as_str(), "/bun") || str_eq(e.name.as_str(), "bun"))
            && !ends_with(e.name.as_str(), ".dSYM/bun");
        if is_bun {
            proof {
                lemma_first_bun(full);
                if spec_first_bun(full) is None {
                    assert(!bun_wanted(full[i as int].0));
                }
                let j = spec_first_bun(full)->0;
                if j < i {
                    assert(!bun_wanted(full[j].0));
                }
                if j > i {
                    assert(!bun_wanted(full[i as int].0));
                }
            }
            let mut files: Vec<ArchiveEntry> = Vec::new();
            files.push(
                ArchiveEntry {
                    name: String::from_str(target_binary),
                    data: clone_bytes(&e.data),
                },
            );
            return Ok(files);
        }
        i += 1;
    }
    proof {
        lemma_first_bun(full);
        if spec_first_bun(full) is Some {
            let j = spec_first_bun(full)->0;
            assert(!bun_wanted(full[j].0));
        }
    }
    Err(String::from_str("Bun binary not found in archive"))
}

} // verus!
