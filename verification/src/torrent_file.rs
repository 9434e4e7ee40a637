//! Reading `.torrent` files for the add dialog: each file is base64-encoded
//! for `torrent-add` and parsed for the list of files it holds.

use std::collections::VecDeque;

use base64::Engine as _;
use vstd::prelude::*;

use crate::add_dialog::{FileReadResult, TorrentFileInfo};
use crate::nesting::{nesting_within, nesting_within_limit, MAX_NESTING};

verus! {

/// One file of a parsed `.torrent`.
#[derive(Debug, Clone)]
pub struct ParsedFile {
    /// The path within the torrent, as text.
    pub path: String,
    /// The length in bytes, as the metainfo states it.
    pub length: i64,
}

/// What the add dialog reads of a parsed `.torrent`.
#[derive(Debug, Clone)]
pub struct ParsedTorrent {
    /// The file name (single-file torrent) or the root directory's name.
    pub name: String,
    /// The total length in bytes.
    pub length: i64,
    /// The files of a multi-file torrent; `None` for a single file.
    pub files: Option<Vec<ParsedFile>>,
}

/// The character of the standard base64 alphabet (RFC 4648) for the
/// 6-bit value `v`.
pub open spec fn base64_char(v: int) -> char {
    if v < 26 {
        (65 + v) as char
    } else if v < 52 {
        (97 + v - 26) as char
    } else if v < 62 {
        (48 + v - 52) as char
    } else if v == 62 {
        '+'
    } else {
        '/'
    }
}

/// The four characters for the 24-bit group `n`, the last `pad` of them
/// replaced by `=`.
pub open spec fn base64_group(n: int, pad: int) -> Seq<char> {
    seq![
        base64_char(n / 262144 % 64),
        base64_char(n / 4096 % 64),
        if pad >= 2 { '=' } else { base64_char(n / 64 % 64) },
        if pad >= 1 { '=' } else { base64_char(n % 64) },
    ]
}

/// The standard base64 encoding of `bytes`, with `=` padding: each group of
/// three bytes, read as a 24-bit big-endian number, gives four characters
/// of six bits each; a last group of one or two bytes is filled with zero
/// bits and padded to four characters.
pub open spec fn base64_standard(bytes: Seq<u8>) -> Seq<char>
    decreases bytes.len(),
{
    if bytes.len() == 0 {
        Seq::empty()
    } else if bytes.len() == 1 {
        base64_group(bytes[0] as int * 65536, 2)
    } else if bytes.len() == 2 {
        base64_group(bytes[0] as int * 65536 + bytes[1] as int * 256, 1)
    } else {
        base64_group(bytes[0] as int * 65536 + bytes[1] as int * 256 + bytes[2] as int, 0)
            + base64_standard(bytes.skip(3))
    }
}

/// The length of the padded base64 encoding of `n` bytes.
pub open spec fn base64_len(n: nat) -> nat {
    4 * ((n + 2) / 3)
}

/// The encoding has four characters for each started group of three bytes.
pub proof fn lemma_base64_len(bytes: Seq<u8>)
    ensures
        base64_standard(bytes).len() == base64_len(bytes.len()),
    decreases bytes.len(),
{
    if bytes.len() >= 3 {
        lemma_base64_len(bytes.skip(3));
    }
}

/// `base64::prelude::BASE64_STANDARD.encode(bytes)`: the standard alphabet
/// with padding. The crate panics when the encoded length overflows
/// `usize`, which `requires` rules out.
#[verifier::external_body]
fn base64_encode(bytes: &[u8]) -> (s: String)
    requires
        base64_len(bytes@.len()) <= usize::MAX,
    ensures
        s@ == base64_standard(bytes@),
{
    base64::prelude::BASE64_STANDARD.encode(bytes)
}

/// What `lava_torrent::torrent::v1::Torrent::read_from_bytes` makes of
/// `bytes` on a machine whose `usize` has `word_bits` bits: the text of its
/// error, or the torrent's name, its total length and, for a multi-file
/// torrent, the length of each file in order.
pub uninterp spec fn torrent_parse(bytes: Seq<u8>, word_bits: u32) -> Result<
    (Seq<char>, i64, Option<Seq<i64>>),
    Seq<char>,
>;

/// The text of each file's path in a multi-file torrent parsed from
/// `bytes`, in order, on a platform whose path separator is `separator`:
/// `lava_torrent` pushes the path's components onto a `PathBuf` by the
/// platform's rules and std's `Path::to_string_lossy` renders it.
pub uninterp spec fn torrent_paths(bytes: Seq<u8>, separator: char) -> Seq<Seq<char>>;

/// `files` holds a file for each length of `lengths`, with that length; or
/// none where `lengths` is `None`.
pub open spec fn file_lengths_are(files: Option<Vec<ParsedFile>>, lengths: Option<Seq<i64>>) -> bool {
    match (files, lengths) {
        (None, None) => true,
        (Some(fs), Some(ls)) => fs@.len() == ls.len() && forall|i: int|
            0 <= i < ls.len() ==> #[trigger] fs@[i].length == ls[i],
        _ => false,
    }
}

/// Where there are `files`, their paths are `paths`, in order.
pub open spec fn file_paths_are(files: Option<Vec<ParsedFile>>, paths: Seq<Seq<char>>) -> bool {
    match files {
        Some(fs) => fs@.len() == paths.len() && forall|i: int|
            0 <= i < paths.len() ==> #[trigger] fs@[i].path@ == paths[i],
        None => true,
    }
}

/// `r` is what the parser gave for the parse `t`: its error text where `t`
/// is an error, else a torrent with `t`'s name, length and file lengths.
pub open spec fn parse_agrees(
    r: Result<(ParsedTorrent, char), String>,
    t: Result<(Seq<char>, i64, Option<Seq<i64>>), Seq<char>>,
) -> bool {
    match t {
        Err(m) => r matches Err(e) && e@ == m,
        Ok(t) => r matches Ok(p) && p.0.name@ == t.0 && p.0.length == t.1 && file_lengths_are(
            p.0.files,
            t.2,
        ),
    }
}

/// `lava_torrent::torrent::v1::Torrent::read_from_bytes(bytes)`, with the
/// torrent's name, length and files kept and the error turned into its
/// message; a parsed torrent comes with the platform's path separator,
/// `std::path::MAIN_SEPARATOR`. Whether it succeeds, the error text, the
/// name, the total length and each file's length depend on the bytes and on
/// the width of `usize` (the crate converts lengths to `usize`), and are
/// named by `torrent_parse`. The paths of the files depend on the bytes and
/// on the platform's path rules, which the separator tells apart, and are
/// named by `torrent_paths`. The crate's bencode parser recurses once per
/// nested list or dictionary; `requires` bounds that nesting so that the
/// parse stays within the stack.
#[verifier::external_body]
fn parse_torrent(bytes: &[u8]) -> (r: Result<(ParsedTorrent, char), String>)
    requires
        nesting_within(bytes@, MAX_NESTING as nat),
    ensures
        parse_agrees(r, torrent_parse(bytes@, usize::BITS)),
        r matches Ok(p) ==> file_paths_are(p.0.files, torrent_paths(bytes@, p.1)),
{
    match lava_torrent::torrent::v1::Torrent::read_from_bytes(bytes) {
        Ok(t) => {
            let files = t.files.map(
                |fs| fs.into_iter().map(
                    |f| ParsedFile { path: f.path.to_string_lossy().into_owned(), length: f.length },
                ).collect(),
            );
            let parsed = ParsedTorrent { name: t.name, length: t.length, files };
            Ok((parsed, std::path::MAIN_SEPARATOR))
        },
        Err(e) => Err(e.to_string()),
    }
}

/// The message for bytes that nest deeper than `MAX_NESTING`.
pub open spec fn too_deep_message() -> Seq<char> {
    "malformed bencode: lists and dictionaries nest too deeply."@
}

/// `bytes` can be read as a torrent: they nest no deeper than
/// `MAX_NESTING` and the parser accepts them.
pub open spec fn readable_torrent(bytes: Seq<u8>) -> bool {
    nesting_within(bytes, MAX_NESTING as nat) && torrent_parse(bytes, usize::BITS) is Ok
}

/// Why `bytes` cannot be read as a torrent: too deep a nesting, or the
/// parser's error.
pub open spec fn unreadable_message(bytes: Seq<u8>) -> Seq<char> {
    if !nesting_within(bytes, MAX_NESTING as nat) {
        too_deep_message()
    } else {
        torrent_parse(bytes, usize::BITS)->Err_0
    }
}

/// `files` lists the files of the parse `t`: one per file of a multi-file
/// torrent, in order and with its length; or the torrent's name and total
/// length for a single file. Lengths are taken as `u64`.
pub open spec fn lists_parsed_files(
    files: Seq<TorrentFileInfo>,
    t: (Seq<char>, i64, Option<Seq<i64>>),
) -> bool {
    match t.2 {
        Some(ls) => files.len() == ls.len() && forall|i: int|
            0 <= i < ls.len() ==> #[trigger] files[i].size_bytes == ls[i] as u64,
        None => files.len() == 1 && files[0].path@ == t.0 && files[0].size_bytes == t.1 as u64,
    }
}

/// Each of `files` has the path of `paths` at its place.
pub open spec fn lists_paths(files: Seq<TorrentFileInfo>, paths: Seq<Seq<char>>) -> bool {
    files.len() == paths.len() && forall|i: int| 0 <= i < paths.len() ==> #[trigger] files[i].path@ == paths[i]
}

/// `f` is the add-dialog entry read from `bytes`: their base64 encoding and
/// the files of their parse, a multi-file torrent's with the paths of some
/// platform's rules (those of the one it runs on).
pub open spec fn read_from(f: FileReadResult, bytes: Seq<u8>) -> bool {
    let t = torrent_parse(bytes, usize::BITS)->Ok_0;
    &&& f.metainfo_b64@ == base64_standard(bytes)
    &&& lists_parsed_files(f.files@, t)
    &&& t.2 is Some ==> exists|sep: char| lists_paths(f.files@, #[trigger] torrent_paths(bytes, sep))
}

/// `files` lists the files of `p`: each file of a multi-file torrent with
/// its path and length, or the torrent's name and total length for a
/// single-file one. Lengths are taken as `u64`.
pub open spec fn files_of(files: Seq<TorrentFileInfo>, p: ParsedTorrent) -> bool {
    match p.files {
        Some(fs) => {
            &&& files.len() == fs@.len()
            &&& forall|i: int|
                0 <= i < files.len() ==> #[trigger] files[i].path == fs@[i].path
                    && files[i].size_bytes == fs@[i].length as u64
        },
        None => {
            &&& files.len() == 1
            &&& files[0].path == p.name
            &&& files[0].size_bytes == p.length as u64
        },
    }
}

/// The add-dialog entry for a parsed torrent and its base64 metainfo.
pub fn file_read_result(metainfo_b64: String, parsed: ParsedTorrent) -> (r: FileReadResult)
    ensures
        r.metainfo_b64 == metainfo_b64,
        files_of(r.files@, parsed),
{
    let ghost p = parsed;
    let mut files: Vec<TorrentFileInfo> = Vec::new();
    match parsed.files {
        Some(fs) => {
            let mut i: usize = 0;
            while i < fs.len()
                invariant
                    p.files == Some(fs),
                    i <= fs@.len(),
                    files@.len() == i,
                    forall|j: int|
                        0 <= j < i ==> #[trigger] files@[j].path == fs@[j].path
                            && files@[j].size_bytes == fs@[j].length as u64,
                decreases fs@.len() - i,
            {
                files.push(
                    TorrentFileInfo { path: fs[i].path.clone(), size_bytes: fs[i].length as u64 },
                );
                i += 1;
            }
        },
        None => {
            files.push(TorrentFileInfo { path: parsed.name, size_bytes: parsed.length as u64 });
        },
    }
    FileReadResult { metainfo_b64, files }
}

/// Read one `.torrent` file's contents: its base64 encoding and its files,
/// or an error message. Bytes that nest deeper than `MAX_NESTING` are
/// refused before they are parsed.
pub fn read_torrent_file(bytes: &[u8]) -> (r: Result<FileReadResult, String>)
    requires
        base64_len(bytes@.len()) <= usize::MAX,
    ensures
        r is Ok <==> readable_torrent(bytes@),
        r matches Ok(f) ==> read_from(f, bytes@),
        r matches Err(e) ==> e@ == unreadable_message(bytes@),
{
    if !nesting_within_limit(bytes) {
        return Err(String::from_str("malformed bencode: lists and dictionaries nest too deeply."));
    }
    let b64 = base64_encode(bytes);
    let parsed = parse_torrent(bytes);
    match parsed {
        Ok((p, sep)) => {
            let ghost t = torrent_parse(bytes@, usize::BITS)->Ok_0;
            let ghost pg = p;
            let f = file_read_result(b64, p);
            assert(lists_parsed_files(f.files@, t)) by {
                match pg.files {
                    Some(fs) => {
                        let ls = t.2->0;
                        assert forall|i: int| 0 <= i < ls.len() implies #[trigger] f.files@[i].size_bytes
                            == ls[i] as u64 by {
                            assert(files_of(f.files@, pg));
                            assert(f.files@[i].path == fs@[i].path);
                            assert(fs@[i].length == ls[i]);
                        }
                    },
                    None => {},
                }
            }
            assert(t.2 is Some ==> lists_paths(f.files@, torrent_paths(bytes@, sep))) by {
                match pg.files {
                    Some(fs) => {
                        let ps = torrent_paths(bytes@, sep);
                        assert forall|i: int| 0 <= i < ps.len() implies #[trigger] f.files@[i].path@
                            == ps[i] by {
                            assert(files_of(f.files@, pg));
                            assert(f.files@[i].path == fs@[i].path);
                            assert(fs@[i].path@ == ps[i]);
                        }
                    },
                    None => {},
                }
            }
            Ok(f)
        },
        Err(e) => Err(e),
    }
}

/// The first `k` picks can be read as torrents and pick `k` cannot.
pub open spec fn first_unreadable(contents: Seq<Vec<u8>>, k: int) -> bool {
    &&& 0 <= k < contents.len()
    &&& !readable_torrent(contents[k]@)
    &&& forall|j: int| 0 <= j < k ==> readable_torrent(#[trigger] contents[j]@)
}

/// Read the picked `.torrent` files in order into the add dialog's queue.
/// The first file that cannot be read fails the whole pick with its error;
/// picking no file is `Err("cancelled")`.
pub fn read_torrent_files(contents: &Vec<Vec<u8>>) -> (r: Result<VecDeque<FileReadResult>, String>)
    requires
        forall|i: int| 0 <= i < contents@.len() ==> base64_len(#[trigger] contents@[i]@.len()) <= usize::MAX,
    ensures
        r is Ok <==> contents@.len() > 0 && forall|i: int|
            0 <= i < contents@.len() ==> readable_torrent(#[trigger] contents@[i]@),
        r matches Ok(q) ==> {
            &&& q@.len() == contents@.len()
            &&& forall|i: int| 0 <= i < q@.len() ==> read_from(#[trigger] q@[i], contents@[i]@)
        },
        r matches Err(e) ==> {
            ||| contents@.len() == 0 && e@ == "cancelled"@
            ||| exists|k: int|
                first_unreadable(contents@, k) && e@ == unreadable_message(#[trigger] contents@[k]@)
        },
{
    let mut queue: VecDeque<FileReadResult> = VecDeque::new();
    let mut i: usize = 0;
    while i < contents.len()
        invariant
            i <= contents@.len(),
            queue@.len() == i,
            forall|j: int| 0 <= j < contents@.len() ==> base64_len(#[trigger] contents@[j]@.len()) <= usize::MAX,
            forall|j: int| 0 <= j < i ==> readable_torrent(#[trigger] contents@[j]@),
            forall|j: int| 0 <= j < i ==> read_from(#[trigger] queue@[j], contents@[j]@),
        decreases contents@.len() - i,
    {
        let bytes = contents[i].as_slice();
        assert(bytes@ == contents@[i as int]@);
        let r = read_torrent_file(bytes);
        match r {
            Ok(f) => {
                let ghost before = queue@;
                queue.push_back(f);
                assert(queue@ == before.push(f));
                assert forall|j: int| 0 <= j < i + 1 implies read_from(
                    #[trigger] queue@[j],
                    contents@[j]@,
                ) by {
                    if j < i {
                        assert(queue@[j] == before[j]);
                    }
                }
            },
            Err(e) => {
                assert(first_unreadable(contents@, i as int));
                return Err(e);
            },
        }
        i += 1;
    }
    if queue.len() == 0 {
        proof {
            reveal_strlit("cancelled");
        }
        return Err(String::from_str("cancelled"));
    }
    Ok(queue)
}

} // verus!
