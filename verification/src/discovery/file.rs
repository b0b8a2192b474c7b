//! A directory of registrations, each file's first line a candidate.
//!
//! A process registers under a fresh random name before it has any identity,
//! and takes its file back when it leaves. A file left behind costs a failed
//! dial and nothing more.

use vstd::prelude::*;
use vstd::string::*;

use crate::cluster;
use crate::cluster::{hyphenated_text, random_identifier};
use crate::paths;
use crate::text;

verus! {

/// The backend.
#[derive(Debug, Clone)]
pub struct FileDiscovery {
    pub dir: String,
}

/// One entry of the directory, as it was read.
#[derive(Debug, Clone)]
pub enum DirEntry {
    Directory,
    /// A file, and what it holds when it could be read.
    File(Option<String>),
}

/// The candidate an entry gives, if any: its first line, trimmed, unless that
/// is blank.
pub open spec fn candidate_of(entry: DirEntry) -> Option<Seq<char>> {
    match entry {
        DirEntry::File(Some(contents)) => {
            let first = text::trimmed(text::first_line_of(contents@));
            if first.len() == 0 {
                None
            } else {
                Some(first)
            }
        },
        _ => None,
    }
}

/// The candidates the entries give, in their order.
pub open spec fn candidates_of(entries: Seq<DirEntry>) -> Seq<Seq<char>>
    decreases entries.len(),
{
    if entries.len() == 0 {
        seq![]
    } else {
        let before = candidates_of(entries.drop_last());
        match candidate_of(entries.last()) {
            Some(c) => before.push(c),
            None => before,
        }
    }
}

/// The trimmed first line of a file's contents, unless it is blank.
pub fn read_first_line(contents: &str) -> (r: Option<String>)
    ensures
        ({
            let first = text::trimmed(text::first_line_of(contents@));
            if first.len() == 0 {
                r is None
            } else {
                r matches Some(s) && s@ == first
            }
        }),
{
    let first = text::trim(text::first_line(contents));
    if first.is_empty() {
        None
    } else {
        Some(first.to_owned())
    }
}

impl FileDiscovery {
    pub fn new(dir: String) -> (r: FileDiscovery)
        ensures
            r.dir == dir,
    {
        FileDiscovery { dir }
    }

    /// The candidates of one enumeration. Directories and files that are empty
    /// or unreadable are passed over, so a half-written registration never
    /// hides the others.
    pub fn candidates(&self, entries: &Vec<DirEntry>) -> (r: Vec<String>)
        ensures
            text::views(r@) == candidates_of(entries@),
    {
        let mut out: Vec<String> = Vec::new();
        let mut i: usize = 0;
        assert(text::views(out@) =~= candidates_of(entries@.subrange(0, 0)));
        while i < entries.len()
            invariant
                i <= entries@.len(),
                text::views(out@) == candidates_of(entries@.subrange(0, i as int)),
            decreases entries@.len() - i,
        {
            assert(entries@.subrange(0, i + 1).drop_last() =~= entries@.subrange(0, i as int));
            if let DirEntry::File(Some(contents)) = &entries[i] {
                if let Some(addr) = read_first_line(contents.as_str()) {
                    assert(text::views(out@.push(addr)) =~= text::views(out@).push(addr@));
                    out.push(addr);
                }
            }
            i = i + 1;
        }
        assert(entries@.subrange(0, entries@.len() as int) =~= entries@);
        out
    }
}

/// A process's own registration: where it lies, and what it holds.
#[derive(Debug, Clone)]
pub struct FileRegistration {
    pub path: String,
    pub contents: String,
}

impl FileRegistration {
    /// A registration of `advertised_addr` in `dir`, under a fresh random
    /// name, so that processes on one host never collide.
    pub fn register(dir: &str, advertised_addr: &str) -> (r: FileRegistration)
        ensures
            r.contents@ == advertised_addr@ + "\n"@,
            exists|id: Seq<u8>| #[trigger]
                cluster::randomly_minted(id) && r.path@ == paths::joined(
                    dir@,
                    cluster::hyphenated(id),
                ),
    {
        let id = random_identifier();
        let name = hyphenated_text(&id);
        proof {
            hyphenated_is_relative(id@);
        }
        assert(cluster::randomly_minted(id@));
        FileRegistration {
            path: paths::join(dir, name.as_str()),
            contents: advertised_addr.to_owned().concat("\n"),
        }
    }
}

/// A hyphenated identifier begins with a hexadecimal digit.
proof fn hyphenated_is_relative(id: Seq<u8>)
    requires
        id.len() == 16,
    ensures
        cluster::hyphenated(id).len() > 0,
        cluster::hyphenated(id)[0] != '/',
{
    text::hex_begins_with_a_digit(id.subrange(0, 4));
}

/// What was registered is found again: the first line of a registration is its
/// address, as long as an address is neither blank nor broken over lines nor
/// padded.
pub proof fn registrations_read_back(addr: Seq<char>)
    requires
        addr.len() > 0,
        text::trimmed(addr) == addr,
        !addr.contains('\n'),
        addr.last() != '\r',
    ensures
        text::trimmed(text::first_line_of(addr + "\n"@)) == addr,
{
    reveal_strlit("\n");
    let s = addr + "\n"@;
    text::first_position_found(s, '\n', addr.len() as int);
    assert(s.subrange(0, addr.len() as int) =~= addr);
}

/// Every readable file whose first line holds something gives that line,
/// trimmed, and nothing else gives anything.
pub proof fn every_registration_is_found(entries: Seq<DirEntry>, x: Seq<char>)
    ensures
        candidates_of(entries).contains(x) <==> exists|i: int|
            0 <= i < entries.len() && ((#[trigger] entries[i]) matches DirEntry::File(
                Some(contents),
            ) && text::trimmed(text::first_line_of(contents@)) == x) && x.len() > 0,
        candidates_of(entries).len() <= entries.len(),
    decreases entries.len(),
{
    if entries.len() > 0 {
        let rest = entries.drop_last();
        let last = entries.last();
        every_registration_is_found(rest, x);
        let before = candidates_of(rest);
        let all = candidates_of(entries);
        assert(entries[entries.len() - 1] == last);
        if before.contains(x) {
            let k = choose|k: int| 0 <= k < before.len() && before[k] == x;
            assert(all[k] == x);
            let i = choose|i: int|
                0 <= i < rest.len() && ((#[trigger] rest[i]) matches DirEntry::File(Some(contents))
                    && text::trimmed(text::first_line_of(contents@)) == x) && x.len() > 0;
            assert(entries[i] == rest[i]);
        }
        if candidate_of(last) == Some(x) {
            assert(all[before.len() as int] == x);
        }
        if all.contains(x) && !before.contains(x) {
            let k = choose|k: int| 0 <= k < all.len() && all[k] == x;
            assert(k >= before.len() || before[k] == x);
        }
        if exists|i: int|
            0 <= i < entries.len() && ((#[trigger] entries[i]) matches DirEntry::File(
                Some(contents),
            ) && text::trimmed(text::first_line_of(contents@)) == x) && x.len() > 0 {
            let i = choose|i: int|
                0 <= i < entries.len() && ((#[trigger] entries[i]) matches DirEntry::File(
                    Some(contents),
                ) && text::trimmed(text::first_line_of(contents@)) == x) && x.len() > 0;
            if i < rest.len() {
                assert(rest[i] == entries[i]);
            }
        }
    }
}

/// An enumeration finds the registrations, and a registration holds its
/// address on a line of its own.
pub proof fn a_registration_holds_its_address(
    d: FileDiscovery,
    entries: Vec<DirEntry>,
    dir: &str,
    addr: &str,
    found: Vec<String>,
    r: FileRegistration,
)
    requires
        call_ensures(FileDiscovery::candidates, (&d, &entries), found),
        call_ensures(FileRegistration::register, (dir, addr), r),
    ensures
        text::views(found@) == candidates_of(entries@),
        r.contents@ == addr@.push('\n'),
        dir@.is_prefix_of(r.path@),
{
    reveal_strlit("\n");
    assert("\n"@ =~= seq!['\n']);
    assert(addr@ + "\n"@ =~= addr@.push('\n'));
}

} // verus!
