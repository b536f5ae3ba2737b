//! The digest: one entry per selected asset, gainers first.

use vstd::prelude::*;
use vstd::string::*;
use crate::text::lines_view;

verus! {

/// One asset of the day: its name and symbol, the generated summary, and
/// the references the summary was written from.
#[derive(Debug, PartialEq, Eq)]
pub struct DigestEntry {
    pub token: String,
    pub symbol: String,
    pub summary: String,
    pub references: Vec<String>,
}

/// The mathematical content of a [`DigestEntry`].
pub struct DigestEntryView {
    pub token: Seq<char>,
    pub symbol: Seq<char>,
    pub summary: Seq<char>,
    pub references: Seq<Seq<char>>,
}

impl View for DigestEntry {
    type V = DigestEntryView;

    open spec fn view(&self) -> DigestEntryView {
        DigestEntryView {
            token: self.token@,
            symbol: self.symbol@,
            summary: self.summary@,
            references: lines_view(self.references@),
        }
    }
}

/// The entries of a digest as mathematical values.
pub open spec fn digest_view(entries: Seq<DigestEntry>) -> Seq<DigestEntryView> {
    entries.map_values(|entry: DigestEntry| entry@)
}

/// Copies a list of strings.
pub fn copy_lines(lines: &Vec<String>) -> (copy: Vec<String>)
    ensures
        lines_view(copy@) == lines_view(lines@),
{
    let mut copy: Vec<String> = Vec::new();
    let mut i: usize = 0;
    while i < lines.len()
        invariant
            i <= lines.len(),
            lines_view(copy@) == lines_view(lines@).take(i as int),
        decreases lines.len() - i,
    {
        let ghost before = lines_view(copy@);
        copy.push(lines[i].clone());
        assert(lines_view(copy@) =~= before.push(lines@[i as int]@));
        assert(lines_view(lines@).take(i as int + 1) =~= before.push(lines@[i as int]@));
        i = i + 1;
    }
    assert(lines_view(lines@).take(i as int) =~= lines_view(lines@));
    copy
}

impl Clone for DigestEntry {
    fn clone(&self) -> (copy: DigestEntry)
        ensures
            copy@ == self@,
    {
        DigestEntry {
            token: self.token.clone(),
            symbol: self.symbol.clone(),
            summary: self.summary.clone(),
            references: copy_lines(&self.references),
        }
    }
}

/// Copies a digest.
pub fn copy_digest(entries: &Vec<DigestEntry>) -> (copy: Vec<DigestEntry>)
    ensures
        digest_view(copy@) == digest_view(entries@),
{
    let mut copy: Vec<DigestEntry> = Vec::new();
    let mut i: usize = 0;
    while i < entries.len()
        invariant
            i <= entries.len(),
            digest_view(copy@) == digest_view(entries@).take(i as int),
        decreases entries.len() - i,
    {
        let ghost before = digest_view(copy@);
        copy.push(entries[i].clone());
        assert(digest_view(copy@) =~= before.push(entries@[i as int]@));
        assert(digest_view(entries@).take(i as int + 1) =~= before.push(entries@[i as int]@));
        i = i + 1;
    }
    assert(digest_view(entries@).take(i as int) =~= digest_view(entries@));
    copy
}

} // verus!
