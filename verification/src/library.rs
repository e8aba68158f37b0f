//! The folder of downloaded tracks.

use vstd::prelude::*;

verus! {

/// The folder that the player lists, as a glob pattern, and the files that
/// the last successful listing found.
#[derive(Debug)]
pub struct AudioFolder {
    pub path: String,
    pub files: Vec<String>,
}

/// The views of a list of strings.
pub open spec fn names_view(names: Seq<String>) -> Seq<Seq<char>> {
    Seq::new(names.len(), |i: int| names[i]@)
}

/// What a listing found, if every one of its entries could be read. An
/// entry that could not be read is `None`.
pub open spec fn listed(entries: Seq<Option<String>>) -> Option<Seq<Seq<char>>>
    decreases entries.len(),
{
    if entries.len() == 0 {
        Some(Seq::empty())
    } else {
        match (listed(entries.drop_last()), entries.last()) {
            (Some(found), Some(file)) => Some(found.push(file@)),
            _ => None,
        }
    }
}

/// A listing with an unreadable entry among its first `k` found nothing.
proof fn lemma_unreadable_persists(entries: Seq<Option<String>>, k: int)
    requires
        0 <= k <= entries.len(),
        listed(entries.subrange(0, k)) is None,
    ensures
        listed(entries) is None,
    decreases entries.len() - k,
{
    if k == entries.len() {
        assert(entries.subrange(0, k) == entries);
    } else {
        let longer = entries.subrange(0, k + 1);
        assert(longer.drop_last() == entries.subrange(0, k));
        lemma_unreadable_persists(entries, k + 1);
    }
}

/// The files after a listing: what the listing found, or the files as they
/// were where the pattern was refused (`None`) or an entry could not be
/// read.
pub open spec fn files_after(files: Seq<Seq<char>>, listing: Option<Seq<Option<String>>>) -> Seq<Seq<char>> {
    match listing {
        Some(entries) => match listed(entries) {
            Some(found) => found,
            None => files,
        },
        None => files,
    }
}

impl AudioFolder {
    /// A folder without pattern and without files.
    pub fn new() -> (r: AudioFolder)
        ensures
            r.path@ == Seq::<char>::empty(),
            r.files@ == Seq::<String>::empty(),
    {
        AudioFolder { path: String::new(), files: Vec::new() }
    }

    /// The folder with `path` as its pattern.
    pub fn path(self, path: String) -> (r: AudioFolder)
        ensures
            r.path == path,
            r.files == self.files,
    {
        let mut folder = self;
        folder.path = path;
        folder
    }

    /// Takes the result of listing the folder. The files are replaced only
    /// by a listing that succeeded as a whole.
    pub fn load_mp3_file(&mut self, listing: Option<Vec<Option<String>>>)
        ensures
            final(self).path == old(self).path,
            names_view(final(self).files@) == files_after(
                names_view(old(self).files@),
                match listing {
                    Some(entries) => Some(entries@),
                    None => None,
                },
            ),
    {
        let entries = match listing {
            Some(entries) => entries,
            None => {
                return ;
            },
        };
        let mut files: Vec<String> = Vec::new();
        assert(names_view(files@) == Seq::<Seq<char>>::empty());
        for entry in it: entries
            invariant
                *self == *old(self),
                listing == Some(entries),
                it.seq() == entries@,
                listed(it.seq().subrange(0, it.index())) == Some(names_view(files@)),
        {
            let ghost i = it.index();
            let ghost after = it.seq().subrange(0, i + 1);
            assert(after.drop_last() == it.seq().subrange(0, i));
            assert(after.last() == entry);
            match entry {
                Some(file) => {
                    let ghost earlier = files@;
                    files.push(file);
                    assert(names_view(files@) == names_view(earlier).push(file@));
                },
                None => {
                    proof {
                        assert(listed(after) is None);
                        lemma_unreadable_persists(entries@, i + 1);
                    }
                    return ;
                },
            }
        }
        assert(entries@.subrange(0, entries@.len() as int) == entries@);
        self.files = files;
    }
}

} // verus!
