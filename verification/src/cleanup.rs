//! The post-download sweep: which files of the output directory are
//! corrupt or truncated and have to go. The caller lists the directory;
//! the selection below is exact.

use vstd::prelude::*;

verus! {

/// Files strictly smaller than this are taken for error pages or
/// truncated partial writes.
pub const MIN_FILE_SIZE: u64 = 200;

/// One directory entry as the caller listed it.
pub struct FileEntry {
    pub name: String,
    pub size: u64,
    /// Whether the entry is a regular file; anything else is left alone.
    pub is_regular: bool,
}

/// A regular file strictly below the size floor is deleted.
pub open spec fn should_delete(e: FileEntry) -> bool {
    e.is_regular && e.size < MIN_FILE_SIZE
}

/// The names to delete, in directory order.
pub open spec fn deletions_spec(s: Seq<FileEntry>) -> Seq<Seq<char>>
    decreases s.len(),
{
    if s.len() == 0 {
        Seq::empty()
    } else {
        let rest = deletions_spec(s.drop_last());
        if should_delete(s.last()) {
            rest.push(s.last().name@)
        } else {
            rest
        }
    }
}

/// The deletion list holds the name of every regular entry strictly below
/// the size floor, and nothing else.
pub proof fn lemma_deletions_exact(s: Seq<FileEntry>)
    ensures
        forall|j: int|
            0 <= j < s.len() && should_delete(s[j]) ==> deletions_spec(s).contains(s[j].name@),
        forall|x: Seq<char>|
            deletions_spec(s).contains(x) ==> exists|j: int|
                0 <= j < s.len() && should_delete(s[j]) && s[j].name@ == x,
    decreases s.len(),
{
    if s.len() > 0 {
        lemma_deletions_exact(s.drop_last());
        let rest = deletions_spec(s.drop_last());
        assert forall|j: int|
            0 <= j < s.len() && should_delete(s[j]) implies deletions_spec(s).contains(
            s[j].name@,
        ) by {
            if j < s.len() - 1 {
                assert(s.drop_last()[j] == s[j]);
                assert(rest.contains(s[j].name@));
                let k = choose|k: int| 0 <= k < rest.len() && rest[k] == s[j].name@;
                assert(deletions_spec(s)[k] == s[j].name@);
            } else {
                assert(deletions_spec(s).last() == s[j].name@);
            }
        }
        assert forall|x: Seq<char>| deletions_spec(s).contains(x) implies exists|j: int|
            0 <= j < s.len() && should_delete(s[j]) && s[j].name@ == x by {
            let k = choose|k: int|
                0 <= k < deletions_spec(s).len() && deletions_spec(s)[k] == x;
            if k < rest.len() {
                assert(rest.contains(x));
                let j = choose|j: int|
                    0 <= j < s.drop_last().len() && should_delete(s.drop_last()[j])
                        && s.drop_last()[j].name@ == x;
                assert(s.drop_last()[j] == s[j]);
            } else {
                assert(should_delete(s.last()) && s.last().name@ == x);
            }
        }
    }
}

/// Selects the files the cleanup pass deletes: exactly the regular entries
/// strictly smaller than the floor, in directory order.
pub fn select_deletions(entries: &Vec<FileEntry>) -> (r: Vec<String>)
    ensures
        r@.map_values(|n: String| n@) == deletions_spec(entries@),
{
    let mut out: Vec<String> = Vec::new();
    let mut i: usize = 0;
    proof {
        assert(entries@.take(0) =~= Seq::<FileEntry>::empty());
        assert(out@.map_values(|n: String| n@) =~= deletions_spec(entries@.take(0)));
    }
    while i < entries.len()
        invariant
            i <= entries@.len(),
            out@.map_values(|n: String| n@) == deletions_spec(entries@.take(i as int)),
        decreases entries@.len() - i,
    {
        let e = &entries[i];
        if e.is_regular && e.size < MIN_FILE_SIZE {
            out.push(e.name.clone());
            proof {
                assert(out@.map_values(|n: String| n@) =~= out@.drop_last().map_values(
                    |n: String| n@,
                ).push(entries@[i as int].name@));
            }
        }
        proof {
            let t = entries@.take(i + 1);
            assert(t.drop_last() =~= entries@.take(i as int));
            assert(t.last() == entries@[i as int]);
        }
        i += 1;
    }
    proof {
        assert(entries@.take(entries@.len() as int) =~= entries@);
    }
    out
}

} // verus!
