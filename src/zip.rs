use vstd::prelude::*;

verus! {

/// What the materializer needs of one ZIP entry: its recorded path and
/// whether it is a directory.
pub struct ZipEntry {
    pub name: String,
    pub is_dir: bool,
}

/// One filesystem action on an entry, named by its index in the archive.
/// Every directory action creates what is missing and accepts what exists.
#[derive(PartialEq, Eq, Structural, Clone, Copy, Debug)]
pub enum Step {
    /// Create the entry's own path as a directory, with its ancestors.
    CreateDir(usize),
    /// Create the directory that holds the entry's path, with its ancestors.
    CreateParent(usize),
    /// Create or truncate the entry's path and copy its bytes into it.
    WriteFile(usize),
}

/// The actions for entry `i`.
pub open spec fn entry_steps(i: int, is_dir: bool) -> Seq<Step> {
    if is_dir {
        seq![Step::CreateDir(i as usize)]
    } else {
        seq![Step::CreateParent(i as usize), Step::WriteFile(i as usize)]
    }
}

/// The actions for entries whose directory flags are `dirs`, in archive order.
pub open spec fn steps_for(dirs: Seq<bool>) -> Seq<Step>
    decreases dirs.len(),
{
    if dirs.len() == 0 {
        Seq::empty()
    } else {
        steps_for(dirs.drop_last()) + entry_steps(dirs.len() - 1, dirs.last())
    }
}

/// The directory flags of a list of entries.
pub open spec fn dir_flags(entries: Seq<ZipEntry>) -> Seq<bool> {
    entries.map_values(|e: ZipEntry| e.is_dir)
}

/// The actions that materialize `entries` one after another, in archive order.
pub fn zip_steps(entries: &Vec<ZipEntry>) -> (r: Vec<Step>)
    ensures
        r@ == steps_for(dir_flags(entries@)),
{
    let mut r: Vec<Step> = Vec::new();
    let mut i: usize = 0;
    while i < entries.len()
        invariant
            i <= entries@.len(),
            r@ == steps_for(dir_flags(entries@).take(i as int)),
        decreases entries@.len() - i,
    {
        if entries[i].is_dir {
            r.push(Step::CreateDir(i));
        } else {
            r.push(Step::CreateParent(i));
            r.push(Step::WriteFile(i));
        }
        proof {
            let d = dir_flags(entries@);
            assert(d.take(i + 1).drop_last() == d.take(i as int));
        }
        i = i + 1;
    }
    proof {
        let d = dir_flags(entries@);
        assert(d.take(entries@.len() as int) == d);
    }
    r
}

} // verus!

verus! {

proof fn lemma_steps_prefix(dirs: Seq<bool>, m: int)
    requires
        0 <= m <= dirs.len(),
    ensures
        steps_for(dirs.take(m)).len() <= steps_for(dirs).len(),
        steps_for(dirs).take(steps_for(dirs.take(m)).len() as int) == steps_for(dirs.take(m)),
    decreases dirs.len() - m,
{
    if m == dirs.len() {
        assert(dirs.take(m) == dirs);
    } else {
        lemma_steps_prefix(dirs, m + 1);
        assert(dirs.take(m + 1).drop_last() == dirs.take(m));
        let a = steps_for(dirs.take(m));
        let b = steps_for(dirs.take(m + 1));
        assert(b == a + entry_steps(m, dirs[m]));
        assert(steps_for(dirs).take(a.len() as int) == b.take(a.len() as int));
        assert(b.take(a.len() as int) == a);
    }
}

/// Every entry is materialized in archive order at its own place in the
/// plan: a directory by creating it, a file by creating the directory that
/// holds it and, right after, writing it. So a directory that is named both
/// explicitly and as a file's parent is created twice, each time accepting
/// what exists, and a file's parent exists before the file is written
/// whatever order the entries come in.
pub proof fn lemma_entry_materialized(dirs: Seq<bool>, k: int)
    requires
        0 <= k < dirs.len(),
    ensures
        ({
            let p = steps_for(dirs.take(k)).len() as int;
            let e = entry_steps(k, dirs[k]);
            &&& p + e.len() <= steps_for(dirs).len()
            &&& steps_for(dirs).subrange(p, p + e.len()) == e
        }),
{
    lemma_steps_prefix(dirs, k + 1);
    assert(dirs.take(k + 1).drop_last() == dirs.take(k));
    let p = steps_for(dirs.take(k)).len() as int;
    let e = entry_steps(k, dirs[k]);
    let b = steps_for(dirs.take(k + 1));
    assert(b == steps_for(dirs.take(k)) + e);
    assert(steps_for(dirs).subrange(p, p + e.len()) == b.subrange(p, p + e.len()));
}

/// The plan acts on the listed entries only: a directory entry is only ever
/// created as a directory, and a file entry is only ever written as a file.
pub proof fn lemma_steps_match_entries(dirs: Seq<bool>, j: int)
    requires
        0 <= j < steps_for(dirs).len(),
    ensures
        exists|k: int|
            0 <= k < dirs.len() && #[trigger] entry_steps(k, dirs[k]).contains(steps_for(dirs)[j]),
    decreases dirs.len(),
{
    let s = steps_for(dirs);
    if dirs.len() > 0 {
        let init = dirs.drop_last();
        let k = dirs.len() - 1;
        if j < steps_for(init).len() {
            lemma_steps_match_entries(init, j);
            let k2 = choose|k2: int|
                0 <= k2 < init.len() && #[trigger] entry_steps(k2, init[k2]).contains(steps_for(init)[j]);
            assert(init[k2] == dirs[k2]);
            assert(entry_steps(k2, dirs[k2]).contains(s[j]));
        } else {
            let e = entry_steps(k, dirs[k]);
            assert(s[j] == e[j - steps_for(init).len()]);
            assert(e.contains(s[j]));
        }
    }
}

} // verus!
