//! The temporary files of a run, removed when the run ends.
use vstd::prelude::*;
use vstd::string::*;

verus! {

/// The temporary files registered so far, in the order they were added.
pub struct TempFiles {
    files: Vec<String>,
}

impl TempFiles {
    /// The registered paths.
    pub closed spec fn paths(&self) -> Seq<Seq<char>> {
        self.files@.map_values(|f: String| f@)
    }

    /// A list with no file in it.
    pub fn new() -> (res: Self)
        ensures
            res.paths() == Seq::<Seq<char>>::empty(),
    {
        let res = TempFiles { files: Vec::new() };
        assert(res.paths() =~= Seq::<Seq<char>>::empty());
        res
    }

    /// How many files are registered.
    pub fn len(&self) -> (res: usize)
        ensures
            res == self.paths().len(),
    {
        self.files.len()
    }
}

/// Registers `file` as a temporary file of this run, after those already
/// registered.
pub fn add_temp_file(list: &mut TempFiles, file: &str)
    ensures
        final(list).paths() == old(list).paths().push(file@),
{
    list.files.push(String::from_str(file));
    assert(list.paths() =~= old(list).paths().push(file@));
}

/// Hands out every registered file, in the order they were registered, for
/// removal, and empties the list.
pub fn drop_temp_file(list: &mut TempFiles) -> (res: Vec<String>)
    ensures
        res@.map_values(|f: String| f@) == old(list).paths(),
        final(list).paths() == Seq::<Seq<char>>::empty(),
{
    let mut files: Vec<String> = Vec::new();
    std::mem::swap(&mut files, &mut list.files);
    assert(list.paths() =~= Seq::<Seq<char>>::empty());
    files
}

} // verus!
