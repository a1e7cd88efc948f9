//! The source provider: the collaborator that hands the compiler its input
//! files, and an in-memory implementation of it.

use crate::strutil::str_eq;
use vstd::prelude::*;

verus! {

#[derive(Debug)]
pub struct SourceHeader {
    pub filename: String,
}

impl View for SourceHeader {
    type V = Seq<char>;

    open spec fn view(&self) -> Seq<char> {
        self.filename@
    }
}

impl Clone for SourceHeader {
    fn clone(&self) -> (r: SourceHeader)
        ensures
            r@ == self@,
    {
        SourceHeader { filename: self.filename.clone() }
    }
}

/// The content filed under the first occurrence of `name`.
pub open spec fn first_content(files: Seq<(Seq<char>, Seq<char>)>, name: Seq<char>) -> Seq<char>
    decreases files.len(),
{
    if files.len() == 0 {
        Seq::<char>::empty()
    } else if files[0].0 == name {
        files[0].1
    } else {
        first_content(files.drop_first(), name)
    }
}

pub open spec fn has_file(files: Seq<(Seq<char>, Seq<char>)>, name: Seq<char>) -> bool {
    exists|i: int| 0 <= i < files.len() && files[i].0 == name
}

/// The contents the compiler sees, file by file: each listed name resolved
/// to the first content filed under it.
pub open spec fn eff_sources(files: Seq<(Seq<char>, Seq<char>)>) -> Seq<Seq<char>> {
    Seq::new(files.len(), |i: int| first_content(files, files[i].0))
}

/// Yields the source files, in order.  An implementation outside this crate
/// is trusted to meet these contracts.
pub trait SourceProvider {
    /// The files as (name, content) pairs, in processing order.
    spec fn spec_files(&self) -> Seq<(Seq<char>, Seq<char>)>;

    fn file_list(&self) -> (r: Vec<SourceHeader>)
        ensures
            r@.len() == self.spec_files().len(),
            forall|i: int| 0 <= i < r@.len() ==> r@[i]@ == self.spec_files()[i].0,
    ;

    fn source(&self, filename: &str) -> (r: String)
        requires
            has_file(self.spec_files(), filename@),
        ensures
            r@ == first_content(self.spec_files(), filename@),
    ;
}

pub struct InMemorySourceProvider {
    pub files: Vec<(SourceHeader, String)>,
}

pub open spec fn in_memory_files(files: Seq<(SourceHeader, String)>) -> Seq<
    (Seq<char>, Seq<char>),
> {
    files.map_values(|f: (SourceHeader, String)| (f.0@, f.1@))
}

impl SourceProvider for InMemorySourceProvider {
    open spec fn spec_files(&self) -> Seq<(Seq<char>, Seq<char>)> {
        in_memory_files(self.files@)
    }

    fn file_list(&self) -> (r: Vec<SourceHeader>) {
        let n = self.files.len();
        let mut r: Vec<SourceHeader> = Vec::new();
        let mut i: usize = 0;
        while i < n
            invariant
                i <= n,
                n == self.files@.len(),
                r@.len() == i,
                forall|j: int| 0 <= j < i ==> r@[j]@ == self.spec_files()[j].0,
            decreases n - i,
        {
            r.push(self.files[i].0.clone());
            i += 1;
        }
        r
    }

    fn source(&self, filename: &str) -> (r: String) {
        let n = self.files.len();
        let mut i: usize = 0;
        proof {
            assert(self.spec_files().skip(0) =~= self.spec_files());
        }
        loop
            invariant
                i <= n,
                n == self.files@.len(),
                has_file(self.spec_files(), filename@),
                forall|j: int| 0 <= j < i ==> self.spec_files()[j].0 != filename@,
                first_content(self.spec_files(), filename@) == first_content(
                    self.spec_files().skip(i as int),
                    filename@,
                ),
            decreases n - i,
        {
            if i == n {
                proof {
                    let w = choose|k: int|
                        0 <= k < self.spec_files().len() && self.spec_files()[k].0 == filename@;
                    assert(false);
                }
                return String::new();
            }
            proof {
                assert(self.spec_files().skip(i as int)[0] == self.spec_files()[i as int]);
                assert(self.spec_files().skip(i as int).drop_first() =~= self.spec_files().skip(
                    i + 1,
                ));
            }
            let e = &self.files[i];
            if str_eq(e.0.filename.as_str(), filename) {
                return e.1.clone();
            }
            i += 1;
        }
    }
}

} // verus!
