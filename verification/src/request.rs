//! The files of a build request: a mapping from path to content that keeps
//! the order in which the paths came.

use vstd::prelude::*;

verus! {

/// One file of a build request: a path relative to the source directory, and
/// the text to put there.
pub struct SourceFile {
    pub path: String,
    pub content: String,
}

/// The files of one build request, in the order in which they are staged.
/// A request built by `new` and `insert` holds no path twice.
pub struct BuildRequest {
    files: Vec<SourceFile>,
}

/// The files of a request as pairs of path and content.
pub open spec fn file_pairs(files: Seq<SourceFile>) -> Seq<(Seq<char>, Seq<char>)> {
    files.map_values(|f: SourceFile| (f.path@, f.content@))
}

/// Whether no path stands twice among the files.
pub open spec fn distinct_paths(files: Seq<(Seq<char>, Seq<char>)>) -> bool {
    forall|i: int, j: int| 0 <= i < j < files.len() ==> files[i].0 != files[j].0
}

/// Index of the first file with the path `path`, or `files.len()` where
/// there is none.
pub open spec fn position(files: Seq<(Seq<char>, Seq<char>)>, path: Seq<char>) -> int
    decreases files.len(),
{
    if files.len() == 0 {
        0
    } else if files[0].0 == path {
        0
    } else {
        1 + position(files.drop_first(), path)
    }
}

/// The files after `path` is given the content `content`: the file with
/// that path has its content replaced and keeps its place; where there is
/// none, the file joins at the end.
pub open spec fn with_file(
    files: Seq<(Seq<char>, Seq<char>)>,
    path: Seq<char>,
    content: Seq<char>,
) -> Seq<(Seq<char>, Seq<char>)> {
    let at = position(files, path);
    if 0 <= at < files.len() {
        files.update(at, (path, content))
    } else {
        files.push((path, content))
    }
}

/// `position` is the one index `k` with no file of that path before it and
/// with such a file at it, or the number of files.
pub proof fn lemma_position(files: Seq<(Seq<char>, Seq<char>)>, path: Seq<char>, k: int)
    requires
        0 <= k <= files.len(),
        forall|j: int| 0 <= j < k ==> files[j].0 != path,
        k < files.len() ==> files[k].0 == path,
    ensures
        position(files, path) == k,
    decreases files.len(),
{
    if files.len() > 0 && files[0].0 != path {
        let rest = files.drop_first();
        assert forall|j: int| 0 <= j < k - 1 implies rest[j].0 != path by {
            assert(rest[j] == files[j + 1]);
        }
        lemma_position(rest, path, k - 1);
    }
}

/// `position` lies within the files or at their end; no file before it has
/// the path, and the file at it has.
pub proof fn lemma_position_found(files: Seq<(Seq<char>, Seq<char>)>, path: Seq<char>)
    ensures
        0 <= position(files, path) <= files.len(),
        forall|j: int| 0 <= j < position(files, path) ==> files[j].0 != path,
        position(files, path) < files.len() ==> files[position(files, path)].0 == path,
    decreases files.len(),
{
    if files.len() > 0 && files[0].0 != path {
        let rest = files.drop_first();
        lemma_position_found(rest, path);
        assert forall|j: int| 0 <= j < position(files, path) implies files[j].0 != path by {
            if j > 0 {
                assert(files[j] == rest[j - 1]);
            }
        }
    }
}

/// Giving a path a content acts as on a mapping: afterwards the path stands
/// once where it stood or at the end, with the new content; every file of
/// another path is where and what it was; and the request has grown by one
/// file exactly where the path was new.
pub proof fn law_insert_sets_one_path(
    files: Seq<(Seq<char>, Seq<char>)>,
    path: Seq<char>,
    content: Seq<char>,
)
    ensures
        ({
            let after = with_file(files, path, content);
            let at = position(after, path);
            &&& at == position(files, path)
            &&& 0 <= at < after.len()
            &&& after[at] == (path, content)
            &&& after.len() == if at < files.len() { files.len() } else { files.len() + 1 }
            &&& forall|i: int| 0 <= i < files.len() && i != at ==> after[i] == files[i]
            &&& distinct_paths(files) ==> distinct_paths(after)
        }),
{
    lemma_position_found(files, path);
    let after = with_file(files, path, content);
    lemma_position(after, path, position(files, path));
}

impl View for BuildRequest {
    type V = Seq<(Seq<char>, Seq<char>)>;

    closed spec fn view(&self) -> Seq<(Seq<char>, Seq<char>)> {
        file_pairs(self.files@)
    }
}

impl BuildRequest {
    /// A request without files.
    pub fn new() -> (request: BuildRequest)
        ensures
            request@ == Seq::<(Seq<char>, Seq<char>)>::empty(),
    {
        let request = BuildRequest { files: Vec::new() };
        assert(request@ =~= Seq::empty());
        request
    }

    /// The files of the request, in order.
    pub fn into_files(self) -> (files: Vec<SourceFile>)
        ensures
            file_pairs(files@) == self@,
    {
        self.files
    }

    /// Gives `path` the content `content`, as a mapping does: a path that
    /// the request holds keeps its place and gets the new content, another
    /// joins at the end.
    pub fn insert(&mut self, path: String, content: String)
        ensures
            final(self)@ == with_file(old(self)@, path@, content@),
            distinct_paths(old(self)@) ==> distinct_paths(final(self)@),
    {
        let ghost before = self@;
        let mut i: usize = 0;
        while i < self.files.len()
            invariant
                i <= self.files.len(),
                self@ == before,
                before == old(self)@,
                forall|j: int| 0 <= j < i ==> before[j].0 != path@,
            decreases self.files.len() - i,
        {
            assert(before[i as int].0 == self.files@[i as int].path@);
            if self.files[i].path == path {
                proof {
                    lemma_position(before, path@, i as int);
                }
                let ghost entry = (path@, content@);
                self.files.set(i, SourceFile { path: path, content: content });
                assert(self@ =~= before.update(i as int, entry));
                return ;
            }
            i = i + 1;
        }
        proof {
            lemma_position(before, path@, before.len() as int);
        }
        let ghost entry = (path@, content@);
        self.files.push(SourceFile { path: path, content: content });
        assert(self@ =~= before.push(entry));
    }
}

} // verus!
