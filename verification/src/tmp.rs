//! Scoped temp-file handles: each handle owns exactly one uniquely named
//! path under the shared temp root. Acquiring a handle does not create the
//! file — the media fetcher does — and the pipeline guarantees that the
//! path is handed to a release action exactly once, on every exit path.

use vstd::prelude::*;

verus! {

/// The path of a file named `filename` under the temp root `root`.
pub open spec fn spec_temp_path(root: Seq<char>, filename: Seq<char>) -> Seq<char> {
    root + "/"@ + filename
}

/// A handle owning one path under the shared temp directory.
#[derive(Debug)]
pub struct TempFile {
    path: String,
}

impl View for TempFile {
    type V = Seq<char>;

    closed spec fn view(&self) -> Seq<char> {
        self.path@
    }
}

impl TempFile {
    /// Acquires a handle on `<temp_root>/<filename>`. The file itself is
    /// not created here.
    pub fn new(temp_root: &str, filename: &str) -> (handle: TempFile)
        ensures
            handle@ == spec_temp_path(temp_root@, filename@),
    {
        let mut path = String::from_str(temp_root);
        path.append("/");
        path.append(filename);
        TempFile { path }
    }

    /// The path this handle owns.
    pub fn path(&self) -> (p: &str)
        ensures
            p@ == self@,
    {
        self.path.as_str()
    }

    /// Gives the handle up, yielding the owned path so that the caller can
    /// delete whatever was written there.
    pub fn into_path(self) -> (p: String)
        ensures
            p@ == self@,
    {
        self.path
    }
}

/// Appending the same sequence to two different sequences, or two different
/// sequences to the same one, keeps them different.
pub proof fn lemma_wrap_injective(pre: Seq<char>, a: Seq<char>, b: Seq<char>, post: Seq<char>)
    requires
        a != b,
    ensures
        pre + (a + post) != pre + (b + post),
{
    if a + post == b + post {
        assert((a + post).len() == a.len() + post.len());
        assert((b + post).len() == b.len() + post.len());
        assert(a.len() == b.len());
        assert forall|i: int| 0 <= i < a.len() implies a[i] == b[i] by {
            assert((a + post)[i] == a[i]);
            assert((b + post)[i] == b[i]);
        }
        assert(a =~= b);
    }
    if pre + (a + post) == pre + (b + post) {
        let x = a + post;
        let y = b + post;
        assert((pre + x).len() == pre.len() + x.len());
        assert((pre + y).len() == pre.len() + y.len());
        assert(x.len() == y.len());
        assert forall|i: int| 0 <= i < x.len() implies x[i] == y[i] by {
            assert((pre + x)[pre.len() + i] == x[i]);
            assert((pre + y)[pre.len() + i] == y[i]);
        }
        assert(x =~= y);
    }
}

} // verus!
