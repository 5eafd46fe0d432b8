//! Source-file discovery and merging: which of the paths found under a
//! project's source directory belong to the language, and how several
//! sources are concatenated into the one synthetic input that a
//! single-input tool accepts.

use vstd::prelude::*;

use crate::error::XnError;

verus! {

/// One discovered source file: its path and its full text.
pub struct SourceFile {
    pub path: String,
    pub contents: String,
}

/// The mathematical model of a source file.
pub struct FileModel {
    pub path: Seq<char>,
    pub contents: Seq<char>,
}

impl View for SourceFile {
    type V = FileModel;

    open spec fn view(&self) -> FileModel {
        FileModel { path: self.path@, contents: self.contents@ }
    }
}

impl DeepView for SourceFile {
    type V = FileModel;

    open spec fn deep_view(&self) -> FileModel {
        self.view()
    }
}

/// The position where the file name of `p` begins: just after the last
/// `/`, or the start when `p` has none.
pub open spec fn basename_start(p: Seq<char>) -> int
    decreases p.len(),
{
    if p.len() == 0 {
        0
    } else if p[p.len() - 1] == '/' {
        p.len() as int
    } else {
        basename_start(p.take(p.len() - 1))
    }
}

/// Whether the path names a source file of the language: its file name
/// carries the `.xn` extension (a file name that is nothing but `.xn`
/// has no extension and does not count).
pub open spec fn has_xn_ext(p: Seq<char>) -> bool {
    let name = p.skip(basename_start(p));
    name.len() >= 4 && name.subrange(name.len() - 3, name.len() as int) == ".xn"@
}

/// The subsequence of `paths` that names source files, in the order
/// given.
pub open spec fn xn_selection(paths: Seq<Seq<char>>) -> Seq<Seq<char>>
    decreases paths.len(),
{
    if paths.len() == 0 {
        Seq::<Seq<char>>::empty()
    } else if has_xn_ext(paths[0]) {
        seq![paths[0]] + xn_selection(paths.skip(1))
    } else {
        xn_selection(paths.skip(1))
    }
}

/// A walk that found nothing — an absent directory, or one without a
/// single file — selects nothing: the gathered set is empty, and
/// emptiness is never an error.
pub proof fn lemma_empty_walk_selects_nothing()
    ensures
        xn_selection(Seq::<Seq<char>>::empty()) == Seq::<Seq<char>>::empty(),
{
}

proof fn lemma_xn_selection_snoc(paths: Seq<Seq<char>>, p: Seq<char>)
    ensures
        xn_selection(paths.push(p)) == if has_xn_ext(p) {
            xn_selection(paths).push(p)
        } else {
            xn_selection(paths)
        },
    decreases paths.len(),
{
    if paths.len() == 0 {
        assert(paths.push(p)[0] == p);
        assert(paths.push(p).skip(1) =~= paths);
        if has_xn_ext(p) {
            assert(xn_selection(paths.push(p)) =~= xn_selection(paths).push(p));
        }
    } else {
        assert(paths.push(p)[0] == paths[0]);
        assert(paths.push(p).skip(1) =~= paths.skip(1).push(p));
        lemma_xn_selection_snoc(paths.skip(1), p);
        if has_xn_ext(p) {
            if has_xn_ext(paths[0]) {
                assert(xn_selection(paths.push(p)) =~= xn_selection(paths).push(p));
            } else {
                assert(xn_selection(paths.push(p)) =~= xn_selection(paths).push(p));
            }
        }
    }
}

/// Whether a path's file name carries the `.xn` extension.
#[verifier::loop_isolation(false)]
pub fn has_xn_extension(p: &str) -> (r: bool)
    ensures
        r == has_xn_ext(p@),
{
    let n = p.unicode_len();
    let mut start: usize = 0;
    let mut i: usize = 0;
    proof {
        assert(p@.take(0) =~= Seq::<char>::empty());
    }
    while i < n
        invariant
            i <= n,
            start <= i,
            start == basename_start(p@.take(i as int)),
        decreases n - i,
    {
        let c = p.get_char(i);
        proof {
            assert(p@.take(i + 1 as int)[i as int] == p@[i as int]);
            assert(p@.take(i + 1 as int).take(i as int) =~= p@.take(i as int));
        }
        if c == '/' {
            start = i + 1;
        }
        i = i + 1;
    }
    proof {
        assert(p@.take(n as int) =~= p@);
    }
    let ghost name = p@.skip(basename_start(p@));
    if n - start < 4 {
        return false;
    }
    let c1 = p.get_char(n - 3);
    let c2 = p.get_char(n - 2);
    let c3 = p.get_char(n - 1);
    let r = c1 == '.' && c2 == 'x' && c3 == 'n';
    proof {
        reveal_strlit(".xn");
        assert(name.len() == n - start);
        assert(forall|t: int| 0 <= t < name.len() ==> name[t] == p@[start + t]);
        let tail = name.subrange(name.len() - 3, name.len() as int);
        assert(tail[0] == p@[n - 3]);
        assert(tail[1] == p@[n - 2]);
        assert(tail[2] == p@[n - 1]);
        if r {
            assert(tail =~= ".xn"@);
        } else {
            if tail == ".xn"@ {
                assert(tail[0] == '.' && tail[1] == 'x' && tail[2] == 'n');
                assert(false);
            }
        }
    }
    r
}

/// The gathering rule on an already-walked directory: of the regular
/// files found, keep exactly those with the source extension, in the
/// walk's order. On an empty walk (an absent or empty directory) the
/// result is simply empty — never an error.
#[verifier::loop_isolation(false)]
pub fn select_xn_files(paths: &Vec<String>) -> (r: Vec<String>)
    ensures
        r.deep_view() == xn_selection(paths.deep_view()),
{
    let mut out: Vec<String> = Vec::new();
    let mut i: usize = 0;
    proof {
        assert(paths.deep_view().take(0) =~= Seq::<Seq<char>>::empty());
        assert(out.deep_view() =~= xn_selection(paths.deep_view().take(0)));
    }
    while i < paths.len()
        invariant
            i <= paths.len(),
            out.deep_view() == xn_selection(paths.deep_view().take(i as int)),
        decreases paths.len() - i,
    {
        let p = &paths[i];
        proof {
            assert(paths.deep_view()[i as int] == paths[i as int]@);
            assert(paths.deep_view().take(i + 1 as int) =~= paths.deep_view().take(i as int).push(
                p@,
            ));
            lemma_xn_selection_snoc(paths.deep_view().take(i as int), p@);
        }
        if has_xn_extension(p.as_str()) {
            out.push(p.clone());
            proof {
                assert(out.deep_view() =~= xn_selection(paths.deep_view().take(i + 1 as int)));
            }
        } else {
            proof {
                assert(out.deep_view() =~= xn_selection(paths.deep_view().take(i + 1 as int)));
            }
        }
        i = i + 1;
    }
    proof {
        assert(paths.deep_view().take(paths.deep_view().len() as int) =~= paths.deep_view());
    }
    out
}

/// The marker comment and verbatim text that one source contributes to
/// the merged input.
pub open spec fn merged_entry(f: FileModel) -> Seq<char> {
    "// Start of file: "@ + f.path + "\n"@ + f.contents + "\n"@
}

/// The merged input: each source's marker comment followed by its
/// verbatim contents, in the given order.
pub open spec fn merged_text(files: Seq<FileModel>) -> Seq<char>
    decreases files.len(),
{
    if files.len() == 0 {
        Seq::<char>::empty()
    } else {
        merged_entry(files[0]) + merged_text(files.skip(1))
    }
}

proof fn lemma_merged_text_snoc(files: Seq<FileModel>, f: FileModel)
    ensures
        merged_text(files.push(f)) == merged_text(files) + merged_entry(f),
    decreases files.len(),
{
    if files.len() == 0 {
        assert(files.push(f)[0] == f);
        assert(files.push(f).skip(1) =~= files);
        assert(merged_text(files.push(f)) =~= merged_text(files) + merged_entry(f));
    } else {
        assert(files.push(f)[0] == files[0]);
        assert(files.push(f).skip(1) =~= files.skip(1).push(f));
        lemma_merged_text_snoc(files.skip(1), f);
        assert(merged_text(files.push(f)) =~= merged_text(files) + merged_entry(f));
    }
}

/// Merges the gathered sources into the text of the one synthetic input
/// file. An empty set is a hard failure: a build must not be invoked
/// with nothing to compile.
#[verifier::loop_isolation(false)]
pub fn merge_files(files: &Vec<SourceFile>) -> (r: Result<String, XnError>)
    ensures
        files@.len() == 0 ==> r == Err::<String, XnError>(XnError::EmptyInput),
        files@.len() > 0 ==> r is Ok && r->Ok_0@ == merged_text(files.deep_view()),
{
    if files.len() == 0 {
        return Err(XnError::EmptyInput);
    }
    let mut out = String::new();
    let mut i: usize = 0;
    proof {
        assert(files.deep_view().take(0) =~= Seq::<FileModel>::empty());
        assert(out@ =~= merged_text(files.deep_view().take(0)));
    }
    while i < files.len()
        invariant
            i <= files.len(),
            out@ == merged_text(files.deep_view().take(i as int)),
        decreases files.len() - i,
    {
        let f = &files[i];
        out.append("// Start of file: ");
        out.append(f.path.as_str());
        out.append("\n");
        out.append(f.contents.as_str());
        out.append("\n");
        proof {
            assert(files.deep_view()[i as int] == files[i as int]@);
            assert(files.deep_view().take(i + 1 as int) =~= files.deep_view().take(i as int).push(
                f@,
            ));
            lemma_merged_text_snoc(files.deep_view().take(i as int), f@);
            assert(out@ =~= merged_text(files.deep_view().take(i + 1 as int)));
        }
        i = i + 1;
    }
    proof {
        assert(files.deep_view().take(files.deep_view().len() as int) =~= files.deep_view());
    }
    Ok(out)
}

} // verus!
