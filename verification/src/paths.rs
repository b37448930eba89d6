use vstd::prelude::*;

verus! {

/// The directory part of a `/`-separated URI: all that comes before its last
/// `/`, or nothing where it holds none.
pub open spec fn spec_parent_uri(s: Seq<char>) -> Seq<char>
    decreases s.len(),
{
    if s.len() == 0 {
        Seq::empty()
    } else if s.last() == '/' {
        s.drop_last()
    } else {
        spec_parent_uri(s.drop_last())
    }
}

/// The directory that holds the file of a `/`-separated URI: the URI split at
/// each `/`, its last segment dropped, and the rest joined again with `/`.
pub fn parent_uri(input_path: &str) -> (r: String)
    ensures
        r@ == spec_parent_uri(input_path@),
{
    broadcast use vstd::string::group_string_axioms;
    let mut last_slash: Option<usize> = None;
    let mut idx: usize = 0;
    let n = input_path.unicode_len();
    for c in it: input_path.chars()
        invariant
            it.seq() == input_path@,
            idx == it.index(),
            idx <= input_path@.len(),
            n == input_path@.len(),
            match last_slash {
                Some(k) => k < idx && spec_parent_uri(input_path@.subrange(0, idx as int))
                    == input_path@.subrange(0, k as int),
                None => spec_parent_uri(input_path@.subrange(0, idx as int)) == Seq::<char>::empty(),
            },
    {
        let ghost prefix = input_path@.subrange(0, idx as int);
        assert(input_path@.subrange(0, idx + 1).drop_last() =~= prefix);
        if c == '/' {
            last_slash = Some(idx);
        }
        idx = idx + 1;
    }
    assert(input_path@.subrange(0, idx as int) =~= input_path@);
    match last_slash {
        Some(k) => String::from_str(input_path.substring_char(0, k)),
        None => String::new(),
    }
}

/// The directory part of a URI is the URI cut just before its last `/`; a URI
/// without `/` has an empty directory part.
pub proof fn lemma_parent_uri_before_last_slash(s: Seq<char>)
    ensures
        ({
            let p = spec_parent_uri(s);
            ||| p.len() == 0 && !s.contains('/')
            ||| {
                &&& p.len() < s.len()
                &&& p =~= s.subrange(0, p.len() as int)
                &&& s[p.len() as int] == '/'
                &&& !s.subrange(p.len() + 1int, s.len() as int).contains('/')
            }
        }),
    decreases s.len(),
{
    if s.len() == 0 {
    } else if s.last() == '/' {
        let p = spec_parent_uri(s);
        assert(s.subrange(p.len() + 1int, s.len() as int) =~= Seq::<char>::empty());
    } else {
        let t = s.drop_last();
        lemma_parent_uri_before_last_slash(t);
        let p = spec_parent_uri(s);
        assert(p == spec_parent_uri(t));
        if p.len() == 0 && !t.contains('/') {
            if s.contains('/') {
                let i = choose|i: int| 0 <= i < s.len() && s[i] == '/';
                if i < t.len() {
                    assert(t[i] == '/');
                }
            }
        } else {
            let rest_t = t.subrange(p.len() + 1int, t.len() as int);
            let rest_s = s.subrange(p.len() + 1int, s.len() as int);
            assert(rest_s =~= rest_t.push(s.last()));
            if rest_s.contains('/') {
                let i = choose|i: int| 0 <= i < rest_s.len() && rest_s[i] == '/';
                if i < rest_t.len() {
                    assert(rest_t[i] == '/');
                }
            }
            assert(p =~= s.subrange(0, p.len() as int));
        }
    }
}

/// The directory to write output into, given the parent of the input path:
/// that parent where there is a non-empty one, else `None`, which stands for
/// the working directory.
pub fn output_dir_from_parent(parent: Option<String>) -> (r: Option<String>)
    ensures
        r == (match parent {
            Some(p) => if p@.len() > 0 { Some(p) } else { None },
            None => None,
        }),
{
    match parent {
        Some(p) => if p.as_str().is_empty() { None } else { Some(p) },
        None => None,
    }
}

/// A document URI as the Android file system hands it out: the URI, and the
/// tree URI of the directory that access was granted to, where there is one.
pub struct DocumentUri {
    pub uri: String,
    pub document_top_tree_uri: Option<String>,
}

/// What to do about the output directory: write into it, or first ask the
/// user to grant a directory, starting from this one.
pub enum OutputDirStep {
    Use(DocumentUri),
    Pick(DocumentUri),
}

/// A directory that comes from a directory picker (it has a tree URI) can be
/// written into; for any other, the user is asked first.
pub fn output_dir_step(dir: DocumentUri) -> (r: OutputDirStep)
    ensures
        dir.document_top_tree_uri is Some ==> r == OutputDirStep::Use(dir),
        dir.document_top_tree_uri is None ==> r == OutputDirStep::Pick(dir),
{
    if dir.document_top_tree_uri.is_some() {
        OutputDirStep::Use(dir)
    } else {
        OutputDirStep::Pick(dir)
    }
}

/// Message when the user grants no output directory.
pub open spec fn no_output_dir_message() -> Seq<char> {
    "未授予输出目录写入权限，请重新选择目录"@
}

/// The outcome of asking for an output directory: the one picked, or an error.
pub fn picked_output_dir(picked: Option<DocumentUri>) -> (r: Result<DocumentUri, String>)
    ensures
        picked matches Some(d) ==> r == Ok::<DocumentUri, String>(d),
        picked is None ==> (r matches Err(e) && e@ == no_output_dir_message()),
{
    broadcast use vstd::string::group_string_axioms;
    match picked {
        Some(d) => Ok(d),
        None => Err("未授予输出目录写入权限，请重新选择目录".to_string()),
    }
}

/// Message when the file picker returns no file.
pub open spec fn no_input_file_message() -> Seq<char> {
    "文件选择器无返回文件"@
}

/// The outcome of asking for an input file: the one picked, or an error.
pub fn picked_input_file(picked: Option<DocumentUri>) -> (r: Result<DocumentUri, String>)
    ensures
        picked matches Some(d) ==> r == Ok::<DocumentUri, String>(d),
        picked is None ==> (r matches Err(e) && e@ == no_input_file_message()),
{
    broadcast use vstd::string::group_string_axioms;
    match picked {
        Some(d) => Ok(d),
        None => Err("文件选择器无返回文件".to_string()),
    }
}

/// The path or URI that a picker returned, or the empty text where it returned none.
pub fn picked_or_empty(picked: Option<String>) -> (r: String)
    ensures
        r@ == (match picked {
            Some(p) => p@,
            None => Seq::<char>::empty(),
        }),
{
    match picked {
        Some(p) => p,
        None => String::new(),
    }
}

} // verus!
