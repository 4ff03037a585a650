use vstd::prelude::*;

use crate::utils;

verus! {

pub open spec fn is_path_sep(c: char) -> bool {
    c == '/' || c == '\\'
}

pub open spec fn trim_end_seps(s: Seq<char>) -> Seq<char>
    decreases s.len(),
{
    if s.len() > 0 && is_path_sep(s.last()) {
        trim_end_seps(s.drop_last())
    } else {
        s
    }
}

pub open spec fn suffix_after_last_sep(s: Seq<char>) -> Seq<char>
    decreases s.len(),
{
    if s.len() == 0 {
        s
    } else if is_path_sep(s.last()) {
        Seq::empty()
    } else {
        suffix_after_last_sep(s.drop_last()).push(s.last())
    }
}

/// The final component of a directory path: trailing separators are
/// ignored, and a path that ends in nothing or in a parent reference has no
/// usable name.
pub open spec fn spec_dir_file_name(p: Seq<char>) -> Option<Seq<char>> {
    let name = suffix_after_last_sep(trim_end_seps(p));
    if name.len() == 0 || (name.len() == 2 && name[0] == '.' && name[1] == '.') {
        None
    } else {
        Some(name)
    }
}

proof fn lemma_suffix_skip(s: Seq<char>, j: int)
    requires
        0 <= j <= s.len(),
        forall|k: int| j <= k < s.len() ==> !is_path_sep(#[trigger] s[k]),
        j > 0 ==> is_path_sep(s[j - 1]),
    ensures
        suffix_after_last_sep(s) == s.skip(j),
    decreases s.len(),
{
    if s.len() == 0 {
        assert(s.skip(0) =~= s);
    } else if j == s.len() {
        assert(is_path_sep(s.last()));
        assert(s.skip(j) =~= Seq::<char>::empty());
    } else {
        assert(!is_path_sep(s.last()));
        let b = s.drop_last();
        assert(forall|k: int| j <= k < b.len() ==> !is_path_sep(#[trigger] b[k]));
        lemma_suffix_skip(b, j);
        assert(b.skip(j).push(s.last()) =~= s.skip(j));
    }
}

fn trim_end_seps_vec(v: &mut Vec<char>)
    ensures
        final(v)@ == trim_end_seps(old(v)@),
{
    loop
        invariant
            trim_end_seps(v@) == trim_end_seps(old(v)@),
        ensures
            v@.len() == 0 || !is_path_sep(v@.last()),
        decreases v@.len(),
    {
        if v.len() > 0 {
            let c = v[v.len() - 1];
            if c == '/' || c == '\\' {
                let ghost pre = v@;
                v.pop();
                assert(v@ =~= pre.drop_last());
                continue;
            }
        }
        break;
    }
}

/// The final component of a directory path, as text.
pub fn dir_file_name(path: &str) -> (r: Option<String>)
    ensures
        r is Some <==> spec_dir_file_name(path@) is Some,
        r is Some ==> r->0@ == spec_dir_file_name(path@)->0,
{
    let mut v = utils::chars_of(path);
    trim_end_seps_vec(&mut v);
    let n = v.len();
    let mut j: usize = 0;
    let mut i: usize = 0;
    while i < n
        invariant
            n == v@.len(),
            0 <= j <= i <= n,
            forall|k: int| j <= k < i ==> !is_path_sep(#[trigger] v@[k]),
            j > 0 ==> is_path_sep(v@[j - 1]),
        decreases n - i,
    {
        let c = v[i];
        if c == '/' || c == '\\' {
            j = i + 1;
        }
        i += 1;
    }
    proof {
        lemma_suffix_skip(v@, j as int);
    }
    let mut name: Vec<char> = Vec::new();
    let mut k: usize = j;
    while k < n
        invariant
            n == v@.len(),
            j <= k <= n,
            name@ == v@.subrange(j as int, k as int),
        decreases n - k,
    {
        name.push(v[k]);
        k += 1;
        assert(name@ =~= v@.subrange(j as int, k as int));
    }
    assert(name@ =~= v@.skip(j as int));
    if name.len() == 0 {
        return None;
    }
    if name.len() == 2 && name[0] == '.' && name[1] == '.' {
        return None;
    }
    Some(utils::string_from_chars(&name))
}

/// One chapter of a comic, as the scheduler and the metadata sidecar see
/// it. The download directory is known only once the chapter exists on
/// disk.
#[derive(Debug, Clone)]
pub struct ChapterInfo {
    pub chapter_id: i64,
    pub chapter_title: String,
    pub order: i64,
    pub is_downloaded: Option<bool>,
    pub chapter_download_dir: Option<String>,
}

impl ChapterInfo {
    /// The chapter as it is written to its metadata sidecar: the ephemeral
    /// download markers are cleared so that only identity remains.
    pub fn metadata_form(&self) -> (r: ChapterInfo)
        ensures
            r.chapter_id == self.chapter_id,
            r.chapter_title == self.chapter_title,
            r.order == self.order,
            r.is_downloaded is None,
            r.chapter_download_dir is None,
    {
        ChapterInfo {
            chapter_id: self.chapter_id,
            chapter_title: self.chapter_title.clone(),
            order: self.order,
            is_downloaded: None,
            chapter_download_dir: None,
        }
    }

    /// The name of the chapter's download directory: the final component of
    /// its path. Fails when no directory is recorded or the path has no
    /// usable final component.
    pub fn get_chapter_download_dir_name(&self) -> (r: Result<String, String>)
        ensures
            self.chapter_download_dir is None ==> r is Err,
            self.chapter_download_dir is Some ==> match spec_dir_file_name(
                self.chapter_download_dir->0@,
            ) {
                Some(name) => r is Ok && r->Ok_0@ == name,
                None => r is Err,
            },
    {
        let dir = match &self.chapter_download_dir {
            Some(d) => d,
            None => {
                return Err("chapter download dir is not set".to_owned());
            },
        };
        match dir_file_name(dir.as_str()) {
            Some(name) => Ok(name),
            None => Err("chapter download dir has no usable name".to_owned()),
        }
    }
}

} // verus!
