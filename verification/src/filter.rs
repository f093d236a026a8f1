use vstd::prelude::*;
use vstd::string::StrSliceExecFns;
use vstd::string::StringExecFns;

verus! {

/// The final component of a path: everything after the last `/`, or the whole
/// path when it has no separator.
pub open spec fn file_name_of(p: Seq<char>) -> Seq<char>
    decreases p.len(),
{
    if p.len() == 0 {
        Seq::empty()
    } else if p.last() == '/' {
        Seq::empty()
    } else {
        file_name_of(p.drop_last()).push(p.last())
    }
}

/// The extension of a file name: the characters after the last `.`, provided
/// that dot is not the leading character (a name that starts with its only
/// dot is a hidden file, not a name with an extension).
pub open spec fn ext_of_name(name: Seq<char>) -> Option<Seq<char>>
    decreases name.len(),
{
    if name.len() <= 1 {
        None
    } else if name.last() == '.' {
        Some(Seq::empty())
    } else {
        match ext_of_name(name.drop_last()) {
            Some(e) => Some(e.push(name.last())),
            None => None,
        }
    }
}

/// The extension of a path: the extension of its final component.
pub open spec fn ext_of(p: Seq<char>) -> Option<Seq<char>> {
    ext_of_name(file_name_of(p))
}

proof fn lemma_file_name_no_sep(p: Seq<char>)
    requires
        forall|k: int| 0 <= k < p.len() ==> p[k] != '/',
    ensures
        file_name_of(p) == p,
    decreases p.len(),
{
    if p.len() > 0 {
        lemma_file_name_no_sep(p.drop_last());
        assert(p.drop_last().push(p.last()) =~= p);
    } else {
        assert(Seq::<char>::empty() =~= p);
    }
}

proof fn lemma_file_name_after_sep(p: Seq<char>, sep: int)
    requires
        0 <= sep < p.len(),
        p[sep] == '/',
        forall|k: int| sep < k < p.len() ==> p[k] != '/',
    ensures
        file_name_of(p) == p.subrange(sep + 1, p.len() as int),
    decreases p.len(),
{
    if sep == p.len() - 1 {
        assert(file_name_of(p) =~= p.subrange(sep + 1, p.len() as int));
    } else {
        lemma_file_name_after_sep(p.drop_last(), sep);
        assert(p.drop_last().subrange(sep + 1, p.len() - 1).push(p.last()) =~= p.subrange(
            sep + 1,
            p.len() as int,
        ));
    }
}

proof fn lemma_ext_name_no_dot(name: Seq<char>)
    requires
        forall|k: int| 1 <= k < name.len() ==> name[k] != '.',
    ensures
        ext_of_name(name) is None,
    decreases name.len(),
{
    if name.len() > 1 {
        lemma_ext_name_no_dot(name.drop_last());
    }
}

proof fn lemma_ext_name_last_dot(name: Seq<char>, d: int)
    requires
        1 <= d < name.len(),
        name[d] == '.',
        forall|k: int| d < k < name.len() ==> name[k] != '.',
    ensures
        ext_of_name(name) == Some(name.subrange(d + 1, name.len() as int)),
    decreases name.len(),
{
    if d == name.len() - 1 {
        assert(Seq::<char>::empty() =~= name.subrange(d + 1, name.len() as int));
    } else {
        lemma_ext_name_last_dot(name.drop_last(), d);
        assert(name.drop_last().subrange(d + 1, name.len() - 1).push(name.last()) =~= name.subrange(
            d + 1,
            name.len() as int,
        ));
    }
}

/// Extract the extension of `path`, if its final component has one.
pub fn extension_of(path: &String) -> (r: Option<String>)
    ensures
        r is Some <==> ext_of(path@) is Some,
        r matches Some(e) ==> ext_of(path@) == Some(e@),
{
    let s: &str = path.as_str();
    let n: usize = s.unicode_len();
    let mut name_start: usize = 0;
    let mut dot: usize = 0;
    let mut has_dot: bool = false;
    let mut j: usize = 0;
    while j < n
        invariant
            j <= n,
            n == path@.len(),
            s@ == path@,
            name_start <= j,
            name_start == 0 ==> forall|k: int| 0 <= k < j ==> path@[k] != '/',
            name_start > 0 ==> path@[name_start - 1] == '/',
            forall|k: int| name_start <= k < j ==> path@[k] != '/',
            !has_dot ==> forall|k: int| name_start + 1 <= k < j ==> path@[k] != '.',
            has_dot ==> name_start + 1 <= dot < j && path@[dot as int] == '.',
            has_dot ==> forall|k: int| dot < k < j ==> path@[k] != '.',
        decreases n - j,
    {
        let c = s.get_char(j);
        if c == '/' {
            name_start = j + 1;
            has_dot = false;
        } else if c == '.' && j > name_start {
            dot = j;
            has_dot = true;
        }
        j = j + 1;
    }
    proof {
        if name_start == 0 {
            lemma_file_name_no_sep(path@);
            assert(file_name_of(path@) =~= path@.subrange(name_start as int, n as int));
        } else {
            lemma_file_name_after_sep(path@, name_start - 1);
        }
    }
    let ghost name = file_name_of(path@);
    if has_dot {
        proof {
            lemma_ext_name_last_dot(name, dot - name_start);
            assert(name.subrange(dot - name_start + 1, name.len() as int) =~= path@.subrange(
                dot + 1,
                n as int,
            ));
        }
        Some(String::from_str(s.substring_char(dot + 1, n)))
    } else {
        proof {
            lemma_ext_name_no_dot(name);
        }
        None
    }
}

/// What `str::to_lowercase` returns for a given character sequence.
pub uninterp spec fn lower_of(s: Seq<char>) -> Seq<char>;

/// Relies on str::to_lowercase: returns the lowercased copy of the string, a
/// function of its characters alone.
#[verifier::external_body]
fn to_lowercase(s: &str) -> (r: String)
    ensures
        r@ == lower_of(s@),
{
    s.to_lowercase()
}

/// Some entry of the allow-list equals the extension, case-insensitively.
pub open spec fn ext_matches(allow: Seq<String>, e: Seq<char>) -> bool {
    exists|i: int| 0 <= i < allow.len() && lower_of(allow[i]@) == lower_of(e)
}

/// Extension policy: an empty allow-list passes every path; a non-empty one
/// passes exactly the paths whose extension matches some entry,
/// case-insensitively, and rejects paths without an extension.
pub open spec fn spec_accepts_extension(allow: Seq<String>, path: Seq<char>) -> bool {
    allow.len() == 0 || (ext_of(path) matches Some(e) && ext_matches(allow, e))
}

/// Decide extension filtering for `path` against `allow`.
pub fn accepts_extension(allow: &Vec<String>, path: &String) -> (r: bool)
    ensures
        r == spec_accepts_extension(allow@, path@),
{
    if allow.len() == 0 {
        return true;
    }
    match extension_of(path) {
        None => false,
        Some(e) => {
            let le = to_lowercase(e.as_str());
            let mut i: usize = 0;
            let mut found: bool = false;
            while i < allow.len()
                invariant
                    i <= allow.len(),
                    le@ == lower_of(e@),
                    ext_of(path@) == Some(e@),
                    !found ==> forall|k: int| 0 <= k < i ==> lower_of(allow@[k]@) != lower_of(e@),
                    found ==> ext_matches(allow@, e@),
                decreases allow.len() - i,
            {
                let la = to_lowercase(allow[i].as_str());
                if la == le {
                    found = true;
                }
                i = i + 1;
            }
            found
        },
    }
}

/// The whole per-path policy: a candidate becomes a scan job exactly when it
/// still refers to an existing regular file and passes extension filtering.
/// The caller probes the filesystem immediately before this decision and
/// passes what it saw as `is_regular_file`.
pub open spec fn spec_should_submit(
    is_regular_file: bool,
    allow: Seq<String>,
    path: Seq<char>,
) -> bool {
    is_regular_file && spec_accepts_extension(allow, path)
}

/// Decide whether a candidate path becomes a scan job.
pub fn should_submit(is_regular_file: bool, allow: &Vec<String>, path: &String) -> (r: bool)
    ensures
        r == spec_should_submit(is_regular_file, allow@, path@),
{
    is_regular_file && accepts_extension(allow, path)
}

/// Filtering law: with an empty allow-list the decision is the file check
/// alone — every existing regular file is accepted, and every path that is
/// not an existing regular file is rejected.
pub proof fn lemma_empty_allow_list(is_regular_file: bool, allow: Seq<String>, path: Seq<char>)
    requires
        allow.len() == 0,
    ensures
        spec_should_submit(is_regular_file, allow, path) == is_regular_file,
{
}

} // verus!
