//! Small helpers on paths held as plain strings.

use vstd::prelude::*;

verus! {

/// The characters of `s` after its last `'/'`: the whole of `s` when it
/// holds no separator, empty when it ends with one.
pub open spec fn suffix_after_slash(s: Seq<char>) -> Seq<char>
    decreases s.len(),
{
    if s.len() == 0 {
        s
    } else if s.last() == '/' {
        Seq::empty()
    } else {
        suffix_after_slash(s.drop_last()).push(s.last())
    }
}

/// The last path component of `s`: trailing separators are stripped first,
/// then the characters after the last remaining `'/'` are taken. Empty when
/// no component remains (an empty path, or separators only).
pub open spec fn last_component(s: Seq<char>) -> Seq<char>
    decreases s.len(),
{
    if s.len() == 0 {
        Seq::empty()
    } else if s.last() == '/' {
        last_component(s.drop_last())
    } else {
        suffix_after_slash(s)
    }
}

/// The file name shown for a path: its last component, or `"Unknown"` when
/// the path has none.
pub open spec fn file_name_of(s: Seq<char>) -> Seq<char> {
    if last_component(s).len() == 0 {
        "Unknown"@
    } else {
        last_component(s)
    }
}

proof fn lemma_suffix_after_slash(s: Seq<char>, cut: int)
    requires
        0 <= cut <= s.len(),
        cut == 0 || s[cut - 1] == '/',
        forall|j: int| cut <= j < s.len() ==> #[trigger] s[j] != '/',
    ensures
        suffix_after_slash(s) == s.subrange(cut, s.len() as int),
    decreases s.len(),
{
    if s.len() == 0 {
        assert(suffix_after_slash(s) =~= s.subrange(cut, s.len() as int));
    } else if cut == s.len() {
        assert(s.last() == '/');
        assert(suffix_after_slash(s) =~= s.subrange(cut, s.len() as int));
    } else {
        assert(s.last() != '/');
        lemma_suffix_after_slash(s.drop_last(), cut);
        assert(suffix_after_slash(s) =~= s.subrange(cut, s.len() as int));
    }
}

proof fn lemma_last_component_strip(s: Seq<char>, end: int)
    requires
        0 <= end <= s.len(),
        forall|j: int| end <= j < s.len() ==> #[trigger] s[j] == '/',
    ensures
        last_component(s) == last_component(s.subrange(0, end)),
    decreases s.len() - end,
{
    if end == s.len() {
        assert(s.subrange(0, end) =~= s);
    } else {
        assert(s.last() == '/');
        assert(s.drop_last() =~= s.subrange(0, s.len() - 1));
        lemma_last_component_strip(s.drop_last(), end);
        assert(s.drop_last().subrange(0, end) =~= s.subrange(0, end));
    }
}

/// The file-name component of a path: the last component once trailing
/// separators are stripped, and `"Unknown"` for a path with no component
/// (empty, or separators only).
pub fn get_file_name(file: &str) -> (r: String)
    ensures
        r@ == file_name_of(file@),
{
    let n = file.unicode_len();
    let mut end: usize = n;
    loop
        invariant
            end <= n,
            n == file@.len(),
            forall|j: int| end <= j < n ==> #[trigger] file@[j] == '/',
        ensures
            end <= n,
            end == 0 || file@[end - 1] != '/',
            forall|j: int| end <= j < n ==> #[trigger] file@[j] == '/',
        decreases end,
    {
        if end == 0 {
            break;
        }
        let ch = file.get_char(end - 1);
        if ch != '/' {
            break;
        }
        end = end - 1;
    }
    let mut cut: usize = end;
    loop
        invariant
            cut <= end <= n,
            n == file@.len(),
            forall|j: int| cut <= j < end ==> #[trigger] file@[j] != '/',
        ensures
            cut <= end,
            cut == 0 || file@[cut - 1] == '/',
            forall|j: int| cut <= j < end ==> #[trigger] file@[j] != '/',
        decreases cut,
    {
        if cut == 0 {
            break;
        }
        let ch = file.get_char(cut - 1);
        if ch == '/' {
            break;
        }
        cut = cut - 1;
    }
    proof {
        lemma_last_component_strip(file@, end as int);
        let stripped = file@.subrange(0, end as int);
        if end > 0 {
            assert(stripped.last() != '/');
            assert(forall|j: int|
                cut <= j < stripped.len() ==> #[trigger] stripped[j] != '/');
            lemma_suffix_after_slash(stripped, cut as int);
            assert(stripped.subrange(cut as int, end as int) =~= file@.subrange(
                cut as int,
                end as int,
            ));
        }
    }
    if cut == end {
        String::from_str("Unknown")
    } else {
        let tail = file.substring_char(cut, end);
        tail.to_owned()
    }
}

} // verus!
