use vstd::prelude::*;
use crate::text::{contains, ends_with, has_substring, is_suffix, lower_of, lowercase};

verus! {

/// File-name endings (lower case) that mark program source.
pub open spec fn source_extensions() -> Seq<Seq<char>> {
    seq![
        ".py"@, ".js"@, ".ts"@, ".rs"@, ".go"@, ".java"@, ".rb"@, ".php"@,
        ".cs"@, ".swift"@, ".kt"@, ".dart"@, ".c"@, ".cpp"@, ".h"@, ".vue"@,
        ".svelte"@, ".jsx"@, ".tsx"@, ".lua"@, ".sh"@, ".pl"@,
    ]
}

/// Name fragments (lower case) that mark an entry point.
pub open spec fn entry_markers() -> Seq<Seq<char>> {
    seq![
        "main."@, "app."@, "index."@, "server."@, "program."@, "__main__."@,
        "mod."@, "lib."@, "init."@, "cli."@, "run."@, "start."@, "bot."@,
    ]
}

pub open spec fn ends_with_any(s: Seq<char>, list: Seq<Seq<char>>) -> bool {
    exists|i: int| 0 <= i < list.len() && is_suffix(s, list[i])
}

pub open spec fn contains_any(s: Seq<char>, list: Seq<Seq<char>>) -> bool {
    exists|i: int| 0 <= i < list.len() && has_substring(s, list[i])
}

/// A lower-case file name that ends in a source extension.
pub open spec fn is_source_name(lower: Seq<char>) -> bool {
    ends_with_any(lower, source_extensions())
}

/// A lower-case file name that holds an entry-point marker.
pub open spec fn is_entry_name(lower: Seq<char>) -> bool {
    contains_any(lower, entry_markers())
}

fn source_extension_table() -> (r: Vec<&'static str>)
    ensures
        r@.len() == source_extensions().len(),
        forall|i: int| 0 <= i < r@.len() ==> r@[i]@ == source_extensions()[i],
{
    vec![
        ".py", ".js", ".ts", ".rs", ".go", ".java", ".rb", ".php",
        ".cs", ".swift", ".kt", ".dart", ".c", ".cpp", ".h", ".vue",
        ".svelte", ".jsx", ".tsx", ".lua", ".sh", ".pl",
    ]
}

fn entry_marker_table() -> (r: Vec<&'static str>)
    ensures
        r@.len() == entry_markers().len(),
        forall|i: int| 0 <= i < r@.len() ==> r@[i]@ == entry_markers()[i],
{
    vec![
        "main.", "app.", "index.", "server.", "program.", "__main__.",
        "mod.", "lib.", "init.", "cli.", "run.", "start.", "bot.",
    ]
}

fn ends_with_one_of(s: &str, list: &Vec<&'static str>) -> (r: bool)
    ensures
        r == (exists|i: int| 0 <= i < list@.len() && is_suffix(s@, list@[i]@)),
{
    let mut i: usize = 0;
    while i < list.len()
        invariant
            i <= list@.len(),
            forall|k: int| 0 <= k < i ==> !is_suffix(s@, list@[k]@),
        decreases list@.len() - i,
    {
        if ends_with(s, list[i]) {
            return true;
        }
        i = i + 1;
    }
    false
}

fn contains_one_of(s: &str, list: &Vec<&'static str>) -> (r: bool)
    ensures
        r == (exists|i: int| 0 <= i < list@.len() && has_substring(s@, list@[i]@)),
{
    let mut i: usize = 0;
    while i < list.len()
        invariant
            i <= list@.len(),
            forall|k: int| 0 <= k < i ==> !has_substring(s@, list@[k]@),
        decreases list@.len() - i,
    {
        if contains(s, list[i]) {
            return true;
        }
        i = i + 1;
    }
    false
}

/// Whether a lower-case file name ends in a source extension.
pub fn is_source_lowered(lower: &str) -> (r: bool)
    ensures
        r == is_source_name(lower@),
{
    let table = source_extension_table();
    let r = ends_with_one_of(lower, &table);
    proof {
        if r {
            let i = choose|i: int| 0 <= i < table@.len() && is_suffix(lower@, table@[i]@);
            assert(is_suffix(lower@, source_extensions()[i]));
        }
    }
    r
}

/// Whether a lower-case file name holds an entry-point marker.
pub fn is_main_lowered(lower: &str) -> (r: bool)
    ensures
        r == is_entry_name(lower@),
{
    let table = entry_marker_table();
    let r = contains_one_of(lower, &table);
    proof {
        if r {
            let i = choose|i: int| 0 <= i < table@.len() && has_substring(lower@, table@[i]@);
            assert(has_substring(lower@, entry_markers()[i]));
        }
    }
    r
}

/// Whether a file name, compared in lower case, ends in a source extension.
pub fn is_source_file(name: &str) -> (r: bool)
    ensures
        r == is_source_name(lower_of(name@)),
{
    let lower = lowercase(name);
    is_source_lowered(lower.as_str())
}

/// Whether a file name, compared in lower case, holds an entry-point marker.
pub fn is_main_file(name: &str) -> (r: bool)
    ensures
        r == is_entry_name(lower_of(name@)),
{
    let lower = lowercase(name);
    is_main_lowered(lower.as_str())
}

/// The files among the first `n` whose lower-case names (in `lowered`) are
/// source files, and entry points as well when `entry_only` holds; in order.
pub open spec fn picked(files: Seq<Seq<char>>, lowered: Seq<Seq<char>>, n: int, entry_only: bool) -> Seq<Seq<char>>
    decreases n,
{
    if n <= 0 {
        Seq::empty()
    } else {
        let rest = picked(files, lowered, n - 1, entry_only);
        let l = lowered[n - 1];
        if is_source_name(l) && (!entry_only || is_entry_name(l)) {
            rest.push(files[n - 1])
        } else {
            rest
        }
    }
}

/// Source files worth reading: entry-point sources if there are any, else
/// any sources; at most two, in listing order.
pub open spec fn source_targets(files: Seq<Seq<char>>, lowered: Seq<Seq<char>>) -> Seq<Seq<char>> {
    let main = picked(files, lowered, files.len() as int, true);
    let t = if main.len() > 0 {
        main
    } else {
        picked(files, lowered, files.len() as int, false)
    };
    if t.len() <= 2 {
        t
    } else {
        t.take(2)
    }
}

/// Every name of a listing in lower case.
pub open spec fn lowered_all(files: Seq<Seq<char>>) -> Seq<Seq<char>> {
    files.map_values(|f: Seq<char>| lower_of(f))
}

fn pick_files(files: &Vec<String>, lowered: &Vec<String>, entry_only: bool) -> (r: Vec<String>)
    requires
        lowered@.len() == files@.len(),
    ensures
        r.deep_view() == picked(files.deep_view(), lowered.deep_view(), files@.len() as int, entry_only),
{
    let mut r: Vec<String> = Vec::new();
    let mut i: usize = 0;
    while i < files.len()
        invariant
            i <= files@.len(),
            lowered@.len() == files@.len(),
            r.deep_view() == picked(files.deep_view(), lowered.deep_view(), i as int, entry_only),
        decreases files@.len() - i,
    {
        let l = lowered[i].as_str();
        let take = is_source_lowered(l) && (!entry_only || is_main_lowered(l));
        if take {
            let f = files[i].clone();
            let ghost before = r.deep_view();
            r.push(f);
            proof {
                assert(r.deep_view() =~= before.push(files.deep_view()[i as int]));
            }
        }
        i = i + 1;
    }
    r
}

/// Picks the files to read from a listing whose lower-case names are given
/// beside it.
pub fn pick_targets(files: &Vec<String>, lowered: &Vec<String>) -> (r: Vec<String>)
    requires
        lowered@.len() == files@.len(),
    ensures
        r.deep_view() == source_targets(files.deep_view(), lowered.deep_view()),
{
    let main = pick_files(files, lowered, true);
    let mut t = if main.len() > 0 {
        main
    } else {
        pick_files(files, lowered, false)
    };
    if t.len() > 2 {
        t.truncate(2);
        proof {
            assert(t.deep_view() =~= source_targets(files.deep_view(), lowered.deep_view()));
        }
    }
    t
}

/// Picks the files to read from a directory listing: up to two source
/// files, entry points first (names compared in lower case).
pub fn select_source_targets(files: &Vec<String>) -> (r: Vec<String>)
    ensures
        r.deep_view() == source_targets(files.deep_view(), lowered_all(files.deep_view())),
{
    let mut lowered: Vec<String> = Vec::new();
    let mut i: usize = 0;
    while i < files.len()
        invariant
            i <= files@.len(),
            lowered.deep_view() == lowered_all(files.deep_view()).take(i as int),
        decreases files@.len() - i,
    {
        let l = lowercase(files[i].as_str());
        let ghost before = lowered.deep_view();
        lowered.push(l);
        proof {
            assert(lowered.deep_view() =~= before.push(lower_of(files.deep_view()[i as int])));
            assert(lowered.deep_view() =~= lowered_all(files.deep_view()).take(i + 1));
        }
        i = i + 1;
    }
    proof {
        assert(lowered.deep_view() =~= lowered_all(files.deep_view()));
    }
    pick_targets(files, &lowered)
}

} // verus!
