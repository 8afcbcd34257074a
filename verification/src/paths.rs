//! Output naming: the annotated copy of an input file goes into the output
//! directory under `<stem>_green.<extension>`, a pure function of the input
//! path and the output directory.

use vstd::prelude::*;

use crate::error::Error;

verus! {

/// Index of the last occurrence of `c` in `s`, or `-1` when there is none.
pub open spec fn rfind(s: Seq<char>, c: char) -> int
    decreases s.len(),
{
    if s.len() == 0 {
        -1
    } else if s[s.len() - 1] == c {
        s.len() - 1
    } else {
        rfind(s.drop_last(), c)
    }
}

/// Where the file name begins: right after the last `'/'`, or at the start
/// when the path has no directory part.
pub open spec fn name_start(s: Seq<char>) -> int {
    rfind(s, '/') + 1
}

/// The path's final component is `"."` or `".."`: a directory reference, not
/// a file name.
pub open spec fn dots_only_name(s: Seq<char>) -> bool {
    let ns = name_start(s);
    let len = s.len() - ns;
    (len == 1 && s[ns] == '.') || (len == 2 && s[ns] == '.' && s[ns + 1] == '.')
}

/// A path has an extension when its file name holds a `'.'` after its first
/// character. A name that starts with `'.'` (a hidden file) or has no dot at
/// all has none, and neither do the directory references `"."` and `".."`.
pub open spec fn path_has_extension(s: Seq<char>) -> bool {
    rfind(s, '.') > name_start(s) && !dots_only_name(s)
}

/// The derived output path: the input's stem with `_green` appended, its
/// original extension kept, inside the output directory.
pub open spec fn out_path(dir: Seq<char>, src: Seq<char>) -> Seq<char>
    recommends
        path_has_extension(src),
{
    dir + "/"@ + src.subrange(name_start(src), rfind(src, '.')) + "_green."@ + src.subrange(
        rfind(src, '.') + 1,
        src.len() as int,
    )
}

/// Backward scan for the last occurrence of `c`.
fn rfind_char(s: &str, c: char, n: usize) -> (r: Option<usize>)
    requires
        n == s@.len(),
    ensures
        match r {
            Some(j) => j < n && rfind(s@, c) == j,
            None => rfind(s@, c) == -1,
        },
{
    let mut i: usize = n;
    assert(s@.take(n as int) =~= s@);
    while i > 0
        invariant
            i <= n,
            n == s@.len(),
            rfind(s@, c) == rfind(s@.take(i as int), c),
        decreases i,
    {
        i = i - 1;
        if s.get_char(i) == c {
            assert(rfind(s@.take(i + 1 as int), c) == i);
            return Some(i);
        }
        assert(s@.take(i + 1 as int).drop_last() =~= s@.take(i as int));
    }
    assert(s@.take(0).len() == 0);
    None
}

/// Whether the path's final component is `"."` or `".."`.
fn name_is_dots(path: &str, ns: usize, n: usize) -> (r: bool)
    requires
        n == path@.len(),
        ns == name_start(path@),
        ns <= n,
    ensures
        r == dots_only_name(path@),
{
    if n - ns == 1 {
        path.get_char(ns) == '.'
    } else if n - ns == 2 {
        path.get_char(ns) == '.' && path.get_char(ns + 1) == '.'
    } else {
        false
    }
}

/// Whether a directory entry counts as a candidate image: it does when its
/// path carries a file extension; other entries are skipped silently.
pub fn has_extension(path: &str) -> (r: bool)
    ensures
        r == path_has_extension(path@),
{
    let n = path.unicode_len();
    let dot = rfind_char(path, '.', n);
    let slash = rfind_char(path, '/', n);
    let ns: usize = match slash {
        None => 0,
        Some(sl) => sl + 1,
    };
    let d: usize = match dot {
        None => {
            return false;
        },
        Some(d) => d,
    };
    d > ns && !name_is_dots(path, ns, n)
}

/// The message carried by the error a source path without an extension is
/// rejected with.
pub open spec fn no_extension_message(s: Seq<char>) -> Seq<char> {
    "File: \""@ + s + "\" has no file extension"@
}

/// Derives the output path for `source_file` inside `target_dir`: the stem
/// gets `_green` appended and the extension is kept. A source path without an
/// extension is rejected with a `FormatError` naming it.
pub fn output_file_path(target_dir: &str, source_file: &str) -> (r: Result<String, Error>)
    ensures
        r is Ok <==> path_has_extension(source_file@),
        r matches Ok(p) ==> p@ == out_path(target_dir@, source_file@),
        r matches Err(e) ==> e is FormatError && e.spec_message() == no_extension_message(
            source_file@,
        ),
{
    let n = source_file.unicode_len();
    let dot = rfind_char(source_file, '.', n);
    let slash = rfind_char(source_file, '/', n);
    let ns: usize = match slash {
        None => 0,
        Some(sl) => sl + 1,
    };
    let d: usize = match dot {
        None => 0,
        Some(d) => d,
    };
    if dot.is_none() || d <= ns || name_is_dots(source_file, ns, n) {
        let msg = String::from_str("File: \"").concat(source_file).concat(
            "\" has no file extension",
        );
        return Err(Error::FormatError(msg));
    }
    let mut out = String::from_str(target_dir);
    out.append("/");
    out.append(source_file.substring_char(ns, d));
    out.append("_green.");
    out.append(source_file.substring_char(d + 1, n));
    assert(out@ =~= out_path(target_dir@, source_file@));
    Ok(out)
}

} // verus!
