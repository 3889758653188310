//! Helpers shared by the commands: paths, module lines, ignore lists and line upserts.

use vstd::prelude::*;

use crate::text::{
    capitalized, char_to_uppercase_string, contains_string, lines, lines_of, lowercase,
    split_char, strip_cr, substring, to_lowercase,
};

verus! {

/// `base` joined with `name` as `Path::join` does on Unix: an absolute `name` replaces
/// `base`, and a separator goes between them unless `base` is empty or ends with one.
pub open spec fn joined_path(base: Seq<char>, name: Seq<char>) -> Seq<char> {
    if name.len() > 0 && name[0] == '/' {
        name
    } else if base.len() == 0 || base.last() == '/' {
        base + name
    } else {
        base + "/"@ + name
    }
}

/// Joins a path and a name.
pub fn path_join(base: &str, name: &str) -> (r: String)
    ensures
        r@ == joined_path(base@, name@),
{
    proof {
        reveal_strlit("/");
    }
    let n = name.unicode_len();
    if n > 0 && name.get_char(0) == '/' {
        return name.to_owned();
    }
    let b = base.unicode_len();
    if b == 0 || base.get_char(b - 1) == '/' {
        base.to_owned().concat(name)
    } else {
        base.to_owned().concat("/").concat(name)
    }
}

/// The line that declares module `name` in a `mod.rs` file.
pub open spec fn mod_line_of(name: Seq<char>) -> Seq<char> {
    "pub mod "@ + lowercase(name) + ";"@
}

/// The line that declares module `name`: `pub mod <lowercased name>;`.
pub fn mod_line(name: &str) -> (r: String)
    ensures
        r@ == mod_line_of(name@),
{
    "pub mod ".to_owned().concat(to_lowercase(name).as_str()).concat(";")
}

/// What a file holds after `line` is upserted into it: unchanged where one of its
/// lines is `line`, else `line` and a line feed appended.
pub open spec fn upserted(content: Seq<char>, line: Seq<char>) -> Option<Seq<char>> {
    if lines_of(content).contains(line) {
        None
    } else {
        Some(content + line + "\n"@)
    }
}

/// Upserts `line` into a file's content: `None` where the file already has that line,
/// else the new content.
pub fn upsert_line(content: &str, line: &str) -> (r: Option<String>)
    ensures
        match upserted(content@, line@) {
            None => r is None,
            Some(c) => r matches Some(s) && s@ == c,
        },
{
    proof {
        reveal_strlit("\n");
    }
    let ls = lines(content);
    let l = line.to_owned();
    if contains_string(&ls, &l) {
        None
    } else {
        Some(content.to_owned().concat(line).concat("\n"))
    }
}

/// Whether a path is listed in an ignore file's lines.
pub fn is_ignored(ignored: &Vec<String>, path: &String) -> (r: bool)
    ensures
        r == ignored.deep_view().contains(path@),
{
    contains_string(ignored, path)
}

/// What is written to a file for `content`: the content and a line feed.
pub fn file_content(content: &str) -> (r: String)
    ensures
        r@ == content@ + "\n"@,
{
    proof {
        reveal_strlit("\n");
    }
    content.to_owned().concat("\n")
}

/// What `write_to_file` writes: nothing where the file is ignored, else the joined path
/// and the content with a line feed.
pub fn file_to_write(ignored: &Vec<String>, base_path: &str, file_name: &str, content: &str) -> (r:
    Option<(String, String)>)
    ensures
        match r {
            None => ignored.deep_view().contains(joined_path(base_path@, file_name@)),
            Some((path, text)) => !ignored.deep_view().contains(joined_path(base_path@, file_name@))
                && path@ == joined_path(base_path@, file_name@) && text@ == content@ + "\n"@,
        },
{
    let path = path_join(base_path, file_name);
    if is_ignored(ignored, &path) {
        None
    } else {
        Some((path, file_content(content)))
    }
}

/// `name` with its first letter uppercased.
pub fn uppercase_first_letter(name: &str) -> (r: String)
    ensures
        r@ == capitalized(name@),
{
    let n = name.unicode_len();
    if n == 0 {
        String::new()
    } else {
        let first = char_to_uppercase_string(name.get_char(0));
        let rest = substring(name, 1, n);
        assert(rest@ =~= name@.drop_first());
        first.concat(rest.as_str())
    }
}

/// The directory that holds the generated project's test utilities.
pub open spec fn tests_utils_dir() -> Seq<char> {
    "tests/src/utils"@
}

/// The `mod.rs` file of the generated project's test utilities.
pub fn tests_util_modfile_path(base_path: &str) -> (r: String)
    ensures
        r@ == joined_path(joined_path(base_path@, tests_utils_dir()), "mod.rs"@),
{
    proof {
        reveal_strlit("tests/src/utils");
    }
    let dir = path_join(base_path, "tests/src/utils");
    path_join(dir.as_str(), "mod.rs")
}

/// Adds the declaration of test utility `util_name` to the content of the test
/// utilities' `mod.rs`: `None` where the declaration is already there, else the new
/// content.
pub fn add_tests_util_to_modfile(mod_file_content: &str, util_name: &str) -> (r: Option<String>)
    ensures
        match upserted(mod_file_content@, mod_line_of(util_name@)) {
            None => r is None,
            Some(c) => r matches Some(s) && s@ == c,
        },
{
    let line = mod_line(util_name);
    upsert_line(mod_file_content, line.as_str())
}


proof fn lemma_split_char_append(c: Seq<char>, l: Seq<char>, sep: char)
    requires
        !l.contains(sep),
    ensures
        split_char(c + l, sep) == split_char(c, sep).update(
            split_char(c, sep).len() - 1,
            split_char(c, sep).last() + l,
        ),
    decreases l.len(),
{
    crate::text::lemma_split_char_nonempty(c, sep);
    if l.len() == 0 {
        assert(c + l =~= c);
        assert(split_char(c, sep).last() + l =~= split_char(c, sep).last());
        assert(split_char(c, sep).update(split_char(c, sep).len() - 1, split_char(c, sep).last())
            =~= split_char(c, sep));
    } else {
        let l0 = l.drop_last();
        assert(!l0.contains(sep)) by {
            if l0.contains(sep) {
                let k = choose|k: int| 0 <= k < l0.len() && l0[k] == sep;
                assert(l[k] == sep);
            }
        }
        assert(l.last() != sep) by {
            assert(l[l.len() - 1] == l.last());
        }
        lemma_split_char_append(c, l0, sep);
        assert((c + l).drop_last() =~= c + l0);
        assert((c + l).last() == l.last());
        let p = split_char(c, sep);
        let rest = split_char(c + l0, sep);
        assert(rest == p.update(p.len() - 1, p.last() + l0));
        assert(rest.len() == p.len());
        assert(rest.last() == p.last() + l0);
        assert(split_char(c + l, sep) == rest.update(rest.len() - 1, rest.last().push(l.last())));
        assert((p.last() + l0).push(l.last()) =~= p.last() + l);
        assert(split_char(c + l, sep) =~= split_char(c, sep).update(
            split_char(c, sep).len() - 1,
            split_char(c, sep).last() + l,
        ));
    }
}

/// Upserting a line into a file that is empty or ends with a line feed appends the
/// line to the file's lines, where the line holds no line feed and does not end with a
/// carriage return.
pub proof fn lemma_lines_after_append(content: Seq<char>, line: Seq<char>)
    requires
        content.len() == 0 || content.last() == '\n',
        !line.contains('\n'),
        !(line.len() > 0 && line.last() == '\r'),
    ensures
        lines_of(content + line + "\n"@) == lines_of(content).push(line),
{
    reveal_strlit("\n");
    let parts = split_char(content, '\n');
    crate::text::lemma_split_char_nonempty(content, '\n');
    if content.len() > 0 {
        assert(content.drop_last() + seq![content.last()] =~= content);
    }
    assert(parts.last().len() == 0);
    lemma_split_char_append(content, line, '\n');
    let whole = content + line + "\n"@;
    assert(whole.drop_last() =~= content + line);
    assert(whole.last() == '\n');
    let parts2 = split_char(whole, '\n');
    assert(parts2 =~= parts.update(parts.len() - 1, parts.last() + line).push(Seq::empty()));
    assert(parts.last() + line =~= line);
    assert(strip_cr(line) == line);
    assert(lines_of(whole) =~= lines_of(content).push(line));
}

/// Upserting a line a second time leaves the file as the first upsert left it, where
/// the file is empty or ends with a line feed and the line holds no line feed and does
/// not end with a carriage return.
pub proof fn law_upsert_line_idempotent(content: Seq<char>, line: Seq<char>)
    requires
        content.len() == 0 || content.last() == '\n',
        !line.contains('\n'),
        !(line.len() > 0 && line.last() == '\r'),
    ensures
        upserted(content, line) matches Some(once) ==> upserted(once, line) is None,
        upserted(content, line) matches Some(once) ==> lines_of(once) == lines_of(content).push(
            line,
        ),
{
    if let Some(once) = upserted(content, line) {
        lemma_lines_after_append(content, line);
        assert(lines_of(once)[lines_of(content).len() as int] == line);
    }
}


/// Declaring a test utility a second time leaves the module file as the first declaration
/// left it, and after either the file has the declaration as one of its lines: where the
/// file is empty or ends with a line feed and the lowercased name holds no line feed.
pub proof fn law_add_tests_util_idempotent(content: Seq<char>, util_name: Seq<char>)
    requires
        content.len() == 0 || content.last() == '\n',
        !lowercase(util_name).contains('\n'),
    ensures
        upserted(content, mod_line_of(util_name)) matches Some(once) ==> upserted(
            once,
            mod_line_of(util_name),
        ) is None,
        match upserted(content, mod_line_of(util_name)) {
            Some(once) => lines_of(once).contains(mod_line_of(util_name)),
            None => lines_of(content).contains(mod_line_of(util_name)),
        },
{
    reveal_strlit("pub mod ");
    reveal_strlit(";");
    let line = mod_line_of(util_name);
    let name = lowercase(util_name);
    assert(line == "pub mod "@ + name + ";"@);
    assert(!line.contains('\n')) by {
        if line.contains('\n') {
            let k = choose|k: int| 0 <= k < line.len() && line[k] == '\n';
            if k >= 8 && k < 8 + name.len() {
                assert(name[k - 8] == '\n');
            }
        }
    }
    assert(line.last() == ';');
    law_upsert_line_idempotent(content, line);
    if let Some(once) = upserted(content, line) {
        assert(lines_of(once)[lines_of(content).len() as int] == line);
    }
}


/// Upserting a line that is already one of the file's lines, wherever it stands, leaves
/// the file unchanged.
pub proof fn law_upsert_keeps_a_present_line(content: Seq<char>, line: Seq<char>, i: int)
    requires
        0 <= i < lines_of(content).len(),
        lines_of(content)[i] == line,
    ensures
        upserted(content, line) is None,
{
    assert(lines_of(content).contains(line));
}

/// A file never ends up holding a line twice: after upserting `a` and then `b`, upserting
/// `a` again changes nothing, and the file's lines hold `a` once more than before only
/// where they did not hold it; where the file is empty or ends with a line feed and
/// neither line holds a line feed or ends with a carriage return.
pub proof fn law_upsert_never_duplicates(content: Seq<char>, a: Seq<char>, b: Seq<char>)
    requires
        content.len() == 0 || content.last() == '\n',
        !a.contains('\n'),
        !(a.len() > 0 && a.last() == '\r'),
        !b.contains('\n'),
        !(b.len() > 0 && b.last() == '\r'),
    ensures
        ({
            let c1 = match upserted(content, a) {
                Some(c) => c,
                None => content,
            };
            let c2 = match upserted(c1, b) {
                Some(c) => c,
                None => c1,
            };
            &&& lines_of(c1).contains(a)
            &&& lines_of(c2).contains(a)
            &&& upserted(c2, a) is None
        }),
{
    reveal_strlit("\n");
    let c1 = match upserted(content, a) {
        Some(c) => c,
        None => content,
    };
    if let Some(c) = upserted(content, a) {
        lemma_lines_after_append(content, a);
        assert(lines_of(c1)[lines_of(content).len() as int] == a);
        assert(c1.last() == '\n');
    }
    assert(lines_of(c1).contains(a));
    let w = choose|w: int| 0 <= w < lines_of(c1).len() && lines_of(c1)[w] == a;
    if let Some(c) = upserted(c1, b) {
        lemma_lines_after_append(c1, b);
        assert(lines_of(c)[w] == a);
    }
}

} // verus!
