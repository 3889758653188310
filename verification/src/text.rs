//! Character and string primitives used by the generator.

use vstd::prelude::*;

verus! {

/// The Unicode `White_Space` property.
pub open spec fn is_white_space(c: char) -> bool {
    let n = c as int;
    ||| 0x9 <= n <= 0xD
    ||| n == 0x20
    ||| n == 0x85
    ||| n == 0xA0
    ||| n == 0x1680
    ||| 0x2000 <= n <= 0x200A
    ||| n == 0x2028
    ||| n == 0x2029
    ||| n == 0x202F
    ||| n == 0x205F
    ||| n == 0x3000
}

/// Tests a character for the Unicode `White_Space` property.
pub fn is_whitespace(c: char) -> (r: bool)
    ensures
        r == is_white_space(c),
{
    let n = c as u32;
    (0x9 <= n && n <= 0xD) || n == 0x20 || n == 0x85 || n == 0xA0 || n == 0x1680 || (0x2000 <= n
        && n <= 0x200A) || n == 0x2028 || n == 0x2029 || n == 0x202F || n == 0x205F || n == 0x3000
}

/// The characters of a string, in order.
pub fn chars_of(s: &str) -> (v: Vec<char>)
    ensures
        v@ == s@,
{
    let n = s.unicode_len();
    let mut v: Vec<char> = Vec::new();
    let mut i: usize = 0;
    while i < n
        invariant
            n == s@.len(),
            i <= n,
            v@ == s@.subrange(0, i as int),
        decreases n - i,
    {
        v.push(s.get_char(i));
        i = i + 1;
    }
    v
}


/// A string slice of `s`, owned.
pub fn substring(s: &str, from: usize, to: usize) -> (r: String)
    requires
        from <= to <= s@.len(),
    ensures
        r@ == s@.subrange(from as int, to as int),
{
    s.substring_char(from, to).to_owned()
}

/// The pieces of `s` between occurrences of `sep`, as `str::split` yields them for a
/// character pattern: there is always at least one piece.
pub open spec fn split_char(s: Seq<char>, sep: char) -> Seq<Seq<char>>
    decreases s.len(),
{
    if s.len() == 0 {
        seq![Seq::empty()]
    } else {
        let rest = split_char(s.drop_last(), sep);
        if s.last() == sep {
            rest.push(Seq::empty())
        } else {
            rest.update(rest.len() - 1, rest.last().push(s.last()))
        }
    }
}

/// The pieces of `s` between whitespace characters, empty pieces included.
pub open spec fn split_ws(s: Seq<char>) -> Seq<Seq<char>>
    decreases s.len(),
{
    if s.len() == 0 {
        seq![Seq::empty()]
    } else {
        let rest = split_ws(s.drop_last());
        if is_white_space(s.last()) {
            rest.push(Seq::empty())
        } else {
            rest.update(rest.len() - 1, rest.last().push(s.last()))
        }
    }
}

pub proof fn lemma_split_char_nonempty(s: Seq<char>, sep: char)
    ensures
        split_char(s, sep).len() >= 1,
    decreases s.len(),
{
    if s.len() > 0 {
        lemma_split_char_nonempty(s.drop_last(), sep);
    }
}

pub proof fn lemma_split_ws_nonempty(s: Seq<char>)
    ensures
        split_ws(s).len() >= 1,
    decreases s.len(),
{
    if s.len() > 0 {
        lemma_split_ws_nonempty(s.drop_last());
    }
}

/// Holds of a piece that is not empty.
pub open spec fn non_empty() -> spec_fn(Seq<char>) -> bool {
    |w: Seq<char>| w.len() > 0
}

/// The words of `s`, as `str::split_whitespace` yields them.
pub open spec fn words(s: Seq<char>) -> Seq<Seq<char>> {
    split_ws(s).filter(non_empty())
}

/// The parts joined with `sep` between consecutive parts.
pub open spec fn join(parts: Seq<Seq<char>>, sep: Seq<char>) -> Seq<char>
    decreases parts.len(),
{
    if parts.len() == 0 {
        Seq::empty()
    } else if parts.len() == 1 {
        parts[0]
    } else {
        join(parts.drop_last(), sep) + sep + parts.last()
    }
}

/// Splits `s` at every occurrence of `sep`.
pub fn split_on_char(s: &str, sep: char) -> (parts: Vec<String>)
    ensures
        parts.deep_view() == split_char(s@, sep),
{
    let cs = chars_of(s);
    let n = cs.len();
    let mut parts: Vec<String> = Vec::new();
    let mut start: usize = 0;
    let mut i: usize = 0;
    assert(s@.subrange(0, 0) =~= Seq::<char>::empty());
    assert(parts.deep_view().push(s@.subrange(0, 0)) =~= split_char(s@.subrange(0, 0), sep));
    while i < n
        invariant
            n == s@.len(),
            cs@ == s@,
            start <= i <= n,
            parts.deep_view().push(s@.subrange(start as int, i as int)) == split_char(
                s@.subrange(0, i as int),
                sep,
            ),
        decreases n - i,
    {
        let ghost prev = s@.subrange(0, i as int);
        assert(s@.subrange(0, i + 1).drop_last() =~= prev);
        proof {
            lemma_split_char_nonempty(prev, sep);
        }
        if cs[i] == sep {
            let piece = substring(s, start, i);
            parts.push(piece);
            start = i + 1;
            assert(s@.subrange(start as int, start as int) =~= Seq::<char>::empty());
        } else {
            assert(s@.subrange(start as int, i + 1) =~= s@.subrange(start as int, i as int).push(
                cs@[i as int],
            ));
        }
        i = i + 1;
        assert(parts.deep_view().push(s@.subrange(start as int, i as int)) =~= split_char(
            s@.subrange(0, i as int),
            sep,
        ));
    }
    let last = substring(s, start, n);
    parts.push(last);
    assert(s@.subrange(0, n as int) =~= s@);
    assert(parts.deep_view() =~= split_char(s@, sep));
    parts
}

/// Splits `s` at every whitespace character, keeping empty pieces.
fn split_on_whitespace(s: &str) -> (parts: Vec<String>)
    ensures
        parts.deep_view() == split_ws(s@),
{
    let cs = chars_of(s);
    let n = cs.len();
    let mut parts: Vec<String> = Vec::new();
    let mut start: usize = 0;
    let mut i: usize = 0;
    assert(s@.subrange(0, 0) =~= Seq::<char>::empty());
    assert(parts.deep_view().push(s@.subrange(0, 0)) =~= split_ws(s@.subrange(0, 0)));
    while i < n
        invariant
            n == s@.len(),
            cs@ == s@,
            start <= i <= n,
            parts.deep_view().push(s@.subrange(start as int, i as int)) == split_ws(
                s@.subrange(0, i as int),
            ),
        decreases n - i,
    {
        let ghost prev = s@.subrange(0, i as int);
        assert(s@.subrange(0, i + 1).drop_last() =~= prev);
        proof {
            lemma_split_ws_nonempty(prev);
        }
        if is_whitespace(cs[i]) {
            let piece = substring(s, start, i);
            parts.push(piece);
            start = i + 1;
            assert(s@.subrange(start as int, start as int) =~= Seq::<char>::empty());
        } else {
            assert(s@.subrange(start as int, i + 1) =~= s@.subrange(start as int, i as int).push(
                cs@[i as int],
            ));
        }
        i = i + 1;
        assert(parts.deep_view().push(s@.subrange(start as int, i as int)) =~= split_ws(
            s@.subrange(0, i as int),
        ));
    }
    let last = substring(s, start, n);
    parts.push(last);
    assert(s@.subrange(0, n as int) =~= s@);
    assert(parts.deep_view() =~= split_ws(s@));
    parts
}

/// The words of `s` separated by whitespace, as `str::split_whitespace` yields them.
pub fn split_whitespace(s: &str) -> (ws: Vec<String>)
    ensures
        ws.deep_view() == words(s@),
{
    let pieces = split_on_whitespace(s);
    let mut ws: Vec<String> = Vec::new();
    let mut i: usize = 0;
    while i < pieces.len()
        invariant
            i <= pieces.len(),
            pieces.deep_view() == split_ws(s@),
            ws.deep_view() == pieces.deep_view().subrange(0, i as int).filter(non_empty()),
        decreases pieces.len() - i,
    {
        let ghost before = pieces.deep_view().subrange(0, i as int);
        assert(pieces.deep_view().subrange(0, i + 1).drop_last() =~= before);
        reveal_with_fuel(Seq::filter, 1);
        if pieces[i].unicode_len() > 0 {
            ws.push(pieces[i].clone());
        }
        i = i + 1;
        assert(ws.deep_view() =~= pieces.deep_view().subrange(0, i as int).filter(non_empty()));
    }
    assert(pieces.deep_view().subrange(0, i as int) =~= pieces.deep_view());
    ws
}

/// Joins the parts with `sep` between consecutive parts.
pub fn join_with(parts: &Vec<String>, sep: &str) -> (r: String)
    ensures
        r@ == join(parts.deep_view(), sep@),
{
    let mut r = String::new();
    let mut i: usize = 0;
    while i < parts.len()
        invariant
            i <= parts.len(),
            r@ == join(parts.deep_view().subrange(0, i as int), sep@),
        decreases parts.len() - i,
    {
        assert(parts.deep_view().subrange(0, i + 1).drop_last() =~= parts.deep_view().subrange(
            0,
            i as int,
        ));
        if i > 0 {
            r.append(sep);
        }
        r.append(parts[i].as_str());
        i = i + 1;
        assert(r@ =~= join(parts.deep_view().subrange(0, i as int), sep@));
    }
    assert(parts.deep_view().subrange(0, i as int) =~= parts.deep_view());
    r
}


/// `s` without its leading whitespace.
pub open spec fn trim_start(s: Seq<char>) -> Seq<char>
    decreases s.len(),
{
    if s.len() > 0 && is_white_space(s[0]) {
        trim_start(s.drop_first())
    } else {
        s
    }
}

/// `s` without its trailing whitespace.
pub open spec fn trim_end(s: Seq<char>) -> Seq<char>
    decreases s.len(),
{
    if s.len() > 0 && is_white_space(s.last()) {
        trim_end(s.drop_last())
    } else {
        s
    }
}

/// `s` without leading and trailing whitespace, as `str::trim` gives it.
pub open spec fn trim(s: Seq<char>) -> Seq<char> {
    trim_end(trim_start(s))
}

/// Removes leading and trailing whitespace.
pub fn trim_whitespace(s: &str) -> (r: String)
    ensures
        r@ == trim(s@),
{
    let cs = chars_of(s);
    let n = cs.len();
    let mut i: usize = 0;
    assert(s@.subrange(0, n as int) =~= s@);
    while i < n && is_whitespace(cs[i])
        invariant
            n == s@.len(),
            cs@ == s@,
            i <= n,
            trim_start(s@) == trim_start(s@.subrange(i as int, n as int)),
        decreases n - i,
    {
        assert(s@.subrange(i as int, n as int).drop_first() =~= s@.subrange(i + 1, n as int));
        i = i + 1;
    }
    let mut j: usize = n;
    assert(trim_start(s@.subrange(i as int, n as int)) == s@.subrange(i as int, n as int));
    while j > i && is_whitespace(cs[j - 1])
        invariant
            n == s@.len(),
            cs@ == s@,
            i <= j <= n,
            trim(s@) == trim_end(s@.subrange(i as int, j as int)),
        decreases j,
    {
        assert(s@.subrange(i as int, j as int).drop_last() =~= s@.subrange(i as int, j - 1));
        j = j - 1;
    }
    substring(s, i, j)
}

/// `l` without one trailing carriage return.
pub open spec fn strip_cr(l: Seq<char>) -> Seq<char> {
    if l.len() > 0 && l.last() == '\r' {
        l.drop_last()
    } else {
        l
    }
}

/// The lines of `s`, as `str::lines` and `BufRead::lines` yield them: pieces between
/// line feeds, a line that a line feed ends without the carriage return before it, and
/// no empty piece after a final line feed. A last line that no line feed ends keeps a
/// trailing carriage return.
pub open spec fn lines_of(s: Seq<char>) -> Seq<Seq<char>> {
    let parts = split_char(s, '\n');
    let kept = if parts.last().len() == 0 {
        parts.drop_last()
    } else {
        parts
    };
    Seq::new(
        kept.len(),
        |k: int|
            if k < parts.len() - 1 {
                strip_cr(kept[k])
            } else {
                kept[k]
            },
    )
}

/// Removes one trailing carriage return.
fn without_cr(l: &String) -> (r: String)
    ensures
        r@ == strip_cr(l@),
{
    let n = l.unicode_len();
    if n > 0 && l.as_str().get_char(n - 1) == '\r' {
        substring(l.as_str(), 0, n - 1)
    } else {
        l.clone()
    }
}

/// The lines of `s`.
pub fn lines(s: &str) -> (ls: Vec<String>)
    ensures
        ls.deep_view() == lines_of(s@),
{
    let parts = split_on_char(s, '\n');
    proof {
        lemma_split_char_nonempty(s@, '\n');
    }
    let ghost parts_v = parts.deep_view();
    let ghost kept = if parts_v.last().len() == 0 {
        parts_v.drop_last()
    } else {
        parts_v
    };
    let mut count = parts.len();
    if parts[count - 1].unicode_len() == 0 {
        count = count - 1;
    }
    assert(kept.len() == count);
    let mut ls: Vec<String> = Vec::new();
    let mut i: usize = 0;
    while i < count
        invariant
            count <= parts.len(),
            parts.deep_view() == parts_v,
            kept.len() == count,
            forall|k: int| 0 <= k < count ==> kept[k] == parts_v[k],
            i <= count,
            ls.len() == i,
            forall|k: int|
                0 <= k < i ==> #[trigger] ls.deep_view()[k] == if k < parts_v.len() - 1 {
                    strip_cr(kept[k])
                } else {
                    kept[k]
                },
        decreases count - i,
    {
        let ghost old_ls = ls.deep_view();
        let l = if i + 1 < parts.len() {
            without_cr(&parts[i])
        } else {
            parts[i].clone()
        };
        assert(parts@[i as int]@ == parts_v[i as int]);
        ls.push(l);
        assert(ls.deep_view() =~= old_ls.push(l@));
        i = i + 1;
    }
    assert(ls.deep_view() =~= lines_of(s@));
    ls
}

/// Whether `s` begins with `prefix`.
pub open spec fn has_prefix(s: Seq<char>, prefix: Seq<char>) -> bool {
    prefix.len() <= s.len() && s.subrange(0, prefix.len() as int) == prefix
}

/// Tests whether `s` begins with `prefix`.
pub fn starts_with(s: &str, prefix: &str) -> (r: bool)
    ensures
        r == has_prefix(s@, prefix@),
{
    let n = s.unicode_len();
    let m = prefix.unicode_len();
    if m > n {
        return false;
    }
    let mut i: usize = 0;
    while i < m
        invariant
            n == s@.len(),
            m == prefix@.len(),
            m <= n,
            i <= m,
            forall|k: int| 0 <= k < i ==> s@[k] == prefix@[k],
        decreases m - i,
    {
        if s.get_char(i) != prefix.get_char(i) {
            assert(s@.subrange(0, m as int)[i as int] != prefix@[i as int]);
            return false;
        }
        i = i + 1;
    }
    assert(s@.subrange(0, m as int) =~= prefix@);
    true
}

/// Tests two strings for equality.
pub fn str_equal(a: &str, b: &str) -> (r: bool)
    ensures
        r == (a@ == b@),
{
    let x = a.to_owned();
    let y = b.to_owned();
    x == y
}

/// Tests whether a list of strings holds `item`.
pub fn contains_string(list: &Vec<String>, item: &String) -> (r: bool)
    ensures
        r == list.deep_view().contains(item@),
{
    let mut i: usize = 0;
    while i < list.len()
        invariant
            i <= list.len(),
            forall|k: int| 0 <= k < i ==> list.deep_view()[k] != item@,
        decreases list.len() - i,
    {
        if list[i] == *item {
            assert(list.deep_view()[i as int] == item@);
            return true;
        }
        i = i + 1;
    }
    assert(!list.deep_view().contains(item@));
    false
}

/// What `str::to_lowercase` returns for a string: the Unicode lowercase mapping,
/// which for some characters depends on their neighbours.
pub uninterp spec fn lowercase(s: Seq<char>) -> Seq<char>;

/// Calls `str::to_lowercase`. The contract only names the result as `lowercase` of the
/// input; the mapping itself is left to the Unicode tables that std carries.
#[verifier::external_body]
pub(crate) fn to_lowercase(s: &str) -> (r: String)
    ensures
        r@ == lowercase(s@),
{
    s.to_lowercase()
}

/// What `char::to_uppercase` yields for a character: one or more characters of the
/// Unicode uppercase mapping.
pub uninterp spec fn uppercase_char(c: char) -> Seq<char>;

/// Calls `char::to_uppercase` and collects the characters it yields. The contract only
/// names the result as `uppercase_char` of the input.
#[verifier::external_body]
pub(crate) fn char_to_uppercase_string(c: char) -> (r: String)
    ensures
        r@ == uppercase_char(c),
{
    c.to_uppercase().collect::<String>()
}

/// `name` with its first character replaced by its uppercase mapping.
pub open spec fn capitalized(name: Seq<char>) -> Seq<char> {
    if name.len() == 0 {
        Seq::empty()
    } else {
        uppercase_char(name[0]) + name.drop_first()
    }
}

} // verus!
