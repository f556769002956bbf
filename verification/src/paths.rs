//! Filesystem path rules: joining, components, file names, and the XDG
//! locations that Rustle uses.
//!
//! Paths are strings in the Unix form; the environment variables that the
//! locations depend on are handed in by the caller as a [`PathEnv`].

use vstd::prelude::*;

use crate::errors::CoreError;
use crate::settings::{
    Settings, APP_DIR_NAME, CONFIG_FILE_NAME, DEFAULT_NOTES_DIR,
};
use crate::text::{
    chars_of, concat, eq, is_ws, is_ws_char, join, join_exec, lemma_non_empty_push, non_empty,
    push_all, split, split_exec, starts_with, starts_with_exec, string_of, subvec,
};

verus! {

broadcast use vstd::seq_lib::group_seq_properties, crate::views::lemma_char_vec_deep_view;

/// The environment variables that Rustle's locations depend on.
#[derive(Debug, Clone)]
pub struct PathEnv {
    /// `XDG_DATA_HOME`, when set.
    pub xdg_data_home: Option<String>,
    /// `XDG_CONFIG_HOME`, when set.
    pub xdg_config_home: Option<String>,
    /// `HOME`, when set.
    pub home: Option<String>,
}

// ---------------------------------------------------------------------------
// Joining and components
// ---------------------------------------------------------------------------

/// `PathBuf::join` on Unix: an absolute part replaces the base; otherwise the
/// part is appended after a separator unless the base is empty or already ends
/// with one.
pub open spec fn path_join(base: Seq<char>, part: Seq<char>) -> Seq<char> {
    if part.len() > 0 && part[0] == '/' {
        part
    } else if base.len() == 0 {
        part
    } else if base.last() == '/' {
        base + part
    } else {
        base + seq!['/'] + part
    }
}

/// A component that names something (not empty and not `.`).
pub open spec fn is_named_component(c: Seq<char>) -> bool {
    c.len() > 0 && c != "."@
}

/// `Path::components` on Unix, with the root written as `/` and a leading
/// current-directory marker kept as `.`.
pub open spec fn path_components(p: Seq<char>) -> Seq<Seq<char>> {
    let parts = split(p, '/');
    let head: Seq<Seq<char>> = if p.len() > 0 && p[0] == '/' {
        seq!["/"@]
    } else if parts[0] == "."@ {
        seq!["."@]
    } else {
        Seq::empty()
    };
    head + parts.filter(|c: Seq<char>| is_named_component(c))
}

/// `Path::starts_with`: the components of `base` are a prefix of those of `p`.
pub open spec fn path_starts_with(p: Seq<char>, base: Seq<char>) -> bool {
    let cp = path_components(p);
    let cb = path_components(base);
    cb.len() <= cp.len() && cp.subrange(0, cb.len() as int) == cb
}

/// `Path::file_name`: the last component, when it names a file.
pub open spec fn file_name_of(p: Seq<char>) -> Option<Seq<char>> {
    let cs = path_components(p);
    if cs.len() == 0 {
        None
    } else {
        let last = cs.last();
        if last == "/"@ || last == "."@ || last == ".."@ {
            None
        } else {
            Some(last)
        }
    }
}

/// Index of the last `c` in `s`, or -1.
pub open spec fn last_index_of(s: Seq<char>, c: char) -> int
    decreases s.len(),
{
    if s.len() == 0 {
        -1
    } else if s.last() == c {
        s.len() - 1
    } else {
        last_index_of(s.drop_last(), c)
    }
}

/// The stem of a file name: up to its last dot, unless the only dot leads.
pub open spec fn stem_of(name: Seq<char>) -> Seq<char> {
    let d = last_index_of(name, '.');
    if d <= 0 {
        name
    } else {
        name.subrange(0, d)
    }
}

/// The extension of a file name: after its last dot, unless the only dot leads.
pub open spec fn extension_of(name: Seq<char>) -> Option<Seq<char>> {
    let d = last_index_of(name, '.');
    if d <= 0 {
        None
    } else {
        Some(name.subrange(d + 1, name.len() as int))
    }
}

/// `Path::file_stem`.
pub open spec fn file_stem_of(p: Seq<char>) -> Option<Seq<char>> {
    match file_name_of(p) {
        Some(name) => Some(stem_of(name)),
        None => None,
    }
}

/// `Path::extension`.
pub open spec fn path_extension_of(p: Seq<char>) -> Option<Seq<char>> {
    match file_name_of(p) {
        Some(name) => extension_of(name),
        None => None,
    }
}

/// Bounds of `last_index_of`.
pub proof fn lemma_last_index_of(s: Seq<char>, c: char)
    ensures
        -1 <= last_index_of(s, c) < s.len(),
        last_index_of(s, c) >= 0 ==> s[last_index_of(s, c)] == c,
    decreases s.len(),
{
    if s.len() > 0 && s.last() != c {
        lemma_last_index_of(s.drop_last(), c);
    }
}

/// `PathBuf::join`.
pub fn path_join_exec(base: &Vec<char>, part: &Vec<char>) -> (r: Vec<char>)
    ensures
        r@ == path_join(base@, part@),
{
    if part.len() > 0 && part[0] == '/' {
        part.clone()
    } else if base.len() == 0 {
        part.clone()
    } else if base[base.len() - 1] == '/' {
        concat(base, part)
    } else {
        let mut r = base.clone();
        r.push('/');
        push_all(&mut r, part);
        r
    }
}

/// `PathBuf::join` on strings.
pub fn join_path(base: &str, part: &str) -> (r: String)
    ensures
        r@ == path_join(base@, part@),
{
    let b = chars_of(base);
    let p = chars_of(part);
    string_of(&path_join_exec(&b, &p))
}

/// `Path::components`.
pub fn path_components_exec(p: &Vec<char>) -> (r: Vec<Vec<char>>)
    ensures
        r.deep_view() == path_components(p@),
{
    let parts = split_exec(p, '/');
    proof {
        crate::text::lemma_split_len(p@, '/');
    }
    let dot = chars_of(".");
    let mut out: Vec<Vec<char>> = Vec::new();
    if p.len() > 0 && p[0] == '/' {
        out.push(chars_of("/"));
    } else if eq(&parts[0], &dot) {
        out.push(chars_of("."));
    }
    let ghost head = out.deep_view();
    let ghost pred = |c: Seq<char>| is_named_component(c);
    let mut i: usize = 0;
    while i < parts.len()
        invariant
            i <= parts.len(),
            parts.deep_view() == split(p@, '/'),
            dot@ == "."@,
            pred == (|c: Seq<char>| is_named_component(c)),
            head == (if p@.len() > 0 && p@[0] == '/' {
                seq!["/"@]
            } else if split(p@, '/')[0] == "."@ {
                seq!["."@]
            } else {
                Seq::<Seq<char>>::empty()
            }),
            out.deep_view() == head + split(p@, '/').take(i as int).filter(pred),
        decreases parts.len() - i,
    {
        let ghost parts_v = split(p@, '/');
        assert(parts_v.take(i + 1) =~= parts_v.take(i as int).push(parts_v[i as int]));
        assert(parts_v[i as int] == parts@[i as int]@);
        proof {
            parts_v.take(i as int).lemma_filter_push(parts_v[i as int], pred);
        }
        if parts[i].len() > 0 && !eq(&parts[i], &dot) {
            let ghost prev = out.deep_view();
            out.push(parts[i].clone());
            assert(out.deep_view() =~= prev.push(parts_v[i as int]));
        }
        i += 1;
    }
    assert(split(p@, '/').take(parts.len() as int) =~= split(p@, '/'));
    out
}

/// `Path` equality: the same components.
pub open spec fn same_path(a: Seq<char>, b: Seq<char>) -> bool {
    path_components(a) == path_components(b)
}

/// Compares two paths as `Path` does, component by component.
pub fn paths_equal(a: &str, b: &str) -> (r: bool)
    ensures
        r == same_path(a@, b@),
{
    let ca = path_components_exec(&chars_of(a));
    let cb = path_components_exec(&chars_of(b));
    if ca.len() != cb.len() {
        assert(ca.deep_view().len() != cb.deep_view().len());
        return false;
    }
    let mut i: usize = 0;
    while i < ca.len()
        invariant
            i <= ca@.len(),
            ca@.len() == cb@.len(),
            ca.deep_view() == path_components(a@),
            cb.deep_view() == path_components(b@),
            forall|k: int| 0 <= k < i ==> #[trigger] ca.deep_view()[k] == cb.deep_view()[k],
        decreases ca@.len() - i,
    {
        if !eq(&ca[i], &cb[i]) {
            assert(ca.deep_view()[i as int] != cb.deep_view()[i as int]);
            return false;
        }
        i += 1;
    }
    assert(ca.deep_view() =~= cb.deep_view());
    true
}

/// `Path::file_name`.
pub fn file_name(path: &str) -> (r: Option<String>)
    ensures
        match r {
            Some(n) => file_name_of(path@) == Some(n@),
            None => file_name_of(path@) is None,
        },
{
    let p = chars_of(path);
    let cs = path_components_exec(&p);
    if cs.len() == 0 {
        return None;
    }
    let last = &cs[cs.len() - 1];
    assert(last@ == path_components(p@).last());
    if eq(last, &chars_of("/")) || eq(last, &chars_of(".")) || eq(last, &chars_of("..")) {
        return None;
    }
    Some(string_of(last))
}

/// Index of the last `c` in `s`.
fn last_index_of_exec(s: &Vec<char>, c: char) -> (r: Option<usize>)
    ensures
        match r {
            Some(i) => last_index_of(s@, c) == i as int && i < s.len(),
            None => last_index_of(s@, c) == -1,
        },
{
    let mut j: usize = s.len();
    assert(s@.subrange(0, s.len() as int) =~= s@);
    while j > 0
        invariant
            j <= s.len(),
            last_index_of(s@, c) == last_index_of(s@.subrange(0, j as int), c),
        decreases j,
    {
        if s[j - 1] == c {
            return Some(j - 1);
        }
        assert(s@.subrange(0, j as int).drop_last() =~= s@.subrange(0, j - 1));
        j -= 1;
    }
    None
}

/// The stem of a file name.
pub fn stem(name: &Vec<char>) -> (r: Vec<char>)
    ensures
        r@ == stem_of(name@),
{
    match last_index_of_exec(name, '.') {
        Some(d) => if d == 0 {
            name.clone()
        } else {
            subvec(name, 0, d)
        },
        None => name.clone(),
    }
}

/// The extension of a file name.
pub fn extension(name: &Vec<char>) -> (r: Option<Vec<char>>)
    ensures
        r.deep_view() == extension_of(name@),
{
    match last_index_of_exec(name, '.') {
        Some(d) => if d == 0 {
            None
        } else {
            Some(subvec(name, d + 1, name.len()))
        },
        None => None,
    }
}

/// `Path::file_stem`.
pub fn file_stem(path: &str) -> (r: Option<String>)
    ensures
        match r {
            Some(n) => file_stem_of(path@) == Some(n@),
            None => file_stem_of(path@) is None,
        },
{
    match file_name(path) {
        Some(name) => {
            let v = chars_of(name.as_str());
            Some(string_of(&stem(&v)))
        },
        None => None,
    }
}

/// `Path::extension`.
pub fn path_extension(path: &str) -> (r: Option<String>)
    ensures
        match r {
            Some(n) => path_extension_of(path@) == Some(n@),
            None => path_extension_of(path@) is None,
        },
{
    match file_name(path) {
        Some(name) => {
            let v = chars_of(name.as_str());
            match extension(&v) {
                Some(e) => Some(string_of(&e)),
                None => None,
            }
        },
        None => None,
    }
}

/// Returns true when `candidate` is inside `base`, comparing whole components.
pub fn is_safe_child(base: &str, candidate: &str) -> (r: bool)
    ensures
        r == path_starts_with(candidate@, base@),
{
    let b = chars_of(base);
    let c = chars_of(candidate);
    let cb = path_components_exec(&b);
    let cc = path_components_exec(&c);
    assert(cb.deep_view().len() == cb.len());
    assert(cc.deep_view().len() == cc.len());
    if cb.len() > cc.len() {
        return false;
    }
    let mut i: usize = 0;
    while i < cb.len()
        invariant
            i <= cb.len() <= cc.len(),
            b@ == base@,
            c@ == candidate@,
            cb.deep_view() == path_components(b@),
            cc.deep_view() == path_components(c@),
            forall|j: int| 0 <= j < i ==> cb.deep_view()[j] == cc.deep_view()[j],
        decreases cb.len() - i,
    {
        if !eq(&cb[i], &cc[i]) {
            assert(cc.deep_view().subrange(0, cb.len() as int)[i as int] != cb.deep_view()[i as int]);
            return false;
        }
        i += 1;
    }
    assert(cc.deep_view().subrange(0, cb.len() as int) =~= cb.deep_view());
    true
}

// ---------------------------------------------------------------------------
// File-name sanitising
// ---------------------------------------------------------------------------

/// ASCII letters and digits.
pub open spec fn is_ascii_alnum(c: char) -> bool {
    ('a' <= c && c <= 'z') || ('A' <= c && c <= 'Z') || ('0' <= c && c <= '9')
}

/// What one character of a meeting name becomes in a file name.
pub open spec fn filename_char(c: char) -> Option<char> {
    if is_ascii_alnum(c) || c == '-' || c == '_' {
        Some(c)
    } else if is_ws(c) || c == '.' || c == '/' || c == '\\' || c == ':' {
        Some('_')
    } else {
        None
    }
}

/// The characters of a name after per-character sanitising.
pub open spec fn filename_chars(s: Seq<char>) -> Seq<char>
    decreases s.len(),
{
    if s.len() == 0 {
        Seq::empty()
    } else {
        let init = filename_chars(s.drop_last());
        match filename_char(s.last()) {
            Some(c) => init.push(c),
            None => init,
        }
    }
}

/// `safe_filename`: sanitised characters with runs of `_` collapsed and
/// trimmed, or `meeting` when nothing is left.
pub open spec fn safe_filename_of(s: Seq<char>) -> Seq<char> {
    let collapsed = join(non_empty(split(filename_chars(s), '_')), "_"@);
    if collapsed.len() == 0 {
        "meeting"@
    } else {
        collapsed
    }
}

/// Converts a user-visible name into a conservative filename component.
pub fn safe_filename(name: &str) -> (r: String)
    ensures
        r@ == safe_filename_of(name@),
{
    let s = chars_of(name);
    let mut output: Vec<char> = Vec::new();
    let mut i: usize = 0;
    while i < s.len()
        invariant
            i <= s.len(),
            output@ == filename_chars(s@.take(i as int)),
        decreases s.len() - i,
    {
        let c = s[i];
        assert(s@.take(i + 1).drop_last() =~= s@.take(i as int));
        if ('a' <= c && c <= 'z') || ('A' <= c && c <= 'Z') || ('0' <= c && c <= '9') || c == '-'
            || c == '_' {
            output.push(c);
        } else if is_ws_char(c) || c == '.' || c == '/' || c == '\\' || c == ':' {
            output.push('_');
        }
        i += 1;
    }
    assert(s@.take(s.len() as int) =~= s@);
    let parts = split_exec(&output, '_');
    let mut kept: Vec<Vec<char>> = Vec::new();
    let mut k: usize = 0;
    while k < parts.len()
        invariant
            k <= parts.len(),
            parts.deep_view() == split(filename_chars(s@), '_'),
            kept.deep_view() == non_empty(split(filename_chars(s@), '_').take(k as int)),
        decreases parts.len() - k,
    {
        let ghost all = split(filename_chars(s@), '_');
        assert(all.take(k + 1) =~= all.take(k as int).push(all[k as int]));
        assert(all[k as int] == parts@[k as int]@);
        proof {
            lemma_non_empty_push(all.take(k as int), all[k as int]);
        }
        if parts[k].len() > 0 {
            let ghost prev = kept.deep_view();
            kept.push(parts[k].clone());
            assert(kept.deep_view() =~= prev.push(all[k as int]));
        }
        k += 1;
    }
    assert(split(filename_chars(s@), '_').take(parts.len() as int) =~= split(filename_chars(s@), '_'));
    let collapsed = join_exec(&kept, &chars_of("_"));
    if collapsed.len() == 0 {
        "meeting".to_owned()
    } else {
        string_of(&collapsed)
    }
}

/// A character that sanitising keeps as it is.
pub open spec fn kept_char(c: char) -> bool {
    filename_char(c) == Some(c)
}

/// Every character is kept as it is.
pub open spec fn all_kept(t: Seq<char>) -> bool {
    forall|i: int| 0 <= i < t.len() ==> kept_char(#[trigger] t[i])
}

/// A part between underscores of a sanitised name.
pub open spec fn clean_part(p: Seq<char>) -> bool {
    p.len() > 0 && !crate::text::has_char(p, '_') && all_kept(p)
}

/// Sanitised characters are kept by sanitising.
proof fn lemma_filename_chars_kept(s: Seq<char>)
    ensures
        all_kept(filename_chars(s)),
    decreases s.len(),
{
    if s.len() > 0 {
        lemma_filename_chars_kept(s.drop_last());
        let init = filename_chars(s.drop_last());
        if let Some(c) = filename_char(s.last()) {
            assert forall|i: int| 0 <= i < init.push(c).len() implies kept_char(#[trigger] init.push(c)[i]) by {
                if i < init.len() {
                    assert(init.push(c)[i] == init[i]);
                }
            }
        }
    }
}

/// Characters that are kept pass through sanitising unchanged.
proof fn lemma_filename_chars_fixed(t: Seq<char>)
    requires
        all_kept(t),
    ensures
        filename_chars(t) == t,
    decreases t.len(),
{
    if t.len() > 0 {
        assert forall|i: int| 0 <= i < t.drop_last().len() implies kept_char(#[trigger] t.drop_last()[i]) by {
            assert(t.drop_last()[i] == t[i]);
        }
        lemma_filename_chars_fixed(t.drop_last());
        assert(kept_char(t[t.len() - 1]));
        assert(t.drop_last().push(t.last()) =~= t);
    }
}

/// The parts of a split keep the property of the characters they come from.
proof fn lemma_split_parts_kept(t: Seq<char>, c: char)
    requires
        all_kept(t),
    ensures
        forall|i: int| 0 <= i < split(t, c).len() ==> all_kept(#[trigger] split(t, c)[i]),
    decreases t.len(),
{
    crate::text::lemma_split_len(t, c);
    if t.len() > 0 {
        assert forall|i: int| 0 <= i < t.drop_last().len() implies kept_char(#[trigger] t.drop_last()[i]) by {
            assert(t.drop_last()[i] == t[i]);
        }
        lemma_split_parts_kept(t.drop_last(), c);
        crate::text::lemma_split_len(t.drop_last(), c);
        let init = split(t.drop_last(), c);
        if t.last() != c {
            assert(kept_char(t[t.len() - 1]));
            assert forall|i: int| 0 <= i < split(t, c).len() implies all_kept(#[trigger] split(t, c)[i]) by {
                if i == init.len() - 1 {
                    let q = init.last().push(t.last());
                    assert(split(t, c)[i] == q);
                    assert(all_kept(init[i]));
                    assert forall|j: int| 0 <= j < q.len() implies kept_char(#[trigger] q[j]) by {
                        if j < init.last().len() {
                            assert(q[j] == init[i][j]);
                        }
                    }
                } else {
                    assert(split(t, c)[i] == init[i]);
                }
            }
        } else {
            assert forall|i: int| 0 <= i < split(t, c).len() implies all_kept(#[trigger] split(t, c)[i]) by {
                if i < init.len() {
                    assert(split(t, c)[i] == init[i]);
                }
            }
        }
    }
}

/// Splitting after a separator adds the separator-free rest as a last part.
proof fn lemma_split_after_sep(a: Seq<char>, b: Seq<char>, c: char)
    requires
        !crate::text::has_char(b, c),
    ensures
        split(a + seq![c] + b, c) == split(a, c).push(b),
    decreases b.len(),
{
    if b.len() == 0 {
        assert(a + seq![c] + b =~= a.push(c));
        assert(a.push(c).drop_last() =~= a);
    } else {
        let b0 = b.drop_last();
        assert(!crate::text::has_char(b0, c)) by {
            if crate::text::has_char(b0, c) {
                let i = choose|i: int| 0 <= i < b0.len() && b0[i] == c;
                assert(b[i] == c);
            }
        }
        lemma_split_after_sep(a, b0, c);
        let t = a + seq![c] + b;
        assert(t.drop_last() =~= a + seq![c] + b0);
        assert(t.last() == b[b.len() - 1]);
        assert(b0.push(b.last()) =~= b);
        assert(split(t, c) =~= split(a, c).push(b));
    }
}

/// Splitting underscore-joined parts that hold no underscore gives them back.
proof fn lemma_split_join(parts: Seq<Seq<char>>)
    requires
        parts.len() >= 1,
        forall|i: int| 0 <= i < parts.len() ==> !crate::text::has_char(#[trigger] parts[i], '_'),
    ensures
        split(join(parts, "_"@), '_') == parts,
    decreases parts.len(),
{
    reveal_strlit("_");
    if parts.len() == 1 {
        crate::text::lemma_split_free(parts[0], '_');
        assert(seq![parts[0]] =~= parts);
    } else {
        let init = parts.drop_last();
        assert forall|i: int| 0 <= i < init.len() implies !crate::text::has_char(#[trigger] init[i], '_') by {
            assert(init[i] == parts[i]);
        }
        lemma_split_join(init);
        assert("_"@ =~= seq!['_']);
        lemma_split_after_sep(join(init, "_"@), parts.last(), '_');
        assert(init.push(parts.last()) =~= parts);
    }
}

/// Underscore-joined kept parts are kept.
proof fn lemma_join_kept(parts: Seq<Seq<char>>)
    requires
        forall|i: int| 0 <= i < parts.len() ==> all_kept(#[trigger] parts[i]),
    ensures
        all_kept(join(parts, "_"@)),
    decreases parts.len(),
{
    reveal_strlit("_");
    if parts.len() == 1 {
        assert(all_kept(parts[0]));
    } else if parts.len() > 1 {
        let init = parts.drop_last();
        assert forall|i: int| 0 <= i < init.len() implies all_kept(#[trigger] init[i]) by {
            assert(init[i] == parts[i]);
        }
        lemma_join_kept(init);
        let j = join(init, "_"@);
        let last = parts.last();
        assert(all_kept(parts[parts.len() - 1]));
        let x = j + "_"@ + last;
        assert forall|k: int| 0 <= k < x.len() implies kept_char(#[trigger] x[k]) by {
            if k < j.len() {
                assert(x[k] == j[k]);
            } else if k == j.len() {
                assert(x[k] == '_');
            } else {
                assert(x[k] == last[k - j.len() - 1]);
            }
        }
    }
}

/// The non-empty parts of clean-charactered parts are clean.
proof fn lemma_non_empty_clean(parts: Seq<Seq<char>>)
    requires
        forall|i: int| 0 <= i < parts.len() ==> !crate::text::has_char(#[trigger] parts[i], '_') && all_kept(parts[i]),
    ensures
        forall|i: int| 0 <= i < non_empty(parts).len() ==> clean_part(#[trigger] non_empty(parts)[i]),
    decreases parts.len(),
{
    if parts.len() > 0 {
        let init = parts.drop_last();
        assert forall|i: int| 0 <= i < init.len() implies !crate::text::has_char(#[trigger] init[i], '_') && all_kept(init[i]) by {
            assert(init[i] == parts[i]);
        }
        lemma_non_empty_clean(init);
        lemma_non_empty_push(init, parts.last());
        assert(init.push(parts.last()) =~= parts);
        assert(!crate::text::has_char(parts[parts.len() - 1], '_') && all_kept(parts[parts.len() - 1]));
    } else {
        reveal(Seq::filter);
    }
}

/// Keeping the non-empty parts of non-empty parts keeps them all.
proof fn lemma_non_empty_all(parts: Seq<Seq<char>>)
    requires
        forall|i: int| 0 <= i < parts.len() ==> (#[trigger] parts[i]).len() > 0,
    ensures
        non_empty(parts) == parts,
    decreases parts.len(),
{
    if parts.len() > 0 {
        let init = parts.drop_last();
        assert forall|i: int| 0 <= i < init.len() implies (#[trigger] init[i]).len() > 0 by {
            assert(init[i] == parts[i]);
        }
        lemma_non_empty_all(init);
        lemma_non_empty_push(init, parts.last());
        assert(parts[parts.len() - 1].len() > 0);
        assert(init.push(parts.last()) =~= parts);
    } else {
        reveal(Seq::filter);
        assert(non_empty(parts) =~= parts);
    }
}

/// Clean parts joined with underscores are a sanitised name already.
proof fn lemma_clean_join_fixed(p: Seq<Seq<char>>)
    requires
        p.len() >= 1,
        forall|i: int| 0 <= i < p.len() ==> clean_part(#[trigger] p[i]),
    ensures
        safe_filename_of(join(p, "_"@)) == join(p, "_"@),
{
    reveal_strlit("_");
    let x = join(p, "_"@);
    assert forall|i: int| 0 <= i < p.len() implies all_kept(#[trigger] p[i]) by {
        assert(clean_part(p[i]));
    }
    assert forall|i: int| 0 <= i < p.len() implies !crate::text::has_char(#[trigger] p[i], '_') by {
        assert(clean_part(p[i]));
    }
    assert forall|i: int| 0 <= i < p.len() implies (#[trigger] p[i]).len() > 0 by {
        assert(clean_part(p[i]));
    }
    lemma_join_kept(p);
    lemma_filename_chars_fixed(x);
    lemma_split_join(p);
    lemma_non_empty_all(p);
    assert(clean_part(p[p.len() - 1]));
    assert(x.len() > 0);
}

/// Sanitising a sanitised name changes nothing.
pub proof fn law_safe_filename_idempotent(name: Seq<char>)
    ensures
        safe_filename_of(safe_filename_of(name)) == safe_filename_of(name),
{
    let t = filename_chars(name);
    lemma_filename_chars_kept(name);
    crate::text::lemma_split_parts_free(t, '_');
    lemma_split_parts_kept(t, '_');
    let parts = split(t, '_');
    assert forall|i: int| 0 <= i < parts.len() implies !crate::text::has_char(#[trigger] parts[i], '_') && all_kept(parts[i]) by {
        if crate::text::has_char(parts[i], '_') {
            let j = choose|j: int| 0 <= j < parts[i].len() && parts[i][j] == '_';
        }
    }
    lemma_non_empty_clean(parts);
    let p = non_empty(parts);
    if p.len() == 0 {
        reveal_strlit("_");
        reveal_strlit("meeting");
        let m = "meeting"@;
        assert(join(p, "_"@).len() == 0);
        assert(clean_part(m)) by {
            assert forall|i: int| 0 <= i < m.len() implies kept_char(#[trigger] m[i]) by {}
            if crate::text::has_char(m, '_') {
                let j = choose|j: int| 0 <= j < m.len() && m[j] == '_';
            }
        }
        lemma_clean_join_fixed(seq![m]);
        assert(join(seq![m], "_"@) == m);
    } else {
        lemma_clean_join_fixed(p);
    }
}

// ---------------------------------------------------------------------------
// Rustle locations
// ---------------------------------------------------------------------------

/// `~` alone or a `~/` prefix resolved against `home`, or an error naming `home`.
pub open spec fn expand_tilde_of(path: Seq<char>, home: Option<Seq<char>>) -> Result<Seq<char>, ()> {
    if path == "~"@ {
        match home {
            Some(h) => Ok(h),
            None => Err(()),
        }
    } else if starts_with(path, "~/"@) {
        match home {
            Some(h) => Ok(path_join(h, path.subrange(2, path.len() as int))),
            None => Err(()),
        }
    } else {
        Ok(path)
    }
}

/// The view of an optional environment value.
pub open spec fn opt_view(v: Option<String>) -> Option<Seq<char>> {
    match v {
        Some(s) => Some(s@),
        None => None,
    }
}

/// The error for a directory that could not be resolved.
pub open spec fn is_missing_directory(e: CoreError, purpose: Seq<char>) -> bool {
    e matches CoreError::MissingDirectory { purpose: p } && p@ == purpose
}

/// `Ok(v)` exactly when the spec result is `Ok(v@)`; otherwise the missing
/// directory error for `purpose`.
pub open spec fn path_result_matches(r: Result<String, CoreError>, s: Result<Seq<char>, ()>, purpose: Seq<char>) -> bool {
    match r {
        Ok(p) => s == Ok::<Seq<char>, ()>(p@),
        Err(e) => s is Err && is_missing_directory(e, purpose),
    }
}

/// Expands a leading `~` in a user-configurable path against the `HOME` value.
pub fn expand_tilde(path: &str, env: &PathEnv) -> (r: Result<String, CoreError>)
    ensures
        path_result_matches(r, expand_tilde_of(path@, opt_view(env.home)), "home"@),
{
    let p = chars_of(path);
    let tilde = chars_of("~");
    if eq(&p, &tilde) {
        return match &env.home {
            Some(h) => Ok(h.clone()),
            None => Err(CoreError::MissingDirectory { purpose: "home" }),
        };
    }
    let prefix = chars_of("~/");
    if starts_with_exec(&p, &prefix) {
        proof {
            reveal_strlit("~/");
        }
        return match &env.home {
            Some(h) => {
                let hv = chars_of(h.as_str());
                let rest = subvec(&p, 2, p.len());
                Ok(string_of(&path_join_exec(&hv, &rest)))
            },
            None => Err(CoreError::MissingDirectory { purpose: "home" }),
        };
    }
    Ok(path.to_owned())
}

/// The base of XDG data: `XDG_DATA_HOME`, else `$HOME/.local/share`.
pub open spec fn xdg_base(xdg: Option<Seq<char>>, home: Option<Seq<char>>, fallback: Seq<char>) -> Result<Seq<char>, ()> {
    match xdg {
        Some(x) => Ok(x),
        None => match home {
            Some(h) => Ok(path_join(h, fallback)),
            None => Err(()),
        },
    }
}

/// `default_data_dir`: the Rustle directory under the XDG data home.
pub open spec fn data_dir_of(env: PathEnv) -> Result<Seq<char>, ()> {
    match xdg_base(opt_view(env.xdg_data_home), opt_view(env.home), ".local/share"@) {
        Ok(b) => Ok(path_join(b, APP_DIR_NAME@)),
        Err(()) => Err(()),
    }
}

/// A base directory from an XDG variable or `$HOME/<fallback>`.
fn xdg_base_exec(xdg: &Option<String>, home: &Option<String>, fallback: &str) -> (r: Option<String>)
    ensures
        match r {
            Some(b) => xdg_base(opt_view(*xdg), opt_view(*home), fallback@) == Ok::<Seq<char>, ()>(b@),
            None => xdg_base(opt_view(*xdg), opt_view(*home), fallback@) is Err,
        },
{
    match xdg {
        Some(x) => Some(x.clone()),
        None => match home {
            Some(h) => Some(join_path(h.as_str(), fallback)),
            None => None,
        },
    }
}

/// Returns the default Rustle data directory under XDG data directories.
pub fn default_data_dir(env: &PathEnv) -> (r: Result<String, CoreError>)
    ensures
        path_result_matches(r, data_dir_of(*env), "data"@),
{
    match xdg_base_exec(&env.xdg_data_home, &env.home, ".local/share") {
        Some(b) => Ok(join_path(b.as_str(), APP_DIR_NAME)),
        None => Err(CoreError::MissingDirectory { purpose: "data" }),
    }
}

/// `default_config_path`: `rustle/config.toml` under the XDG config home.
pub open spec fn config_path_of(env: PathEnv) -> Result<Seq<char>, ()> {
    match xdg_base(opt_view(env.xdg_config_home), opt_view(env.home), ".config"@) {
        Ok(b) => Ok(path_join(path_join(b, APP_DIR_NAME@), CONFIG_FILE_NAME@)),
        Err(()) => Err(()),
    }
}

/// Returns the default Rustle TOML settings path under XDG config directories.
pub fn default_config_path(env: &PathEnv) -> (r: Result<String, CoreError>)
    ensures
        path_result_matches(r, config_path_of(*env), "settings"@),
{
    match xdg_base_exec(&env.xdg_config_home, &env.home, ".config") {
        Some(b) => {
            let dir = join_path(b.as_str(), APP_DIR_NAME);
            Ok(join_path(dir.as_str(), CONFIG_FILE_NAME))
        },
        None => Err(CoreError::MissingDirectory { purpose: "settings" }),
    }
}

/// A directory under the Rustle data directory.
pub open spec fn data_subdir_of(env: PathEnv, name: Seq<char>) -> Result<Seq<char>, ()> {
    match data_dir_of(env) {
        Ok(d) => Ok(path_join(d, name)),
        Err(()) => Err(()),
    }
}

/// `resolve_notes_dir`: the data directory's `notes` for the default setting,
/// otherwise the configured directory with `~` expanded.
pub open spec fn notes_dir_of(notes_dir: Seq<char>, env: PathEnv) -> Result<Seq<char>, ()> {
    if notes_dir == DEFAULT_NOTES_DIR@ {
        data_subdir_of(env, "notes"@)
    } else {
        expand_tilde_of(notes_dir, opt_view(env.home))
    }
}

/// Resolves the configured notes directory, honoring XDG data dirs for the default path.
pub fn resolve_notes_dir(settings: &Settings, env: &PathEnv) -> (r: Result<String, CoreError>)
    ensures
        match r {
            Ok(p) => notes_dir_of(settings.storage.notes_dir@, *env) == Ok::<Seq<char>, ()>(p@),
            Err(e) => notes_dir_of(settings.storage.notes_dir@, *env) is Err && (if settings.storage.notes_dir@ == DEFAULT_NOTES_DIR@ {
                is_missing_directory(e, "data"@)
            } else {
                is_missing_directory(e, "home"@)
            }),
        },
{
    let configured = chars_of(settings.storage.notes_dir.as_str());
    let default = chars_of(DEFAULT_NOTES_DIR);
    if eq(&configured, &default) {
        match default_data_dir(env) {
            Ok(d) => Ok(join_path(d.as_str(), "notes")),
            Err(e) => Err(e),
        }
    } else {
        expand_tilde(settings.storage.notes_dir.as_str(), env)
    }
}

/// `resolve_transcripts_dir`: the data directory's `transcripts`.
pub fn resolve_transcripts_dir(env: &PathEnv) -> (r: Result<String, CoreError>)
    ensures
        path_result_matches(r, data_subdir_of(*env, "transcripts"@), "data"@),
{
    match default_data_dir(env) {
        Ok(d) => Ok(join_path(d.as_str(), "transcripts")),
        Err(e) => Err(e),
    }
}

} // verus!
