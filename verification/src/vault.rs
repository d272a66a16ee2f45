//! Vault-level logic around the catalog: search filtering, name lookup,
//! in-place metrics persistence, and deriving a script's name and
//! language from its file path.

use vstd::prelude::*;

use crate::cli::FindArgs;
use crate::context::{contexts_match, contexts_match_spec};
use crate::errors::VaultError;
use crate::script::{language_label, Script, ScriptContext, Visibility};
use crate::storage::{first_match_by_id, first_match_by_name, has_id, has_name};
use crate::text::{
    contains_seq, contains_str, lower_of, lowercase, rfind_char, str_eq, strip_suffix_all,
    strip_suffix_repeated,
};

verus! {

/// The view of an optional owned string.
pub open spec fn opt_string_view(o: Option<String>) -> Option<Seq<char>> {
    match o {
        Some(s) => Some(s@),
        None => None,
    }
}

/// The view of an optional borrowed snapshot.
pub open spec fn opt_ctx_view(o: Option<&ScriptContext>) -> Option<ScriptContext> {
    match o {
        Some(c) => Some(*c),
        None => None,
    }
}

/// A script matches a free-text query when its lower-cased name,
/// description, or any tag contains the lower-cased query.
pub open spec fn matches_query(s: Script, q: Seq<char>) -> bool {
    ||| contains_seq(lower_of(s.name@), lower_of(q))
    ||| (s.description matches Some(d) && contains_seq(lower_of(d@), lower_of(q)))
    ||| exists|i: int| 0 <= i < s.tags@.len() && contains_seq(lower_of(s.tags@[i]@), lower_of(q))
}

/// The script carries the given tag exactly.
pub open spec fn has_tag(s: Script, tag: Seq<char>) -> bool {
    exists|i: int| 0 <= i < s.tags@.len() && s.tags@[i]@ == tag
}

/// A script passes the find filters: the query, the current context, an
/// exact tag, the language label, and team visibility — each only when
/// asked for.
pub open spec fn script_matches_find(
    s: Script,
    query: Option<Seq<char>>,
    ctx: Option<ScriptContext>,
    tag: Option<Seq<char>>,
    language: Option<Seq<char>>,
    team: bool,
) -> bool {
    &&& (query matches Some(q) ==> matches_query(s, q))
    &&& (ctx matches Some(c) ==> contexts_match_spec(s.context, c))
    &&& (tag matches Some(t) ==> has_tag(s, t))
    &&& (language matches Some(l) ==> language_label(s.language) == l)
    &&& (team ==> s.visibility == Visibility::Team)
}

fn matches_query_exec(s: &Script, q: &str) -> (r: bool)
    ensures
        r == matches_query(*s, q@),
{
    let ql = lowercase(q);
    let name_l = lowercase(s.name.as_str());
    if contains_str(name_l.as_str(), ql.as_str()) {
        return true;
    }
    match &s.description {
        Some(d) => {
            let dl = lowercase(d.as_str());
            if contains_str(dl.as_str(), ql.as_str()) {
                return true;
            }
        },
        None => {},
    }
    let mut i: usize = 0;
    while i < s.tags.len()
        invariant
            0 <= i <= s.tags@.len(),
            ql@ == lower_of(q@),
            forall|j: int| 0 <= j < i ==> !contains_seq(lower_of(s.tags@[j]@), lower_of(q@)),
        decreases s.tags@.len() - i,
    {
        let tl = lowercase(s.tags[i].as_str());
        if contains_str(tl.as_str(), ql.as_str()) {
            return true;
        }
        i += 1;
    }
    false
}

fn has_tag_exec(s: &Script, tag: &str) -> (r: bool)
    ensures
        r == has_tag(*s, tag@),
{
    let mut i: usize = 0;
    while i < s.tags.len()
        invariant
            0 <= i <= s.tags@.len(),
            forall|j: int| 0 <= j < i ==> s.tags@[j]@ != tag@,
        decreases s.tags@.len() - i,
    {
        if str_eq(s.tags[i].as_str(), tag) {
            return true;
        }
        i += 1;
    }
    false
}

/// Whether one script passes all the find filters.
pub fn script_passes(s: &Script, args: &FindArgs, ctx: Option<&ScriptContext>) -> (r: bool)
    ensures
        r == script_matches_find(
            *s,
            opt_string_view(args.query),
            opt_ctx_view(ctx),
            opt_string_view(args.tag),
            opt_string_view(args.language),
            args.team,
        ),
{
    match &args.query {
        Some(q) => {
            if !matches_query_exec(s, q.as_str()) {
                return false;
            }
        },
        None => {},
    }
    match ctx {
        Some(c) => {
            if !contexts_match(&s.context, c) {
                return false;
            }
        },
        None => {},
    }
    match &args.tag {
        Some(t) => {
            if !has_tag_exec(s, t.as_str()) {
                return false;
            }
        },
        None => {},
    }
    match &args.language {
        Some(l) => {
            if !str_eq(s.language.to_string(), l.as_str()) {
                return false;
            }
        },
        None => {},
    }
    if args.team && !(s.visibility == Visibility::Team) {
        return false;
    }
    true
}

/// The positions of all scripts that pass the find filters, in order.
pub fn filter_scripts(scripts: &Vec<Script>, args: &FindArgs, ctx: Option<&ScriptContext>) -> (r:
    Vec<usize>)
    ensures
        forall|k: int|
            0 <= k < r@.len() ==> r@[k] < scripts@.len() && script_matches_find(
                scripts@[r@[k] as int],
                opt_string_view(args.query),
                opt_ctx_view(ctx),
                opt_string_view(args.tag),
                opt_string_view(args.language),
                args.team,
            ),
        forall|k1: int, k2: int| 0 <= k1 < k2 < r@.len() ==> r@[k1] < r@[k2],
        forall|i: int|
            0 <= i < scripts@.len() && script_matches_find(
                scripts@[i],
                opt_string_view(args.query),
                opt_ctx_view(ctx),
                opt_string_view(args.tag),
                opt_string_view(args.language),
                args.team,
            ) ==> exists|k: int| 0 <= k < r@.len() && r@[k] == i,
{
    let ghost q = opt_string_view(args.query);
    let ghost cx = opt_ctx_view(ctx);
    let ghost tg = opt_string_view(args.tag);
    let ghost lg = opt_string_view(args.language);
    let mut out: Vec<usize> = Vec::new();
    let mut i: usize = 0;
    while i < scripts.len()
        invariant
            0 <= i <= scripts@.len(),
            q == opt_string_view(args.query),
            cx == opt_ctx_view(ctx),
            tg == opt_string_view(args.tag),
            lg == opt_string_view(args.language),
            forall|k: int|
                0 <= k < out@.len() ==> out@[k] < i && script_matches_find(
                    scripts@[out@[k] as int],
                    q,
                    cx,
                    tg,
                    lg,
                    args.team,
                ),
            forall|k1: int, k2: int| 0 <= k1 < k2 < out@.len() ==> out@[k1] < out@[k2],
            forall|j: int|
                0 <= j < i && script_matches_find(scripts@[j], q, cx, tg, lg, args.team)
                    ==> exists|k: int| 0 <= k < out@.len() && out@[k] == j,
        decreases scripts@.len() - i,
    {
        if script_passes(&scripts[i], args, ctx) {
            let ghost pre = out@;
            out.push(i);
            proof {
                assert forall|j: int|
                    0 <= j < i + 1 && script_matches_find(
                        scripts@[j],
                        q,
                        cx,
                        tg,
                        lg,
                        args.team,
                    ) implies exists|k: int| 0 <= k < out@.len() && out@[k] == j by {
                    if j == i {
                        assert(out@[pre.len() as int] == i as usize);
                    } else {
                        let k = choose|k: int| 0 <= k < pre.len() && pre[k] == j;
                        assert(out@[k] == j);
                    }
                }
            }
        }
        i += 1;
    }
    out
}

/// The position of the first script with the given name, if any.
pub fn find_index_by_name(scripts: &Vec<Script>, name: &str) -> (r: Option<usize>)
    ensures
        r matches Some(i) ==> first_match_by_name(scripts@, name@, i as int),
        r is None ==> !has_name(scripts@, name@),
{
    let mut i: usize = 0;
    while i < scripts.len()
        invariant
            0 <= i <= scripts@.len(),
            forall|j: int| 0 <= j < i ==> scripts@[j].name@ != name@,
        decreases scripts@.len() - i,
    {
        if str_eq(scripts[i].name.as_str(), name) {
            return Some(i);
        }
        i += 1;
    }
    None
}

/// Replaces the first entry carrying the updated script's id, in place;
/// `NotFound`, with the document unchanged, when no entry carries it.
pub fn update_script_metadata(scripts: &mut Vec<Script>, updated: Script) -> (r: Result<
    (),
    VaultError,
>)
    ensures
        r is Ok <==> has_id(old(scripts)@, updated.id@),
        r is Ok ==> exists|i: int|
            first_match_by_id(old(scripts)@, updated.id@, i) && final(scripts)@ == old(
                scripts,
            )@.update(i, updated),
        r matches Err(e) ==> e == VaultError::NotFound && final(scripts)@ == old(scripts)@,
{
    let mut i: usize = 0;
    while i < scripts.len()
        invariant
            0 <= i <= scripts@.len(),
            scripts@ == old(scripts)@,
            forall|j: int| 0 <= j < i ==> scripts@[j].id@ != updated.id@,
        decreases scripts@.len() - i,
    {
        if str_eq(scripts[i].id.as_str(), updated.id.as_str()) {
            let ghost pre = scripts@;
            let ghost pos = i as int;
            scripts.remove(i);
            scripts.insert(i, updated);
            proof {
                assert(first_match_by_id(pre, updated.id@, pos));
                assert(scripts@ =~= pre.update(pos, updated));
            }
            return Ok(());
        }
        i += 1;
    }
    Err(VaultError::NotFound)
}

/// The portion of a path after its last slash, trailing separators
/// ignored, as `Path::file_name` reads it.
pub open spec fn file_name_part(p: Seq<char>) -> Seq<char> {
    let q = strip_suffix_all(p, "/"@);
    match q.index_of_last('/') {
        Some(i) => q.subrange(i + 1, q.len() as int),
        None => q,
    }
}

/// The file name without its extension: everything before the last dot,
/// unless the only dot is the leading one.
pub open spec fn stem_part(f: Seq<char>) -> Seq<char> {
    match f.index_of_last('.') {
        Some(i) => if i > 0 {
            f.subrange(0, i)
        } else {
            f
        },
        None => f,
    }
}

/// The extension after the last dot, if the name has one beyond a leading
/// dot.
pub open spec fn ext_part(f: Seq<char>) -> Option<Seq<char>> {
    match f.index_of_last('.') {
        Some(i) => if i > 0 {
            Some(f.subrange(i + 1, f.len() as int))
        } else {
            None
        },
        None => None,
    }
}

fn split_after_last<'a>(s: &'a str, c: char) -> (r: (Option<usize>, &'a str))
    ensures
        s@.index_of_last(c) == (match r.0 {
            Some(i) => Some(i as int),
            None => None,
        }),
        r.1@ == (match s@.index_of_last(c) {
            Some(i) => s@.subrange(i + 1, s@.len() as int),
            None => s@,
        }),
{
    let len = s.unicode_len();
    let found = rfind_char(s, c);
    proof {
        s@.index_of_last_ensures(c);
        match found {
            Some(i) => {
                match s@.index_of_last(c) {
                    Some(idx) => {
                        if idx < i as int {
                            assert(false);
                        }
                        if idx > i as int {
                            assert(false);
                        }
                    },
                    None => {
                        assert(s@.contains(s@[i as int]));
                        assert(false);
                    },
                }
            },
            None => {
                match s@.index_of_last(c) {
                    Some(idx) => {
                        assert(s@[idx] == c);
                        assert(false);
                    },
                    None => {},
                }
            },
        }
    }
    match found {
        Some(i) => (Some(i), s.substring_char(i + 1, len)),
        None => (None, s),
    }
}

/// The script name a path implies: the file name without its extension.
pub fn script_name_from_path(path: &str) -> (r: String)
    ensures
        r@ == stem_part(file_name_part(path@)),
{
    let trimmed = strip_suffix_repeated(path, "/");
    let (_, fname) = split_after_last(trimmed, '/');
    let (dot, _) = split_after_last(fname, '.');
    proof {
        fname@.index_of_last_ensures('.');
    }
    match dot {
        Some(i) => {
            if i > 0 {
                fname.substring_char(0, i).to_owned()
            } else {
                fname.to_owned()
            }
        },
        None => fname.to_owned(),
    }
}

/// The extension a path implies, with the default used when it has none.
pub fn script_extension_from_path(path: &str) -> (r: String)
    ensures
        r@ == (match ext_part(file_name_part(path@)) {
            Some(e) => e,
            None => "sh"@,
        }),
{
    let trimmed = strip_suffix_repeated(path, "/");
    let (_, fname) = split_after_last(trimmed, '/');
    let (dot, rest) = split_after_last(fname, '.');
    match dot {
        Some(i) => {
            if i > 0 {
                rest.to_owned()
            } else {
                "sh".to_owned()
            }
        },
        None => "sh".to_owned(),
    }
}

} // verus!
