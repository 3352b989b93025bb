//! Resolution of the path of a local-control file write or delete, with
//! Unix path semantics. The file system is consulted by the caller between
//! the steps: whether the candidate exists, and the canonical form of the
//! candidate or of its parent directory.
use vstd::prelude::*;
use crate::json::str_eq;
use crate::local_control::protocol::{action_name, ActionKind, ControlError, ErrorCode};
use crate::text::{chars_of, concat, push_char, string_from_chars};

verus! {

/// The pieces of `s` between `/` characters, as `str::split('/')` gives
/// them (empty pieces included).
pub open spec fn split_slash(s: Seq<char>) -> Seq<Seq<char>>
    decreases s.len(),
{
    if s.len() == 0 {
        seq![Seq::empty()]
    } else if s.last() == '/' {
        split_slash(s.drop_last()).push(Seq::empty())
    } else {
        let r = split_slash(s.drop_last());
        r.update(r.len() - 1, r.last().push(s.last()))
    }
}

proof fn lemma_split_slash_nonempty(s: Seq<char>)
    ensures
        split_slash(s).len() >= 1,
        split_slash(s).len() == 1 ==> split_slash(s)[0] == s,
    decreases s.len(),
{
    if s.len() > 0 {
        lemma_split_slash_nonempty(s.drop_last());
        if s.last() != '/' && split_slash(s.drop_last()).len() == 1 {
            assert(s.drop_last().push(s.last()) =~= s);
        }
    }
}

/// Whether `path` is absolute (starts at the root).
pub open spec fn is_absolute(path: Seq<char>) -> bool {
    path.len() > 0 && path[0] == '/'
}

/// Whether no component of `path` is `..`: none of its `/`-separated
/// pieces is `..`.
pub open spec fn safe_components(path: Seq<char>) -> bool {
    !split_slash(path).contains(".."@)
}

/// The pieces that name components: the non-empty pieces other than `.`.
pub open spec fn named_pieces(pieces: Seq<Seq<char>>) -> Seq<Seq<char>>
    decreases pieces.len(),
{
    if pieces.len() == 0 {
        Seq::empty()
    } else if pieces.last().len() == 0 || pieces.last() == "."@ {
        named_pieces(pieces.drop_last())
    } else {
        named_pieces(pieces.drop_last()).push(pieces.last())
    }
}

/// The components of `path`, as `Path::components` yields them on Unix:
/// `/` for the root, `.` for a leading current-directory component, then
/// the named pieces (repeated separators, inner `.` and a trailing
/// separator are normalized away).
pub open spec fn path_parts(path: Seq<char>) -> Seq<Seq<char>> {
    let pieces = split_slash(path);
    if is_absolute(path) {
        seq!["/"@] + named_pieces(pieces.drop_first())
    } else if pieces[0] == "."@ {
        seq!["."@] + named_pieces(pieces.drop_first())
    } else {
        named_pieces(pieces)
    }
}

/// Whether `path` starts with the components of `base` (`Path::starts_with`).
pub open spec fn path_starts_with(path: Seq<char>, base: Seq<char>) -> bool {
    let p = path_parts(path);
    let b = path_parts(base);
    b.len() <= p.len() && p.take(b.len() as int) == b
}

/// Whether a component is a name (not the root, `.` or `..`).
pub open spec fn is_name(part: Seq<char>) -> bool {
    part != "/"@ && part != "."@ && part != ".."@
}

/// The components written out as a path.
pub open spec fn render_parts(parts: Seq<Seq<char>>) -> Seq<char>
    decreases parts.len(),
{
    if parts.len() == 0 {
        Seq::empty()
    } else if parts.len() == 1 {
        parts[0]
    } else if parts.drop_last().len() == 1 && parts[0] == "/"@ {
        "/"@ + parts.last()
    } else {
        render_parts(parts.drop_last()) + "/"@ + parts.last()
    }
}

/// `rel` appended to `base` (`Path::join` for a relative `rel`): with a
/// separator unless `base` is empty or already ends with one.
pub open spec fn join_path(base: Seq<char>, rel: Seq<char>) -> Seq<char> {
    if base.len() == 0 || base.last() == '/' {
        base + rel
    } else {
        base + "/"@ + rel
    }
}

/// The candidate path of a file mutation: the requested path when it is
/// absolute, else the requested path under the only workspace root.
pub open spec fn candidate_path(path: Seq<char>, roots: Seq<Seq<char>>) -> Result<Seq<char>, ErrorCode> {
    if path.len() == 0 {
        Err(ErrorCode::InvalidParams)
    } else if !safe_components(path) {
        Err(ErrorCode::InvalidSelector)
    } else if is_absolute(path) {
        Ok(path)
    } else if roots.len() == 1 {
        Ok(join_path(roots[0], path))
    } else {
        Err(ErrorCode::InvalidSelector)
    }
}

/// The plain value of a list of strings.
pub open spec fn strings_view(v: Seq<String>) -> Seq<Seq<char>> {
    v.map_values(|s: String| s@)
}

/// The plain value of a result carrying a path.
pub open spec fn path_result(r: Result<String, ControlError>) -> Result<Seq<char>, ErrorCode> {
    match r {
        Ok(p) => Ok(p@),
        Err(e) => Err(e.code),
    }
}

/// The pieces of `s` between `/` characters.
fn split_slash_exec(s: &Vec<char>) -> (pieces: Vec<Vec<char>>)
    ensures
        pieces@.map_values(|v: Vec<char>| v@) == split_slash(s@),
{
    let mut pieces: Vec<Vec<char>> = Vec::new();
    let mut current: Vec<char> = Vec::new();
    let n = s.len();
    let mut i: usize = 0;
    while i < n
        invariant
            n == s@.len(),
            i <= n,
            pieces@.map_values(|v: Vec<char>| v@).push(current@) == split_slash(s@.take(i as int)),
        decreases n - i,
    {
        assert(s@.take(i + 1).drop_last() =~= s@.take(i as int));
        let ghost before = pieces@.map_values(|v: Vec<char>| v@).push(current@);
        if s[i] == '/' {
            pieces.push(current);
            current = Vec::new();
            assert(pieces@.map_values(|v: Vec<char>| v@).push(current@) =~= before.push(Seq::empty()));
        } else {
            current.push(s[i]);
            assert(pieces@.map_values(|v: Vec<char>| v@).push(current@) =~= before.update(before.len() - 1, before.last().push(s@[i as int])));
        }
        i = i + 1;
    }
    assert(s@.take(n as int) =~= s@);
    pieces.push(current);
    pieces
}

/// Whether a piece is `c` followed by nothing, or the two-character `..`.
fn piece_is(piece: &Vec<char>, text: &str) -> (eq: bool)
    ensures
        eq == (piece@ == text@),
{
    let chars = chars_of(text);
    if piece.len() != chars.len() {
        return false;
    }
    let mut i: usize = 0;
    while i < piece.len()
        invariant
            piece@.len() == chars@.len(),
            chars@ == text@,
            i <= piece@.len(),
            forall|k: int| 0 <= k < i ==> piece@[k] == chars@[k],
        decreases piece@.len() - i,
    {
        if piece[i] != chars[i] {
            return false;
        }
        i = i + 1;
    }
    assert(piece@ =~= text@);
    true
}

/// Whether no component of `path` is `..`.
pub fn path_has_safe_components(path: &str) -> (safe: bool)
    ensures
        safe == safe_components(path@),
{
    let chars = chars_of(path);
    let pieces = split_slash_exec(&chars);
    let ghost views = pieces@.map_values(|v: Vec<char>| v@);
    let n = pieces.len();
    let mut i: usize = 0;
    while i < n
        invariant
            n == pieces@.len(),
            views == pieces@.map_values(|v: Vec<char>| v@),
            views == split_slash(path@),
            i <= n,
            forall|k: int| 0 <= k < i ==> views[k] != ".."@,
        decreases n - i,
    {
        if piece_is(&pieces[i], "..") {
            assert(views[i as int] == ".."@);
            return false;
        }
        i = i + 1;
    }
    true
}

/// The named pieces, in order.
fn named_pieces_exec(pieces: &Vec<Vec<char>>, from: usize) -> (named: Vec<Vec<char>>)
    requires
        from <= pieces@.len(),
    ensures
        named@.map_values(|v: Vec<char>| v@) == named_pieces(pieces@.map_values(|v: Vec<char>| v@).skip(from as int)),
{
    let ghost views = pieces@.map_values(|v: Vec<char>| v@).skip(from as int);
    let mut named: Vec<Vec<char>> = Vec::new();
    let n = pieces.len();
    let mut i: usize = from;
    while i < n
        invariant
            n == pieces@.len(),
            from <= i <= n,
            views == pieces@.map_values(|v: Vec<char>| v@).skip(from as int),
            named@.map_values(|v: Vec<char>| v@) == named_pieces(views.take(i - from)),
        decreases n - i,
    {
        assert(views.take(i + 1 - from).drop_last() =~= views.take(i - from));
        assert(views.take(i + 1 - from).last() == pieces@[i as int]@);
        let ghost before = named@.map_values(|v: Vec<char>| v@);
        if pieces[i].len() != 0 && !piece_is(&pieces[i], ".") {
            named.push(pieces[i].clone());
            assert(named@.map_values(|v: Vec<char>| v@) =~= before.push(pieces@[i as int]@));
        }
        i = i + 1;
    }
    assert(views.take(n - from) =~= views);
    named
}

/// The components of `path`.
fn path_parts_exec(path: &str) -> (parts: Vec<Vec<char>>)
    ensures
        parts@.map_values(|v: Vec<char>| v@) == path_parts(path@),
{
    let chars = chars_of(path);
    let pieces = split_slash_exec(&chars);
    proof {
        lemma_split_slash_nonempty(path@);
    }
    let ghost views = pieces@.map_values(|v: Vec<char>| v@);
    assert(views.drop_first() =~= views.skip(1));
    assert(views.skip(0) =~= views);
    let mut parts: Vec<Vec<char>> = Vec::new();
    if chars.len() > 0 && chars[0] == '/' {
        let mut root: Vec<char> = Vec::new();
        root.push('/');
        parts.push(root);
        let named = named_pieces_exec(&pieces, 1);
        let ghost p0 = parts@.map_values(|v: Vec<char>| v@);
        assert(p0 =~= seq!["/"@]) by {
            reveal_strlit("/");
            assert(p0[0] =~= "/"@);
        }
        append_all(&mut parts, named);
    } else if piece_is(&pieces[0], ".") {
        let mut dot: Vec<char> = Vec::new();
        dot.push('.');
        parts.push(dot);
        let named = named_pieces_exec(&pieces, 1);
        let ghost p0 = parts@.map_values(|v: Vec<char>| v@);
        assert(p0 =~= seq!["."@]) by {
            reveal_strlit(".");
            assert(p0[0] =~= "."@);
        }
        append_all(&mut parts, named);
    } else {
        parts = named_pieces_exec(&pieces, 0);
    }
    parts
}

/// Appends the pieces of `more` to `parts`.
fn append_all(parts: &mut Vec<Vec<char>>, more: Vec<Vec<char>>)
    ensures
        final(parts)@.map_values(|v: Vec<char>| v@) == old(parts)@.map_values(|v: Vec<char>| v@) + more@.map_values(|v: Vec<char>| v@),
{
    let ghost start = old(parts)@.map_values(|v: Vec<char>| v@);
    let n = more.len();
    let mut i: usize = 0;
    while i < n
        invariant
            n == more@.len(),
            i <= n,
            parts@.map_values(|v: Vec<char>| v@) == start + more@.map_values(|v: Vec<char>| v@).take(i as int),
        decreases n - i,
    {
        let ghost before = parts@.map_values(|v: Vec<char>| v@);
        parts.push(more[i].clone());
        assert(parts@.map_values(|v: Vec<char>| v@) =~= before.push(more@[i as int]@));
        assert(more@.map_values(|v: Vec<char>| v@).take(i + 1) =~= more@.map_values(|v: Vec<char>| v@).take(i as int).push(more@[i as int]@));
        i = i + 1;
    }
    assert(more@.map_values(|v: Vec<char>| v@).take(n as int) =~= more@.map_values(|v: Vec<char>| v@));
}

/// The components of `path`.
pub(crate) fn path_parts_of(path: &str) -> (parts: Vec<Vec<char>>)
    ensures
        parts@.map_values(|v: Vec<char>| v@) == path_parts(path@),
{
    path_parts_exec(path)
}

/// Whether a component is a name (not the root, `.` or `..`).
pub(crate) fn is_name_exec(part: &Vec<char>) -> (name: bool)
    ensures
        name == is_name(part@),
{
    !piece_is(part, "/") && !piece_is(part, ".") && !piece_is(part, "..")
}

/// Whether `path` starts with the components of `base`.
pub fn path_starts_with_exec(path: &str, base: &str) -> (starts: bool)
    ensures
        starts == path_starts_with(path@, base@),
{
    let p = path_parts_exec(path);
    let b = path_parts_exec(base);
    let ghost pv = p@.map_values(|v: Vec<char>| v@);
    let ghost bv = b@.map_values(|v: Vec<char>| v@);
    assert(pv.len() == p@.len() && bv.len() == b@.len());
    if b.len() > p.len() {
        return false;
    }
    let mut i: usize = 0;
    while i < b.len()
        invariant
            b@.len() <= p@.len(),
            pv == path_parts(path@),
            bv == path_parts(base@),
            pv == p@.map_values(|v: Vec<char>| v@),
            bv == b@.map_values(|v: Vec<char>| v@),
            i <= b@.len(),
            forall|k: int| 0 <= k < i ==> pv[k] == bv[k],
        decreases b@.len() - i,
    {
        if !vec_chars_eq(&p[i], &b[i]) {
            assert(pv.take(bv.len() as int)[i as int] != bv[i as int]);
            return false;
        }
        i = i + 1;
    }
    assert(pv.take(bv.len() as int) =~= bv);
    true
}

/// Whether two character vectors hold the same characters.
fn vec_chars_eq(a: &Vec<char>, b: &Vec<char>) -> (eq: bool)
    ensures
        eq == (a@ == b@),
{
    if a.len() != b.len() {
        return false;
    }
    let mut i: usize = 0;
    while i < a.len()
        invariant
            a@.len() == b@.len(),
            i <= a@.len(),
            forall|k: int| 0 <= k < i ==> a@[k] == b@[k],
        decreases a@.len() - i,
    {
        if a[i] != b[i] {
            return false;
        }
        i = i + 1;
    }
    assert(a@ =~= b@);
    true
}

/// `rel` appended to `base` with a separator when needed.
pub fn join_path_exec(base: &str, rel: &str) -> (joined: String)
    ensures
        joined@ == join_path(base@, rel@),
{
    let chars = chars_of(base);
    if chars.len() == 0 || chars[chars.len() - 1] == '/' {
        concat(base, rel)
    } else {
        let with_sep = concat(base, "/");
        concat(with_sep.as_str(), rel)
    }
}

/// The candidate path of a file write or delete: refuses an empty path and
/// any `..` component, and resolves a relative path against the workspace
/// root when there is exactly one.
pub fn file_mutation_candidate(action: ActionKind, path: &str, roots: &Vec<String>) -> (result: Result<String, ControlError>)
    ensures
        path_result(result) == candidate_path(path@, strings_view(roots@)),
        result matches Err(e) ==> e.details is None && e.message@ == action_name(action) + (
            if path@.len() == 0 {
                " requires a non-empty path"@
            } else if !safe_components(path@) {
                " path must not contain parent traversal"@
            } else {
                " requires an absolute path when multiple workspace roots are available"@
            }),
{
    if path.is_empty() {
        return Err(ControlError::new(
            ErrorCode::InvalidParams,
            concat(action.as_str(), " requires a non-empty path"),
        ));
    }
    if !path_has_safe_components(path) {
        return Err(ControlError::new(
            ErrorCode::InvalidSelector,
            concat(action.as_str(), " path must not contain parent traversal"),
        ));
    }
    let chars = chars_of(path);
    if chars[0] == '/' {
        return Ok(path.to_owned());
    }
    if roots.len() != 1 {
        return Err(ControlError::new(
            ErrorCode::InvalidSelector,
            concat(action.as_str(), " requires an absolute path when multiple workspace roots are available"),
        ));
    }
    Ok(join_path_exec(roots[0].as_str(), path))
}

/// What the caller canonicalizes next.
#[derive(Debug)]
pub enum PathProbe {
    /// The candidate exists: canonicalize it.
    Canonicalize { path: String },
    /// The candidate does not exist yet: canonicalize its parent directory,
    /// then the file name is appended.
    CanonicalizeParent { parent: String, file_name: String },
}

/// The next step for a candidate path: canonicalize it when it exists;
/// when it does not and a missing file is allowed, canonicalize its parent
/// (it needs a parent and a file name); otherwise the path is stale.
pub open spec fn probe_for(candidate: Seq<char>, exists: bool, allow_missing_file: bool) -> Result<(Seq<char>, Option<Seq<char>>), ErrorCode> {
    let parts = path_parts(candidate);
    if exists {
        Ok((candidate, None))
    } else if !allow_missing_file {
        Err(ErrorCode::StaleTarget)
    } else if parts.len() == 0 || parts.last() == "/"@ {
        Err(ErrorCode::InvalidSelector)
    } else if !is_name(parts.last()) {
        Err(ErrorCode::InvalidSelector)
    } else {
        Ok((render_parts(parts.drop_last()), Some(parts.last())))
    }
}

/// The plain value of a probe: what to canonicalize, and the file name to
/// append when it is a parent directory.
pub open spec fn probe_view(probe: PathProbe) -> (Seq<char>, Option<Seq<char>>) {
    match probe {
        PathProbe::Canonicalize { path } => (path@, None),
        PathProbe::CanonicalizeParent { parent, file_name } => (parent@, Some(file_name@)),
    }
}

/// The plain value of a probe result.
pub open spec fn probe_result(r: Result<PathProbe, ControlError>) -> Result<(Seq<char>, Option<Seq<char>>), ErrorCode> {
    match r {
        Ok(PathProbe::Canonicalize { path }) => Ok((path@, None)),
        Ok(PathProbe::CanonicalizeParent { parent, file_name }) => Ok((parent@, Some(file_name@))),
        Err(e) => Err(e.code),
    }
}

/// The components written out as a path.
fn render_parts_exec(parts: &Vec<Vec<char>>, len: usize) -> (path: String)
    requires
        len <= parts@.len(),
    ensures
        path@ == render_parts(parts@.map_values(|v: Vec<char>| v@).take(len as int)),
    decreases len,
{
    let ghost views = parts@.map_values(|v: Vec<char>| v@).take(len as int);
    if len == 0 {
        return String::new();
    }
    if len == 1 {
        return string_from_chars(&parts[0]);
    }
    assert(views.drop_last() =~= parts@.map_values(|v: Vec<char>| v@).take(len - 1));
    if len == 2 && piece_is(&parts[0], "/") {
        let mut out = String::new();
        push_char(&mut out, '/');
        proof {
            reveal_strlit("/");
            assert(out@ =~= "/"@);
        }
        let last = string_from_chars(&parts[1]);
        let joined = concat(out.as_str(), last.as_str());
        return joined;
    }
    let head = render_parts_exec(parts, len - 1);
    let with_sep = concat(head.as_str(), "/");
    let last = string_from_chars(&parts[len - 1]);
    concat(with_sep.as_str(), last.as_str())
}

/// Decides what to canonicalize for `candidate`, given whether it exists.
pub fn file_mutation_probe(
    action: ActionKind,
    candidate: &str,
    exists: bool,
    allow_missing_file: bool,
) -> (result: Result<PathProbe, ControlError>)
    ensures
        probe_result(result) == probe_for(candidate@, exists, allow_missing_file),
        result matches Err(e) ==> e.details is None && e.message@ == action_name(action) + (
            if !allow_missing_file {
                " cannot resolve the requested file path"@
            } else if path_parts(candidate@).len() == 0 || path_parts(candidate@).last() == "/"@ {
                " requires a path with a parent directory"@
            } else {
                " requires a file path"@
            }),
{
    if exists {
        return Ok(PathProbe::Canonicalize { path: candidate.to_owned() });
    }
    if !allow_missing_file {
        return Err(ControlError::new(
            ErrorCode::StaleTarget,
            concat(action.as_str(), " cannot resolve the requested file path"),
        ));
    }
    let parts = path_parts_exec(candidate);
    let ghost views = parts@.map_values(|v: Vec<char>| v@);
    let n = parts.len();
    if n == 0 || piece_is(&parts[n - 1], "/") {
        return Err(ControlError::new(
            ErrorCode::InvalidSelector,
            concat(action.as_str(), " requires a path with a parent directory"),
        ));
    }
    assert(views.last() == parts@[n - 1]@);
    if piece_is(&parts[n - 1], ".") || piece_is(&parts[n - 1], "..") {
        return Err(ControlError::new(
            ErrorCode::InvalidSelector,
            concat(action.as_str(), " requires a file path"),
        ));
    }
    let parent = render_parts_exec(&parts, n - 1);
    assert(views.take(n - 1) =~= views.drop_last());
    let file_name = string_from_chars(&parts[n - 1]);
    Ok(PathProbe::CanonicalizeParent { parent, file_name })
}

/// The resolved path after canonicalization, checked against the roots:
/// a canonicalization failure is stale; the resolved path must lie under
/// one of the roots.
pub open spec fn resolved_path_for(
    probe: (Seq<char>, Option<Seq<char>>),
    canonical: Result<Seq<char>, Seq<char>>,
    roots: Seq<Seq<char>>,
) -> Result<Seq<char>, ErrorCode> {
    match canonical {
        Err(_) => Err(ErrorCode::StaleTarget),
        Ok(c) => {
            let resolved = match probe.1 {
                None => c,
                Some(name) => join_path(c, name),
            };
            if exists|i: int| 0 <= i < roots.len() && path_starts_with(resolved, #[trigger] roots[i]) {
                Ok(resolved)
            } else {
                Err(ErrorCode::InvalidSelector)
            }
        },
    }
}

/// The plain value of a canonicalization outcome.
pub open spec fn canonical_view(c: Result<String, String>) -> Result<Seq<char>, Seq<char>> {
    match c {
        Ok(p) => Ok(p@),
        Err(e) => Err(e@),
    }
}

/// Finishes the resolution with the canonical path the caller computed for
/// `probe` (or the canonicalization error, kept as the error's details).
pub fn finish_file_mutation_path(
    action: ActionKind,
    probe: &PathProbe,
    canonical: Result<String, String>,
    roots: &Vec<String>,
) -> (result: Result<String, ControlError>)
    ensures
        path_result(result) == resolved_path_for(
            probe_view(*probe),
            canonical_view(canonical),
            strings_view(roots@),
        ),
        result matches Err(e) ==> match canonical {
            Err(details) => e.details == Some(details) && e.message@ == action_name(action) + (
                if *probe is Canonicalize {
                    " cannot resolve the requested file path"@
                } else {
                    " cannot resolve the requested parent directory"@
                }),
            Ok(_) => e.details is None
                && e.message@ == action_name(action) + " path is outside the active project or known workspace paths"@,
        },
{
    let ghost cv = canonical_view(canonical);
    let ghost pv = probe_view(*probe);
    let resolved = match (probe, canonical) {
        (PathProbe::Canonicalize { .. }, Ok(c)) => c,
        (PathProbe::CanonicalizeParent { file_name, .. }, Ok(c)) => join_path_exec(c.as_str(), file_name.as_str()),
        (PathProbe::Canonicalize { .. }, Err(details)) => {
            return Err(ControlError::with_details(
                ErrorCode::StaleTarget,
                concat(action.as_str(), " cannot resolve the requested file path"),
                details,
            ));
        },
        (PathProbe::CanonicalizeParent { .. }, Err(details)) => {
            return Err(ControlError::with_details(
                ErrorCode::StaleTarget,
                concat(action.as_str(), " cannot resolve the requested parent directory"),
                details,
            ));
        },
    };
    let ghost rv = strings_view(roots@);
    let n = roots.len();
    let mut i: usize = 0;
    while i < n
        invariant
            n == roots@.len(),
            rv == strings_view(roots@),
            i <= n,
            pv == probe_view(*probe),
            cv == canonical_view(canonical),
            cv matches Ok(c) && resolved@ == (match pv.1 {
                None => c,
                Some(name) => join_path(c, name),
            }),
            forall|k: int| 0 <= k < i ==> !path_starts_with(resolved@, #[trigger] rv[k]),
        decreases n - i,
    {
        if path_starts_with_exec(resolved.as_str(), roots[i].as_str()) {
            assert(path_starts_with(resolved@, rv[i as int]));
            return Ok(resolved);
        }
        i = i + 1;
    }
    Err(ControlError::new(
        ErrorCode::InvalidSelector,
        concat(action.as_str(), " path is outside the active project or known workspace paths"),
    ))
}

/// The first occurrence of each element of `s`, in order.
pub open spec fn first_occurrences(s: Seq<Seq<char>>) -> Seq<Seq<char>>
    decreases s.len(),
{
    if s.len() == 0 {
        Seq::empty()
    } else {
        let kept = first_occurrences(s.drop_last());
        if kept.contains(s.last()) {
            kept
        } else {
            kept.push(s.last())
        }
    }
}

/// The workspace roots for file mutations: the canonical project
/// directories, each once, in order; `TargetStateConflict` when there are
/// none.
pub fn file_mutation_roots(canonical_dirs: Vec<String>) -> (result: Result<Vec<String>, ControlError>)
    ensures
        match result {
            Ok(roots) => {
                &&& strings_view(roots@) == first_occurrences(strings_view(canonical_dirs@))
                &&& roots@.len() > 0
                &&& strings_view(roots@).no_duplicates()
                &&& forall|i: int| 0 <= i < canonical_dirs@.len() ==> strings_view(roots@).contains(#[trigger] canonical_dirs@[i]@)
                &&& forall|i: int| 0 <= i < roots@.len() ==> strings_view(canonical_dirs@).contains(#[trigger] roots@[i]@)
            },
            Err(e) => e.code == ErrorCode::TargetStateConflict && canonical_dirs@.len() == 0
                && e.message@ == "file mutations require an active local project or known workspace path"@,
        },
{
    let mut roots: Vec<String> = Vec::new();
    let n = canonical_dirs.len();
    let mut i: usize = 0;
    while i < n
        invariant
            n == canonical_dirs@.len(),
            i <= n,
            strings_view(roots@) == first_occurrences(strings_view(canonical_dirs@).take(i as int)),
            strings_view(roots@).no_duplicates(),
            i > 0 ==> roots@.len() > 0,
            forall|k: int| 0 <= k < i ==> strings_view(roots@).contains(#[trigger] canonical_dirs@[k]@),
            forall|k: int| 0 <= k < roots@.len() ==> strings_view(canonical_dirs@).contains(#[trigger] roots@[k]@),
        decreases n - i,
    {
        let mut found = false;
        let mut j: usize = 0;
        while j < roots.len()
            invariant
                i < n,
                n == canonical_dirs@.len(),
                j <= roots@.len(),
                found ==> strings_view(roots@).contains(canonical_dirs@[i as int]@),
                !found ==> forall|k: int| 0 <= k < j ==> (#[trigger] roots@[k])@ != canonical_dirs@[i as int]@,
            decreases roots@.len() - j,
        {
            if str_eq(roots[j].as_str(), canonical_dirs[i].as_str()) {
                assert(strings_view(roots@)[j as int] == canonical_dirs@[i as int]@);
                found = true;
            }
            j = j + 1;
        }
        let ghost before = strings_view(roots@);
        proof {
            let all = strings_view(canonical_dirs@);
            assert(all.take(i + 1).drop_last() =~= all.take(i as int));
            assert(all.take(i + 1).last() == canonical_dirs@[i as int]@);
            if !found {
                assert(!before.contains(canonical_dirs@[i as int]@));
            }
        }
        if !found {
            assert(strings_view(canonical_dirs@)[i as int] == canonical_dirs@[i as int]@);
            roots.push(canonical_dirs[i].clone());
            assert(strings_view(roots@) =~= before.push(canonical_dirs@[i as int]@));
            assert forall|k: int| 0 <= k < i + 1 implies strings_view(roots@).contains(#[trigger] canonical_dirs@[k]@) by {
                if k < i {
                    let w = choose|w: int| 0 <= w < before.len() && before[w] == canonical_dirs@[k]@;
                    assert(strings_view(roots@)[w] == canonical_dirs@[k]@);
                } else {
                    assert(strings_view(roots@)[before.len() as int] == canonical_dirs@[k]@);
                }
            }
            assert(strings_view(roots@).no_duplicates()) by {
                assert forall|a: int, b: int| 0 <= a < b < strings_view(roots@).len() implies strings_view(roots@)[a] != strings_view(roots@)[b] by {
                    if b == before.len() {
                        assert(roots@[a]@ != canonical_dirs@[i as int]@);
                    }
                }
            }
        }
        i = i + 1;
    }
    assert(strings_view(canonical_dirs@).take(n as int) =~= strings_view(canonical_dirs@));
    if roots.len() == 0 {
        return Err(ControlError::new(
            ErrorCode::TargetStateConflict,
            "file mutations require an active local project or known workspace path".to_owned(),
        ));
    }
    Ok(roots)
}

/// The error of a refused `file.write`: stale for a missing file without
/// `create`, unsupported for a path that is not a regular file.
pub open spec fn write_refused_with(create: bool, present: bool, e: ControlError) -> bool {
    if !create && !present {
        e.code == ErrorCode::StaleTarget && e.message@ == "file.write cannot resolve the requested file path"@
    } else {
        e.code == ErrorCode::UnsupportedAction && e.message@ == "file.write only supports writing files"@
    }
}

/// Checks a `file.write` on the resolved path: a missing file needs
/// `create`, and an existing path must be a regular file.
pub fn file_write_check(create: bool, present: bool, is_file: bool) -> (result: Result<(), ControlError>)
    ensures
        result is Ok <==> ((create || present) && (!present || is_file)),
        result matches Err(e) ==> e.details is None && write_refused_with(create, present, e),
{
    if !create && !present {
        return Err(ControlError::new(
            ErrorCode::StaleTarget,
            "file.write cannot resolve the requested file path".to_owned(),
        ));
    }
    if present && !is_file {
        return Err(ControlError::new(
            ErrorCode::UnsupportedAction,
            "file.write only supports writing files".to_owned(),
        ));
    }
    Ok(())
}

/// Refuses a recursive `file.delete`, before any path is resolved.
pub fn file_delete_params_check(recursive: bool) -> (result: Result<(), ControlError>)
    ensures
        result is Ok <==> !recursive,
        result matches Err(e) ==> e.details is None && e.code == ErrorCode::UnsupportedAction
            && e.message@ == "file.delete does not support recursive directory deletion"@,
{
    if recursive {
        return Err(ControlError::new(
            ErrorCode::UnsupportedAction,
            "file.delete does not support recursive directory deletion".to_owned(),
        ));
    }
    Ok(())
}

/// Checks a `file.delete` on the resolved path: only regular files are
/// deleted.
pub fn file_delete_check(is_file: bool) -> (result: Result<(), ControlError>)
    ensures
        result is Ok <==> is_file,
        result matches Err(e) ==> e.details is None && e.code == ErrorCode::UnsupportedAction
            && e.message@ == "file.delete only supports deleting files"@,
{
    if !is_file {
        return Err(ControlError::new(
            ErrorCode::UnsupportedAction,
            "file.delete only supports deleting files".to_owned(),
        ));
    }
    Ok(())
}

/// The error for a failed write (`delete` false) or delete of the file, with
/// the system's error text as details.
pub fn file_mutation_failure(delete: bool, details: String) -> (error: ControlError)
    ensures
        error.code == ErrorCode::TargetStateConflict,
        error.message@ == (if delete {
            "file.delete failed to delete the requested file"@
        } else {
            "file.write failed to write the requested file"@
        }),
        error.details == Some(details),
{
    let message = if delete {
        "file.delete failed to delete the requested file".to_owned()
    } else {
        "file.write failed to write the requested file".to_owned()
    };
    ControlError::with_details(ErrorCode::TargetStateConflict, message, details)
}

} // verus!
