//! Resolution of a path argument against a directory descriptor.

use vstd::prelude::*;
use crate::abi::{at_empty_path, at_fdcwd, AT_EMPTY_PATH, AT_FDCWD};
use crate::errno::SysError;
use crate::file::{FdTable, FileLike};

verus! {

/// What a descriptor and a path name together.
#[derive(Debug)]
pub enum Target {
    /// An object of the filesystem, by its path from the root or from the
    /// base it was resolved against.
    Path(String),
    /// The object behind the descriptor itself.
    Descriptor(i32),
}

/// `rel` below the directory `base`: one separator stands between the two.
pub open spec fn join_path(base: Seq<char>, rel: Seq<char>) -> Seq<char> {
    if base.len() > 0 && base.last() == '/' {
        base + rel
    } else {
        base + seq!['/'] + rel
    }
}

/// The components kept so far after one more component: an empty one and
/// `.` change nothing, `..` drops the last one kept (at the root there is
/// none to drop), any other name is kept.
pub open spec fn push_component(kept: Seq<Seq<char>>, c: Seq<char>) -> Seq<Seq<char>> {
    if c.len() == 0 || c == seq!['.'] {
        kept
    } else if c == seq!['.', '.'] {
        if kept.len() > 0 {
            kept.drop_last()
        } else {
            kept
        }
    } else {
        kept.push(c)
    }
}

/// The components of `path` that are kept, read from position `i` on, where
/// the component being read began at `start` and `kept` came before it.
pub open spec fn components(path: Seq<char>, i: int, start: int, kept: Seq<Seq<char>>) -> Seq<
    Seq<char>,
>
    decreases path.len() - i,
{
    if start < 0 || i < start {
        kept
    } else if i >= path.len() {
        push_component(kept, path.subrange(start, path.len() as int))
    } else if path[i] == '/' {
        components(path, i + 1, i + 1, push_component(kept, path.subrange(start, i)))
    } else {
        components(path, i + 1, start, kept)
    }
}

/// The components written out, each behind a separator.
pub open spec fn render(kept: Seq<Seq<char>>) -> Seq<char>
    decreases kept.len(),
{
    if kept.len() == 0 {
        Seq::<char>::empty()
    } else {
        render(kept.drop_last()) + seq!['/'] + kept.last()
    }
}

/// The canonical form of a path from the root: its components with `.` and
/// empty ones left out and `..` resolved, each behind one separator; the
/// root alone where none is left.
pub open spec fn canonical(path: Seq<char>) -> Seq<char> {
    let kept = components(path, 0, 0, Seq::<Seq<char>>::empty());
    if kept.len() == 0 {
        seq!['/']
    } else {
        render(kept)
    }
}

/// The texts of a list of strings.
pub open spec fn texts(v: Seq<String>) -> Seq<Seq<char>> {
    Seq::new(v.len(), |j: int| v[j]@)
}

fn keep_component(kept: &mut Vec<String>, path: &str, start: usize, end: usize)
    requires
        start <= end <= path@.len(),
    ensures
        texts(final(kept)@) == push_component(
            texts(old(kept)@),
            path@.subrange(start as int, end as int),
        ),
{
    let ghost c = path@.subrange(start as int, end as int);
    let len: usize = end - start;
    if len == 0 {
        return ;
    }
    assert(c[0] == path@[start as int]);
    if len == 1 && path.get_char(start) == '.' {
        assert(c =~= seq!['.']);
        return ;
    }
    if len == 2 {
        assert(c[1] == path@[start + 1]);
        if path.get_char(start) == '.' && path.get_char(start + 1) == '.' {
            assert(c =~= seq!['.', '.']);
            if kept.len() > 0 {
                kept.pop();
                assert(texts(kept@) =~= texts(old(kept)@).drop_last());
            }
            return ;
        }
    }
    assert(c != seq!['.']) by {
        if c == seq!['.'] {
            assert(seq!['.'].len() == 1 && seq!['.'][0] == '.');
        }
    }
    assert(c != seq!['.', '.']) by {
        if c == seq!['.', '.'] {
            assert(seq!['.', '.'].len() == 2 && seq!['.', '.'][0] == '.' && seq!['.', '.'][1]
                == '.');
        }
    }
    kept.push(String::from_str(path.substring_char(start, end)));
    assert(texts(kept@) =~= texts(old(kept)@).push(c));
}

/// The canonical form of a path from the root.
pub fn canonicalize(path: &str) -> (s: String)
    ensures
        s@ == canonical(path@),
{
    let n: usize = path.unicode_len();
    let mut kept: Vec<String> = Vec::new();
    let mut start: usize = 0;
    let mut i: usize = 0;
    assert(texts(kept@) =~= Seq::<Seq<char>>::empty());
    while i < n
        invariant
            n == path@.len(),
            start <= i <= n,
            components(path@, 0, 0, Seq::<Seq<char>>::empty()) == components(
                path@,
                i as int,
                start as int,
                texts(kept@),
            ),
        decreases n - i,
    {
        if path.get_char(i) == '/' {
            keep_component(&mut kept, path, start, i);
            start = i + 1;
        }
        i = i + 1;
    }
    keep_component(&mut kept, path, start, n);
    if kept.len() == 0 {
        proof {
            reveal_strlit("/");
            assert("/"@ =~= seq!['/']);
        }
        return String::from_str("/");
    }
    let mut out: String = String::new();
    let mut k: usize = 0;
    assert(texts(kept@).subrange(0, 0) =~= Seq::<Seq<char>>::empty());
    while k < kept.len()
        invariant
            k <= kept@.len(),
            out@ == render(texts(kept@).subrange(0, k as int)),
        decreases kept@.len() - k,
    {
        proof {
            reveal_strlit("/");
            assert("/"@ =~= seq!['/']);
            let next = texts(kept@).subrange(0, k + 1);
            assert(next.drop_last() =~= texts(kept@).subrange(0, k as int));
            assert(next.last() == kept@[k as int]@);
        }
        out.append("/");
        out.append(kept[k].as_str());
        k = k + 1;
    }
    assert(texts(kept@).subrange(0, kept@.len() as int) =~= texts(kept@));
    out
}

/// Whether a path argument is absent or empty.
pub open spec fn is_empty_path(path: Option<Seq<char>>) -> bool {
    match path {
        None => true,
        Some(p) => p.len() == 0,
    }
}

/// The text of an optional path.
pub open spec fn text_of(path: Option<&str>) -> Option<Seq<char>> {
    match path {
        None => None,
        Some(s) => Some(s@),
    }
}

/// Whether the flags let an empty path name the descriptor itself.
pub open spec fn allows_empty_path(flags: u32) -> bool {
    flags & AT_EMPTY_PATH != 0
}

/// The path that `path` names, seen from `dirfd`, in canonical form:
/// an absolute path stands for itself, whatever the descriptor; a relative
/// one is taken below the working directory where `dirfd` is `AT_FDCWD`, and
/// else below the directory that `dirfd` has open. An empty path names
/// nothing.
pub open spec fn resolved_path(
    table: &FdTable,
    cwd: Seq<char>,
    dirfd: i32,
    path: Seq<char>,
) -> Result<Seq<char>, SysError> {
    if path.len() == 0 {
        Err(SysError::NoSuchEntry)
    } else if path[0] == '/' {
        Ok(canonical(path))
    } else if dirfd == AT_FDCWD {
        Ok(canonical(join_path(cwd, path)))
    } else {
        match table.lookup(dirfd) {
            None => Err(SysError::BadDescriptor),
            Some(f) => if f is Directory {
                Ok(canonical(join_path(f.path(), path)))
            } else {
                Err(SysError::NotADirectory)
            },
        }
    }
}

fn join(base: &str, rel: &str) -> (s: String)
    ensures
        s@ == join_path(base@, rel@),
{
    let n: usize = base.unicode_len();
    let mut s = String::from_str(base);
    if n == 0 || base.get_char(n - 1) != '/' {
        proof {
            reveal_strlit("/");
            assert("/"@ =~= seq!['/']);
        }
        s.append("/");
    }
    s.append(rel);
    s
}

/// Resolves a path that must name an object of the filesystem.
pub fn handle_file_path(table: &FdTable, cwd: &str, dirfd: i32, path: &str) -> (r: Result<
    String,
    SysError,
>)
    ensures
        match r {
            Ok(p) => resolved_path(table, cwd@, dirfd, path@) == Ok::<Seq<char>, SysError>(p@),
            Err(e) => resolved_path(table, cwd@, dirfd, path@) == Err::<Seq<char>, SysError>(e),
        },
{
    if path.unicode_len() == 0 {
        return Err(SysError::NoSuchEntry);
    }
    if path.get_char(0) == '/' {
        return Ok(canonicalize(path));
    }
    if dirfd == at_fdcwd() {
        return Ok(canonicalize(join(cwd, path).as_str()));
    }
    match table.get_file_like(dirfd) {
        Err(e) => Err(e),
        Ok(f) => match f {
            FileLike::Directory { path: base, .. } => Ok(
                canonicalize(join(base.as_str(), path).as_str()),
            ),
            FileLike::File { .. } => Err(SysError::NotADirectory),
        },
    }
}

/// Tells which of the four situations holds for a descriptor, an optional
/// path and the flags: an absent or empty path names the descriptor itself
/// where the flags allow it and nothing where they do not; any other path is
/// resolved as `resolved_path` says.
pub fn resolve_target(
    table: &FdTable,
    cwd: &str,
    dirfd: i32,
    path: Option<&str>,
    flags: u32,
) -> (r: Result<Target, SysError>)
    ensures
        is_empty_path(text_of(path)) && allows_empty_path(flags) ==> r == Ok::<
            Target,
            SysError,
        >(Target::Descriptor(dirfd)),
        is_empty_path(text_of(path)) && !allows_empty_path(flags) ==> r == Err::<
            Target,
            SysError,
        >(SysError::NoSuchEntry),
        !is_empty_path(text_of(path)) ==> (match r {
            Ok(Target::Path(p)) => resolved_path(table, cwd@, dirfd, path.unwrap()@) == Ok::<
                Seq<char>,
                SysError,
            >(p@),
            Ok(Target::Descriptor(_)) => false,
            Err(e) => resolved_path(table, cwd@, dirfd, path.unwrap()@) == Err::<
                Seq<char>,
                SysError,
            >(e),
        }),
{
    let empty: bool = match path {
        None => true,
        Some(p) => p.unicode_len() == 0,
    };
    if empty {
        if (flags & at_empty_path()) != 0 {
            Ok(Target::Descriptor(dirfd))
        } else {
            Err(SysError::NoSuchEntry)
        }
    } else {
        match path {
            Some(p) => match handle_file_path(table, cwd, dirfd, p) {
                Ok(s) => Ok(Target::Path(s)),
                Err(e) => Err(e),
            },
            None => Err(SysError::NoSuchEntry),
        }
    }
}

/// What is written out for at least one component starts with a separator.
pub proof fn render_starts_with_separator(kept: Seq<Seq<char>>)
    requires
        kept.len() > 0,
    ensures
        render(kept).len() > 0,
        render(kept)[0] == '/',
    decreases kept.len(),
{
    let front = kept.drop_last();
    if front.len() > 0 {
        render_starts_with_separator(front);
        assert((render(front) + seq!['/'] + kept.last())[0] == render(front)[0]);
    } else {
        assert(render(front) =~= Seq::<char>::empty());
        assert((render(front) + seq!['/'] + kept.last())[0] == '/');
    }
}

/// Every canonical path starts at the root.
pub proof fn canonical_starts_at_root(path: Seq<char>)
    ensures
        canonical(path).len() > 0,
        canonical(path)[0] == '/',
{
    let kept = components(path, 0, 0, Seq::<Seq<char>>::empty());
    if kept.len() > 0 {
        render_starts_with_separator(kept);
    }
}

/// Every path that resolves is resolved to one that starts at the root.
pub proof fn resolved_path_starts_at_root(
    table: &FdTable,
    cwd: Seq<char>,
    dirfd: i32,
    path: Seq<char>,
)
    requires
        resolved_path(table, cwd, dirfd, path) is Ok,
    ensures
        resolved_path(table, cwd, dirfd, path).unwrap().len() > 0,
        resolved_path(table, cwd, dirfd, path).unwrap()[0] == '/',
{
    canonical_starts_at_root(path);
    canonical_starts_at_root(join_path(cwd, path));
    if table.lookup(dirfd) is Some {
        canonical_starts_at_root(join_path(table.lookup(dirfd).unwrap().path(), path));
    }
}

} // verus!
