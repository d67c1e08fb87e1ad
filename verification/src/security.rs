//! Input validation and path sanitization: null-byte and traversal
//! screening, window-configuration bounds, scope checks, and a sanitizer
//! that reduces a path to its file name before it is logged.

use vstd::prelude::*;

verus! {

/// Why a path or configuration was refused.
#[derive(Clone, Copy, Debug, PartialEq, Eq, Structural)]
pub enum SecurityError {
    /// A traversal pattern was found in the path.
    PathTraversal,
    /// The path is outside the allowed scope.
    OutsideAllowedScope,
    /// The file extension is not allowed.
    InvalidExtension,
    /// The path is malformed or does not resolve.
    InvalidPath,
    /// Symbolic links are not followed.
    SymlinkNotAllowed,
    /// The path holds a null byte.
    NullByteInPath,
}

/// The user-facing message of a refusal; deliberately generic, so that
/// nothing internal leaks.
pub open spec fn spec_security_message(e: SecurityError) -> Seq<char> {
    match e {
        SecurityError::PathTraversal => "Invalid file path"@,
        SecurityError::OutsideAllowedScope => "File access not permitted"@,
        SecurityError::InvalidExtension => "Invalid file type"@,
        SecurityError::InvalidPath => "Invalid path format"@,
        SecurityError::SymlinkNotAllowed => "File access not permitted"@,
        SecurityError::NullByteInPath => "Invalid path format"@,
    }
}

impl SecurityError {
    /// The user-facing message of this refusal.
    pub fn message(&self) -> (r: String)
        ensures
            r@ == spec_security_message(*self),
    {
        match self {
            SecurityError::PathTraversal => "Invalid file path".to_owned(),
            SecurityError::OutsideAllowedScope => "File access not permitted".to_owned(),
            SecurityError::InvalidExtension => "Invalid file type".to_owned(),
            SecurityError::InvalidPath => "Invalid path format".to_owned(),
            SecurityError::SymlinkNotAllowed => "File access not permitted".to_owned(),
            SecurityError::NullByteInPath => "Invalid path format".to_owned(),
        }
    }
}

/// Whether the character occurs in the sequence.
pub open spec fn contains_char(s: Seq<char>, c: char) -> bool {
    exists|i: int| 0 <= i < s.len() && s[i] == c
}

/// Whether two consecutive dots occur in the sequence.
pub open spec fn has_double_dot(s: Seq<char>) -> bool {
    exists|i: int| 0 <= i && i + 1 < s.len() && #[trigger] s[i] == '.' && s[i + 1] == '.'
}

/// The traversal patterns a path is screened for: a parent-directory
/// step, a shell home expansion, or a URL escape.
pub open spec fn has_traversal_pattern(s: Seq<char>) -> bool {
    has_double_dot(s) || contains_char(s, '~') || contains_char(s, '%')
}

/// Scan a string for one character.
fn str_contains_char(s: &str, c: char) -> (r: bool)
    ensures
        r == contains_char(s@, c),
{
    let n = s.unicode_len();
    let mut i: usize = 0;
    while i < n
        invariant
            n == s@.len(),
            0 <= i <= n,
            forall|j: int| 0 <= j < i ==> s@[j] != c,
        decreases n - i,
    {
        if s.get_char(i) == c {
            return true;
        }
        i = i + 1;
    }
    false
}

/// Scan a string for two consecutive dots.
fn str_has_double_dot(s: &str) -> (r: bool)
    ensures
        r == has_double_dot(s@),
{
    let n = s.unicode_len();
    if n < 2 {
        return false;
    }
    let mut i: usize = 0;
    while i < n - 1
        invariant
            n == s@.len(),
            2 <= n,
            0 <= i <= n,
            forall|j: int| 0 <= j < i ==> !(#[trigger] s@[j] == '.' && j + 1 < n && s@[j + 1] == '.'),
        decreases n - i,
    {
        if s.get_char(i) == '.' && s.get_char(i + 1) == '.' {
            return true;
        }
        i = i + 1;
    }
    false
}

/// Relies on std::path::Path::exists: whether the path resolves to an
/// entity on disk. The outcome depends on the filesystem, so nothing is
/// promised of it.
#[verifier::external_body]
fn path_exists(path: &str) -> bool {
    std::path::Path::new(path).exists()
}

/// Relies on std::path::Path::is_symlink: whether the path names a
/// symbolic link. The outcome depends on the filesystem, so nothing is
/// promised of it.
#[verifier::external_body]
fn path_is_symlink(path: &str) -> bool {
    std::path::Path::new(path).is_symlink()
}

/// Relies on std::path::Path::canonicalize: the absolute path with
/// symlinks resolved, or nothing if resolution fails or the result is
/// not valid text. The outcome depends on the filesystem, so nothing is
/// promised of it.
#[verifier::external_body]
fn canonicalize_path(path: &str) -> Option<String> {
    match std::path::Path::new(path).canonicalize() {
        Ok(p) => match p.to_str() {
            Some(t) => Some(t.to_owned()),
            None => None,
        },
        Err(_) => None,
    }
}

/// Validate a file path before it is handed to the filesystem: refuse a
/// null byte, then any traversal pattern; a clean path is then resolved
/// on disk, where a missing entity, a symbolic link, or a failed
/// resolution is refused. Only the disk decides among those last three
/// outcomes.
pub fn validate_path(path: &str) -> (r: Result<String, SecurityError>)
    ensures
        (r == Err::<String, SecurityError>(SecurityError::NullByteInPath)) == contains_char(
            path@,
            '\0',
        ),
        (r == Err::<String, SecurityError>(SecurityError::PathTraversal)) == (!contains_char(
            path@,
            '\0',
        ) && has_traversal_pattern(path@)),
        !contains_char(path@, '\0') && !has_traversal_pattern(path@) ==> (r is Ok || r == Err::<
            String,
            SecurityError,
        >(SecurityError::InvalidPath) || r == Err::<String, SecurityError>(
            SecurityError::SymlinkNotAllowed,
        )),
{
    if str_contains_char(path, '\0') {
        return Err(SecurityError::NullByteInPath);
    }
    if str_has_double_dot(path) || str_contains_char(path, '~') || str_contains_char(path, '%') {
        return Err(SecurityError::PathTraversal);
    }
    if !path_exists(path) {
        return Err(SecurityError::InvalidPath);
    }
    if path_is_symlink(path) {
        return Err(SecurityError::SymlinkNotAllowed);
    }
    match canonicalize_path(path) {
        Some(canonical) => Ok(canonical),
        None => Err(SecurityError::InvalidPath),
    }
}

/// Whether a path's file name carries the document extension, compared
/// without regard to case: it ends in a dot and the three letters, and
/// the dot does not open the file name.
pub open spec fn is_pdf_path(s: Seq<char>) -> bool {
    &&& s.len() >= 5
    &&& s[s.len() - 4] == '.'
    &&& (s[s.len() - 3] == 'p' || s[s.len() - 3] == 'P')
    &&& (s[s.len() - 2] == 'd' || s[s.len() - 2] == 'D')
    &&& (s[s.len() - 1] == 'f' || s[s.len() - 1] == 'F')
    &&& s[s.len() - 5] != '/'
}

/// Check a path for the document extension.
pub fn has_pdf_extension(path: &str) -> (r: bool)
    ensures
        r == is_pdf_path(path@),
{
    let n = path.unicode_len();
    if n < 5 {
        return false;
    }
    let dot = path.get_char(n - 4);
    let p = path.get_char(n - 3);
    let d = path.get_char(n - 2);
    let f = path.get_char(n - 1);
    let before = path.get_char(n - 5);
    dot == '.' && (p == 'p' || p == 'P') && (d == 'd' || d == 'D') && (f == 'f' || f == 'F')
        && before != '/'
}

/// Reasonable window-position bound, in either direction.
pub const MAX_COORD: i32 = 10000;

/// Largest allowed window dimension.
pub const MAX_SIZE: u32 = 10000;

/// Validate presenter window bounds: positions within ±10000, dimensions
/// from 1 to 10000. Anything outside is refused, and exactly that.
pub fn validate_window_config(x: i32, y: i32, width: u32, height: u32) -> (r: Result<
    (),
    SecurityError,
>)
    ensures
        r is Ok <==> {
            &&& -(MAX_COORD as int) <= x <= MAX_COORD as int
            &&& -(MAX_COORD as int) <= y <= MAX_COORD as int
            &&& 1 <= width <= MAX_SIZE
            &&& 1 <= height <= MAX_SIZE
        },
        r is Err ==> r == Err::<(), SecurityError>(SecurityError::InvalidPath),
{
    if x < -MAX_COORD || x > MAX_COORD || y < -MAX_COORD || y > MAX_COORD {
        return Err(SecurityError::InvalidPath);
    }
    if width < 1 || width > MAX_SIZE || height < 1 || height > MAX_SIZE {
        return Err(SecurityError::InvalidPath);
    }
    Ok(())
}

/// Whether a directory prefix covers a path: the directory's characters
/// open the path and end at a component boundary.
pub open spec fn starts_with_dir(p: Seq<char>, d: Seq<char>) -> bool {
    &&& d.len() > 0
    &&& d.len() <= p.len()
    &&& p.subrange(0, d.len() as int) == d
    &&& (d.len() == p.len() || p[d.len() as int] == '/' || d[d.len() - 1] == '/')
}

/// Check one directory prefix.
fn str_starts_with_dir(p: &str, d: &str) -> (r: bool)
    ensures
        r == starts_with_dir(p@, d@),
{
    let dn = d.unicode_len();
    let pn = p.unicode_len();
    if dn == 0 || dn > pn {
        return false;
    }
    let mut i: usize = 0;
    while i < dn
        invariant
            dn == d@.len(),
            pn == p@.len(),
            0 < dn <= pn,
            0 <= i <= dn,
            forall|j: int| 0 <= j < i ==> p@[j] == d@[j],
        decreases dn - i,
    {
        if p.get_char(i) != d.get_char(i) {
            proof {
                assert(p@.subrange(0, dn as int)[i as int] != d@[i as int]);
            }
            return false;
        }
        i = i + 1;
    }
    proof {
        assert(p@.subrange(0, dn as int) =~= d@);
    }
    if dn == pn {
        true
    } else if p.get_char(dn) == '/' {
        true
    } else {
        d.get_char(dn - 1) == '/'
    }
}

/// Whether the path sits under one of the allowed directories. The
/// directory set itself comes from the embedding program's environment.
pub fn is_within_allowed_scope(path: &str, allowed: &Vec<String>) -> (r: bool)
    ensures
        r == exists|k: int| 0 <= k < allowed@.len() && starts_with_dir(path@, allowed@[k]@),
{
    let mut k: usize = 0;
    while k < allowed.len()
        invariant
            0 <= k <= allowed@.len(),
            forall|j: int| 0 <= j < k ==> !starts_with_dir(path@, allowed@[j]@),
        decreases allowed@.len() - k,
    {
        if str_starts_with_dir(path, allowed[k].as_str()) {
            return true;
        }
        k = k + 1;
    }
    false
}

/// The sequence with every trailing slash removed.
pub open spec fn strip_trailing_slashes(s: Seq<char>) -> Seq<char>
    decreases s.len(),
{
    if s.len() > 0 && s.last() == '/' {
        strip_trailing_slashes(s.drop_last())
    } else {
        s
    }
}

/// The longest suffix holding no slash.
pub open spec fn tail_after_slash(s: Seq<char>) -> Seq<char>
    decreases s.len(),
{
    if s.len() == 0 {
        s
    } else if s.last() == '/' {
        Seq::empty()
    } else {
        tail_after_slash(s.drop_last()).push(s.last())
    }
}

/// What sanitizing a path for the log yields: the path's file name — the
/// last slash-free component before any trailing slashes — or a fixed
/// placeholder when there is none (an empty path, a bare slash, a lone
/// dot or dot-dot).
pub open spec fn spec_sanitized(s: Seq<char>) -> Seq<char> {
    let f = tail_after_slash(strip_trailing_slashes(s));
    if f.len() == 0 || f == seq!['.'] || f == seq!['.', '.'] {
        "[invalid path]"@
    } else {
        f
    }
}

proof fn lemma_strip_trailing(s: Seq<char>, end: int)
    requires
        0 <= end <= s.len(),
        forall|j: int| end <= j < s.len() ==> s[j] == '/',
        end > 0 ==> s[end - 1] != '/',
    ensures
        strip_trailing_slashes(s) == s.subrange(0, end),
    decreases s.len(),
{
    if s.len() == end {
        if s.len() == 0 || s.last() != '/' {
            assert(strip_trailing_slashes(s) == s);
            assert(s.subrange(0, end) =~= s);
        } else {
            assert(false);
        }
    } else {
        assert(s.last() == '/');
        lemma_strip_trailing(s.drop_last(), end);
        assert(s.drop_last().subrange(0, end) =~= s.subrange(0, end));
    }
}

pub proof fn lemma_tail_after_slash(s: Seq<char>, start: int)
    requires
        0 <= start <= s.len(),
        forall|j: int| start <= j < s.len() ==> s[j] != '/',
        start > 0 ==> s[start - 1] == '/',
    ensures
        tail_after_slash(s) == s.subrange(start, s.len() as int),
    decreases s.len(),
{
    if s.len() == 0 {
        assert(s.subrange(0, 0) =~= s);
    } else if start == s.len() {
        assert(s.last() == '/');
        assert(s.subrange(start, s.len() as int) =~= Seq::<char>::empty());
    } else {
        assert(s.last() != '/');
        lemma_tail_after_slash(s.drop_last(), start);
        assert(s.drop_last().subrange(start, s.len() - 1) =~= s.subrange(start, s.len() - 1));
        assert(s.subrange(start, s.len() - 1).push(s.last()) =~= s.subrange(
            start,
            s.len() as int,
        ));
    }
}

/// Reduce a string to its file name before logging, so that no directory
/// part of a path reaches the log; a path with no file name is replaced
/// by a placeholder.
pub fn sanitize_for_log(input: &str) -> (r: String)
    ensures
        r@ == spec_sanitized(input@),
{
    let n = input.unicode_len();
    let mut end: usize = n;
    while end > 0 && input.get_char(end - 1) == '/'
        invariant
            n == input@.len(),
            0 <= end <= n,
            forall|j: int| end <= j < n ==> input@[j] == '/',
        decreases end,
    {
        end = end - 1;
    }
    proof {
        lemma_strip_trailing(input@, end as int);
    }
    let mut start: usize = end;
    while start > 0 && input.get_char(start - 1) != '/'
        invariant
            n == input@.len(),
            0 <= start <= end <= n,
            forall|j: int| start <= j < end ==> input@[j] != '/',
        decreases start,
    {
        start = start - 1;
    }
    proof {
        lemma_tail_after_slash(input@.subrange(0, end as int), start as int);
        assert(input@.subrange(0, end as int).subrange(start as int, end as int) =~= input@
            .subrange(start as int, end as int));
    }
    let f = input.substring_char(start, end);
    let flen = end - start;
    if flen == 0 {
        return "[invalid path]".to_owned();
    }
    if flen == 1 && f.get_char(0) == '.' {
        proof {
            assert(f@ =~= seq!['.']);
        }
        return "[invalid path]".to_owned();
    }
    if flen == 2 && f.get_char(0) == '.' && f.get_char(1) == '.' {
        proof {
            assert(f@ =~= seq!['.', '.']);
        }
        return "[invalid path]".to_owned();
    }
    proof {
        assert(f@.len() > 0);
        if f@ == seq!['.'] {
            assert(f@[0] == '.');
            assert(false);
        }
        if f@ == seq!['.', '.'] {
            assert(f@[0] == '.' && f@[1] == '.');
            assert(false);
        }
    }
    f.to_owned()
}

} // verus!
