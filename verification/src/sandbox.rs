//! The checks on a path that a script hands to the file functions, made
//! before the file system is asked: the path must be relative, and the
//! scripts folder joined with it must not climb out through `..`. Whether
//! the existing part of it resolves (through links) inside the scripts
//! folder is asked of the file system by the caller.
use vstd::prelude::*;
use crate::text;
use crate::text::{split_char, views};

verus! {

/// Why a script's path was refused.
#[derive(Debug, Clone, Copy, PartialEq, Eq, Structural)]
pub enum SandboxError {
    /// The path starts at the root.
    Absolute,
    /// The joined path has a `..` step.
    Escapes,
}

impl SandboxError {
    pub fn message(&self) -> (r: &'static str)
        ensures
            r@ == match *self {
                SandboxError::Absolute => "absolute paths not allowed"@,
                SandboxError::Escapes => "path escapes scripts directory"@,
            },
    {
        match self {
            SandboxError::Absolute => "absolute paths not allowed",
            SandboxError::Escapes => "path escapes scripts directory",
        }
    }
}

/// `base` joined with the relative `path` as `PathBuf::join` does with `/`
/// separators: a `/` is put between them unless `base` is empty or already
/// ends with one.
pub open spec fn joined(base: Seq<char>, path: Seq<char>) -> Seq<char> {
    if base.len() == 0 || base.last() == '/' {
        base + path
    } else {
        base + "/"@ + path
    }
}

/// Some `/`-separated step of `p` is `..`.
pub open spec fn has_parent_step(p: Seq<char>) -> bool {
    split_char(p, '/').contains(".."@)
}

/// The scripts folder joined with a script's path, or why the path is
/// refused: it starts with `/`, or the joined path has a `..` step.
pub open spec fn sandbox_join_spec(base: Seq<char>, path: Seq<char>) -> Result<Seq<char>, SandboxError> {
    if path.len() > 0 && path[0] == '/' {
        Err(SandboxError::Absolute)
    } else if has_parent_step(joined(base, path)) {
        Err(SandboxError::Escapes)
    } else {
        Ok(joined(base, path))
    }
}

pub fn sandbox_join(scripts_dir: &str, path: &str) -> (r: Result<String, SandboxError>)
    ensures
        match r {
            Ok(j) => sandbox_join_spec(scripts_dir@, path@) == Ok::<Seq<char>, SandboxError>(j@),
            Err(e) => sandbox_join_spec(scripts_dir@, path@) == Err::<Seq<char>, SandboxError>(e),
        },
{
    proof {
        reveal_strlit("/");
        reveal_strlit("..");
        reveal_strlit("");
    }
    let p = text::chars_of(path);
    if p.len() > 0 && p[0] == '/' {
        return Err(SandboxError::Absolute);
    }
    let b = text::chars_of(scripts_dir);
    let j = if b.len() == 0 || b[b.len() - 1] == '/' {
        text::join3(scripts_dir, path, "")
    } else {
        text::join3(scripts_dir, "/", path)
    };
    assert(j@ =~= joined(scripts_dir@, path@));
    let jc = text::chars_of(j.as_str());
    let steps = text::split_char_exec(&jc, '/');
    let ghost sv = views(steps@);
    let mut i: usize = 0;
    while i < steps.len()
        invariant
            i <= steps.len(),
            sv == views(steps@),
            sv == split_char(joined(scripts_dir@, path@), '/'),
            !(path@.len() > 0 && path@[0] == '/'),
            forall|k: int| 0 <= k < i ==> sv[k] != ".."@,
        decreases steps.len() - i,
    {
        if text::eq_lit(&steps[i], "..") {
            assert(sv[i as int] == ".."@);
            assert(sv.contains(".."@));
            return Err(SandboxError::Escapes);
        }
        i += 1;
    }
    assert(!sv.contains(".."@));
    Ok(j)
}

} // verus!
