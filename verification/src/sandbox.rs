//! The guest's access to the host's files: a guest may read a file only
//! inside the directory that the portal was started with.
//!
//! Paths are handled as their components, as `std::path::Path::components`
//! gives them: `/` for the root, then each name.
use vstd::prelude::*;

verus! {

/// The texts of a sequence of strings.
pub open spec fn texts(v: Seq<String>) -> Seq<Seq<char>> {
    v.map_values(|s: String| s@)
}

/// Whether the components `base` begin the components `path`: `path` lies
/// in the directory `base` or is `base` itself.
pub open spec fn starts_with_components(path: Seq<Seq<char>>, base: Seq<Seq<char>>) -> bool {
    &&& base.len() <= path.len()
    &&& forall|i: int| 0 <= i < base.len() ==> path[i] == base[i]
}

/// Whether `target_path` lies within `allowed_path`: the components of the
/// allowed directory begin those of the target, whole component by whole
/// component.
pub fn is_path_within_allowed_directory(allowed_path: &Vec<String>, target_path: &Vec<String>) -> (r: bool)
    ensures
        r == starts_with_components(texts(target_path@), texts(allowed_path@)),
{
    if allowed_path.len() > target_path.len() {
        return false;
    }
    let mut i: usize = 0;
    while i < allowed_path.len()
        invariant
            allowed_path.len() <= target_path.len(),
            i <= allowed_path.len(),
            forall|k: int| 0 <= k < i ==> texts(target_path@)[k] == texts(allowed_path@)[k],
        decreases allowed_path.len() - i,
    {
        if allowed_path[i] != target_path[i] {
            assert(texts(target_path@)[i as int] != texts(allowed_path@)[i as int]);
            return false;
        }
        i = i + 1;
    }
    true
}

/// Why a guest's request to read a file is refused.
pub enum ReadRefusal {
    /// The portal was started without a directory to read from.
    NotAllowed,
    /// The allowed directory could not be resolved; the message says why.
    RootUnresolved(String),
    /// The requested path could not be resolved; the message says why.
    TargetUnresolved(String),
    /// The requested path resolves outside the allowed directory.
    OutsideAllowed { root: Vec<String>, target: Vec<String> },
}

/// Where a guest's request to read a file stands.
pub enum ReadFileStage {
    /// The guest asked; `allow_read` tells whether the portal has a
    /// directory to read from.
    Requested { allow_read: bool },
    /// The allowed directory was resolved to its components, or could not be.
    RootResolved { root: Result<Vec<String>, String> },
    /// The requested path, joined onto the resolved directory `root`, was
    /// resolved to its components, or could not be.
    TargetResolved { root: Vec<String>, target: Result<Vec<String>, String> },
}

/// What the host does next for a request to read a file.
pub enum ReadFileAction {
    /// Resolve the allowed directory.
    ResolveRoot,
    /// Join the requested path onto the resolved directory `root` and
    /// resolve the result.
    ResolveTarget { root: Vec<String> },
    /// Read the file at `target` and answer the guest with its content, or
    /// with an error if it cannot be read.
    Read { target: Vec<String> },
    /// Answer the guest with an error.
    Refuse(ReadRefusal),
}

/// Decides the next step of a request to read a file. Without an allowed
/// directory the request is refused; a directory or path that cannot be
/// resolved refuses it; a resolved path is read exactly when it lies within
/// the resolved allowed directory, and refused otherwise.
pub fn read_file_next(stage: ReadFileStage) -> (act: ReadFileAction)
    ensures
        match stage {
            ReadFileStage::Requested { allow_read } => if allow_read {
                act is ResolveRoot
            } else {
                act matches ReadFileAction::Refuse(ReadRefusal::NotAllowed)
            },
            ReadFileStage::RootResolved { root } => match root {
                Ok(r) => act matches ReadFileAction::ResolveTarget { root: r2 } && r2@ == r@,
                Err(e) => act matches ReadFileAction::Refuse(ReadRefusal::RootUnresolved(e2)) && e2@ == e@,
            },
            ReadFileStage::TargetResolved { root, target } => match target {
                Err(e) => act matches ReadFileAction::Refuse(ReadRefusal::TargetUnresolved(e2)) && e2@ == e@,
                Ok(t) => if starts_with_components(texts(t@), texts(root@)) {
                    act matches ReadFileAction::Read { target: t2 } && t2@ == t@
                } else {
                    act matches ReadFileAction::Refuse(ReadRefusal::OutsideAllowed { root: r2, target: t2 })
                        && r2@ == root@ && t2@ == t@
                },
            },
        },
{
    match stage {
        ReadFileStage::Requested { allow_read } => if allow_read {
            ReadFileAction::ResolveRoot
        } else {
            ReadFileAction::Refuse(ReadRefusal::NotAllowed)
        },
        ReadFileStage::RootResolved { root } => match root {
            Ok(r) => ReadFileAction::ResolveTarget { root: r },
            Err(e) => ReadFileAction::Refuse(ReadRefusal::RootUnresolved(e)),
        },
        ReadFileStage::TargetResolved { root, target } => match target {
            Err(e) => ReadFileAction::Refuse(ReadRefusal::TargetUnresolved(e)),
            Ok(t) => if is_path_within_allowed_directory(&root, &t) {
                ReadFileAction::Read { target: t }
            } else {
                ReadFileAction::Refuse(ReadRefusal::OutsideAllowed { root, target: t })
            },
        },
    }
}

} // verus!
