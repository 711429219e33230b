//! The mount table: which filesystem instance is mounted at which path.
//!
//! A path holds at most one instance. Mounting at a path that is taken is
//! refused and leaves the table as it was.

use crate::api::{response_view, ApiError, ApiResponse, ApiResponsePayload, ApiResponsePayloadView, MountInfo};
use crate::error::{IoError, IoErrorKind};
use vstd::prelude::*;

verus! {

/// Why a mount was refused.
#[derive(Clone, Copy, Debug, PartialEq, Eq, Structural)]
pub enum MountError {
    /// An instance is mounted at the path already.
    PathOccupied,
}

/// One mount as a mathematical value.
pub struct Mount<F> {
    pub path: Seq<char>,
    pub instance: F,
}

/// Whether an instance is mounted at the path.
pub open spec fn occupied<F>(mounts: Seq<Mount<F>>, path: Seq<char>) -> bool {
    exists|i: int| 0 <= i < mounts.len() && (#[trigger] mounts[i]).path == path
}

/// Whether the instance is mounted at the path.
pub open spec fn mounted_at<F>(mounts: Seq<Mount<F>>, path: Seq<char>, instance: F) -> bool {
    exists|i: int|
        0 <= i < mounts.len() && #[trigger] mounts[i] == (Mount { path, instance })
}

/// No path is mounted twice.
pub open spec fn distinct_paths<F>(mounts: Seq<Mount<F>>) -> bool {
    forall|i: int, j: int|
        0 <= i < j < mounts.len() ==> (#[trigger] mounts[i]).path != (#[trigger] mounts[j]).path
}

struct MountEntry<F> {
    path: String,
    instance: F,
}

impl<F> MountEntry<F> {
    spec fn as_mount(self) -> Mount<F> {
        Mount { path: self.path@, instance: self.instance }
    }
}

/// The mount table.
pub struct MountTable<F> {
    entries: Vec<MountEntry<F>>,
}

impl<F> View for MountTable<F> {
    type V = Seq<Mount<F>>;

    /// The mounts, oldest first.
    closed spec fn view(&self) -> Seq<Mount<F>> {
        self.entries@.map_values(|e: MountEntry<F>| e.as_mount())
    }
}

impl<F> MountTable<F> {
    /// A table with nothing mounted.
    pub fn new() -> (table: MountTable<F>)
        ensures
            table@ == Seq::<Mount<F>>::empty(),
            distinct_paths(table@),
    {
        let table = MountTable { entries: Vec::new() };
        assert(table@ =~= Seq::<Mount<F>>::empty());
        table
    }

    /// The number of mounts.
    pub fn len(&self) -> (n: usize)
        ensures
            n == self@.len(),
    {
        self.entries.len()
    }

    /// The place of the first mount at the path.
    fn position(&self, path: &String) -> (found: Option<usize>)
        ensures
            match found {
                Some(i) => i < self@.len() && self@[i as int].path == path@ && forall|j: int|
                    0 <= j < i ==> (#[trigger] self@[j]).path != path@,
                None => !occupied(self@, path@),
            },
    {
        let mut i: usize = 0;
        while i < self.entries.len()
            invariant
                i <= self.entries.len(),
                forall|j: int| 0 <= j < i ==> (#[trigger] self@[j]).path != path@,
            decreases self.entries.len() - i,
        {
            if self.entries[i].path == *path {
                return Some(i);
            }
            i += 1;
        }
        None
    }

    /// Whether an instance is mounted at the path.
    pub fn is_mounted(&self, path: &String) -> (b: bool)
        ensures
            b == occupied(self@, path@),
    {
        self.position(path).is_some()
    }

    /// The instance mounted at the path.
    pub fn lookup(&self, path: &String) -> (found: Option<&F>)
        ensures
            match found {
                Some(instance) => mounted_at(self@, path@, *instance),
                None => !occupied(self@, path@),
            },
    {
        match self.position(path) {
            Some(i) => {
                assert(self@[i as int] == (Mount { path: path@, instance: self.entries[i as int].instance }));
                Some(&self.entries[i].instance)
            },
            None => None,
        }
    }

    /// Mounts an instance at a path. Where the path is taken the mount is
    /// refused and the table stays as it was; else the mount is added after
    /// the others.
    pub fn mount(&mut self, path: String, instance: F) -> (r: Result<(), MountError>)
        ensures
            occupied(old(self)@, path@) ==> r == Err::<(), MountError>(MountError::PathOccupied)
                && final(self)@ == old(self)@,
            !occupied(old(self)@, path@) ==> r is Ok && final(self)@ == old(self)@.push(
                Mount { path: path@, instance },
            ),
            distinct_paths(old(self)@) ==> distinct_paths(final(self)@),
    {
        match self.position(&path) {
            Some(_) => Err(MountError::PathOccupied),
            None => {
                let ghost added = Mount { path: path@, instance };
                self.entries.push(MountEntry { path, instance });
                assert(self@ =~= old(self)@.push(added));
                Ok(())
            },
        }
    }

    /// Takes the instance at a path out of the table and hands it back;
    /// `None`, and no change, where nothing is mounted there.
    pub fn unmount(&mut self, path: &String) -> (removed: Option<F>)
        ensures
            match removed {
                Some(instance) => exists|i: int|
                    0 <= i < old(self)@.len() && #[trigger] old(self)@[i] == (Mount {
                        path: path@,
                        instance,
                    }) && final(self)@ == old(self)@.remove(i),
                None => !occupied(old(self)@, path@) && final(self)@ == old(self)@,
            },
            distinct_paths(old(self)@) ==> distinct_paths(final(self)@),
    {
        match self.position(path) {
            Some(i) => {
                let entry = self.entries.remove(i);
                assert(self@ =~= old(self)@.remove(i as int));
                assert(old(self)@[i as int] == (Mount { path: path@, instance: entry.instance }));
                Some(entry.instance)
            },
            None => None,
        }
    }
}

/// The failure that stands for a mount that the table refused.
pub open spec fn refused() -> IoError {
    IoError { kind: IoErrorKind::InvalidData, code: None }
}

/// Answers a mount request once its image was opened and imported, or failed
/// to be.
///
/// A failure of opening or importing is the answer, wrapped as a mount
/// failure, and the table is not touched. An image that is ready is mounted
/// at the path that the request names; where that path is taken the answer is
/// a mount failure and the table stays as it was.
pub fn mount_image<F>(table: &mut MountTable<F>, info: &MountInfo, imported: Result<
    F,
    IoError,
>) -> (reply: ApiResponse)
    ensures
        match imported {
            Err(e) => response_view(reply) == Err::<ApiResponsePayloadView, ApiError>(
                ApiError::MountFailure(e),
            ) && final(table)@ == old(table)@,
            Ok(instance) => if occupied(old(table)@, info@.mountpoint) {
                response_view(reply) == Err::<ApiResponsePayloadView, ApiError>(
                    ApiError::MountFailure(refused()),
                ) && final(table)@ == old(table)@
            } else {
                response_view(reply) == Ok::<ApiResponsePayloadView, ApiError>(
                    ApiResponsePayloadView::Mount,
                ) && final(table)@ == old(table)@.push(
                    Mount { path: info@.mountpoint, instance },
                )
            },
        },
        distinct_paths(old(table)@) ==> distinct_paths(final(table)@),
{
    match imported {
        Err(e) => Err(ApiError::MountFailure(e)),
        Ok(instance) => {
            match table.mount(info.mountpoint.clone(), instance) {
                Ok(_) => Ok(ApiResponsePayload::Mount),
                Err(_) => Err(ApiError::MountFailure(IoError::from_kind(IoErrorKind::InvalidData))),
            }
        },
    }
}

/// A mount that is refused changes nothing, and one that is accepted changes
/// nothing but the path it is for: whatever was mounted at another path
/// before a mount is mounted there after it, and nothing else is.
pub proof fn lemma_mount_leaves_other_paths<F>(
    mounts: Seq<Mount<F>>,
    added: Mount<F>,
    path: Seq<char>,
    instance: F,
)
    requires
        path != added.path,
    ensures
        mounted_at(mounts.push(added), path, instance) <==> mounted_at(mounts, path, instance),
        occupied(mounts.push(added), path) <==> occupied(mounts, path),
{
    let after = mounts.push(added);
    if mounted_at(mounts, path, instance) {
        let i = choose|i: int|
            0 <= i < mounts.len() && #[trigger] mounts[i] == (Mount { path, instance });
        assert(after[i] == (Mount { path, instance }));
    }
    if mounted_at(after, path, instance) {
        let i = choose|i: int|
            0 <= i < after.len() && #[trigger] after[i] == (Mount { path, instance });
        assert(mounts[i] == (Mount { path, instance }));
    }
    if occupied(mounts, path) {
        let i = choose|i: int| 0 <= i < mounts.len() && (#[trigger] mounts[i]).path == path;
        assert(after[i].path == path);
    }
    if occupied(after, path) {
        let i = choose|i: int| 0 <= i < after.len() && (#[trigger] after[i]).path == path;
        assert(mounts[i].path == path);
    }
}

/// In a table that holds no path twice, the instance at a path is the only
/// one there.
pub proof fn lemma_one_instance_per_path<F>(mounts: Seq<Mount<F>>, path: Seq<char>, a: F, b: F)
    requires
        distinct_paths(mounts),
        mounted_at(mounts, path, a),
        mounted_at(mounts, path, b),
    ensures
        a == b,
{
    let i = choose|i: int| 0 <= i < mounts.len() && #[trigger] mounts[i] == (Mount { path, instance: a });
    let j = choose|j: int| 0 <= j < mounts.len() && #[trigger] mounts[j] == (Mount { path, instance: b });
    if i < j {
        assert(mounts[i].path != mounts[j].path);
    }
    if j < i {
        assert(mounts[j].path != mounts[i].path);
    }
}

} // verus!
