//! The connection manager consumed by a resource pool.
//!
//! A manager fixes one dataset at construction time and then serves the three
//! operations a pool needs: produce a fresh store handle bound to that
//! dataset, check a handle's validity (always valid), and check whether a
//! handle is broken (never broken).

use crate::store::clone_store;
use crate::store::dataset_of;
use crate::store::in_memory_path;
use crate::store::is_sentinel_path;
use crate::store::lemma_sentinel_is_prefixed;
use crate::store::open_file_store;
use crate::store::open_memory_store;
use crate::store::path_has_sentinel_prefix;
use crate::store::sentinel_collision_error;
use crate::store::sentinel_prefixed;
use crate::store::StoreConfig;
use crate::store::Target;
use vstd::prelude::*;

verus! {

enum ManagerKind {
    File { path: String, cfg: StoreConfig },
    Memory { store: jfs::Store },
}

/// A connection manager for handles to one JSON document store.
///
/// Its configuration is fixed at construction: a filesystem path with store
/// options, or one shared in-memory store. Every handle it produces is bound
/// to that one dataset, [`Self::dataset`].
pub struct JfsConnectionManager {
    kind: ManagerKind,
}

impl JfsConnectionManager {
    /// A file-backed manager never holds a sentinel-prefixed path, so
    /// producing a connection always opens a file-backed store.
    #[verifier::type_invariant]
    spec fn wf(&self) -> bool {
        self.kind matches ManagerKind::File { path, .. } ==> !sentinel_prefixed(path@)
    }

    /// The one dataset every handle produced by this manager is bound to.
    pub closed spec fn dataset(&self) -> Target {
        match self.kind {
            ManagerKind::File { path, cfg } => Target::File {
                path: path@,
                single: cfg.single,
                pretty: cfg.pretty,
                indent: cfg.indent,
            },
            ManagerKind::Memory { store } => dataset_of(store),
        }
    }

    /// Creates a manager whose store keeps all records in a single JSON file
    /// at `path`, with the default output options.
    ///
    /// The store is opened once here, so a path that cannot be initialized is
    /// reported as an I/O error at construction.
    pub fn file(path: &str) -> (r: Result<Self, std::io::Error>)
        ensures
            path@ == in_memory_path() ==> (r matches Ok(m) && m.dataset() is Memory),
            path@ != in_memory_path() && sentinel_prefixed(path@) ==> r is Err,
            !sentinel_prefixed(path@) ==> (r matches Ok(m) ==> m.dataset() == (Target::File {
                path: path@,
                single: true,
                pretty: false,
                indent: 2,
            })),
    {
        let mut cfg = StoreConfig::default();
        cfg.single = true;
        Self::new_with_cfg(path, cfg)
    }

    /// Creates a manager whose store keeps one JSON file per record under the
    /// directory at `path`, with the default output options.
    ///
    /// The store is opened once here, so a path that cannot be initialized is
    /// reported as an I/O error at construction.
    pub fn dir(path: &str) -> (r: Result<Self, std::io::Error>)
        ensures
            path@ == in_memory_path() ==> (r matches Ok(m) && m.dataset() is Memory),
            path@ != in_memory_path() && sentinel_prefixed(path@) ==> r is Err,
            !sentinel_prefixed(path@) ==> (r matches Ok(m) ==> m.dataset() == (Target::File {
                path: path@,
                single: false,
                pretty: false,
                indent: 2,
            })),
    {
        Self::new_with_cfg(path, StoreConfig::default())
    }

    /// Creates a manager backed by a fresh non-persistent in-memory store.
    ///
    /// In-memory construction has no external failure mode, so this is
    /// infallible; every handle the manager produces shares the one dataset
    /// created here.
    pub fn memory() -> (m: Self)
        ensures
            m.dataset() is Memory,
    {
        let store = open_memory_store();
        JfsConnectionManager { kind: ManagerKind::Memory { store } }
    }

    /// Creates a manager for the store at `path` with caller-chosen options.
    ///
    /// The store library resolves its reserved sentinel path to the in-memory
    /// backend, and this constructor follows it: the sentinel yields an
    /// in-memory manager (the options play no role there). A path that merely
    /// begins with the sentinel is rejected as invalid input, so that a
    /// file-backed manager never collides with the sentinel resolution. Any
    /// other path is opened once, and a store that cannot be initialized
    /// there is reported as an I/O error.
    pub fn new_with_cfg(path: &str, cfg: StoreConfig) -> (r: Result<Self, std::io::Error>)
        ensures
            path@ == in_memory_path() ==> (r matches Ok(m) && m.dataset() is Memory),
            path@ != in_memory_path() && sentinel_prefixed(path@) ==> r is Err,
            !sentinel_prefixed(path@) ==> (r matches Ok(m) ==> m.dataset() == (Target::File {
                path: path@,
                single: cfg.single,
                pretty: cfg.pretty,
                indent: cfg.indent,
            })),
    {
        if is_sentinel_path(path) {
            proof {
                lemma_sentinel_is_prefixed(path@);
            }
            let store = open_memory_store();
            Ok(JfsConnectionManager { kind: ManagerKind::Memory { store } })
        } else if path_has_sentinel_prefix(path) {
            Err(sentinel_collision_error())
        } else {
            let owned: String = path.to_owned();
            match open_file_store(&owned, &cfg) {
                Ok(_) => Ok(JfsConnectionManager { kind: ManagerKind::File { path: owned, cfg } }),
                Err(e) => Err(e),
            }
        }
    }

    /// Produces a fresh handle bound to this manager's dataset.
    ///
    /// For a file-backed manager the store is opened anew at the configured
    /// path with the configured options, and a failure to open it is returned
    /// as the store library's I/O error. For an in-memory manager the shared
    /// store is cloned, which cannot fail.
    pub fn connect(&self) -> (r: Result<jfs::Store, std::io::Error>)
        ensures
            r matches Ok(s) ==> dataset_of(s) == self.dataset(),
            self.dataset() is Memory ==> r is Ok,
    {
        match &self.kind {
            ManagerKind::File { path, cfg } => {
                proof {
                    use_type_invariant(&*self);
                }
                open_file_store(path, cfg)
            },
            ManagerKind::Memory { store } => Ok(clone_store(store)),
        }
    }

    /// Reports a handle as valid. No health check exists, so this succeeds
    /// for every handle and leaves it unchanged.
    pub fn is_valid(&self, conn: &mut jfs::Store) -> (r: Result<(), std::io::Error>)
        ensures
            r is Ok,
            *final(conn) == *old(conn),
    {
        Ok(())
    }

    /// Reports a handle as not broken, for every handle, leaving it
    /// unchanged.
    pub fn has_broken(&self, conn: &mut jfs::Store) -> (r: bool)
        ensures
            r == false,
            *final(conn) == *old(conn),
    {
        false
    }
}

/// Every two handles produced by the same manager are bound to the same
/// dataset: a record written through one is a record of the dataset every
/// other handle of that manager observes.
pub proof fn lemma_handles_share_dataset(
    m: &JfsConnectionManager,
    s1: &jfs::Store,
    s2: &jfs::Store,
)
    requires
        dataset_of(*s1) == m.dataset(),
        dataset_of(*s2) == m.dataset(),
    ensures
        dataset_of(*s1) == dataset_of(*s2),
{
}

} // verus!

