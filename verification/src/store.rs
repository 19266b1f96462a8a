//! The boundary with the JSON document store.
//!
//! A `jfs::Store` value is opaque here; what the contracts speak of is the
//! dataset a store value is bound to, named by [`dataset_of`]: a file or
//! directory at a path, opened with fixed options, or one shared in-memory
//! dataset. The store library reserves one path string as a sentinel that
//! selects its in-memory backend; the spec-level predicates here let callers
//! reason about that sentinel exactly.

use vstd::prelude::*;

verus! {

/// The options a file-backed store is opened with: all records in one JSON
/// file or one file per record, and whether (and how deep) to indent output.
#[derive(Clone, Copy, Debug)]
pub struct StoreConfig {
    /// Keep every record in a single JSON file instead of one file per record.
    pub single: bool,
    /// Pretty-print the stored JSON.
    pub pretty: bool,
    /// Number of spaces used for one indentation step when pretty-printing.
    pub indent: usize,
}

impl Default for StoreConfig {
    /// The store library's defaults: directory mode, compact output,
    /// two-space indentation.
    fn default() -> (c: Self)
        ensures
            c.single == false,
            c.pretty == false,
            c.indent == 2,
    {
        StoreConfig { single: false, pretty: false, indent: 2 }
    }
}

/// The dataset a store value is bound to: the file or directory at a path,
/// opened with fixed options, or one particular in-memory dataset. Stores
/// bound to equal datasets observe the same records.
pub enum Target {
    File { path: Seq<char>, single: bool, pretty: bool, indent: usize },
    Memory { id: nat },
}

/// Declares `jfs::Store`, the store library's handle type, so that it can
/// stand in signatures; its values are opaque here.
#[verifier::external_type_specification]
#[verifier::external_body]
pub struct ExStore(jfs::Store);

/// Declares `std::io::Error`, the one error kind this adapter surfaces,
/// unchanged, from the store library.
#[verifier::external_type_specification]
#[verifier::external_body]
pub struct ExIoError(std::io::Error);

/// The dataset the store value is bound to. A store value determines its
/// dataset: a file-backed store carries its path and options, an in-memory
/// store a shared reference to its one map of records.
pub uninterp spec fn dataset_of(s: jfs::Store) -> Target;

/// The path string the store library reserves for its in-memory backend.
pub open spec fn in_memory_path() -> Seq<char> {
    "::memory::"@
}

/// True when the path begins with the reserved in-memory sentinel. Every
/// path the store library resolves to its in-memory backend is of this form,
/// so a path outside this set always opens a file-backed store.
pub open spec fn sentinel_prefixed(path: Seq<char>) -> bool {
    path.len() >= in_memory_path().len()
        && path.subrange(0, in_memory_path().len() as int) == in_memory_path()
}

/// The sentinel path itself is sentinel-prefixed.
pub(crate) proof fn lemma_sentinel_is_prefixed(path: Seq<char>)
    requires
        path == in_memory_path(),
    ensures
        sentinel_prefixed(path),
{
    assert(path.subrange(0, in_memory_path().len() as int) =~= in_memory_path());
}

/// Whether the path is exactly the reserved in-memory sentinel.
pub(crate) fn is_sentinel_path(path: &str) -> (b: bool)
    ensures
        b == (path@ == in_memory_path()),
{
    let p: String = path.to_owned();
    let sentinel: String = "::memory::".to_owned();
    p == sentinel
}

/// Relies on `str::starts_with`: true exactly when the string begins with the
/// given prefix. The sentinel is ASCII, so its byte prefix and its character
/// prefix agree.
#[verifier::external_body]
pub(crate) fn path_has_sentinel_prefix(path: &str) -> (b: bool)
    ensures
        b == sentinel_prefixed(path@),
{
    path.starts_with(jfs::IN_MEMORY)
}

/// Relies on `jfs::Store::new_with_cfg`: for a path other than the in-memory
/// sentinel it opens the file-backed store at that path with the given
/// options, creating the backing file or directory as needed, and returns the
/// store library's I/O error where that fails. In single-file mode the store
/// library gives the path a `.json` extension, so the path recorded in the
/// dataset is a label: opening the same path with the same options twice
/// reaches the same backing file, which is all the contracts claim.
#[verifier::external_body]
pub(crate) fn open_file_store(path: &String, cfg: &StoreConfig) -> (r: Result<
    jfs::Store,
    std::io::Error,
>)
    requires
        !sentinel_prefixed(path@),
    ensures
        r matches Ok(s) ==> dataset_of(s) == (Target::File {
            path: path@,
            single: cfg.single,
            pretty: cfg.pretty,
            indent: cfg.indent,
        }),
{
    let jfs_cfg = jfs::Config { single: cfg.single, pretty: cfg.pretty, indent: cfg.indent };
    jfs::Store::new_with_cfg(path.as_str(), jfs_cfg)
}

/// Relies on `jfs::Store::new` with the reserved sentinel: it constructs a
/// fresh in-memory store and, per the store library's source, never fails on
/// that path, so the expectation cannot fire.
#[verifier::external_body]
pub(crate) fn open_memory_store() -> (s: jfs::Store)
    ensures
        dataset_of(s) is Memory,
{
    jfs::Store::new(jfs::IN_MEMORY).expect("in-memory store construction cannot fail")
}

/// Relies on `jfs::Store::clone`: a clone is bound to the same dataset as the
/// original — the same path and options for a file-backed store, the same
/// shared map for an in-memory store.
#[verifier::external_body]
pub(crate) fn clone_store(s: &jfs::Store) -> (r: jfs::Store)
    ensures
        dataset_of(r) == dataset_of(*s),
{
    s.clone()
}

/// Relies on `std::io::Error::new` to build an invalid-input error value.
#[verifier::external_body]
pub(crate) fn sentinel_collision_error() -> std::io::Error {
    std::io::Error::new(
        std::io::ErrorKind::InvalidInput,
        "path collides with the reserved in-memory sentinel",
    )
}

} // verus!
