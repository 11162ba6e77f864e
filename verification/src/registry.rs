use crate::site::{Site, StatusCode};
use vstd::prelude::*;
use vstd::rwlock::{RwLock, RwLockPredicate};

verus! {

/// The fixed identity of a registry: for each site, in configuration
/// order, its name and its address.
pub struct RegistryPred {
    pub ids: Seq<(Seq<char>, Seq<char>)>,
}

impl RwLockPredicate<Vec<Site>> for RegistryPred {
    /// What every value stored behind the registry lock satisfies: one site
    /// per configured identity, in configuration order, each with a history
    /// of exactly its capacity. Because the lock is only ever released on
    /// values satisfying this, no reader can observe a torn buffer.
    open spec fn inv(self, v: Vec<Site>) -> bool {
        &&& v@.len() == self.ids.len()
        &&& forall|i: int|
            0 <= i < v@.len() ==> {
                &&& (#[trigger] v@[i]).full()
                &&& v@[i]@.name == self.ids[i].0
                &&& v@[i]@.url == self.ids[i].1
            }
    }
}

/// The shared site registry: owns every site and mediates all access to
/// their histories through one reader-writer lock. The polling thread
/// records outcomes through [`SharedRegistry::push_outcome`]; the render
/// loop reads through [`SharedRegistry::snapshot_all`]. The set of sites is
/// fixed once the registry is built.
pub struct SharedRegistry {
    lock: RwLock<Vec<Site>, RegistryPred>,
    n: usize,
}

impl SharedRegistry {
    /// The sites' identities (name, address), fixed at construction.
    pub closed spec fn ids(&self) -> Seq<(Seq<char>, Seq<char>)> {
        self.lock.pred().ids
    }

    #[verifier::type_invariant]
    spec fn type_inv(&self) -> bool {
        self.n == self.ids().len()
    }

    pub fn new(sites: Vec<Site>) -> (r: SharedRegistry)
        requires
            forall|i: int| 0 <= i < sites@.len() ==> (#[trigger] sites@[i]).full(),
        ensures
            r.ids() == Seq::new(sites@.len(), |i: int| (sites@[i]@.name, sites@[i]@.url)),
    {
        let ghost ids = Seq::new(sites@.len(), |i: int| (sites@[i]@.name, sites@[i]@.url));
        let n = sites.len();
        let lock = RwLock::new(sites, Ghost(RegistryPred { ids }));
        SharedRegistry { lock, n }
    }

    /// The number of sites; stable for the registry's lifetime.
    pub fn len(&self) -> (r: usize)
        ensures
            r == self.ids().len(),
    {
        proof {
            use_type_invariant(self);
        }
        self.n
    }

    /// Record a probe outcome for the site at `idx`, under the lock: the
    /// site's history gets `code` in front, its oldest entry evicted first
    /// when full. The index is always valid because the registry's length
    /// is fixed after startup, so there is no error path.
    pub fn push_outcome(&self, idx: usize, code: StatusCode)
        requires
            idx < self.ids().len(),
    {
        let (mut sites, write_handle) = self.lock.acquire_write();
        let mut site = sites[idx].clone();
        site.push_status_code(code);
        sites.set(idx, site);
        write_handle.release_write(sites);
    }

    /// An independent copy of the site at `idx`, taken under the lock; the
    /// poller reads a site's address through this before probing it.
    pub fn get_site(&self, idx: usize) -> (r: Site)
        requires
            idx < self.ids().len(),
        ensures
            r.wf(),
            r.full(),
            r@.name == self.ids()[idx as int].0,
            r@.url == self.ids()[idx as int].1,
    {
        let read_handle = self.lock.acquire_read();
        let sites = read_handle.borrow();
        let site = sites[idx].clone();
        read_handle.release_read();
        site
    }

    /// One snapshot of every site for rendering: an independent copy, in
    /// configuration order, taken under the lock. Each copied history is
    /// internally consistent and holds exactly its capacity of outcomes,
    /// however many outcomes concurrent pushes have recorded before or
    /// after.
    pub fn snapshot_all(&self) -> (r: Vec<Site>)
        ensures
            r@.len() == self.ids().len(),
            forall|i: int|
                0 <= i < r@.len() ==> {
                    &&& (#[trigger] r@[i]).wf()
                    &&& r@[i].full()
                    &&& r@[i]@.name == self.ids()[i].0
                    &&& r@[i]@.url == self.ids()[i].1
                },
    {
        let read_handle = self.lock.acquire_read();
        let sites = read_handle.borrow();
        let mut r: Vec<Site> = Vec::new();
        let mut i: usize = 0;
        while i < sites.len()
            invariant
                i <= sites@.len(),
                r@.len() == i,
                self.lock.inv(*sites),
                forall|j: int|
                    0 <= j < i ==> {
                        &&& (#[trigger] r@[j]).wf()
                        &&& r@[j].full()
                        &&& r@[j]@.name == self.ids()[j].0
                        &&& r@[j]@.url == self.ids()[j].1
                    },
            decreases sites@.len() - i,
        {
            r.push(sites[i].clone());
            i += 1;
        }
        read_handle.release_read();
        r
    }
}

} // verus!
