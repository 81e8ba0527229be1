//! The guard registry: which payloads are being put, which files are pinned
//! by readers and which are being deleted.

use vstd::prelude::*;
use std::collections::HashMap;
use std::collections::HashSet;
use crate::functions::FileHash;

verus! {

broadcast use vstd::std_specs::hash::group_hash_axioms;

/// A request to the guard registry.
#[derive(Debug)]
pub enum GuardRequest {
    /// Enter a payload hash into the set of payloads being put. Refused while
    /// the hash is in the set.
    AcquirePut(FileHash),
    /// Take a payload hash out of the set of payloads being put.
    ReleasePut(FileHash),
    /// Pin a file: count one more reader of it.
    AcquireOpen(u128),
    /// Unpin a file: count one reader less.
    ReleaseOpen(u128),
    /// Ask whether any reader pins a file.
    IsOpening(u128),
    /// Enter a file into the set of files being deleted. Refused while the
    /// file is in the set.
    AcquireDelete(u128),
    /// Take a file out of the set of files being deleted.
    ReleaseDelete(u128),
    /// Ask whether a file is being deleted.
    IsDeleting(u128),
    /// Enter several files at once into the set of files being deleted.
    /// Refused, with nothing entered, while any of them is in the set.
    AcquireDeleteAll(Vec<u128>),
    /// Take several files out of the set of files being deleted.
    ReleaseDeleteAll(Vec<u128>),
}

/// The mathematical value of a request to the guard registry.
pub enum GuardRequestView {
    AcquirePut(FileHash),
    ReleasePut(FileHash),
    AcquireOpen(u128),
    ReleaseOpen(u128),
    IsOpening(u128),
    AcquireDelete(u128),
    ReleaseDelete(u128),
    IsDeleting(u128),
    AcquireDeleteAll(Seq<u128>),
    ReleaseDeleteAll(Seq<u128>),
}

impl View for GuardRequest {
    type V = GuardRequestView;

    open spec fn view(&self) -> GuardRequestView {
        match *self {
            GuardRequest::AcquirePut(h) => GuardRequestView::AcquirePut(h),
            GuardRequest::ReleasePut(h) => GuardRequestView::ReleasePut(h),
            GuardRequest::AcquireOpen(id) => GuardRequestView::AcquireOpen(id),
            GuardRequest::ReleaseOpen(id) => GuardRequestView::ReleaseOpen(id),
            GuardRequest::IsOpening(id) => GuardRequestView::IsOpening(id),
            GuardRequest::AcquireDelete(id) => GuardRequestView::AcquireDelete(id),
            GuardRequest::ReleaseDelete(id) => GuardRequestView::ReleaseDelete(id),
            GuardRequest::IsDeleting(id) => GuardRequestView::IsDeleting(id),
            GuardRequest::AcquireDeleteAll(ids) => GuardRequestView::AcquireDeleteAll(ids@),
            GuardRequest::ReleaseDeleteAll(ids) => GuardRequestView::ReleaseDeleteAll(ids@),
        }
    }
}

/// The mathematical value of the guard registry.
pub struct RegistryView {
    /// The hashes of the payloads being put.
    pub uploading: Set<FileHash>,
    /// For each pinned file, the number of readers that pin it.
    pub opening: Map<u128, usize>,
    /// The files being deleted.
    pub deleting: Set<u128>,
}

impl RegistryView {
    /// The registry in which nothing is held.
    pub open spec fn empty() -> RegistryView {
        RegistryView { uploading: Set::empty(), opening: Map::empty(), deleting: Set::empty() }
    }

    /// An entry for a file exists only while a reader pins it.
    pub open spec fn wf(self) -> bool {
        forall|id: u128| self.opening.contains_key(id) ==> #[trigger] self.opening[id] > 0
    }

    /// Whether none of the files is being deleted.
    pub open spec fn none_deleting(self, ids: Seq<u128>) -> bool {
        forall|i: int| 0 <= i < ids.len() ==> !self.deleting.contains(#[trigger] ids[i])
    }

    /// The registry after a request, and the answer to the request. Requests
    /// that ask nothing are answered `true`.
    pub open spec fn perform(self, request: GuardRequestView) -> (RegistryView, bool) {
        match request {
            GuardRequestView::AcquirePut(h) => if self.uploading.contains(h) {
                (self, false)
            } else {
                (RegistryView { uploading: self.uploading.insert(h), ..self }, true)
            },
            GuardRequestView::ReleasePut(h) => (
                RegistryView { uploading: self.uploading.remove(h), ..self },
                true,
            ),
            GuardRequestView::AcquireOpen(id) => if !self.opening.contains_key(id) {
                (RegistryView { opening: self.opening.insert(id, 1), ..self }, true)
            } else if self.opening[id] < usize::MAX {
                (
                    RegistryView {
                        opening: self.opening.insert(id, (self.opening[id] + 1) as usize),
                        ..self
                    },
                    true,
                )
            } else {
                (self, false)
            },
            GuardRequestView::ReleaseOpen(id) => if !self.opening.contains_key(id) {
                (self, true)
            } else if self.opening[id] <= 1 {
                (RegistryView { opening: self.opening.remove(id), ..self }, true)
            } else {
                (
                    RegistryView {
                        opening: self.opening.insert(id, (self.opening[id] - 1) as usize),
                        ..self
                    },
                    true,
                )
            },
            GuardRequestView::IsOpening(id) => (self, self.opening.contains_key(id)),
            GuardRequestView::AcquireDelete(id) => if self.deleting.contains(id) {
                (self, false)
            } else {
                (RegistryView { deleting: self.deleting.insert(id), ..self }, true)
            },
            GuardRequestView::ReleaseDelete(id) => (
                RegistryView { deleting: self.deleting.remove(id), ..self },
                true,
            ),
            GuardRequestView::IsDeleting(id) => (self, self.deleting.contains(id)),
            GuardRequestView::AcquireDeleteAll(ids) => if self.none_deleting(ids) {
                (RegistryView { deleting: self.deleting.union(ids.to_set()), ..self }, true)
            } else {
                (self, false)
            },
            GuardRequestView::ReleaseDeleteAll(ids) => (
                RegistryView { deleting: self.deleting.difference(ids.to_set()), ..self },
                true,
            ),
        }
    }
}

/// The guard registry of one store.
pub struct GuardRegistry {
    uploading: Vec<FileHash>,
    opening: HashMap<u128, usize>,
    deleting: HashSet<u128>,
}

fn same_hash(a: &FileHash, b: &FileHash) -> (r: bool)
    ensures
        r == (*a == *b),
{
    let mut i: usize = 0;
    while i < 32
        invariant
            i <= 32,
            forall|j: int| 0 <= j < i ==> a@[j] == b@[j],
        decreases 32 - i,
    {
        if a[i] != b[i] {
            return false;
        }
        i = i + 1;
    }
    proof {
        assert(a@ =~= b@);
        vstd::array::axiom_array_ext_equal(*a, *b);
    }
    true
}

impl View for GuardRegistry {
    type V = RegistryView;

    closed spec fn view(&self) -> RegistryView {
        RegistryView {
            uploading: self.uploading@.to_set(),
            opening: self.opening@,
            deleting: self.deleting@,
        }
    }
}

impl GuardRegistry {
    /// A registry in which nothing is held.
    pub fn new() -> (r: GuardRegistry)
        ensures
            r@ == RegistryView::empty(),
            r@.wf(),
    {
        let r = GuardRegistry {
            uploading: Vec::new(),
            opening: HashMap::new(),
            deleting: HashSet::new(),
        };
        proof {
            assert(r.uploading@.to_set() =~= Set::<FileHash>::empty());
        }
        r
    }

    fn is_uploading(&self, hash: &FileHash) -> (r: bool)
        ensures
            r == self@.uploading.contains(*hash),
    {
        let mut i: usize = 0;
        while i < self.uploading.len()
            invariant
                i <= self.uploading.len(),
                forall|j: int| 0 <= j < i ==> self.uploading@[j] != *hash,
            decreases self.uploading.len() - i,
        {
            if same_hash(&self.uploading[i], hash) {
                return true;
            }
            i = i + 1;
        }
        false
    }

    fn acquire_put(&mut self, hash: FileHash) -> (r: bool)
        ensures
            (final(self)@, r) == old(self)@.perform(GuardRequestView::AcquirePut(hash)),
    {
        if self.is_uploading(&hash) {
            false
        } else {
            self.uploading.push(hash);
            proof {
                assert(self.uploading@.to_set() =~= old(self).uploading@.to_set().insert(hash)) by {
                    assert forall|h: FileHash| #[trigger]
                        self.uploading@.contains(h) <==> (old(self).uploading@.contains(h) || h
                            == hash) by {
                        if old(self).uploading@.contains(h) {
                            let j = choose|j: int|
                                0 <= j < old(self).uploading@.len() && old(self).uploading@[j] == h;
                            assert(self.uploading@[j] == h);
                        }
                        if h == hash {
                            assert(self.uploading@[self.uploading@.len() - 1] == h);
                        }
                    }
                }
            }
            true
        }
    }

    fn release_put(&mut self, hash: FileHash)
        ensures
            final(self)@ == old(self)@.perform(GuardRequestView::ReleasePut(hash)).0,
    {
        let mut kept: Vec<FileHash> = Vec::new();
        let mut i: usize = 0;
        while i < self.uploading.len()
            invariant
                i <= self.uploading.len(),
                forall|h: FileHash| #[trigger]
                    kept@.contains(h) <==> (self.uploading@.subrange(0, i as int).contains(h) && h
                        != hash),
            decreases self.uploading.len() - i,
        {
            let ghost before = kept@;
            let h = self.uploading[i];
            let equal = same_hash(&h, &hash);
            if !equal {
                kept.push(h);
            }
            proof {
                let prefix = self.uploading@.subrange(0, i as int);
                let next = self.uploading@.subrange(0, i as int + 1);
                assert(next =~= prefix.push(h));
                assert forall|x: FileHash| #[trigger]
                    kept@.contains(x) <==> (next.contains(x) && x != hash) by {
                    if next.contains(x) {
                        let j = choose|j: int| 0 <= j < next.len() && next[j] == x;
                        if j < i {
                            assert(prefix[j] == x);
                        }
                    }
                    if prefix.contains(x) {
                        let j = choose|j: int| 0 <= j < prefix.len() && prefix[j] == x;
                        assert(next[j] == x);
                    }
                    assert(next[i as int] == h);
                    if before.contains(x) {
                        let j = choose|j: int| 0 <= j < before.len() && before[j] == x;
                        assert(kept@[j] == x);
                    }
                    if kept@.contains(x) && !before.contains(x) {
                        let j = choose|j: int| 0 <= j < kept@.len() && kept@[j] == x;
                        if j < before.len() {
                            assert(before[j] == x);
                        }
                    }
                    if !equal && x == h {
                        assert(kept@[kept@.len() - 1] == x);
                    }
                }
            }
            i = i + 1;
        }
        proof {
            assert(self.uploading@.subrange(0, i as int) =~= self.uploading@);
            assert(kept@.to_set() =~= self.uploading@.to_set().remove(hash));
        }
        self.uploading = kept;
    }

    fn acquire_open(&mut self, id: u128) -> (r: bool)
        ensures
            (final(self)@, r) == old(self)@.perform(GuardRequestView::AcquireOpen(id)),
    {
        let current: Option<usize> = match self.opening.get(&id) {
            Some(count) => Some(*count),
            None => None,
        };
        match current {
            None => {
                self.opening.insert(id, 1);
                true
            },
            Some(count) => {
                if count < usize::MAX {
                    self.opening.insert(id, count + 1);
                    true
                } else {
                    false
                }
            },
        }
    }

    fn release_open(&mut self, id: u128)
        ensures
            final(self)@ == old(self)@.perform(GuardRequestView::ReleaseOpen(id)).0,
    {
        let current: Option<usize> = match self.opening.get(&id) {
            Some(count) => Some(*count),
            None => None,
        };
        match current {
            None => {},
            Some(count) => {
                if count <= 1 {
                    self.opening.remove(&id);
                } else {
                    self.opening.insert(id, count - 1);
                }
            },
        }
    }

    fn acquire_delete(&mut self, id: u128) -> (r: bool)
        ensures
            (final(self)@, r) == old(self)@.perform(GuardRequestView::AcquireDelete(id)),
    {
        if self.deleting.contains(&id) {
            false
        } else {
            self.deleting.insert(id);
            true
        }
    }

    fn release_delete(&mut self, id: u128)
        ensures
            final(self)@ == old(self)@.perform(GuardRequestView::ReleaseDelete(id)).0,
    {
        self.deleting.remove(&id);
    }

    fn none_deleting(&self, ids: &Vec<u128>) -> (r: bool)
        ensures
            r == self@.none_deleting(ids@),
    {
        let mut i: usize = 0;
        while i < ids.len()
            invariant
                i <= ids.len(),
                forall|j: int| 0 <= j < i ==> !self.deleting@.contains(#[trigger] ids@[j]),
            decreases ids.len() - i,
        {
            if self.deleting.contains(&ids[i]) {
                return false;
            }
            i = i + 1;
        }
        true
    }

    fn acquire_delete_all(&mut self, ids: &Vec<u128>) -> (r: bool)
        ensures
            (final(self)@, r) == old(self)@.perform(GuardRequestView::AcquireDeleteAll(ids@)),
    {
        if !self.none_deleting(ids) {
            return false;
        }
        let mut i: usize = 0;
        while i < ids.len()
            invariant
                i <= ids.len(),
                self.uploading == old(self).uploading,
                self.opening == old(self).opening,
                self.deleting@ == old(self).deleting@.union(ids@.subrange(0, i as int).to_set()),
            decreases ids.len() - i,
        {
            self.deleting.insert(ids[i]);
            proof {
                let prefix = ids@.subrange(0, i as int);
                let next = ids@.subrange(0, i as int + 1);
                assert(next =~= prefix.push(ids@[i as int]));
                lemma_to_set_push(prefix, ids@[i as int]);
                assert(self.deleting@ =~= old(self).deleting@.union(next.to_set()));
            }
            i = i + 1;
        }
        proof {
            assert(ids@.subrange(0, i as int) =~= ids@);
        }
        true
    }

    fn release_delete_all(&mut self, ids: &Vec<u128>)
        ensures
            final(self)@ == old(self)@.perform(GuardRequestView::ReleaseDeleteAll(ids@)).0,
    {
        let mut i: usize = 0;
        while i < ids.len()
            invariant
                i <= ids.len(),
                self.uploading == old(self).uploading,
                self.opening == old(self).opening,
                self.deleting@ == old(self).deleting@.difference(
                    ids@.subrange(0, i as int).to_set(),
                ),
            decreases ids.len() - i,
        {
            self.deleting.remove(&ids[i]);
            proof {
                let prefix = ids@.subrange(0, i as int);
                let next = ids@.subrange(0, i as int + 1);
                assert(next =~= prefix.push(ids@[i as int]));
                lemma_to_set_push(prefix, ids@[i as int]);
                assert(self.deleting@ =~= old(self).deleting@.difference(next.to_set()));
            }
            i = i + 1;
        }
        proof {
            assert(ids@.subrange(0, i as int) =~= ids@);
        }
    }

    /// Performs a request and answers it. Requests that ask nothing are
    /// answered `true`.
    pub fn perform(&mut self, request: &GuardRequest) -> (r: bool)
        ensures
            (final(self)@, r) == old(self)@.perform(request@),
            old(self)@.wf() ==> final(self)@.wf(),
    {
        match request {
            GuardRequest::AcquirePut(h) => self.acquire_put(*h),
            GuardRequest::ReleasePut(h) => {
                self.release_put(*h);
                true
            },
            GuardRequest::AcquireOpen(id) => self.acquire_open(*id),
            GuardRequest::ReleaseOpen(id) => {
                self.release_open(*id);
                true
            },
            GuardRequest::IsOpening(id) => self.opening.contains_key(id),
            GuardRequest::AcquireDelete(id) => self.acquire_delete(*id),
            GuardRequest::ReleaseDelete(id) => {
                self.release_delete(*id);
                true
            },
            GuardRequest::IsDeleting(id) => self.deleting.contains(id),
            GuardRequest::AcquireDeleteAll(ids) => self.acquire_delete_all(ids),
            GuardRequest::ReleaseDeleteAll(ids) => {
                self.release_delete_all(ids);
                true
            },
        }
    }

    /// Whether any reader pins the file.
    pub fn is_opening(&self, id: u128) -> (r: bool)
        ensures
            r == self@.opening.contains_key(id),
    {
        self.opening.contains_key(&id)
    }
}

proof fn lemma_to_set_push(s: Seq<u128>, x: u128)
    ensures
        s.push(x).to_set() == s.to_set().insert(x),
{
    assert forall|y: u128| #[trigger] s.push(x).contains(y) <==> (s.contains(y) || y == x) by {
        if s.contains(y) {
            let j = choose|j: int| 0 <= j < s.len() && s[j] == y;
            assert(s.push(x)[j] == y);
        }
        if y == x {
            assert(s.push(x)[s.len() as int] == y);
        }
    }
    assert(s.push(x).to_set() =~= s.to_set().insert(x));
}

/// Every request keeps the registry well formed.
pub proof fn law_registry_stays_well_formed(registry: RegistryView, request: GuardRequestView)
    requires
        registry.wf(),
    ensures
        registry.perform(request).0.wf(),
{
}

/// The note that a staged file is to be removed when the operation that
/// staged it ends, unless the file has been moved into the store.
#[derive(Debug)]
pub struct TemporaryFileGuard {
    moved: bool,
    file_path: String,
}

impl TemporaryFileGuard {
    /// Whether the staged file has been moved into the store.
    pub closed spec fn moved(&self) -> bool {
        self.moved
    }

    /// The path of the staged file.
    pub closed spec fn path(&self) -> Seq<char> {
        self.file_path@
    }

    /// What is to be removed when the guard is released: the staged file,
    /// unless it has been moved.
    pub open spec fn pending(&self) -> Option<Seq<char>> {
        if self.moved() {
            None
        } else {
            Some(self.path())
        }
    }

    /// Guards the staged file at a path.
    pub fn new(file_path: String) -> (guard: TemporaryFileGuard)
        ensures
            !guard.moved(),
            guard.path() == file_path@,
    {
        TemporaryFileGuard { moved: false, file_path }
    }

    /// Notes that the staged file has been moved into the store.
    pub fn set_moved(&mut self)
        ensures
            final(self).moved(),
            final(self).path() == old(self).path(),
    {
        self.moved = true;
    }

    /// Releases the guard: the path to remove, if the file has not been moved.
    pub fn release(self) -> (r: Option<String>)
        ensures
            match r {
                Some(p) => self.pending() == Some(p@),
                None => self.pending() is None,
            },
    {
        if self.moved {
            None
        } else {
            Some(self.file_path)
        }
    }
}

} // verus!
