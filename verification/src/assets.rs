//! Loaded assets, kept once per identifier.
//!
//! An [`AssetCollection`] hands out a [`Handle`] for an identifier, a file
//! path for instance. The first request for an identifier has the asset
//! loaded and stores it; every later request for the same identifier is
//! answered from what is stored. Identifiers are compared letter for letter:
//! two spellings of one path are two identifiers.

use crate::registry::{Handle, Registry};
use vstd::prelude::*;

verus! {

/// Why an asset could not be loaded.
#[derive(Clone, Debug, PartialEq, Eq)]
pub struct AssetLoadError {
    /// The identifier that was asked for.
    pub id: String,
    /// What went wrong.
    pub message: String,
}

/// Loads assets of kind `A`: textures, fonts, sounds or music, one loader per
/// kind and backend.
pub trait AssetLoader<A> {
    /// Where the backend keeps what it loads.
    type Storage;

    /// Loads the asset that `id` names into `storage` and returns what the
    /// collection is to keep for it.
    fn load(&self, id: &String, storage: &mut Self::Storage) -> Result<A, AssetLoadError>;
}

/// Whether an asset is stored under `id`.
pub open spec fn is_cached<A>(entries: Seq<(Seq<char>, A)>, id: Seq<char>) -> bool {
    exists|i: int| 0 <= i < entries.len() && (#[trigger] entries[i]).0 == id
}

/// The place of the asset that is stored under `id`.
pub open spec fn cached_at<A>(entries: Seq<(Seq<char>, A)>, id: Seq<char>) -> int {
    choose|i: int| 0 <= i < entries.len() && (#[trigger] entries[i]).0 == id
}

/// Whether no identifier occurs twice.
pub open spec fn distinct_ids<A>(entries: Seq<(Seq<char>, A)>) -> bool {
    forall|i: int, j: int|
        0 <= i < j < entries.len() ==> (#[trigger] entries[i]).0 != (#[trigger] entries[j]).0
}

/// What is stored after a request for `id`, where loading it gives `loaded`.
///
/// An identifier that is stored already leaves everything as it is, whatever
/// loading would give. Otherwise a loaded asset is stored behind all others,
/// and a failure stores nothing.
pub open spec fn after_request<A>(
    entries: Seq<(Seq<char>, A)>,
    id: Seq<char>,
    loaded: Result<A, AssetLoadError>,
) -> Seq<(Seq<char>, A)> {
    if is_cached(entries, id) {
        entries
    } else {
        match loaded {
            Ok(asset) => entries.push((id, asset)),
            Err(_) => entries,
        }
    }
}

/// Assets of kind `A`, each stored under the identifier it was loaded for.
pub struct AssetCollection<A> {
    assets: Registry<A>,
    ids: Vec<String>,
}

impl<A> View for AssetCollection<A> {
    type V = Seq<(Seq<char>, A)>;

    /// Identifier and asset of each entry, in the order of loading. The
    /// handle of an entry is its place in this sequence.
    closed spec fn view(&self) -> Seq<(Seq<char>, A)> {
        Seq::new(self.ids@.len(), |i: int| (self.ids@[i]@, self.assets@[i]))
    }
}

impl<A> Default for AssetCollection<A> {
    fn default() -> (collection: AssetCollection<A>)
        ensures
            collection@ == Seq::<(Seq<char>, A)>::empty(),
    {
        AssetCollection::new()
    }
}

impl<A> AssetCollection<A> {
    #[verifier::type_invariant]
    spec fn well_formed(self) -> bool {
        &&& self.ids@.len() == self.assets@.len()
        &&& forall|i: int, j: int|
            0 <= i < j < self.ids@.len()
                ==> (#[trigger] self.ids@[i])@ != (#[trigger] self.ids@[j])@
    }

    /// Whether `handle` names a stored asset.
    pub open spec fn has(&self, handle: Handle) -> bool {
        handle@ < self@.len()
    }

    /// An empty collection.
    pub fn new() -> (collection: Self)
        ensures
            collection@ == Seq::<(Seq<char>, A)>::empty(),
    {
        let collection = AssetCollection { assets: Registry::new(), ids: Vec::new() };
        assert(collection@ =~= Seq::<(Seq<char>, A)>::empty());
        collection
    }

    /// How many assets are stored.
    pub fn len(&self) -> (len: usize)
        ensures
            len == self@.len(),
            distinct_ids(self@),
    {
        proof {
            use_type_invariant(self);
        }
        self.ids.len()
    }

    /// Whether `handle` names a stored asset.
    pub fn contains(&self, handle: Handle) -> (found: bool)
        ensures
            found == self.has(handle),
    {
        proof {
            use_type_invariant(self);
        }
        self.assets.contains(handle)
    }

    /// The asset that `handle` names.
    pub fn get(&self, handle: Handle) -> (asset: &A)
        requires
            self.has(handle),
        ensures
            *asset == self@[handle@ as int].1,
    {
        proof {
            use_type_invariant(self);
        }
        self.assets.get(handle)
    }

    /// The handle of the asset stored under `id`, if there is one.
    pub fn find(&self, id: &String) -> (found: Option<Handle>)
        ensures
            distinct_ids(self@),
            found is Some <==> is_cached(self@, id@),
            found matches Some(handle) ==> self.has(handle)
                && handle@ == cached_at(self@, id@) && self@[handle@ as int].0 == id@,
    {
        proof {
            use_type_invariant(self);
        }
        let mut at: usize = 0;
        while at < self.ids.len()
            invariant
                at <= self.ids@.len(),
                self.ids@.len() == self@.len(),
                distinct_ids(self@),
                forall|i: int| 0 <= i < self@.len() ==> (#[trigger] self@[i]).0 == self.ids@[i]@,
                forall|i: int| 0 <= i < at ==> (#[trigger] self@[i]).0 != id@,
            decreases self.ids@.len() - at,
        {
            if self.ids[at] == *id {
                assert(self@[at as int].0 == id@);
                return Some(Handle::from_index(at));
            }
            at += 1;
        }
        None
    }

    /// Answers a request for `id` where loading it gave `loaded`.
    ///
    /// What is stored under `id` already is returned, and `loaded` dropped.
    /// Otherwise a loaded asset is stored and its new handle returned, and a
    /// failure is handed on as it came, with nothing stored.
    pub fn resolve(
        &mut self,
        id: &String,
        loaded: Result<A, AssetLoadError>,
    ) -> (answer: Result<Handle, AssetLoadError>)
        ensures
            final(self)@ == after_request(old(self)@, id@, loaded),
            distinct_ids(final(self)@),
            answer is Ok <==> is_cached(old(self)@, id@) || loaded is Ok,
            answer matches Ok(handle) ==> final(self).has(handle) && is_cached(final(self)@, id@)
                && handle@ == cached_at(final(self)@, id@),
            answer matches Ok(handle) ==> is_cached(old(self)@, id@)
                ==> handle@ == cached_at(old(self)@, id@),
            answer matches Ok(handle) ==> !is_cached(old(self)@, id@)
                ==> handle@ == old(self)@.len(),
            answer matches Err(error) ==> loaded == Err::<A, AssetLoadError>(error),
    {
        match self.find(id) {
            Some(handle) => Ok(handle),
            None => match loaded {
                Ok(asset) => Ok(self.insert(id, asset)),
                Err(error) => Err(error),
            },
        }
    }

    /// Stores `asset` under `id`, which is not stored yet.
    fn insert(&mut self, id: &String, asset: A) -> (handle: Handle)
        requires
            !is_cached(old(self)@, id@),
        ensures
            final(self)@ == old(self)@.push((id@, asset)),
            distinct_ids(final(self)@),
            handle@ == old(self)@.len(),
            handle@ == cached_at(final(self)@, id@),
            is_cached(final(self)@, id@),
    {
        proof {
            use_type_invariant(&*self);
        }
        let ghost before = self@;
        let ghost ids = self.ids@;
        assert forall|i: int| 0 <= i < ids.len() implies (#[trigger] ids[i])@ != id@ by {
            assert(before[i].0 == ids[i]@);
        }
        let mut taken = AssetCollection::new();
        std::mem::swap(self, &mut taken);
        let mut assets = taken.assets;
        let mut ids = taken.ids;
        let handle = assets.add(asset);
        ids.push(id.clone());
        *self = AssetCollection { assets, ids };
        assert(self@ =~= before.push((id@, asset)));
        assert(self@[handle@ as int].0 == id@);
        handle
    }

    /// The handle of the asset that `id` names, loading the asset if this is
    /// the first request for it.
    ///
    /// Where `id` is stored already, `loader` is not called: the collection
    /// and `storage` stay as they are. Otherwise `loader` is called once. What
    /// it loads is stored behind everything else and gets the next handle; a
    /// failure is returned as the loader reported it and nothing is stored, so
    /// that a later request tries again.
    pub fn load_or_get<L: AssetLoader<A>>(
        &mut self,
        id: &String,
        loader: &L,
        storage: &mut L::Storage,
    ) -> (answer: Result<Handle, AssetLoadError>)
        ensures
            distinct_ids(final(self)@),
            exists|loaded: Result<A, AssetLoadError>|
                final(self)@ == #[trigger] after_request(old(self)@, id@, loaded),
            is_cached(old(self)@, id@) ==> final(self)@ == old(self)@,
            is_cached(old(self)@, id@) ==> *final(storage) == *old(storage),
            is_cached(old(self)@, id@) ==> answer is Ok,
            answer matches Ok(handle) ==> final(self).has(handle) && is_cached(final(self)@, id@)
                && handle@ == cached_at(final(self)@, id@),
            answer matches Ok(handle) ==> is_cached(old(self)@, id@)
                ==> handle@ == cached_at(old(self)@, id@),
            answer matches Ok(handle) ==> !is_cached(old(self)@, id@)
                ==> handle@ == old(self)@.len() && final(self)@.last().0 == id@,
            answer is Ok ==> !is_cached(old(self)@, id@)
                ==> final(self)@.len() == old(self)@.len() + 1
                && final(self)@.drop_last() == old(self)@,
            answer is Err ==> final(self)@ == old(self)@,
    {
        match self.find(id) {
            Some(handle) => {
                proof {
                    let unused: Result<A, AssetLoadError> = arbitrary();
                    assert(self@ == after_request(self@, id@, unused));
                }
                Ok(handle)
            },
            None => {
                let ghost before = self@;
                let loaded = loader.load(id, storage);
                let answer = self.resolve(id, loaded);
                proof {
                    assert(self@ == after_request(before, id@, loaded));
                    if answer is Ok {
                        assert(self@.drop_last() =~= before);
                    }
                }
                answer
            },
        }
    }
}

/// Asking again loads nothing: once a request for `id` has been answered with
/// a handle, a second request leaves what is stored as it is and finds the
/// same entry, whatever loading would give this time.
pub proof fn lemma_second_request_changes_nothing<A>(
    entries: Seq<(Seq<char>, A)>,
    id: Seq<char>,
    first: Result<A, AssetLoadError>,
    second: Result<A, AssetLoadError>,
)
    requires
        distinct_ids(entries),
        is_cached(entries, id) || first is Ok,
    ensures
        is_cached(after_request(entries, id, first), id),
        after_request(after_request(entries, id, first), id, second)
            == after_request(entries, id, first),
{
    let once = after_request(entries, id, first);
    if !is_cached(entries, id) {
        assert(once[entries.len() as int].0 == id);
    }
}

/// What is stored stays where it is: a request for any identifier leaves the
/// entry of `id` at its place, so its handle keeps naming it.
pub proof fn lemma_requests_keep_entries<A>(
    entries: Seq<(Seq<char>, A)>,
    id: Seq<char>,
    other: Seq<char>,
    loaded: Result<A, AssetLoadError>,
)
    requires
        distinct_ids(entries),
        is_cached(entries, id),
    ensures
        distinct_ids(after_request(entries, other, loaded)),
        is_cached(after_request(entries, other, loaded), id),
        cached_at(after_request(entries, other, loaded), id) == cached_at(entries, id),
        after_request(entries, other, loaded)[cached_at(entries, id)]
            == entries[cached_at(entries, id)],
{
    let after = after_request(entries, other, loaded);
    let at = cached_at(entries, id);
    assert(after[at].0 == id);
    lemma_after_request_keeps_ids_distinct(entries, other, loaded);
    let found = cached_at(after, id);
    if found != at {
        if found < at {
            assert(after[found].0 != after[at].0);
        } else {
            assert(after[at].0 != after[found].0);
        }
    }
}

/// A request never stores an identifier twice.
pub proof fn lemma_after_request_keeps_ids_distinct<A>(
    entries: Seq<(Seq<char>, A)>,
    id: Seq<char>,
    loaded: Result<A, AssetLoadError>,
)
    requires
        distinct_ids(entries),
    ensures
        distinct_ids(after_request(entries, id, loaded)),
{
    let after = after_request(entries, id, loaded);
    assert forall|i: int, j: int| 0 <= i < j < after.len() implies
        (#[trigger] after[i]).0 != (#[trigger] after[j]).0
    by {
        if j < entries.len() {
            assert(after[i] == entries[i]);
            assert(after[j] == entries[j]);
        } else {
            assert(after[i] == entries[i]);
        }
    }
}

} // verus!
