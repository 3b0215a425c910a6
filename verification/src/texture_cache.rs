//! The textures that a compositor may still draw from, kept by document and
//! epoch.
//!
//! A texture that was handed to the compositor has to live as long as a frame
//! that shows it can come up again. So each texture is registered under the
//! document and the epoch it was drawn in, and once a frame is through, the
//! textures of the epochs up to it are taken out again and handed back to the
//! caller, who gives them back to the driver.

use vstd::prelude::*;
use crate::resources::{DocumentId, Epoch, ExternalImageId};

verus! {

/// Where a texture is registered.
#[derive(Debug, Copy, Clone, PartialEq, Eq, Structural, PartialOrd, Ord, Hash)]
pub struct TextureKey {
    pub document_id: DocumentId,
    pub epoch: Epoch,
    pub image_id: ExternalImageId,
}

/// One registered texture.
#[derive(Debug)]
struct CacheEntry<T> {
    key: TextureKey,
    texture: T,
}

/// No key occurs twice among `entries`.
spec fn distinct_keys<T>(entries: Seq<CacheEntry<T>>) -> bool {
    forall|i: int, j: int| 0 <= i < j < entries.len() ==> entries[i].key != entries[j].key
}

/// Whether `entries` hold `key`.
spec fn holds_key<T>(entries: Seq<CacheEntry<T>>, key: TextureKey) -> bool {
    exists|i: int| 0 <= i < entries.len() && #[trigger] entries[i].key == key
}

/// The index at which `entries` hold `key`.
spec fn index_of_key<T>(entries: Seq<CacheEntry<T>>, key: TextureKey) -> int {
    choose|i: int| 0 <= i < entries.len() && #[trigger] entries[i].key == key
}

/// The map from each key among `entries` to its texture.
spec fn entries_map<T>(entries: Seq<CacheEntry<T>>) -> Map<TextureKey, T> {
    Map::new(
        |key: TextureKey| holds_key(entries, key),
        |key: TextureKey| entries[index_of_key(entries, key)].texture,
    )
}

/// Where no key occurs twice, the map sends the key of each entry to the
/// texture of that entry.
proof fn lemma_entry_at<T>(entries: Seq<CacheEntry<T>>, i: int)
    requires
        distinct_keys(entries),
        0 <= i < entries.len(),
    ensures
        entries_map(entries).dom().contains(entries[i].key),
        entries_map(entries)[entries[i].key] == entries[i].texture,
{
    let key = entries[i].key;
    assert(holds_key(entries, key));
    let j = index_of_key(entries, key);
    if j < i {
        assert(entries[j].key != entries[i].key);
    } else if i < j {
        assert(entries[i].key != entries[j].key);
    }
}

/// The textures that may still be drawn from. Its view is the map from each
/// place where a texture is registered to that texture.
#[derive(Debug)]
pub struct GlTextureCache<T> {
    entries: Vec<CacheEntry<T>>,
}

impl<T> View for GlTextureCache<T> {
    type V = Map<TextureKey, T>;

    closed spec fn view(&self) -> Map<TextureKey, T> {
        entries_map(self.entries@)
    }
}

/// Which keys a clean-up of `document_id` takes out: with a bound, the
/// document's keys of the epochs up to and including the bound; without one,
/// all of the document's keys.
pub open spec fn is_stale(document_id: DocumentId, bound: Option<Epoch>, key: TextureKey) -> bool {
    &&& key.document_id == document_id
    &&& match bound {
        Some(epoch) => key.epoch.0 <= epoch.0,
        None => true,
    }
}

/// Whether `from` registers `texture` under one of `keys`.
pub open spec fn registers_under<T>(
    from: Map<TextureKey, T>,
    keys: Set<TextureKey>,
    texture: T,
) -> bool {
    exists|key: TextureKey|
        #![trigger from[key]]
        from.dom().contains(key) && keys.contains(key) && from[key] == texture
}

/// `removed` holds the textures that `from` registers under `keys`, and
/// nothing else.
pub open spec fn holds_textures_of<T>(
    removed: Seq<T>,
    from: Map<TextureKey, T>,
    keys: Set<TextureKey>,
) -> bool {
    &&& forall|key: TextureKey|
        #![trigger from.dom().contains(key)]
        #![trigger from[key]]
        from.dom().contains(key) && keys.contains(key) ==> removed.contains(from[key])
    &&& forall|i: int| 0 <= i < removed.len() ==> registers_under(from, keys, #[trigger] removed[i])
}

/// The keys that a clean-up of `document_id` takes out.
pub open spec fn stale_keys(document_id: DocumentId, bound: Option<Epoch>) -> Set<TextureKey> {
    Set::new(|key: TextureKey| is_stale(document_id, bound, key))
}

impl<T> GlTextureCache<T> {
    /// The cache is in order. Every cache that [`GlTextureCache::new`] made
    /// and the functions of this module changed meets this.
    pub closed spec fn wf(&self) -> bool {
        distinct_keys(self.entries@)
    }

    /// A cache without textures.
    pub fn new() -> (cache: GlTextureCache<T>)
        ensures
            cache.wf(),
            cache@ == Map::<TextureKey, T>::empty(),
    {
        let cache = GlTextureCache { entries: Vec::new() };
        assert(cache@ =~= Map::<TextureKey, T>::empty());
        cache
    }

    /// The number of registered textures.
    pub fn len(&self) -> (n: usize)
        requires
            self.wf(),
        ensures
            n == self@.dom().len(),
            self@.dom().finite(),
    {
        proof {
            lemma_dom_len(self.entries@);
        }
        self.entries.len()
    }

    /// Whether no texture is registered.
    pub fn is_empty(&self) -> (r: bool)
        requires
            self.wf(),
        ensures
            r == (self@ == Map::<TextureKey, T>::empty()),
    {
        let r = self.entries.len() == 0;
        proof {
            if r {
                assert(self@ =~= Map::<TextureKey, T>::empty());
            } else {
                lemma_entry_at(self.entries@, 0);
            }
        }
        r
    }

    /// Takes out the textures whose keys are stale, and returns them.
    fn remove_stale(&mut self, document_id: DocumentId, bound: Option<Epoch>) -> (removed: Vec<T>)
        requires
            old(self).wf(),
        ensures
            final(self).wf(),
            final(self)@ == old(self)@.remove_keys(stale_keys(document_id, bound)),
            holds_textures_of(removed@, old(self)@, stale_keys(document_id, bound)),
    {
        let ghost orig = self.entries@;
        let mut kept: Vec<CacheEntry<T>> = Vec::new();
        let mut removed: Vec<T> = Vec::new();
        let ghost mut kept_from: Seq<int> = Seq::empty();
        let ghost mut removed_from: Seq<int> = Seq::empty();
        while self.entries.len() > 0
            invariant
                distinct_keys(orig),
                self.entries@.len() <= orig.len(),
                self.entries@ == orig.take(self.entries@.len() as int),
                kept_from.len() == kept@.len(),
                removed_from.len() == removed@.len(),
                forall|j: int|
                    0 <= j < kept@.len() ==> {
                        &&& self.entries@.len() <= #[trigger] kept_from[j] < orig.len()
                        &&& kept@[j] == orig[kept_from[j]]
                        &&& !is_stale(document_id, bound, orig[kept_from[j]].key)
                    },
                forall|j: int, k: int|
                    0 <= j < k < kept@.len() ==> #[trigger] kept_from[j] > #[trigger] kept_from[k],
                forall|j: int|
                    0 <= j < removed@.len() ==> {
                        &&& self.entries@.len() <= #[trigger] removed_from[j] < orig.len()
                        &&& removed@[j] == orig[removed_from[j]].texture
                        &&& is_stale(document_id, bound, orig[removed_from[j]].key)
                    },
                forall|i: int|
                    self.entries@.len() <= i < orig.len() ==> kept_from.contains(i)
                        || removed_from.contains(i),
            decreases self.entries@.len(),
        {
            let ghost at = self.entries@.len() - 1;
            let ghost kept_before = kept_from;
            let ghost removed_before = removed_from;
            let entry = self.entries.pop().unwrap();
            assert(entry == orig[at]);
            let stale = entry.key.document_id == document_id && match bound {
                Some(epoch) => entry.key.epoch.0 <= epoch.0,
                None => true,
            };
            if stale {
                removed.push(entry.texture);
                proof {
                    removed_from = removed_from.push(at);
                }
            } else {
                kept.push(entry);
                proof {
                    kept_from = kept_from.push(at);
                }
            }
            proof {
                assert forall|i: int| at <= i < orig.len() implies kept_from.contains(i)
                    || removed_from.contains(i) by {
                    if i == at {
                        if stale {
                            assert(removed_from[removed_from.len() - 1] == at);
                        } else {
                            assert(kept_from[kept_from.len() - 1] == at);
                        }
                    } else if kept_before.contains(i) {
                        let j = choose|j: int| 0 <= j < kept_before.len() && kept_before[j] == i;
                        assert(kept_from[j] == i);
                    } else {
                        let j = choose|j: int|
                            0 <= j < removed_before.len() && removed_before[j] == i;
                        assert(removed_from[j] == i);
                    }
                }
            }
        }
        self.entries = kept;
        proof {
            let stale = stale_keys(document_id, bound);
            assert forall|i: int, j: int| 0 <= i < j < kept@.len() implies kept@[i].key
                != kept@[j].key by {
                assert(kept_from[i] > kept_from[j]);
            }
            let before = entries_map(orig);
            let after = entries_map(kept@);
            assert forall|key: TextureKey| after.dom().contains(key) <==> before.remove_keys(
                stale,
            ).dom().contains(key) by {
                if after.dom().contains(key) {
                    let j = index_of_key(kept@, key);
                    assert(orig[kept_from[j]].key == key);
                }
                if before.dom().contains(key) && !stale.contains(key) {
                    let i = index_of_key(orig, key);
                    if kept_from.contains(i) {
                        let j = choose|j: int| 0 <= j < kept_from.len() && kept_from[j] == i;
                        assert(kept@[j].key == key);
                    } else {
                        let j = choose|j: int| 0 <= j < removed_from.len() && removed_from[j] == i;
                        assert(is_stale(document_id, bound, orig[removed_from[j]].key));
                    }
                }
            }
            assert forall|key: TextureKey| after.dom().contains(key) implies after[key]
                == before.remove_keys(stale)[key] by {
                let j = index_of_key(kept@, key);
                lemma_entry_at(kept@, j);
                lemma_entry_at(orig, kept_from[j]);
            }
            assert(after =~= before.remove_keys(stale));
            assert forall|key: TextureKey|
                before.dom().contains(key) && stale.contains(key) implies removed@.contains(
                #[trigger] before[key],
            ) by {
                let i = index_of_key(orig, key);
                lemma_entry_at(orig, i);
                if removed_from.contains(i) {
                    let j = choose|j: int| 0 <= j < removed_from.len() && removed_from[j] == i;
                    assert(removed@[j] == before[key]);
                } else {
                    let j = choose|j: int| 0 <= j < kept_from.len() && kept_from[j] == i;
                    assert(!is_stale(document_id, bound, orig[kept_from[j]].key));
                }
            }
            assert forall|i: int| 0 <= i < removed@.len() implies registers_under(
                before,
                stale,
                #[trigger] removed@[i],
            ) by {
                let from = removed_from[i];
                lemma_entry_at(orig, from);
                let key = orig[from].key;
                assert(before.dom().contains(key) && stale.contains(key) && before[key]
                    == removed@[i]);
            }
            assert(before == old(self)@);
            assert(holds_textures_of(removed@, before, stale));
        }
        removed
    }
}

/// A cache in order holds as many textures as it has entries.
proof fn lemma_dom_len<T>(entries: Seq<CacheEntry<T>>)
    requires
        distinct_keys(entries),
    ensures
        entries_map(entries).dom().finite(),
        entries_map(entries).dom().len() == entries.len(),
    decreases entries.len(),
{
    let dom = entries_map(entries).dom();
    if entries.len() == 0 {
        assert(dom =~= Set::<TextureKey>::empty());
    } else {
        let rest = entries.drop_last();
        let last = entries.last().key;
        lemma_dom_len(rest);
        let rest_dom = entries_map(rest).dom();
        assert forall|key: TextureKey| dom.contains(key) <==> rest_dom.insert(last).contains(
            key,
        ) by {
            if dom.contains(key) {
                let i = index_of_key(entries, key);
                if i < entries.len() - 1 {
                    assert(rest[i].key == key);
                }
            }
            if rest_dom.contains(key) {
                let i = index_of_key(rest, key);
                assert(entries[i].key == key);
            }
            if key == last {
                assert(entries[entries.len() - 1].key == key);
            }
        }
        assert(dom =~= rest_dom.insert(last));
        if rest_dom.contains(last) {
            let i = index_of_key(rest, last);
            assert(entries[i].key != entries[entries.len() - 1].key);
        }
    }
}

/// Registers `texture` for the image `external_image_id` under a document
/// and an epoch, and returns the image's identifier. A texture that was
/// registered at the same place before is dropped.
pub fn insert_into_active_gl_textures<T>(
    cache: &mut GlTextureCache<T>,
    document_id: DocumentId,
    epoch: Epoch,
    external_image_id: ExternalImageId,
    texture: T,
) -> (id: ExternalImageId)
    requires
        old(cache).wf(),
    ensures
        final(cache).wf(),
        id == external_image_id,
        final(cache)@ == old(cache)@.insert(
            TextureKey { document_id, epoch, image_id: external_image_id },
            texture,
        ),
{
    let key = TextureKey { document_id, epoch, image_id: external_image_id };
    let ghost orig = cache.entries@;
    let mut at: usize = 0;
    while at < cache.entries.len() && cache.entries[at].key != key
        invariant
            at <= cache.entries@.len(),
            cache.entries@ == orig,
            forall|i: int| 0 <= i < at ==> (#[trigger] orig[i]).key != key,
        decreases cache.entries@.len() - at,
    {
        at += 1;
    }
    if at < cache.entries.len() {
        cache.entries.set(at, CacheEntry { key, texture });
    } else {
        cache.entries.push(CacheEntry { key, texture });
    }
    proof {
        let entries = cache.entries@;
        assert forall|i: int, j: int| 0 <= i < j < entries.len() implies entries[i].key
            != entries[j].key by {
            if j < orig.len() {
                assert(orig[i].key != orig[j].key);
            } else {
                assert(orig[i].key != key);
            }
        }
        let before = entries_map(orig);
        let after = entries_map(entries);
        assert(entries[at as int].key == key);
        assert forall|k: TextureKey| after.dom().contains(k) <==> before.insert(
            key,
            texture,
        ).dom().contains(k) by {
            if after.dom().contains(k) && k != key {
                let j = index_of_key(entries, k);
                assert(orig[j].key == k);
            }
            if before.dom().contains(k) && k != key {
                let i = index_of_key(orig, k);
                assert(entries[i].key == k);
            }
        }
        assert forall|k: TextureKey| after.dom().contains(k) implies after[k] == before.insert(
            key,
            texture,
        )[k] by {
            let j = index_of_key(entries, k);
            lemma_entry_at(entries, j);
            if k != key {
                lemma_entry_at(orig, j);
            }
        }
        assert(after =~= before.insert(key, texture));
    }
    external_image_id
}

/// A texture that is registered for the image `image_key`, under whatever
/// document and epoch. Where the image is registered at several places, any
/// one of its textures may come back.
pub fn get_opengl_texture<'a, T>(cache: &'a GlTextureCache<T>, image_key: &ExternalImageId) -> (r:
    Option<&'a T>)
    requires
        cache.wf(),
    ensures
        match r {
            Some(texture) => exists|key: TextureKey|
                #![trigger cache@[key]]
                cache@.dom().contains(key) && key.image_id == *image_key && cache@[key]
                    == *texture,
            None => forall|key: TextureKey|
                #[trigger] cache@.dom().contains(key) ==> key.image_id != *image_key,
        },
{
    let mut i: usize = 0;
    while i < cache.entries.len()
        invariant
            i <= cache.entries@.len(),
            distinct_keys(cache.entries@),
            forall|j: int| 0 <= j < i ==> (#[trigger] cache.entries@[j]).key.image_id != *image_key,
        decreases cache.entries@.len() - i,
    {
        if cache.entries[i].key.image_id == *image_key {
            proof {
                lemma_entry_at(cache.entries@, i as int);
                let key = cache.entries@[i as int].key;
                assert(cache@.dom().contains(key) && key.image_id == *image_key && cache@[key]
                    == cache.entries@[i as int].texture);
            }
            return Some(&cache.entries[i].texture);
        }
        i += 1;
    }
    proof {
        assert forall|key: TextureKey| #[trigger] cache@.dom().contains(key) implies key.image_id
            != *image_key by {
            let j = index_of_key(cache.entries@, key);
            assert(cache.entries@[j].key.image_id != *image_key);
        }
    }
    None
}

/// Takes out every texture of the document `document_id` and returns them,
/// for the caller to give back to the driver.
pub fn gl_textures_remove_active_pipeline<T>(
    cache: &mut GlTextureCache<T>,
    document_id: &DocumentId,
) -> (removed: Vec<T>)
    requires
        old(cache).wf(),
    ensures
        final(cache).wf(),
        final(cache)@ == old(cache)@.remove_keys(stale_keys(*document_id, None)),
        holds_textures_of(removed@, old(cache)@, stale_keys(*document_id, None)),
{
    cache.remove_stale(*document_id, None)
}

/// Takes out the textures of the document `document_id` that were registered
/// in `epoch` or before it, and returns them, for the caller to give back to
/// the driver. Textures of later epochs and of other documents stay.
pub fn gl_textures_remove_epochs_from_pipeline<T>(
    cache: &mut GlTextureCache<T>,
    document_id: &DocumentId,
    epoch: Epoch,
) -> (removed: Vec<T>)
    requires
        old(cache).wf(),
    ensures
        final(cache).wf(),
        final(cache)@ == old(cache)@.remove_keys(stale_keys(*document_id, Some(epoch))),
        holds_textures_of(removed@, old(cache)@, stale_keys(*document_id, Some(epoch))),
{
    cache.remove_stale(*document_id, Some(epoch))
}

/// Takes out every texture and returns them, for the caller to give back to
/// the driver; usually done before a context goes away.
pub fn gl_textures_clear_opengl_cache<T>(cache: &mut GlTextureCache<T>) -> (removed: Vec<T>)
    requires
        old(cache).wf(),
    ensures
        final(cache).wf(),
        final(cache)@ == Map::<TextureKey, T>::empty(),
        holds_textures_of(removed@, old(cache)@, Set::<TextureKey>::full()),
{
    let ghost orig = cache.entries@;
    let mut removed: Vec<T> = Vec::new();
    while cache.entries.len() > 0
        invariant
            distinct_keys(orig),
            cache.entries@.len() <= orig.len(),
            cache.entries@ == orig.take(cache.entries@.len() as int),
            removed@.len() == orig.len() - cache.entries@.len(),
            forall|j: int|
                0 <= j < removed@.len() ==> #[trigger] removed@[j] == orig[orig.len() - 1
                    - j].texture,
        decreases cache.entries@.len(),
    {
        let ghost at = cache.entries@.len() - 1;
        let entry = cache.entries.pop().unwrap();
        assert(entry == orig[at]);
        removed.push(entry.texture);
    }
    proof {
        let before = entries_map(orig);
        assert(cache.entries@.len() == 0);
        assert(cache@ =~= Map::<TextureKey, T>::empty());
        assert forall|key: TextureKey| before.dom().contains(key) implies removed@.contains(
            #[trigger] before[key],
        ) by {
            let i = index_of_key(orig, key);
            lemma_entry_at(orig, i);
            assert(removed@[orig.len() - 1 - i] == before[key]);
        }
        assert forall|i: int| 0 <= i < removed@.len() implies registers_under(
            before,
            Set::<TextureKey>::full(),
            #[trigger] removed@[i],
        ) by {
            let from = orig.len() - 1 - i;
            lemma_entry_at(orig, from);
            let key = orig[from].key;
            assert(before.dom().contains(key) && Set::<TextureKey>::full().contains(key)
                && before[key] == removed@[i]);
        }
        assert(before == old(cache)@);
        assert(holds_textures_of(removed@, before, Set::<TextureKey>::full()));
    }
    removed
}


/// After a clean-up no stale texture is left, and every texture that was not
/// stale is where it was.
pub proof fn lemma_cleanup_takes_the_stale_only<T>(
    cache: Map<TextureKey, T>,
    document_id: DocumentId,
    bound: Option<Epoch>,
)
    ensures
        ({
            let after = cache.remove_keys(stale_keys(document_id, bound));
            &&& forall|key: TextureKey|
                after.dom().contains(key) ==> !is_stale(document_id, bound, key)
            &&& forall|key: TextureKey|
                cache.dom().contains(key) && !is_stale(document_id, bound, key)
                    ==> after.dom().contains(key) && after[key] == cache[key]
        }),
{
}

/// A clean-up up to an epoch leaves nothing for a clean-up up to an earlier
/// epoch, or up to the same one, to take.
pub proof fn lemma_cleanup_covers_earlier_epochs<T>(
    cache: Map<TextureKey, T>,
    document_id: DocumentId,
    earlier: Epoch,
    later: Epoch,
)
    requires
        earlier.0 <= later.0,
    ensures
        cache.remove_keys(stale_keys(document_id, Some(later))).remove_keys(
            stale_keys(document_id, Some(earlier)),
        ) == cache.remove_keys(stale_keys(document_id, Some(later))),
        cache.remove_keys(stale_keys(document_id, Some(earlier))).remove_keys(
            stale_keys(document_id, Some(later)),
        ) == cache.remove_keys(stale_keys(document_id, Some(later))),
{
    let once = cache.remove_keys(stale_keys(document_id, Some(later)));
    assert(once.remove_keys(stale_keys(document_id, Some(earlier))) =~= once);
    assert(cache.remove_keys(stale_keys(document_id, Some(earlier))).remove_keys(
        stale_keys(document_id, Some(later)),
    ) =~= once);
}

/// Taking a document out leaves nothing for a clean-up of its epochs to take.
pub proof fn lemma_removed_document_has_no_epochs<T>(
    cache: Map<TextureKey, T>,
    document_id: DocumentId,
    epoch: Epoch,
)
    ensures
        cache.remove_keys(stale_keys(document_id, None)).remove_keys(
            stale_keys(document_id, Some(epoch)),
        ) == cache.remove_keys(stale_keys(document_id, None)),
{
    let once = cache.remove_keys(stale_keys(document_id, None));
    assert(once.remove_keys(stale_keys(document_id, Some(epoch))) =~= once);
}

/// A texture registered in an epoch stays through every clean-up up to an
/// earlier epoch and goes with the clean-up up to its own.
pub proof fn lemma_texture_lives_until_its_epoch<T>(
    cache: Map<TextureKey, T>,
    key: TextureKey,
    texture: T,
    bound: Epoch,
)
    ensures
        ({
            let after = cache.insert(key, texture).remove_keys(
                stale_keys(key.document_id, Some(bound)),
            );
            if bound.0 < key.epoch.0 {
                after.dom().contains(key) && after[key] == texture
            } else {
                !after.dom().contains(key)
            }
        }),
{
}

} // verus!
