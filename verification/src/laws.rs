//! What holds across the library's functions, stated over the models their
//! contracts use.
use crate::args::{JavaArgs, JniArg, MethodType};
use crate::cache::refused;
use crate::errors::CallError;
use crate::manifest::{keys_of_kind, lemma_push_no_duplicates, merged, MethodKey};
use jni::objects::GlobalRef;
use vstd::prelude::*;

verus! {

/// The keys of one kind are the keys of the manifest entries of that kind.
pub proof fn lemma_keys_of_kind_are_entries(
    manifest: Seq<(MethodType, MethodKey)>,
    kind: MethodType,
    key: MethodKey,
)
    ensures
        keys_of_kind(manifest, kind).contains(key) <==> manifest.contains((kind, key)),
    decreases manifest.len(),
{
    if manifest.len() > 0 {
        let front = manifest.drop_last();
        let rest = keys_of_kind(front, kind);
        lemma_keys_of_kind_are_entries(front, kind, key);
        if manifest.contains((kind, key)) {
            let i = choose|i: int| 0 <= i < manifest.len() && manifest[i] == (kind, key);
            if i < front.len() {
                assert(front[i] == (kind, key));
                assert(rest.contains(key));
                if manifest.last().0 == kind {
                    let j = choose|j: int| 0 <= j < rest.len() && rest[j] == key;
                    assert(rest.push(manifest.last().1)[j] == key);
                }
            } else {
                assert(rest.push(key)[rest.len() as int] == key);
            }
        }
        if keys_of_kind(manifest, kind).contains(key) {
            let keys = keys_of_kind(manifest, kind);
            let j = choose|j: int| 0 <= j < keys.len() && keys[j] == key;
            if manifest.last().0 == kind && j == rest.len() {
                assert(manifest[manifest.len() - 1] == (kind, key));
            } else {
                assert(rest[j] == key);
                let i = choose|i: int| 0 <= i < front.len() && front[i] == (kind, key);
                assert(manifest[i] == (kind, key));
            }
        }
    }
}

/// Registering keeps every key that the table held and adds every key that
/// was registered.
pub proof fn lemma_merged_holds_both(keys: Seq<MethodKey>, added: Seq<MethodKey>, key: MethodKey)
    ensures
        merged(keys, added).contains(key) <==> keys.contains(key) || added.contains(key),
    decreases added.len(),
{
    if added.len() > 0 {
        let front = added.drop_last();
        let rest = merged(keys, front);
        lemma_merged_holds_both(keys, front, key);
        if added.contains(key) {
            let i = choose|i: int| 0 <= i < added.len() && added[i] == key;
            if i < front.len() {
                assert(front[i] == key);
            }
        }
        if front.contains(key) {
            let i = choose|i: int| 0 <= i < front.len() && front[i] == key;
            assert(added[i] == key);
        }
        if !rest.contains(added.last()) {
            let grown = rest.push(added.last());
            assert(grown[rest.len() as int] == added.last());
            if rest.contains(key) {
                let i = choose|i: int| 0 <= i < rest.len() && rest[i] == key;
                assert(grown[i] == key);
            }
            if grown.contains(key) {
                let i = choose|i: int| 0 <= i < grown.len() && grown[i] == key;
                if i < rest.len() {
                    assert(rest[i] == key);
                } else {
                    assert(added[added.len() - 1] == key);
                }
            }
        } else {
            assert(added[added.len() - 1] == added.last());
        }
    }
}

/// Registering keeps a table free of repeated keys.
pub proof fn lemma_merged_is_duplicate_free(keys: Seq<MethodKey>, added: Seq<MethodKey>)
    requires
        keys.no_duplicates(),
    ensures
        merged(keys, added).no_duplicates(),
    decreases added.len(),
{
    if added.len() > 0 {
        lemma_merged_is_duplicate_free(keys, added.drop_last());
        let rest = merged(keys, added.drop_last());
        if !rest.contains(added.last()) {
            lemma_push_no_duplicates(rest, added.last());
        }
    }
}

/// Every method of the manifest is bound: after the resolution pass the table
/// of its kind holds its key, whatever else the manifest lists, so that a
/// lookup by its class, name and signature finds an entry with that key.
pub proof fn law_every_manifest_entry_is_bound(
    manifest: Seq<(MethodType, MethodKey)>,
    kind: MethodType,
    i: int,
)
    requires
        0 <= i < manifest.len(),
        manifest[i].0 == kind,
    ensures
        merged(Seq::empty(), keys_of_kind(manifest, kind)).contains(manifest[i].1),
        merged(Seq::empty(), keys_of_kind(manifest, kind)).no_duplicates(),
{
    assert(manifest.contains((kind, manifest[i].1)));
    lemma_keys_of_kind_are_entries(manifest, kind, manifest[i].1);
    lemma_merged_holds_both(Seq::empty(), keys_of_kind(manifest, kind), manifest[i].1);
    lemma_merged_is_duplicate_free(Seq::empty(), keys_of_kind(manifest, kind));
}

/// The keys of one kind of a manifest that lists nothing twice are pairwise
/// different.
pub proof fn lemma_keys_of_kind_are_duplicate_free(
    manifest: Seq<(MethodType, MethodKey)>,
    kind: MethodType,
)
    requires
        manifest.no_duplicates(),
    ensures
        keys_of_kind(manifest, kind).no_duplicates(),
    decreases manifest.len(),
{
    if manifest.len() > 0 {
        let front = manifest.drop_last();
        assert(front.no_duplicates());
        lemma_keys_of_kind_are_duplicate_free(front, kind);
        if manifest.last().0 == kind {
            let key = manifest.last().1;
            lemma_keys_of_kind_are_entries(front, kind, key);
            if front.contains((kind, key)) {
                let i = choose|i: int| 0 <= i < front.len() && front[i] == (kind, key);
                assert(manifest[i] == manifest[manifest.len() - 1]);
            }
            lemma_push_no_duplicates(keys_of_kind(front, kind), key);
        }
    }
}

/// Registering keys that are pairwise different in a table that is empty
/// gives exactly those keys, in their order.
pub proof fn lemma_merged_into_empty(added: Seq<MethodKey>)
    requires
        added.no_duplicates(),
    ensures
        merged(Seq::empty(), added) == added,
    decreases added.len(),
{
    if added.len() > 0 {
        let front = added.drop_last();
        assert(front.no_duplicates());
        lemma_merged_into_empty(front);
        if front.contains(added.last()) {
            let i = choose|i: int| 0 <= i < front.len() && front[i] == added.last();
            assert(added[i] == added[added.len() - 1]);
        }
        assert(front.push(added.last()) =~= added);
    } else {
        assert(added =~= Seq::<MethodKey>::empty());
    }
}

/// For a manifest that lists no (kind, class, name, signature) twice, the
/// table of each kind holds after the resolution pass exactly the manifest's
/// entries of that kind, in manifest order: each entry is bound at its own
/// place and is what a lookup by its key returns.
pub proof fn law_built_table_is_the_manifest(
    manifest: Seq<(MethodType, MethodKey)>,
    kind: MethodType,
)
    requires
        manifest.no_duplicates(),
    ensures
        merged(Seq::empty(), keys_of_kind(manifest, kind)) == keys_of_kind(manifest, kind),
        keys_of_kind(manifest, kind).no_duplicates(),
{
    lemma_keys_of_kind_are_duplicate_free(manifest, kind);
    lemma_merged_into_empty(keys_of_kind(manifest, kind));
}

/// An object that was kept under a name is what an argument of that name
/// marshals to, until another object is kept under the same name.
pub proof fn law_kept_object_is_an_argument(
    store: Map<Seq<char>, GlobalRef>,
    id: String,
    object: GlobalRef,
)
    ensures
        JavaArgs::JObject(id).marshalled(store.insert(id@, object)) == Some(
            seq![JniArg::Object(&object)],
        ),
{
}

/// An object argument whose name the handle table does not hold has no
/// argument list, and a call with it is refused, whatever table the method is
/// asked of.
pub proof fn law_unknown_object_is_refused(
    store: Map<Seq<char>, GlobalRef>,
    id: String,
    keys: Seq<MethodKey>,
    key: MethodKey,
)
    requires
        !store.dom().contains(id@),
    ensures
        !JavaArgs::JObject(id).resolves(store),
        JavaArgs::JObject(id).marshalled(store) is None,
        refused(keys, key, JavaArgs::JObject(id), store) is Some,
        keys.contains(key) ==> refused(keys, key, JavaArgs::JObject(id), store) == Some(
            CallError::ArgumentResolutionError,
        ),
{
}

/// A list that names an object that the handle table does not hold has no
/// argument list: it is never shortened around the missing object.
pub proof fn law_unknown_object_in_a_list_is_refused(
    store: Map<Seq<char>, GlobalRef>,
    list: Vec<JavaArgs>,
    i: int,
)
    requires
        0 <= i < list@.len(),
        list@[i] matches JavaArgs::JObject(id) && !store.dom().contains(id@),
    ensures
        !JavaArgs::Array(list).resolves(store),
        JavaArgs::Array(list).marshalled(store) is None,
{
    assert(!list@[i].known(store));
}

} // verus!
