//! The method manifest: the methods the embedder wants bound, as plain names.
use crate::args::MethodType;
use vstd::prelude::*;

verus! {

/// What identifies a method within a table: its declaring class, its name and
/// its signature.
pub struct MethodKey {
    pub class: Seq<char>,
    pub name: Seq<char>,
    pub signature: Seq<char>,
}

/// The keys of the manifest entries of one kind, in manifest order.
pub open spec fn keys_of_kind(entries: Seq<(MethodType, MethodKey)>, kind: MethodType) -> Seq<
    MethodKey,
>
    decreases entries.len(),
{
    if entries.len() == 0 {
        Seq::empty()
    } else {
        let rest = keys_of_kind(entries.drop_last(), kind);
        if entries.last().0 == kind {
            rest.push(entries.last().1)
        } else {
            rest
        }
    }
}

/// A table's keys after `added` has been registered in order: a key that the
/// table already holds is not registered again.
pub open spec fn merged(keys: Seq<MethodKey>, added: Seq<MethodKey>) -> Seq<MethodKey>
    decreases added.len(),
{
    if added.len() == 0 {
        keys
    } else {
        let rest = merged(keys, added.drop_last());
        if rest.contains(added.last()) {
            rest
        } else {
            rest.push(added.last())
        }
    }
}

/// One manifest entry.
#[derive(Debug)]
pub struct MethodItemRef {
    method_type: MethodType,
    class_name: String,
    method_name: String,
    method_signature: String,
}

impl MethodItemRef {
    /// The entry's kind.
    pub closed spec fn kind(&self) -> MethodType {
        self.method_type
    }

    /// The entry's key.
    pub closed spec fn key(&self) -> MethodKey {
        MethodKey {
            class: self.class_name@,
            name: self.method_name@,
            signature: self.method_signature@,
        }
    }

    pub fn new(
        method_type: MethodType,
        class_name: String,
        method_name: String,
        method_signature: String,
    ) -> (r: Self)
        ensures
            r.kind() == method_type,
            r.key() == (MethodKey {
                class: class_name@,
                name: method_name@,
                signature: method_signature@,
            }),
    {
        MethodItemRef { method_type, class_name, method_name, method_signature }
    }

    pub fn method_type(&self) -> (r: MethodType)
        ensures
            r == self.kind(),
    {
        self.method_type
    }

    pub fn class_name(&self) -> (r: &str)
        ensures
            r@ == self.key().class,
    {
        self.class_name.as_str()
    }

    pub fn method_name(&self) -> (r: String)
        ensures
            r@ == self.key().name,
    {
        self.method_name.clone()
    }

    pub fn method_signature(&self) -> (r: String)
        ensures
            r@ == self.key().signature,
    {
        self.method_signature.clone()
    }
}

/// The manifest: entries in the order in which they were added.
#[derive(Debug)]
pub struct JavaMethodsListRefs {
    methods_list: Vec<MethodItemRef>,
}

impl View for JavaMethodsListRefs {
    type V = Seq<(MethodType, MethodKey)>;

    closed spec fn view(&self) -> Seq<(MethodType, MethodKey)> {
        Seq::new(
            self.methods_list@.len(),
            |i: int| (self.methods_list@[i].kind(), self.methods_list@[i].key()),
        )
    }
}

impl JavaMethodsListRefs {
    pub fn new() -> (r: Self)
        ensures
            r@ == Seq::<(MethodType, MethodKey)>::empty(),
    {
        let r = JavaMethodsListRefs { methods_list: Vec::new() };
        assert(r@ =~= Seq::<(MethodType, MethodKey)>::empty());
        r
    }

    /// Appends one entry.
    pub fn add(
        &mut self,
        method_type: MethodType,
        class_name: &str,
        method_name: &str,
        signature: &str,
    )
        ensures
            final(self)@ == old(self)@.push(
                (
                    method_type,
                    MethodKey { class: class_name@, name: method_name@, signature: signature@ },
                ),
            ),
    {
        let new_method = MethodItemRef::new(
            method_type,
            class_name.to_owned(),
            method_name.to_owned(),
            signature.to_owned(),
        );
        self.methods_list.push(new_method);
        assert(self@ =~= old(self)@.push(
            (
                method_type,
                MethodKey { class: class_name@, name: method_name@, signature: signature@ },
            ),
        ));
    }

    /// The number of entries.
    pub fn len(&self) -> (r: usize)
        ensures
            r == self@.len(),
    {
        self.methods_list.len()
    }

    /// The entry at `index`.
    pub fn get(&self, index: usize) -> (r: &MethodItemRef)
        requires
            index < self@.len(),
        ensures
            (r.kind(), r.key()) == self@[index as int],
    {
        &self.methods_list[index]
    }
}

/// A sequence that holds an element holds it in one of its two parts.
pub proof fn lemma_contains_concat<A>(a: Seq<A>, b: Seq<A>, x: A)
    ensures
        (a + b).contains(x) <==> a.contains(x) || b.contains(x),
{
    if (a + b).contains(x) {
        let i = choose|i: int| 0 <= i < (a + b).len() && (a + b)[i] == x;
        if i < a.len() {
            assert(a[i] == x);
        } else {
            assert(b[i - a.len()] == x);
        }
    }
    if a.contains(x) {
        let i = choose|i: int| 0 <= i < a.len() && a[i] == x;
        assert((a + b)[i] == x);
    }
    if b.contains(x) {
        let i = choose|i: int| 0 <= i < b.len() && b[i] == x;
        assert((a + b)[a.len() + i] == x);
    }
}

/// Appending an element that a duplicate-free sequence does not hold keeps it
/// duplicate-free.
pub proof fn lemma_push_no_duplicates<A>(s: Seq<A>, x: A)
    requires
        s.no_duplicates(),
        !s.contains(x),
    ensures
        s.push(x).no_duplicates(),
{
    assert forall|i: int, j: int|
        0 <= i < s.push(x).len() && 0 <= j < s.push(x).len() && i != j implies s.push(x)[i]
        != s.push(x)[j] by {
        if i < s.len() && j < s.len() {
        } else if i < s.len() {
            assert(s[i] != x);
        } else {
            assert(s[j] != x);
        }
    }
}

/// The keys of one kind, taken over one more entry of the manifest.
pub proof fn lemma_keys_of_kind_step(
    entries: Seq<(MethodType, MethodKey)>,
    i: int,
    kind: MethodType,
)
    requires
        0 <= i < entries.len(),
    ensures
        keys_of_kind(entries.take(i + 1), kind) == if entries[i].0 == kind {
            keys_of_kind(entries.take(i), kind).push(entries[i].1)
        } else {
            keys_of_kind(entries.take(i), kind)
        },
{
    assert(entries.take(i + 1).drop_last() =~= entries.take(i));
    assert(entries.take(i + 1).last() == entries[i]);
}

/// Registering one more key: it is appended unless the table holds it.
pub proof fn lemma_merged_step(keys: Seq<MethodKey>, added: Seq<MethodKey>, key: MethodKey)
    ensures
        merged(keys, added.push(key)) == if merged(keys, added).contains(key) {
            merged(keys, added)
        } else {
            merged(keys, added).push(key)
        },
{
    assert(added.push(key).drop_last() =~= added);
    assert(added.push(key).last() == key);
}

} // verus!
