//! The classes whose instances are unpacked into native values: first their
//! names, as the embedder lists them, then the class objects the VM found for
//! them.
use crate::refs::ClassRef;
use jni::objects::GlobalRef;
use jni::JNIEnv;
use vstd::prelude::*;

verus! {

/// The names of the classes to unpack, in priority order.
pub struct StandardClassPreList {
    pub list: Vec<String>,
}

impl StandardClassPreList {
    /// The names, in order.
    pub open spec fn names(&self) -> Seq<Seq<char>> {
        Seq::new(self.list@.len(), |i: int| self.list@[i]@)
    }

    pub fn new() -> (r: Self)
        ensures
            r.names() == Seq::<Seq<char>>::empty(),
    {
        let r = StandardClassPreList { list: Vec::new() };
        assert(r.names() =~= Seq::<Seq<char>>::empty());
        r
    }

    /// Appends a name; it ranks after those already listed.
    pub fn add_standard_class_name(&mut self, class_name: &str)
        ensures
            final(self).names() == old(self).names().push(class_name@),
    {
        self.list.push(class_name.to_owned());
        assert(self.names() =~= old(self).names().push(class_name@));
    }
}

/// A class to unpack, with the class object the VM found for its name.
pub struct StandardClass {
    class_name: String,
    class: ClassRef,
}

impl StandardClass {
    /// The name the class was found under.
    pub closed spec fn name(&self) -> Seq<char> {
        self.class_name@
    }

    /// The class object.
    pub closed spec fn class_ref(&self) -> GlobalRef {
        self.class.global()
    }

    /// The class that the VM finds under `class_name`; `None` where it finds
    /// none.
    pub fn new<'local>(env: &mut JNIEnv<'local>, class_name: &str) -> (r: Option<Self>)
        ensures
            r matches Some(class) ==> class.name() == class_name@,
    {
        match ClassRef::find(env, class_name) {
            Some(class) => Some(StandardClass { class_name: class_name.to_owned(), class }),
            None => None,
        }
    }

    pub fn class(&self) -> (r: &GlobalRef)
        ensures
            *r == self.class_ref(),
    {
        self.class.as_global()
    }

    pub fn class_name(&self) -> (r: &str)
        ensures
            r@ == self.name(),
    {
        self.class_name.as_str()
    }

    pub fn get_class_ref(&self) -> (r: (&str, &GlobalRef))
        ensures
            r.0@ == self.name(),
            *r.1 == self.class_ref(),
    {
        (self.class_name.as_str(), self.class.as_global())
    }

    /// The class object, as a reference that is known to be one.
    pub fn class_object(&self) -> (r: &ClassRef)
        ensures
            r.global() == self.class_ref(),
    {
        &self.class
    }
}

/// The elements of `names` at the positions where `found` is true, in order.
pub open spec fn selected(names: Seq<Seq<char>>, found: Seq<bool>) -> Seq<Seq<char>>
    decreases names.len(),
{
    if names.len() == 0 || found.len() != names.len() {
        Seq::empty()
    } else {
        let rest = selected(names.drop_last(), found.drop_last());
        if found.last() {
            rest.push(names.last())
        } else {
            rest
        }
    }
}

/// The classes to unpack, in priority order.
pub struct StandardClassCache {
    inner: Vec<StandardClass>,
}

impl View for StandardClassCache {
    type V = Seq<StandardClass>;

    /// The classes, in order.
    closed spec fn view(&self) -> Seq<StandardClass> {
        self.inner@
    }
}

impl StandardClassCache {
    /// The names of the classes, in order.
    pub open spec fn names(&self) -> Seq<Seq<char>> {
        Seq::new(self@.len(), |i: int| self@[i].name())
    }

    pub fn new() -> (r: Self)
        ensures
            r@ == Seq::<StandardClass>::empty(),
    {
        StandardClassCache { inner: Vec::new() }
    }

    /// The classes, in order.
    pub fn classes(&self) -> (r: &Vec<StandardClass>)
        ensures
            r@ == self@,
    {
        &self.inner
    }

    /// The number of classes.
    pub fn len(&self) -> (r: usize)
        ensures
            r == self@.len(),
    {
        self.inner.len()
    }

    /// The class at `index`.
    pub fn get(&self, index: usize) -> (r: &StandardClass)
        requires
            index < self@.len(),
        ensures
            *r == self@[index as int],
    {
        &self.inner[index]
    }

    /// Looks every listed name up in the VM and appends the classes that the
    /// VM finds, in list order; a name the VM does not find is passed over.
    /// The result tells, for each listed name, whether it was found.
    pub fn build_standard_class_list<'local>(
        &mut self,
        env: &mut JNIEnv<'local>,
        standard_class_pre_list: &StandardClassPreList,
    ) -> (found: Vec<bool>)
        ensures
            found@.len() == standard_class_pre_list.names().len(),
            final(self).names() == old(self).names() + selected(
                standard_class_pre_list.names(),
                found@,
            ),
            final(self)@.take(old(self)@.len() as int) == old(self)@,
    {
        let mut found: Vec<bool> = Vec::new();
        let mut i: usize = 0;
        let n: usize = standard_class_pre_list.list.len();
        while i < n
            invariant
                i <= n,
                n == standard_class_pre_list.list@.len(),
                found@.len() == i,
                self.names() == old(self).names() + selected(
                    standard_class_pre_list.names().take(i as int),
                    found@,
                ),
                old(self)@.len() <= self@.len(),
                self@.take(old(self)@.len() as int) == old(self)@,
            decreases n - i,
        {
            let class_name: &str = standard_class_pre_list.list[i].as_str();
            let ghost names_before = self.names();
            let ghost found_before = found@;
            let ghost inner_before = self@;
            let hit: bool = match self.lookup(env, class_name) {
                Some(class) => {
                    self.inner.push(class);
                    true
                },
                None => false,
            };
            found.push(hit);
            proof {
                let listed = standard_class_pre_list.names();
                assert(listed.take(i + 1).drop_last() =~= listed.take(i as int));
                assert(found@.drop_last() =~= found_before);
                assert(listed.take(i + 1).last() == class_name@);
                if hit {
                    assert(self.names() =~= names_before.push(class_name@));
                    assert(self@.take(old(self)@.len() as int) =~= inner_before.take(
                        old(self)@.len() as int,
                    ));
                } else {
                    assert(self.names() =~= names_before);
                }
                assert(self.names() =~= old(self).names() + selected(listed.take(i + 1), found@));
            }
            i = i + 1;
        }
        proof {
            let listed = standard_class_pre_list.names();
            assert(listed.take(i as int) =~= listed);
        }
        found
    }

    fn lookup<'local>(&self, env: &mut JNIEnv<'local>, class_name: &str) -> (r: Option<
        StandardClass,
    >)
        ensures
            r matches Some(class) ==> class.name() == class_name@,
    {
        StandardClass::new(env, class_name)
    }
}

} // verus!
