//! The method tables: one for instance methods, one for static methods. Each
//! entry holds the names a method is looked up by and the handles the VM bound
//! to them. The tables are filled once, from the manifest, through the class
//! loader.
use crate::args::MethodType;
use crate::manifest::{
    keys_of_kind, lemma_contains_concat, lemma_keys_of_kind_step, lemma_merged_step,
    lemma_push_no_duplicates, merged, JavaMethodsListRefs, MethodKey,
};
use crate::text::same_text;
use crate::refs::{owned, ClassRef};
use crate::vm::{
    vm_call_object_method, vm_clear_exception, vm_get_method_id, vm_get_static_method_id,
};
use jni::objects::{GlobalRef, JMethodID, JStaticMethodID};
use jni::JNIEnv;
use vstd::prelude::*;

verus! {

/// The step of the resolution pass at which an entry failed.
#[derive(Clone, Copy, Debug, PartialEq, Eq, Structural)]
pub enum ResolutionStage {
    /// No hosting activity was given.
    Activity,
    /// The class loader of the hosting activity could not be had.
    ClassLoader,
    /// The class loader did not load the declaring class.
    Class,
    /// The class has no method of that name and signature.
    Method,
}

/// A manifest entry that the VM did not resolve. The cache is unusable.
#[derive(Clone, Copy, Debug, PartialEq, Eq, Structural)]
pub struct ResolutionError {
    /// The position of the entry in the manifest.
    pub entry: usize,
    /// Where it failed.
    pub stage: ResolutionStage,
}

/// The class loader bridge: classes are loaded through the loader of the
/// hosting activity, so that resolution does not depend on the thread it runs
/// on.
pub struct NativeClassFinder {
    class_loader: GlobalRef,
}

impl NativeClassFinder {
    pub fn new(class_loader: GlobalRef) -> (r: Self)
        ensures
            r.class_loader() == class_loader,
    {
        NativeClassFinder { class_loader }
    }

    /// The loader that classes are asked of.
    pub closed spec fn class_loader(&self) -> GlobalRef {
        self.class_loader
    }

    /// Loads the class of that name through the loader. `None` where the VM
    /// refuses any step; no exception is left pending.
    pub fn load_class<'local>(&self, env: &mut JNIEnv<'local>, class_name: &str) -> (r: Option<
        ClassRef,
    >) {
        ClassRef::load(env, &self.class_loader, class_name)
    }
}

/// Asks the hosting activity for its class loader. An activity that has
/// none, or whose loader the VM does not hand over, is an error.
pub fn native_class_loader_construction<'local>(
    env: &mut JNIEnv<'local>,
    activity: &GlobalRef,
) -> (r: Result<NativeClassFinder, ResolutionError>)
    ensures
        r matches Err(e) ==> e.stage == ResolutionStage::ClassLoader && e.entry == 0,
{
    proof {
        reveal_strlit("()Ljava/lang/ClassLoader;");
    }
    let asked = vm_call_object_method(
        env,
        activity,
        "getClassLoader",
        "()Ljava/lang/ClassLoader;",
        None,
    );
    let loader = match asked {
        Ok(local) => owned(env, local),
        Err(_) => {
            vm_clear_exception(env);
            None
        },
    };
    match loader {
        Some(class_loader) => Ok(NativeClassFinder::new(class_loader)),
        None => Err(ResolutionError { entry: 0, stage: ResolutionStage::ClassLoader }),
    }
}

/// A bound instance method.
pub struct JavaMethod {
    instance_ref: ClassRef,
    method_class: String,
    method_name: String,
    method_signature: String,
    method_id: JMethodID,
}

impl JavaMethod {
    /// The names the method is looked up by.
    pub closed spec fn key(&self) -> MethodKey {
        MethodKey {
            class: self.method_class@,
            name: self.method_name@,
            signature: self.method_signature@,
        }
    }

    /// The class object the method was bound in.
    pub closed spec fn class_ref(&self) -> GlobalRef {
        self.instance_ref.global()
    }

    /// The identifier the VM bound.
    pub closed spec fn bound_id(&self) -> JMethodID {
        self.method_id
    }

    pub fn instance_ref(&self) -> (r: &GlobalRef)
        ensures
            *r == self.class_ref(),
    {
        self.instance_ref.as_global()
    }

    pub fn method_id(&self) -> (r: &JMethodID)
        ensures
            *r == self.bound_id(),
    {
        &self.method_id
    }

    pub fn method_class(&self) -> (r: &str)
        ensures
            r@ == self.key().class,
    {
        self.method_class.as_str()
    }

    pub fn method_name(&self) -> (r: &str)
        ensures
            r@ == self.key().name,
    {
        self.method_name.as_str()
    }

    pub fn method_signature(&self) -> (r: &str)
        ensures
            r@ == self.key().signature,
    {
        self.method_signature.as_str()
    }

    pub fn new(
        class_instance: ClassRef,
        method_class: &str,
        method_name: &str,
        signature: &str,
        method_id: JMethodID,
    ) -> (r: JavaMethod)
        ensures
            r.key() == (MethodKey {
                class: method_class@,
                name: method_name@,
                signature: signature@,
            }),
            r.class_ref() == class_instance.global(),
            r.bound_id() == method_id,
    {
        JavaMethod {
            instance_ref: class_instance,
            method_class: method_class.to_owned(),
            method_name: method_name.to_owned(),
            method_signature: signature.to_owned(),
            method_id,
        }
    }

    fn is(&self, class: &str, name: &str, sig: &str) -> (r: bool)
        ensures
            r == (self.key() == MethodKey { class: class@, name: name@, signature: sig@ }),
    {
        same_text(self.method_class.as_str(), class) && same_text(self.method_name.as_str(), name)
            && same_text(self.method_signature.as_str(), sig)
    }
}

/// The keys of a list of bound instance methods, in order.
pub open spec fn method_keys(list: Seq<JavaMethod>) -> Seq<MethodKey> {
    Seq::new(list.len(), |i: int| list[i].key())
}

fn position_of_method(list: &Vec<JavaMethod>, class: &str, name: &str, sig: &str) -> (r: Option<
    usize,
>)
    ensures
        match r {
            Some(i) => i < list@.len() && list@[i as int].key() == (MethodKey {
                class: class@,
                name: name@,
                signature: sig@,
            }) && forall|j: int| 0 <= j < i ==> list@[j].key() != list@[i as int].key(),
            None => !method_keys(list@).contains(
                MethodKey { class: class@, name: name@, signature: sig@ },
            ),
        },
{
    let mut i: usize = 0;
    while i < list.len()
        invariant
            i <= list@.len(),
            forall|j: int|
                0 <= j < i ==> list@[j].key() != (MethodKey {
                    class: class@,
                    name: name@,
                    signature: sig@,
                }),
        decreases list@.len() - i,
    {
        if list[i].is(class, name, sig) {
            return Some(i);
        }
        i = i + 1;
    }
    proof {
        let keys = method_keys(list@);
        assert forall|k: int| 0 <= k < keys.len() implies keys[k] != (MethodKey {
            class: class@,
            name: name@,
            signature: sig@,
        }) by {
            assert(keys[k] == list@[k].key());
        }
    }
    None
}

/// The table of instance methods. No key occurs twice.
pub struct JavaMethodsList {
    methods_list: Vec<JavaMethod>,
}

impl View for JavaMethodsList {
    type V = Seq<JavaMethod>;

    /// The entries in the order in which they were bound.
    closed spec fn view(&self) -> Seq<JavaMethod> {
        self.methods_list@
    }
}

impl JavaMethodsList {
    /// The keys of the entries, in order.
    pub open spec fn keys(&self) -> Seq<MethodKey> {
        method_keys(self@)
    }

    /// Well-formedness: no key occurs twice.
    pub open spec fn wf(&self) -> bool {
        self.keys().no_duplicates()
    }

    pub fn new() -> (r: Self)
        ensures
            r@ == Seq::<JavaMethod>::empty(),
            r.wf(),
    {
        JavaMethodsList { methods_list: Vec::new() }
    }

    pub fn methods_list(&self) -> (r: &Vec<JavaMethod>)
        ensures
            r@ == self@,
    {
        &self.methods_list
    }

    /// The entry bound for that class, name and signature, if there is one.
    pub fn find(&self, class: &str, name: &str, sig: &str) -> (r: Option<&JavaMethod>)
        ensures
            r is Some <==> self.keys().contains(
                MethodKey { class: class@, name: name@, signature: sig@ },
            ),
            r matches Some(m) ==> self@.contains(*m) && m.key() == (MethodKey {
                class: class@,
                name: name@,
                signature: sig@,
            }),
    {
        match position_of_method(&self.methods_list, class, name, sig) {
            Some(i) => {
                proof {
                    assert(self.keys()[i as int] == self@[i as int].key());
                    assert(self@[i as int] == self.methods_list@[i as int]);
                }
                Some(&self.methods_list[i])
            },
            None => None,
        }
    }

    /// Binds every instance method of the manifest that the table does not
    /// hold yet: loads its class through the class loader and asks the VM for
    /// the method's identifier. Either every such entry is bound, or the table
    /// is left as it was and the error names an entry that the VM did not
    /// resolve.
    pub fn build_list_with_ref<'local>(
        &mut self,
        env: &mut JNIEnv<'local>,
        list_refs: &JavaMethodsListRefs,
        native_class_finder: &NativeClassFinder,
    ) -> (r: Result<(), ResolutionError>)
        requires
            old(self).wf(),
        ensures
            final(self).wf(),
            r is Ok ==> final(self).keys() == merged(
                old(self).keys(),
                keys_of_kind(list_refs@, MethodType::NonStatic),
            ),
            r is Ok ==> final(self)@.take(old(self)@.len() as int) == old(self)@,
            r matches Err(e) ==> final(self)@ == old(self)@ && e.entry < list_refs@.len()
                && list_refs@[e.entry as int].0 == MethodType::NonStatic && (e.stage
                == ResolutionStage::Class || e.stage == ResolutionStage::Method),
            r matches Err(e) ==> !old(self).keys().contains(list_refs@[e.entry as int].1),
    {
        let mut fresh: Vec<JavaMethod> = Vec::new();
        let mut i: usize = 0;
        let n: usize = list_refs.len();
        while i < n
            invariant
                i <= n,
                n == list_refs@.len(),
                self@ == old(self)@,
                self.wf(),
                (self.keys() + method_keys(fresh@)).no_duplicates(),
                self.keys() + method_keys(fresh@) == merged(
                    self.keys(),
                    keys_of_kind(list_refs@.take(i as int), MethodType::NonStatic),
                ),
            decreases n - i,
        {
            let method_ref = list_refs.get(i);
            let ghost added = keys_of_kind(list_refs@.take(i as int), MethodType::NonStatic);
            proof {
                lemma_keys_of_kind_step(list_refs@, i as int, MethodType::NonStatic);
            }
            if let MethodType::NonStatic = method_ref.method_type() {
                let method_name = method_ref.method_name();
                let method_signature = method_ref.method_signature();
                let in_table = position_of_method(
                    &self.methods_list,
                    method_ref.class_name(),
                    method_name.as_str(),
                    method_signature.as_str(),
                );
                let in_fresh = position_of_method(
                    &fresh,
                    method_ref.class_name(),
                    method_name.as_str(),
                    method_signature.as_str(),
                );
                let known = in_table.is_some() || in_fresh.is_some();
                proof {
                    lemma_contains_concat(self.keys(), method_keys(fresh@), method_ref.key());
                    if let Some(k) = in_table {
                        assert(self.keys()[k as int] == method_ref.key());
                    }
                    if let Some(k) = in_fresh {
                        assert(method_keys(fresh@)[k as int] == method_ref.key());
                    }
                    lemma_merged_step(self.keys(), added, method_ref.key());
                }
                if !known {
                    let instance_ref = match native_class_finder.load_class(
                        env,
                        method_ref.class_name(),
                    ) {
                        Some(c) => c,
                        None => {
                            return Err(ResolutionError { entry: i, stage: ResolutionStage::Class });
                        },
                    };
                    let method_id = match vm_get_method_id(
                        env,
                        &instance_ref,
                        method_name.as_str(),
                        method_signature.as_str(),
                    ) {
                        Ok(id) => id,
                        Err(_) => {
                            vm_clear_exception(env);
                            return Err(
                                ResolutionError { entry: i, stage: ResolutionStage::Method },
                            );
                        },
                    };
                    let new_method = JavaMethod::new(
                        instance_ref,
                        method_ref.class_name(),
                        method_name.as_str(),
                        method_signature.as_str(),
                        method_id,
                    );
                    let ghost before = method_keys(fresh@);
                    fresh.push(new_method);
                    proof {
                        assert(method_keys(fresh@) =~= before.push(method_ref.key()));
                        assert(self.keys() + method_keys(fresh@) =~= (self.keys() + before).push(
                            method_ref.key(),
                        ));
                        lemma_push_no_duplicates(self.keys() + before, method_ref.key());
                    }
                }
            }
            i = i + 1;
        }
        proof {
            assert(list_refs@.take(i as int) =~= list_refs@);
        }
        let ghost fresh_keys = method_keys(fresh@);
        let ghost fresh_entries = fresh@;
        self.methods_list.append(&mut fresh);
        proof {
            assert(self@ =~= old(self)@ + fresh_entries);
            assert(self.keys() =~= old(self).keys() + fresh_keys);
            assert(self@.take(old(self)@.len() as int) =~= old(self)@);
        }
        Ok(())
    }
}

/// A bound static method.
pub struct JavaStaticMethod {
    instance_ref: ClassRef,
    method_class: String,
    method_name: String,
    method_signature: String,
    method_id: JStaticMethodID,
}

impl JavaStaticMethod {
    /// The names the method is looked up by.
    pub closed spec fn key(&self) -> MethodKey {
        MethodKey {
            class: self.method_class@,
            name: self.method_name@,
            signature: self.method_signature@,
        }
    }

    /// The class object the method was bound in.
    pub closed spec fn class_ref(&self) -> GlobalRef {
        self.instance_ref.global()
    }

    /// The identifier the VM bound.
    pub closed spec fn bound_id(&self) -> JStaticMethodID {
        self.method_id
    }

    pub fn instance_ref(&self) -> (r: &GlobalRef)
        ensures
            *r == self.class_ref(),
    {
        self.instance_ref.as_global()
    }

    pub fn method_id(&self) -> (r: &JStaticMethodID)
        ensures
            *r == self.bound_id(),
    {
        &self.method_id
    }

    pub fn method_class(&self) -> (r: &str)
        ensures
            r@ == self.key().class,
    {
        self.method_class.as_str()
    }

    pub fn method_name(&self) -> (r: &str)
        ensures
            r@ == self.key().name,
    {
        self.method_name.as_str()
    }

    pub fn method_signature(&self) -> (r: &str)
        ensures
            r@ == self.key().signature,
    {
        self.method_signature.as_str()
    }

    pub fn new(
        class_instance: ClassRef,
        method_class: &str,
        method_name: &str,
        signature: &str,
        method_id: JStaticMethodID,
    ) -> (r: JavaStaticMethod)
        ensures
            r.key() == (MethodKey {
                class: method_class@,
                name: method_name@,
                signature: signature@,
            }),
            r.class_ref() == class_instance.global(),
            r.bound_id() == method_id,
    {
        JavaStaticMethod {
            instance_ref: class_instance,
            method_class: method_class.to_owned(),
            method_name: method_name.to_owned(),
            method_signature: signature.to_owned(),
            method_id,
        }
    }

    fn is(&self, class: &str, name: &str, sig: &str) -> (r: bool)
        ensures
            r == (self.key() == MethodKey { class: class@, name: name@, signature: sig@ }),
    {
        same_text(self.method_class.as_str(), class) && same_text(self.method_name.as_str(), name)
            && same_text(self.method_signature.as_str(), sig)
    }
}

/// The keys of a list of bound static methods, in order.
pub open spec fn static_method_keys(list: Seq<JavaStaticMethod>) -> Seq<MethodKey> {
    Seq::new(list.len(), |i: int| list[i].key())
}

fn position_of_static_method(list: &Vec<JavaStaticMethod>, class: &str, name: &str, sig: &str) -> (r: Option<
    usize,
>)
    ensures
        match r {
            Some(i) => i < list@.len() && list@[i as int].key() == (MethodKey {
                class: class@,
                name: name@,
                signature: sig@,
            }) && forall|j: int| 0 <= j < i ==> list@[j].key() != list@[i as int].key(),
            None => !static_method_keys(list@).contains(
                MethodKey { class: class@, name: name@, signature: sig@ },
            ),
        },
{
    let mut i: usize = 0;
    while i < list.len()
        invariant
            i <= list@.len(),
            forall|j: int|
                0 <= j < i ==> list@[j].key() != (MethodKey {
                    class: class@,
                    name: name@,
                    signature: sig@,
                }),
        decreases list@.len() - i,
    {
        if list[i].is(class, name, sig) {
            return Some(i);
        }
        i = i + 1;
    }
    proof {
        let keys = static_method_keys(list@);
        assert forall|k: int| 0 <= k < keys.len() implies keys[k] != (MethodKey {
            class: class@,
            name: name@,
            signature: sig@,
        }) by {
            assert(keys[k] == list@[k].key());
        }
    }
    None
}

/// The table of static methods. No key occurs twice.
pub struct JavaStaticMethodsList {
    methods_list: Vec<JavaStaticMethod>,
}

impl View for JavaStaticMethodsList {
    type V = Seq<JavaStaticMethod>;

    /// The entries in the order in which they were bound.
    closed spec fn view(&self) -> Seq<JavaStaticMethod> {
        self.methods_list@
    }
}

impl JavaStaticMethodsList {
    /// The keys of the entries, in order.
    pub open spec fn keys(&self) -> Seq<MethodKey> {
        static_method_keys(self@)
    }

    /// Well-formedness: no key occurs twice.
    pub open spec fn wf(&self) -> bool {
        self.keys().no_duplicates()
    }

    pub fn new() -> (r: Self)
        ensures
            r@ == Seq::<JavaStaticMethod>::empty(),
            r.wf(),
    {
        JavaStaticMethodsList { methods_list: Vec::new() }
    }

    pub fn methods_list(&self) -> (r: &Vec<JavaStaticMethod>)
        ensures
            r@ == self@,
    {
        &self.methods_list
    }

    /// The entry bound for that class, name and signature, if there is one.
    pub fn find(&self, class: &str, name: &str, sig: &str) -> (r: Option<&JavaStaticMethod>)
        ensures
            r is Some <==> self.keys().contains(
                MethodKey { class: class@, name: name@, signature: sig@ },
            ),
            r matches Some(m) ==> self@.contains(*m) && m.key() == (MethodKey {
                class: class@,
                name: name@,
                signature: sig@,
            }),
    {
        match position_of_static_method(&self.methods_list, class, name, sig) {
            Some(i) => {
                proof {
                    assert(self.keys()[i as int] == self@[i as int].key());
                    assert(self@[i as int] == self.methods_list@[i as int]);
                }
                Some(&self.methods_list[i])
            },
            None => None,
        }
    }

    /// Binds every static method of the manifest that the table does not
    /// hold yet: loads its class through the class loader and asks the VM for
    /// the method's identifier. Either every such entry is bound, or the table
    /// is left as it was and the error names an entry that the VM did not
    /// resolve.
    pub fn build_list_with_ref<'local>(
        &mut self,
        env: &mut JNIEnv<'local>,
        list_refs: &JavaMethodsListRefs,
        native_class_finder: &NativeClassFinder,
    ) -> (r: Result<(), ResolutionError>)
        requires
            old(self).wf(),
        ensures
            final(self).wf(),
            r is Ok ==> final(self).keys() == merged(
                old(self).keys(),
                keys_of_kind(list_refs@, MethodType::Static),
            ),
            r is Ok ==> final(self)@.take(old(self)@.len() as int) == old(self)@,
            r matches Err(e) ==> final(self)@ == old(self)@ && e.entry < list_refs@.len()
                && list_refs@[e.entry as int].0 == MethodType::Static && (e.stage
                == ResolutionStage::Class || e.stage == ResolutionStage::Method),
            r matches Err(e) ==> !old(self).keys().contains(list_refs@[e.entry as int].1),
    {
        let mut fresh: Vec<JavaStaticMethod> = Vec::new();
        let mut i: usize = 0;
        let n: usize = list_refs.len();
        while i < n
            invariant
                i <= n,
                n == list_refs@.len(),
                self@ == old(self)@,
                self.wf(),
                (self.keys() + static_method_keys(fresh@)).no_duplicates(),
                self.keys() + static_method_keys(fresh@) == merged(
                    self.keys(),
                    keys_of_kind(list_refs@.take(i as int), MethodType::Static),
                ),
            decreases n - i,
        {
            let method_ref = list_refs.get(i);
            let ghost added = keys_of_kind(list_refs@.take(i as int), MethodType::Static);
            proof {
                lemma_keys_of_kind_step(list_refs@, i as int, MethodType::Static);
            }
            if let MethodType::Static = method_ref.method_type() {
                let method_name = method_ref.method_name();
                let method_signature = method_ref.method_signature();
                let in_table = position_of_static_method(
                    &self.methods_list,
                    method_ref.class_name(),
                    method_name.as_str(),
                    method_signature.as_str(),
                );
                let in_fresh = position_of_static_method(
                    &fresh,
                    method_ref.class_name(),
                    method_name.as_str(),
                    method_signature.as_str(),
                );
                let known = in_table.is_some() || in_fresh.is_some();
                proof {
                    lemma_contains_concat(self.keys(), static_method_keys(fresh@), method_ref.key());
                    if let Some(k) = in_table {
                        assert(self.keys()[k as int] == method_ref.key());
                    }
                    if let Some(k) = in_fresh {
                        assert(static_method_keys(fresh@)[k as int] == method_ref.key());
                    }
                    lemma_merged_step(self.keys(), added, method_ref.key());
                }
                if !known {
                    let instance_ref = match native_class_finder.load_class(
                        env,
                        method_ref.class_name(),
                    ) {
                        Some(c) => c,
                        None => {
                            return Err(ResolutionError { entry: i, stage: ResolutionStage::Class });
                        },
                    };
                    let method_id = match vm_get_static_method_id(
                        env,
                        &instance_ref,
                        method_name.as_str(),
                        method_signature.as_str(),
                    ) {
                        Ok(id) => id,
                        Err(_) => {
                            vm_clear_exception(env);
                            return Err(
                                ResolutionError { entry: i, stage: ResolutionStage::Method },
                            );
                        },
                    };
                    let new_method = JavaStaticMethod::new(
                        instance_ref,
                        method_ref.class_name(),
                        method_name.as_str(),
                        method_signature.as_str(),
                        method_id,
                    );
                    let ghost before = static_method_keys(fresh@);
                    fresh.push(new_method);
                    proof {
                        assert(static_method_keys(fresh@) =~= before.push(method_ref.key()));
                        assert(self.keys() + static_method_keys(fresh@) =~= (self.keys() + before).push(
                            method_ref.key(),
                        ));
                        lemma_push_no_duplicates(self.keys() + before, method_ref.key());
                    }
                }
            }
            i = i + 1;
        }
        proof {
            assert(list_refs@.take(i as int) =~= list_refs@);
        }
        let ghost fresh_keys = static_method_keys(fresh@);
        let ghost fresh_entries = fresh@;
        self.methods_list.append(&mut fresh);
        proof {
            assert(self@ =~= old(self)@ + fresh_entries);
            assert(self.keys() =~= old(self).keys() + fresh_keys);
            assert(self@.take(old(self)@.len() as int) =~= old(self)@);
        }
        Ok(())
    }
}

} // verus!
