//! The method cache: the two method tables, the classes to unpack and the
//! object handle table, set up once and then used for every call.
use crate::args::{JavaArgs, JniArg, MethodType};
use crate::errors::CallError;
use crate::manifest::{keys_of_kind, merged, JavaMethodsListRefs, MethodKey};
use crate::methods::{
    native_class_loader_construction, JavaMethod, JavaMethodsList, JavaStaticMethod,
    JavaStaticMethodsList, NativeClassFinder, ResolutionError, ResolutionStage,
};
use crate::standard_class::{selected, StandardClassCache, StandardClassPreList};
use crate::store::JObjectStore;
use crate::value::ReturnedValue;
use crate::vm::vm_clear_exception;
use jni::errors::Error;
use jni::objects::{GlobalRef, JObject, JValueGen};
use jni::signature::ReturnType;
use jni::JNIEnv;
use vstd::prelude::*;

verus! {

/// A static call that is ready to be made: the bound method, the arguments as
/// the VM takes them, and the kind of value to expect.
pub struct StaticCall<'a> {
    pub method: &'a JavaStaticMethod,
    pub args: Vec<JniArg<'a>>,
    pub return_type: ReturnType,
}

/// An instance call that is ready to be made.
pub struct InstanceCall<'a> {
    pub method: &'a JavaMethod,
    pub args: Vec<JniArg<'a>>,
    pub return_type: ReturnType,
}

/// The arguments that are passed for `args` whose names resolve: their
/// argument list, and nothing where they have none.
pub open spec fn passed<'a>(args: JavaArgs, store: Map<Seq<char>, GlobalRef>) -> Seq<JniArg<'a>> {
    match args.marshalled(store) {
        Some(list) => list,
        None => Seq::empty(),
    }
}

/// Why a call of the method `key` with `args` is not made, if it is not:
/// `LookupError` where the table does not hold the method,
/// `ArgumentResolutionError` where it does and an argument names an object
/// that the handle table does not hold.
pub open spec fn refused(
    keys: Seq<MethodKey>,
    key: MethodKey,
    args: JavaArgs,
    store: Map<Seq<char>, GlobalRef>,
) -> Option<CallError> {
    if !keys.contains(key) {
        Some(CallError::LookupError)
    } else if !args.resolves(store) {
        Some(CallError::ArgumentResolutionError)
    } else {
        None
    }
}

fn marshal<'a>(args: &JavaArgs, store: &'a JObjectStore) -> (r: Result<
    Vec<JniArg<'a>>,
    CallError,
>)
    requires
        store.wf(),
    ensures
        r is Ok <==> args.resolves(store@),
        r matches Ok(list) ==> list@ == passed(*args, store@),
        r matches Err(e) ==> e == CallError::ArgumentResolutionError,
{
    if !args.names_resolve(store) {
        return Err(CallError::ArgumentResolutionError);
    }
    match args.to_jvalue(store) {
        Some(list) => Ok(list),
        None => Ok(Vec::new()),
    }
}

/// The cache.
pub struct JavaMethodCache {
    instanciate_jobjects: JObjectStore,
    native_class_finder: NativeClassFinder,
    standard_class_pre_list: StandardClassPreList,
    standard_class_cache: StandardClassCache,
    java_methods_list_ref: JavaMethodsListRefs,
    static_method_list: JavaStaticMethodsList,
    method_list: JavaMethodsList,
    cache_builded: bool,
}

impl JavaMethodCache {
    /// The object handle table.
    pub closed spec fn store(&self) -> JObjectStore {
        self.instanciate_jobjects
    }

    /// The table of static methods.
    pub closed spec fn statics(&self) -> JavaStaticMethodsList {
        self.static_method_list
    }

    /// The table of instance methods.
    pub closed spec fn instances(&self) -> JavaMethodsList {
        self.method_list
    }

    /// The classes to unpack.
    pub closed spec fn classes(&self) -> StandardClassCache {
        self.standard_class_cache
    }

    /// The names of the classes that the embedder listed to unpack.
    pub closed spec fn listed_classes(&self) -> Seq<Seq<char>> {
        self.standard_class_pre_list.names()
    }

    /// The manifest.
    pub closed spec fn manifest(&self) -> Seq<(MethodType, MethodKey)> {
        self.java_methods_list_ref@
    }

    /// Whether the resolution pass has run.
    pub closed spec fn built(&self) -> bool {
        self.cache_builded
    }

    /// Well-formedness: the tables are well-formed, and empty until the
    /// resolution pass has run.
    pub open spec fn wf(&self) -> bool {
        &&& self.store().wf()
        &&& self.statics().wf()
        &&& self.instances().wf()
        &&& !self.built() ==> self.statics()@.len() == 0 && self.instances()@.len() == 0
            && self.classes()@.len() == 0
    }

    pub fn objects(&self) -> (r: &JObjectStore)
        ensures
            *r == self.store(),
    {
        &self.instanciate_jobjects
    }

    pub fn static_methods(&self) -> (r: &JavaStaticMethodsList)
        ensures
            *r == self.statics(),
    {
        &self.static_method_list
    }

    pub fn methods(&self) -> (r: &JavaMethodsList)
        ensures
            *r == self.instances(),
    {
        &self.method_list
    }

    pub fn standard_classes(&self) -> (r: &StandardClassCache)
        ensures
            *r == self.classes(),
    {
        &self.standard_class_cache
    }

    pub fn is_built(&self) -> (r: bool)
        ensures
            r == self.built(),
    {
        self.cache_builded
    }

    /// Keeps `j_object` in the handle table under `id`; see
    /// `JObjectStore::add_object_with_id`.
    pub fn add_object_with_id(&mut self, id: &str, j_object: GlobalRef)
        requires
            old(self).wf(),
        ensures
            final(self).wf(),
            final(self).store()@ == old(self).store()@.insert(id@, j_object),
            final(self).statics() == old(self).statics(),
            final(self).instances() == old(self).instances(),
            final(self).classes() == old(self).classes(),
            final(self).built() == old(self).built(),
            final(self).manifest() == old(self).manifest(),
            final(self).listed_classes() == old(self).listed_classes(),
    {
        self.instanciate_jobjects.add_object_with_id(id, j_object);
    }

    pub fn set_to_java_methods(self) -> (r: JavaMethods)
        ensures
            r == (JavaMethods::Cache { cache: self }),
    {
        JavaMethods::Cache { cache: self }
    }

    /// The resolution pass. It runs once: on a cache that is built already it
    /// does nothing. Otherwise it binds the static and the instance methods of
    /// the manifest, then looks up the classes to unpack. Where the VM does
    /// not resolve a method the cache is left as it was, not built, and the
    /// error names the manifest entry.
    pub fn build_cache<'local>(&mut self, env: &mut JNIEnv<'local>) -> (r: Result<
        (),
        ResolutionError,
    >)
        requires
            old(self).wf(),
        ensures
            final(self).wf(),
            final(self).store() == old(self).store(),
            final(self).manifest() == old(self).manifest(),
            final(self).listed_classes() == old(self).listed_classes(),
            old(self).built() ==> r is Ok && *final(self) == *old(self),
            r is Ok ==> final(self).built(),
            r is Ok && !old(self).built() ==> {
                &&& final(self).statics().keys() == merged(
                    Seq::empty(),
                    keys_of_kind(old(self).manifest(), MethodType::Static),
                )
                &&& final(self).instances().keys() == merged(
                    Seq::empty(),
                    keys_of_kind(old(self).manifest(), MethodType::NonStatic),
                )
                &&& exists|found: Seq<bool>|
                    found.len() == old(self).listed_classes().len() && final(self).classes().names()
                        == selected(old(self).listed_classes(), found)
            },
            r matches Err(e) ==> *final(self) == *old(self) && e.entry < old(self).manifest().len()
                && (e.stage == ResolutionStage::Class || e.stage == ResolutionStage::Method),
    {
        if self.cache_builded {
            return Ok(());
        }
        let mut statics = JavaStaticMethodsList::new();
        assert(statics.keys() =~= Seq::<MethodKey>::empty());
        match statics.build_list_with_ref(
            env,
            &self.java_methods_list_ref,
            &self.native_class_finder,
        ) {
            Ok(()) => {},
            Err(e) => {
                return Err(e);
            },
        }
        let mut instances = JavaMethodsList::new();
        assert(instances.keys() =~= Seq::<MethodKey>::empty());
        match instances.build_list_with_ref(
            env,
            &self.java_methods_list_ref,
            &self.native_class_finder,
        ) {
            Ok(()) => {},
            Err(e) => {
                return Err(e);
            },
        }
        let mut classes = StandardClassCache::new();
        assert(classes.names() =~= Seq::<Seq<char>>::empty());
        let found = classes.build_standard_class_list(env, &self.standard_class_pre_list);
        assert(classes.names() =~= selected(self.standard_class_pre_list.names(), found@));
        self.static_method_list = statics;
        self.method_list = instances;
        self.standard_class_cache = classes;
        self.cache_builded = true;
        Ok(())
    }

    /// Prepares a call of a static method: finds the method bound for that
    /// class, name and signature and marshals the arguments against the handle
    /// table. A method that is not bound is a `LookupError`; an argument that
    /// names an object that the handle table does not hold is an
    /// `ArgumentResolutionError`, and no call is made.
    pub fn call_static_method<'a>(
        &'a self,
        class: &str,
        method_name: &str,
        sig: &str,
        args: JavaArgs,
        return_type: ReturnType,
    ) -> (r: Result<StaticCall<'a>, CallError>)
        requires
            self.wf(),
        ensures
            r is Ok <==> refused(
                self.statics().keys(),
                MethodKey { class: class@, name: method_name@, signature: sig@ },
                args,
                self.store()@,
            ) is None,
            r matches Err(e) ==> refused(
                self.statics().keys(),
                MethodKey { class: class@, name: method_name@, signature: sig@ },
                args,
                self.store()@,
            ) == Some(e),
            r matches Ok(call) ==> {
                &&& self.statics()@.contains(*call.method)
                &&& call.method.key() == (MethodKey {
                    class: class@,
                    name: method_name@,
                    signature: sig@,
                })
                &&& call.args@ == passed(args, self.store()@)
                &&& call.return_type == return_type
            },
    {
        match self.static_method_list.find(class, method_name, sig) {
            Some(method) => match marshal(&args, &self.instanciate_jobjects) {
                Ok(args) => Ok(StaticCall { method, args, return_type }),
                Err(e) => Err(e),
            },
            None => Err(CallError::LookupError),
        }
    }

    /// Prepares a call of an instance method; see `call_static_method`.
    pub fn call_method<'a>(
        &'a self,
        class: &str,
        method_name: &str,
        sig: &str,
        args: JavaArgs,
        return_type: ReturnType,
    ) -> (r: Result<InstanceCall<'a>, CallError>)
        requires
            self.wf(),
        ensures
            r is Ok <==> refused(
                self.instances().keys(),
                MethodKey { class: class@, name: method_name@, signature: sig@ },
                args,
                self.store()@,
            ) is None,
            r matches Err(e) ==> refused(
                self.instances().keys(),
                MethodKey { class: class@, name: method_name@, signature: sig@ },
                args,
                self.store()@,
            ) == Some(e),
            r matches Ok(call) ==> {
                &&& self.instances()@.contains(*call.method)
                &&& call.method.key() == (MethodKey {
                    class: class@,
                    name: method_name@,
                    signature: sig@,
                })
                &&& call.args@ == passed(args, self.store()@)
                &&& call.return_type == return_type
            },
    {
        match self.method_list.find(class, method_name, sig) {
            Some(method) => match marshal(&args, &self.instanciate_jobjects) {
                Ok(args) => Ok(InstanceCall { method, args, return_type }),
                Err(e) => Err(e),
            },
            None => Err(CallError::LookupError),
        }
    }

    /// What finishing a call may give: `InvocationError` for a failure that
    /// the VM reported, else what decoding the value may give.
    pub open spec fn finishes_as<'local>(
        outcome: Result<JValueGen<JObject<'local>>, Error>,
        classes: Seq<Seq<char>>,
        object_id: Option<String>,
        r: Result<ReturnedValue, CallError>,
    ) -> bool {
        match outcome {
            Err(_) => r == Err::<ReturnedValue, CallError>(CallError::InvocationError),
            Ok(result) => ReturnedValue::decodes_to(result, classes, object_id, r),
        }
    }

    /// Finishes a call with what the VM made of it. A failure that the VM
    /// reported becomes `InvocationError` and leaves the cache as it was; a
    /// value is decoded, and an object that is not unpacked is kept in the
    /// handle table under `object_id`.
    pub fn finish_call<'local>(
        &mut self,
        env: &mut JNIEnv<'local>,
        outcome: Result<JValueGen<JObject<'local>>, Error>,
        object_id: Option<String>,
    ) -> (r: Result<ReturnedValue, CallError>)
        requires
            old(self).wf(),
        ensures
            final(self).wf(),
            final(self).statics() == old(self).statics(),
            final(self).instances() == old(self).instances(),
            final(self).classes() == old(self).classes(),
            final(self).built() == old(self).built(),
            final(self).manifest() == old(self).manifest(),
            Self::finishes_as(outcome, old(self).classes().names(), object_id, r),
            ReturnedValue::table_follows(r, old(self).store()@, final(self).store()@, object_id),
    {
        match outcome {
            Ok(result) => ReturnedValue::get_result_type(
                env,
                result,
                &self.standard_class_cache,
                object_id,
                &mut self.instanciate_jobjects,
            ),
            Err(_) => {
                vm_clear_exception(env);
                Err(CallError::InvocationError)
            },
        }
    }
}

/// The cache, or its absence.
pub enum JavaMethods {
    Cache { cache: JavaMethodCache },
    Unset,
}

impl Default for JavaMethods {
    fn default() -> (r: Self)
        ensures
            r is Unset,
    {
        JavaMethods::Unset
    }
}

impl JavaMethods {
    /// Well-formedness: a cache that is there is well-formed.
    pub open spec fn wf(&self) -> bool {
        self matches JavaMethods::Cache { cache } ==> cache.wf()
    }

    /// Runs the resolution pass of the cache, as `JavaMethodCache::build_cache`
    /// does; without a cache there is nothing to do.
    pub fn build_cache<'local>(&mut self, env: &mut JNIEnv<'local>) -> (r: Result<
        (),
        ResolutionError,
    >)
        requires
            old(self).wf(),
        ensures
            final(self).wf(),
            *old(self) is Unset ==> r is Ok && *final(self) is Unset,
            *old(self) matches JavaMethods::Cache { cache: before } ==> {
                &&& *final(self) matches JavaMethods::Cache { cache: after }
                &&& after.store() == before.store()
                &&& after.manifest() == before.manifest()
                &&& after.listed_classes() == before.listed_classes()
                &&& before.built() ==> r is Ok && after == before
                &&& r is Ok ==> after.built()
                &&& r is Ok && !before.built() ==> {
                    &&& after.statics().keys() == merged(
                        Seq::empty(),
                        keys_of_kind(before.manifest(), MethodType::Static),
                    )
                    &&& after.instances().keys() == merged(
                        Seq::empty(),
                        keys_of_kind(before.manifest(), MethodType::NonStatic),
                    )
                    &&& exists|found: Seq<bool>|
                        found.len() == before.listed_classes().len() && after.classes().names()
                            == selected(before.listed_classes(), found)
                }
                &&& r matches Err(e) ==> after == before && e.entry < before.manifest().len() && (
                e.stage == ResolutionStage::Class || e.stage == ResolutionStage::Method)
            },
    {
        match self {
            JavaMethods::Cache { cache } => cache.build_cache(env),
            JavaMethods::Unset => Ok(()),
        }
    }

    /// Prepares a call of an instance method.
    pub fn call_method<'a>(
        &'a self,
        class: &str,
        name: &str,
        sig: &str,
        args: JavaArgs,
        return_type: ReturnType,
    ) -> (r: Result<InstanceCall<'a>, CallError>)
        requires
            self.wf(),
        ensures
            match *self {
                JavaMethods::Unset => r matches Err(e) && e == CallError::NoCache,
                JavaMethods::Cache { cache } => {
                    &&& r is Ok <==> refused(
                        cache.instances().keys(),
                        MethodKey { class: class@, name: name@, signature: sig@ },
                        args,
                        cache.store()@,
                    ) is None
                    &&& r matches Err(e) ==> refused(
                        cache.instances().keys(),
                        MethodKey { class: class@, name: name@, signature: sig@ },
                        args,
                        cache.store()@,
                    ) == Some(e)
                    &&& r matches Ok(call) ==> {
                        &&& cache.instances()@.contains(*call.method)
                        &&& call.method.key() == (MethodKey {
                            class: class@,
                            name: name@,
                            signature: sig@,
                        })
                        &&& call.args@ == passed(args, cache.store()@)
                        &&& call.return_type == return_type
                    }
                },
            },
    {
        match self {
            JavaMethods::Cache { cache } => cache.call_method(class, name, sig, args, return_type),
            JavaMethods::Unset => Err(CallError::NoCache),
        }
    }

    /// Prepares a call of a static method.
    pub fn call_static_method<'a>(
        &'a self,
        class: &str,
        name: &str,
        sig: &str,
        args: JavaArgs,
        return_type: ReturnType,
    ) -> (r: Result<StaticCall<'a>, CallError>)
        requires
            self.wf(),
        ensures
            match *self {
                JavaMethods::Unset => r matches Err(e) && e == CallError::NoCache,
                JavaMethods::Cache { cache } => {
                    &&& r is Ok <==> refused(
                        cache.statics().keys(),
                        MethodKey { class: class@, name: name@, signature: sig@ },
                        args,
                        cache.store()@,
                    ) is None
                    &&& r matches Err(e) ==> refused(
                        cache.statics().keys(),
                        MethodKey { class: class@, name: name@, signature: sig@ },
                        args,
                        cache.store()@,
                    ) == Some(e)
                    &&& r matches Ok(call) ==> {
                        &&& cache.statics()@.contains(*call.method)
                        &&& call.method.key() == (MethodKey {
                            class: class@,
                            name: name@,
                            signature: sig@,
                        })
                        &&& call.args@ == passed(args, cache.store()@)
                        &&& call.return_type == return_type
                    }
                },
            },
    {
        match self {
            JavaMethods::Cache { cache } => cache.call_static_method(
                class,
                name,
                sig,
                args,
                return_type,
            ),
            JavaMethods::Unset => Err(CallError::NoCache),
        }
    }

    /// Finishes a call with what the VM made of it; see
    /// `JavaMethodCache::finish_call`. Without a cache the call fails.
    pub fn finish_call<'local>(
        &mut self,
        env: &mut JNIEnv<'local>,
        outcome: Result<JValueGen<JObject<'local>>, Error>,
        object_id: Option<String>,
    ) -> (r: Result<ReturnedValue, CallError>)
        requires
            old(self).wf(),
        ensures
            final(self).wf(),
            *old(self) is Unset ==> *final(self) is Unset && r == Err::<ReturnedValue, CallError>(
                CallError::NoCache,
            ),
            *old(self) matches JavaMethods::Cache { cache: before } ==> {
                &&& *final(self) matches JavaMethods::Cache { cache: after }
                &&& JavaMethodCache::finishes_as(outcome, before.classes().names(), object_id, r)
                &&& ReturnedValue::table_follows(r, before.store()@, after.store()@, object_id)
                &&& after.statics() == before.statics()
                &&& after.instances() == before.instances()
                &&& after.classes() == before.classes()
                &&& after.built() == before.built()
            },
    {
        match self {
            JavaMethods::Cache { cache } => cache.finish_call(env, outcome, object_id),
            JavaMethods::Unset => Err(CallError::NoCache),
        }
    }
}

/// Collects what a cache is made of.
pub struct JavaMethodCacheBuilder {
    pub activity: Option<GlobalRef>,
    pub standard_class_pre_list: StandardClassPreList,
    pub java_methods_list_ref: JavaMethodsListRefs,
    pub cache_builded: bool,
}

impl JavaMethodCacheBuilder {
    /// A builder for the cache of that hosting activity.
    pub fn new(activity: GlobalRef) -> (r: Self)
        ensures
            r.activity == Some(activity),
            r.standard_class_pre_list.names() == Seq::<Seq<char>>::empty(),
            r.java_methods_list_ref@ == Seq::<(MethodType, MethodKey)>::empty(),
            !r.cache_builded,
    {
        JavaMethodCacheBuilder {
            activity: Some(activity),
            standard_class_pre_list: StandardClassPreList::new(),
            java_methods_list_ref: JavaMethodsListRefs::new(),
            cache_builded: false,
        }
    }

    /// Lists a class to unpack.
    pub fn add_standard_class_name(&mut self, class_name: &str) -> (r: &mut Self)
        ensures
            r.standard_class_pre_list.names() == old(self).standard_class_pre_list.names().push(class_name@),
            r.java_methods_list_ref@ == old(self).java_methods_list_ref@,
            r.activity == old(self).activity,
            r.cache_builded == old(self).cache_builded,
            *final(self) == *final(r),
    {
        self.standard_class_pre_list.add_standard_class_name(class_name);
        self
    }

    /// Adds a method to the manifest.
    pub fn add_java_method(
        &mut self,
        method_type: MethodType,
        class: &str,
        method_name: &str,
        signature: &str,
    ) -> (r: &mut Self)
        ensures
            r.java_methods_list_ref@ == old(self).java_methods_list_ref@.push(
                (method_type, MethodKey { class: class@, name: method_name@, signature: signature@ }),
            ),
            r.standard_class_pre_list.names() == old(self).standard_class_pre_list.names(),
            r.activity == old(self).activity,
            r.cache_builded == old(self).cache_builded,
            *final(self) == *final(r),
    {
        self.java_methods_list_ref.add(method_type, class, method_name, signature);
        self
    }

    /// Makes the cache: asks the activity for its class loader, keeps the
    /// activity in the handle table under `native_activity`, and hands the
    /// lists over. The cache is not built yet. The builder is left empty; a
    /// builder without an activity makes nothing.
    pub fn build<'local>(&mut self, env: &mut JNIEnv<'local>) -> (r: Result<
        JavaMethodCache,
        ResolutionError,
    >)
        ensures
            final(self).activity is None,
            old(self).activity is None ==> (r matches Err(e) && e.stage
                == ResolutionStage::Activity),
            r matches Err(e) ==> e.stage == ResolutionStage::Activity || e.stage
                == ResolutionStage::ClassLoader,
            r matches Err(e) ==> (e.stage == ResolutionStage::Activity <==> old(self).activity
                is None),
            r matches Ok(cache) ==> {
                &&& old(self).activity matches Some(activity)
                &&& cache.wf()
                &&& !cache.built()
                &&& cache.manifest() == old(self).java_methods_list_ref@
                &&& cache.listed_classes() == old(self).standard_class_pre_list.names()
                &&& cache.store()@ == Map::<Seq<char>, GlobalRef>::empty().insert(
                    "native_activity"@,
                    activity,
                )
                &&& final(self).java_methods_list_ref@ == Seq::<(MethodType, MethodKey)>::empty()
                &&& final(self).standard_class_pre_list.names() == Seq::<Seq<char>>::empty()
            },
    {
        let activity = match self.activity.take() {
            Some(a) => a,
            None => {
                return Err(ResolutionError { entry: 0, stage: ResolutionStage::Activity });
            },
        };
        let native_class_finder = match native_class_loader_construction(env, &activity) {
            Ok(f) => f,
            Err(e) => {
                return Err(e);
            },
        };
        let mut j_object_store = JObjectStore::new();
        j_object_store.add_object_with_id("native_activity", activity);
        let mut standard_class_pre_list = StandardClassPreList::new();
        std::mem::swap(&mut self.standard_class_pre_list, &mut standard_class_pre_list);
        let mut java_methods_list_ref = JavaMethodsListRefs::new();
        std::mem::swap(&mut self.java_methods_list_ref, &mut java_methods_list_ref);
        Ok(
            JavaMethodCache {
                instanciate_jobjects: j_object_store,
                native_class_finder,
                standard_class_pre_list,
                standard_class_cache: StandardClassCache::new(),
                java_methods_list_ref,
                static_method_list: JavaStaticMethodsList::new(),
                method_list: JavaMethodsList::new(),
                cache_builded: false,
            },
        )
    }
}

} // verus!
