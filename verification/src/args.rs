//! Call arguments as the caller writes them, and their marshalling into what
//! the VM is handed.
use crate::store::JObjectStore;
use jni::objects::GlobalRef;
use vstd::prelude::*;

verus! {

/// Whether a method is bound to its class or to an instance.
#[derive(Clone, Copy, Debug, PartialEq, Eq, Structural)]
pub enum MethodType {
    Static,
    NonStatic,
}

/// The arguments of one call.
#[derive(Debug)]
pub enum JavaArgs {
    /// The object kept in the handle table under this name.
    JObject(String),
    /// A 32-bit integer.
    I32(i32),
    /// A 32-bit float; not carried.
    F32,
    /// No argument.
    Empty,
    /// Several arguments, in order.
    Array(Vec<JavaArgs>),
}

/// One argument as the VM takes it.
#[derive(Debug)]
pub enum JniArg<'a> {
    /// A reference borrowed from the handle table.
    Object(&'a GlobalRef),
    /// A 32-bit integer.
    Int(i32),
}

impl JavaArgs {
    /// What a single argument contributes: an object argument the reference
    /// kept under its name, if there is one; an integer itself; anything else
    /// nothing.
    pub open spec fn item<'a>(self, store: Map<Seq<char>, GlobalRef>) -> Option<JniArg<'a>> {
        match self {
            JavaArgs::JObject(id) => if store.dom().contains(id@) {
                Some(JniArg::Object(&store[id@]))
            } else {
                None
            },
            JavaArgs::I32(v) => Some(JniArg::Int(v)),
            _ => None,
        }
    }

    /// What the elements of a list contribute, in their order.
    pub open spec fn items<'a>(list: Seq<JavaArgs>, store: Map<Seq<char>, GlobalRef>) -> Seq<
        JniArg<'a>,
    >
        decreases list.len(),
    {
        if list.len() == 0 {
            Seq::empty()
        } else {
            let rest = Self::items(list.drop_last(), store);
            match list.last().item(store) {
                Some(arg) => rest.push(arg),
                None => rest,
            }
        }
    }

    /// Whether the handle table holds every object that the arguments name: a
    /// single object argument, or any object argument of a list.
    pub open spec fn resolves(self, store: Map<Seq<char>, GlobalRef>) -> bool {
        match self {
            JavaArgs::Array(list) => forall|i: int|
                0 <= i < list@.len() ==> (#[trigger] list@[i]).known(store),
            _ => self.known(store),
        }
    }

    /// Whether the handle table holds the object that a single argument
    /// names, if it names one.
    pub open spec fn known(self, store: Map<Seq<char>, GlobalRef>) -> bool {
        self matches JavaArgs::JObject(id) ==> store.dom().contains(id@)
    }

    /// The argument list of a call, or `None` where there is none. There is
    /// none where an object is named that the handle table does not hold: the
    /// list is never shortened around a missing object. Otherwise a single
    /// object or integer is a list of one; an array contributes its objects
    /// and integers in order and skips its other elements; and arguments of
    /// which nothing remains give no list.
    pub open spec fn marshalled<'a>(self, store: Map<Seq<char>, GlobalRef>) -> Option<
        Seq<JniArg<'a>>,
    > {
        if !self.resolves(store) {
            None
        } else {
            match self {
                JavaArgs::Array(list) => {
                    let args = Self::items(list@, store);
                    if args.len() > 0 {
                        Some(args)
                    } else {
                        None
                    }
                },
                _ => match self.item(store) {
                    Some(arg) => Some(seq![arg]),
                    None => None,
                },
            }
        }
    }

    fn to_item<'a>(&self, instanciated_j_objects: &'a JObjectStore) -> (r: Option<JniArg<'a>>)
        requires
            instanciated_j_objects.wf(),
        ensures
            r == self.item(instanciated_j_objects@),
    {
        match self {
            JavaArgs::JObject(o_id) => match instanciated_j_objects.find(o_id.as_str()) {
                Some(found_object) => Some(JniArg::Object(found_object)),
                None => None,
            },
            JavaArgs::I32(v) => Some(JniArg::Int(*v)),
            _ => None,
        }
    }

    fn names_known(&self, instanciated_j_objects: &JObjectStore) -> (r: bool)
        requires
            instanciated_j_objects.wf(),
        ensures
            r == self.known(instanciated_j_objects@),
    {
        match self {
            JavaArgs::JObject(o_id) => instanciated_j_objects.contains(o_id.as_str()),
            _ => true,
        }
    }

    /// Whether the handle table holds every object that the arguments name.
    pub fn names_resolve(&self, instanciated_j_objects: &JObjectStore) -> (r: bool)
        requires
            instanciated_j_objects.wf(),
        ensures
            r == self.resolves(instanciated_j_objects@),
    {
        match self {
            JavaArgs::Array(arr) => {
                let mut i: usize = 0;
                while i < arr.len()
                    invariant
                        i <= arr@.len(),
                        instanciated_j_objects.wf(),
                        *self == JavaArgs::Array(*arr),
                        forall|k: int|
                            0 <= k < i ==> (#[trigger] arr@[k]).known(instanciated_j_objects@),
                    decreases arr@.len() - i,
                {
                    if !arr[i].names_known(instanciated_j_objects) {
                        proof {
                            assert(!arr@[i as int].known(instanciated_j_objects@));
                            assert(self matches JavaArgs::Array(list) && list@ == arr@);
                            assert(!self.resolves(instanciated_j_objects@));
                        }
                        return false;
                    }
                    i = i + 1;
                }
                true
            },
            _ => self.names_known(instanciated_j_objects),
        }
    }

    /// Marshals the arguments against the handle table.
    pub fn to_jvalue<'a>(&self, instanciated_j_objects: &'a JObjectStore) -> (r: Option<
        Vec<JniArg<'a>>,
    >)
        requires
            instanciated_j_objects.wf(),
        ensures
            r is Some <==> self.marshalled(instanciated_j_objects@) is Some,
            r matches Some(v) ==> v@ == self.marshalled(instanciated_j_objects@).unwrap(),
    {
        if !self.names_resolve(instanciated_j_objects) {
            return None;
        }
        match self {
            JavaArgs::Array(arr) => {
                let mut args_arr: Vec<JniArg<'a>> = Vec::new();
                let mut i: usize = 0;
                while i < arr.len()
                    invariant
                        i <= arr@.len(),
                        instanciated_j_objects.wf(),
                        args_arr@ == Self::items(arr@.take(i as int), instanciated_j_objects@),
                    decreases arr@.len() - i,
                {
                    proof {
                        assert(arr@.take(i + 1).drop_last() =~= arr@.take(i as int));
                    }
                    match arr[i].to_item(instanciated_j_objects) {
                        Some(arg) => {
                            args_arr.push(arg);
                        },
                        None => {},
                    }
                    i = i + 1;
                }
                proof {
                    assert(arr@.take(i as int) =~= arr@);
                }
                if args_arr.len() > 0 {
                    Some(args_arr)
                } else {
                    None
                }
            },
            _ => match self.to_item(instanciated_j_objects) {
                Some(arg) => {
                    let mut args: Vec<JniArg<'a>> = Vec::new();
                    args.push(arg);
                    Some(args)
                },
                None => None,
            },
        }
    }
}

} // verus!
